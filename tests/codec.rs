use flate2::read::GzDecoder;
use squashfs::fragment::{is_uncompressed_fragment, parse_fragment, parse_fragment_block};
use squashfs::inode::{
    parse_inode_header, BASIC_BLOCK_BODY_SIZE, BASIC_CHAR_BODY_SIZE, BASIC_DIRECTORY_BODY_SIZE,
    BASIC_FIFO_BODY_SIZE, BASIC_FILE_BODY_SIZE, BASIC_SOCKET_BODY_SIZE, BASIC_SYMLINK_BODY_SIZE,
    EXTENDED_BLOCK_BODY_SIZE, EXTENDED_CHAR_BODY_SIZE, EXTENDED_DIRECTORY_BODY_SIZE,
    EXTENDED_FIFO_BODY_SIZE, EXTENDED_FILE_BODY_SIZE, EXTENDED_SOCKET_BODY_SIZE,
    EXTENDED_SYMLINK_BODY_SIZE,
};
use squashfs::inode::{block_list_count, parse_basic_file, parse_basic_file_body};
use squashfs::metadata::encode_metadata_header;
use squashfs::{
    compress, decompress, get_metadata_size, parse_id_tab, read_u16_le, Algorithm, InodeType,
    SqsError, Superblock, MAGIC_NUMBER,
};
use flate2::write::ZlibEncoder;
use std::io::{Read, Write};

/// (header, size, compressed)
struct TestMetadata(Vec<u8>, u16, bool);

#[test]
fn test_get_metadata_size() {
    let metas: Vec<TestMetadata> = vec![
        TestMetadata([0x25, 0xff].to_vec(), 0x7f25, false),
        TestMetadata([0x25, 0x7f].to_vec(), 0x7f25, true),
    ];
    for TestMetadata(header, should_size, should_compressed) in metas {
        let (size, compressed) = get_metadata_size(read_u16_le(&header, 0));
        assert_eq!(size, should_size);
        assert_eq!(compressed, should_compressed);
    }
}

#[test]
fn metadata_header_round_trip() {
    for size in [0u16, 1, 0x25, 0x2000, 0x7F25, 0x7FFF] {
        for compressed in [true, false] {
            let header = encode_metadata_header(size, compressed);
            assert_eq!(get_metadata_size(header), (size, compressed));
        }
    }
    assert_eq!(encode_metadata_header(0x7F25, false), 0xFF25);
    assert_eq!(encode_metadata_header(0x7F25, true), 0x7F25);
}

#[test]
fn test_parse_id_tab() {
    let raw = vec![
        0x0, 0x0, 0x0, 0x0, 0xa, 0x0, 0x0, 0x0, 0x1, 0x0, 0x2, 0x2c, 0xe6, 0x2a, 0x85, 0x7f,
    ];
    let expected = vec![0, 10, 0x2c020001, 0x7f852ae6];
    let uidsgids = parse_id_tab(&mut &*raw).unwrap();
    assert_eq!(uidsgids.len(), expected.len());
    assert_eq!(&uidsgids, &expected);
}

#[test]
fn parse_id_tab_leaves_partial_entry() {
    let raw = vec![1u8, 0, 0, 0, 9, 9];
    let mut rest: &[u8] = &raw;
    let ids = parse_id_tab(&mut rest).unwrap();
    assert_eq!(ids, vec![1]);
    assert_eq!(rest, &[9u8, 9][..]);
}

#[test]
fn test_inode_type_struct_size() {
    assert_eq!(BASIC_DIRECTORY_BODY_SIZE, 16);
    assert_eq!(BASIC_FILE_BODY_SIZE, 16);
    assert_eq!(BASIC_SYMLINK_BODY_SIZE, 8);
    assert_eq!(BASIC_BLOCK_BODY_SIZE, 8);
    assert_eq!(BASIC_CHAR_BODY_SIZE, 8);
    assert_eq!(BASIC_FIFO_BODY_SIZE, 4);
    assert_eq!(BASIC_SOCKET_BODY_SIZE, 4);

    assert_eq!(EXTENDED_DIRECTORY_BODY_SIZE, 24);
    assert_eq!(EXTENDED_FILE_BODY_SIZE, 40);
    assert_eq!(EXTENDED_SYMLINK_BODY_SIZE, 12);
    assert_eq!(EXTENDED_BLOCK_BODY_SIZE, 12);
    assert_eq!(EXTENDED_CHAR_BODY_SIZE, 12);
    assert_eq!(EXTENDED_FIFO_BODY_SIZE, 8);
    assert_eq!(EXTENDED_SOCKET_BODY_SIZE, 8);
}

#[test]
fn inode_type_body_sizes() {
    assert_eq!(InodeType::BasicDirectory.body_size(), 16);
    assert_eq!(InodeType::ExtendedFile.body_size(), 40);
    assert_eq!(InodeType::BasicFifo.body_size(), 4);
    assert_eq!(InodeType::from_u16(14), Some(InodeType::ExtendedSocket));
    assert_eq!(InodeType::from_u16(0), None);
    assert_eq!(InodeType::from_u16(15), None);
}

fn header_bytes(kind: u16, number: u32) -> Vec<u8> {
    let mut v = Vec::new();
    v.extend_from_slice(&kind.to_le_bytes());
    v.extend_from_slice(&0o644u16.to_le_bytes());
    v.extend_from_slice(&3u16.to_le_bytes());
    v.extend_from_slice(&4u16.to_le_bytes());
    v.extend_from_slice(&77u32.to_le_bytes());
    v.extend_from_slice(&number.to_le_bytes());
    v
}

#[test]
fn inode_header_fields() {
    let h = parse_inode_header(&header_bytes(9, 5)).unwrap();
    assert_eq!(h.inode_type, InodeType::ExtendedFile);
    assert_eq!(h.permissions, 0o644);
    assert_eq!(h.uid_idx, 3);
    assert_eq!(h.gid_idx, 4);
    assert_eq!(h.modified_time, 77);
    assert_eq!(h.inode_number, 5);
}

#[test]
fn inode_header_unknown_type() {
    assert_eq!(parse_inode_header(&header_bytes(15, 1)).unwrap_err(), SqsError::UnknownInodeType);
    assert_eq!(parse_inode_header(&header_bytes(0, 1)).unwrap_err(), SqsError::UnknownInodeType);
    assert_eq!(parse_inode_header(&[1u8, 0, 0]).unwrap_err(), SqsError::Truncated);
}

#[test]
fn block_list_counts() {
    assert_eq!(block_list_count(10000, 4096, 0xFFFF_FFFF), 3);
    assert_eq!(block_list_count(10000, 4096, 7), 2);
    assert_eq!(block_list_count(8192, 4096, 0xFFFF_FFFF), 2);
    assert_eq!(block_list_count(0, 4096, 0xFFFF_FFFF), 0);
}

fn superblock_bytes() -> Vec<u8> {
    let mut sb = Vec::new();
    sb.extend_from_slice(&MAGIC_NUMBER.to_le_bytes());
    for v in [1u32, 2, 131072, 0] {
        sb.extend_from_slice(&v.to_le_bytes());
    }
    for v in [1u16, 17, 0x0200, 1, 4, 0] {
        sb.extend_from_slice(&v.to_le_bytes());
    }
    sb.extend_from_slice(&((5u64 << 16) | 32).to_le_bytes());
    for v in [96u64, 200, 300, 96, 150, 250, 0xFFFF_FFFF_FFFF_FFFF] {
        sb.extend_from_slice(&v.to_le_bytes());
    }
    sb
}

#[test]
fn superblock_read_superblock() {
    let sb = Superblock::parse(&superblock_bytes()).unwrap();
    assert_eq!(sb.block_size, 131072);
    assert_eq!(sb.block_log, 17);
    assert_eq!(sb.compressor, Algorithm::Gzip);
    assert!(sb.flags.no_xattrs());
    assert!(!sb.flags.uncompressed_inodes());
    assert_eq!(sb.root_inode_ref.block, 5);
    assert_eq!(sb.root_inode_ref.offset, 32);
    assert_eq!(sb.xattr_id_table_start, 300);
    assert_eq!(sb.export_table_start, 0xFFFF_FFFF_FFFF_FFFF);
}

#[test]
fn superblock_bad_magic() {
    let mut b = superblock_bytes();
    b[0] = 0x67;
    let mut sb = Superblock::new();
    assert_eq!(sb.load(&b).unwrap_err(), SqsError::BadMagic);
    assert_eq!(sb, Superblock::new());
}

#[test]
fn superblock_bad_version() {
    let mut b = superblock_bytes();
    b[28] = 3;
    assert_eq!(Superblock::parse(&b).unwrap_err(), SqsError::BadVersion);
    let mut b = superblock_bytes();
    b[30] = 1;
    assert_eq!(Superblock::parse(&b).unwrap_err(), SqsError::BadVersion);
}

#[test]
fn superblock_bad_block_size() {
    for bs in [0u32, 2048, 4095, 12288, 2 * 1048576] {
        let mut b = superblock_bytes();
        b[12..16].copy_from_slice(&bs.to_le_bytes());
        assert_eq!(Superblock::parse(&b).unwrap_err(), SqsError::BadBlockSize);
    }
    for (bs, log) in [(4096u32, 12u16), (1048576, 20)] {
        let mut b = superblock_bytes();
        b[12..16].copy_from_slice(&bs.to_le_bytes());
        b[22..24].copy_from_slice(&log.to_le_bytes());
        assert_eq!(Superblock::parse(&b).unwrap().block_size, bs);
    }
}

#[test]
fn superblock_block_log_mismatch() {
    let mut b = superblock_bytes();
    b[22] = 16;
    assert_eq!(Superblock::parse(&b).unwrap_err(), SqsError::BlockLogMismatch);
}

#[test]
fn superblock_truncated() {
    let b = superblock_bytes();
    assert_eq!(Superblock::parse(&b[..95]).unwrap_err(), SqsError::Truncated);
}

#[test]
fn superblock_unknown_compressor_accepted() {
    let mut b = superblock_bytes();
    b[20] = 9;
    assert_eq!(Superblock::parse(&b).unwrap().compressor, Algorithm::Unknown(9));
}

#[test]
fn fragment_block_of_two_entries() {
    let mut payload = Vec::new();
    payload.extend_from_slice(&0x1122_3344_5566_7788u64.to_le_bytes());
    payload.extend_from_slice(&(0x0100_0000u32 | 512).to_le_bytes());
    payload.extend_from_slice(&0u32.to_le_bytes());
    payload.extend_from_slice(&4096u64.to_le_bytes());
    payload.extend_from_slice(&1234u32.to_le_bytes());
    payload.extend_from_slice(&0u32.to_le_bytes());
    assert_eq!(payload.len(), 32);
    let entries = parse_fragment_block(&payload);
    assert_eq!(entries.len(), 2);
    let first = parse_fragment(&mut &payload[0..16]).unwrap();
    let second = parse_fragment(&mut &payload[16..32]).unwrap();
    assert_eq!(entries[0], first);
    assert_eq!(entries[1], second);
    assert_eq!(first.start, 0x1122_3344_5566_7788);
    assert!(!first.compressed);
    assert_eq!(second.size, 1234);
    assert!(second.compressed);
}

#[test]
fn fragment_record_must_be_sixteen_bytes() {
    let bytes = [0u8; 17];
    let mut slice: &[u8] = &bytes;
    assert_eq!(parse_fragment(&mut slice).unwrap_err(), SqsError::Truncated);
    assert_eq!(slice.len(), 17);
    assert!(is_uncompressed_fragment(0x0100_0000));
    assert!(!is_uncompressed_fragment(0x00FF_FFFF));
}

#[test]
fn decompress_gzip_round_trip() {
    let raw: Vec<u8> = (0..3000u32).map(|i| (i % 7) as u8).collect();
    let (packed, did) = compress(&raw, Algorithm::Gzip).unwrap();
    assert!(did);
    assert_ne!(packed, raw);
    let mut check = Vec::new();
    GzDecoder::new(&packed[..]).read_to_end(&mut check).unwrap();
    assert_eq!(check, raw);
    let mut out = vec![0u8; 8192];
    let n = decompress(&packed, &mut out, Algorithm::Gzip).unwrap();
    assert_eq!(n, raw.len());
    assert_eq!(&out[..n], &raw[..]);
}

#[test]
fn decompress_zlib_framing() {
    let raw = b"hello squashfs hello squashfs".to_vec();
    let mut e = ZlibEncoder::new(Vec::new(), flate2::Compression::default());
    e.write_all(&raw).unwrap();
    let packed = e.finish().unwrap();
    assert_eq!(packed[0], 0x78);
    let mut out = vec![0u8; 64];
    let n = decompress(&packed, &mut out, Algorithm::Gzip).unwrap();
    assert_eq!(&out[..n], &raw[..]);
}

#[test]
fn decompress_errors() {
    let mut out = vec![0u8; 8];
    assert_eq!(decompress(&[1, 2, 3], &mut out, Algorithm::Xz).unwrap_err(), SqsError::UnsupportedCompressor);
    assert_eq!(decompress(&[1, 2, 3], &mut out, Algorithm::Gzip).unwrap_err(), SqsError::DecompressFailure);
    assert_eq!(
        decompress(&[0u8; 9], &mut out, Algorithm::Uncompressed).unwrap_err(),
        SqsError::DecompressFailure
    );
    assert_eq!(out, vec![0u8; 8]);
    let n = decompress(&[5, 6], &mut out, Algorithm::Uncompressed).unwrap();
    assert_eq!(n, 2);
    assert_eq!(out, vec![5, 6, 0, 0, 0, 0, 0, 0]);
}

#[test]
fn compress_passes_through() {
    assert_eq!(compress(&[], Algorithm::Gzip).unwrap(), (vec![], false));
    assert_eq!(compress(&[1, 2], Algorithm::Uncompressed).unwrap(), (vec![1, 2], false));
    assert_eq!(compress(&[1, 2], Algorithm::Zstd).unwrap(), (vec![1, 2], false));
}

#[test]
fn algorithm_ids() {
    for id in 0u16..10 {
        assert_eq!(Algorithm::from_id(id).id(), id);
    }
    assert_eq!(Algorithm::from_id(1), Algorithm::Gzip);
    assert_eq!(Algorithm::default(), Algorithm::Uncompressed);
}

fn basic_file_bytes(size: u32, fragment: u32, list: &[u32]) -> Vec<u8> {
    let mut v = Vec::new();
    for x in [96u32, fragment, 0, size] {
        v.extend_from_slice(&x.to_le_bytes());
    }
    for x in list {
        v.extend_from_slice(&x.to_le_bytes());
    }
    v
}

#[test]
fn basic_file_with_block_list() {
    let data = basic_file_bytes(10000, 0xFFFF_FFFF, &[4096, 300, 7, 99]);
    let (f, list) = parse_basic_file(&data, 4096).unwrap();
    assert_eq!(f.size, 10000);
    assert_eq!(f.block_idx, 96);
    assert_eq!(list, vec![4096, 300, 7]);
    let (f2, list2) = parse_basic_file(&data, 8192).unwrap();
    assert_eq!(f2, f);
    assert_eq!(list2, vec![4096, 300]);
    assert_eq!(parse_basic_file_body(&data).unwrap(), f);
}

#[test]
fn basic_file_with_fragment_tail() {
    let data = basic_file_bytes(10000, 3, &[4096, 300]);
    let (_, list) = parse_basic_file(&data, 4096).unwrap();
    assert_eq!(list, vec![4096, 300]);
}

#[test]
fn basic_file_short_block_list() {
    let data = basic_file_bytes(10000, 0xFFFF_FFFF, &[4096, 300]);
    assert_eq!(parse_basic_file(&data, 4096).unwrap_err(), SqsError::Truncated);
    assert_eq!(parse_basic_file(&data[..15], 4096).unwrap_err(), SqsError::Truncated);
    assert_eq!(parse_basic_file(&data, 0).unwrap_err(), SqsError::BadBlockSize);
}
