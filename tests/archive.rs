use flate2::write::{GzEncoder, ZlibEncoder};
use flate2::Compression as Level;
use squashfs::metadata::MetadataCursor;
use squashfs::{
    get_inode, read_fragment_table, read_lookup_table, read_meta_block, read_metadata,
    read_xattrs_table, Algorithm, InodeBody, InodeTab, InodeType, SqsError, Superblock,
    MAGIC_NUMBER, VERSION_MAJOR, VERSION_MINOR,
};
use std::io::Write;

const ROOT_INODE_NUMBER: u32 = 3;

fn gzip(data: &[u8]) -> Vec<u8> {
    let mut e = GzEncoder::new(Vec::new(), Level::default());
    e.write_all(data).unwrap();
    e.finish().unwrap()
}

fn zlib(data: &[u8]) -> Vec<u8> {
    let mut e = ZlibEncoder::new(Vec::new(), Level::default());
    e.write_all(data).unwrap();
    e.finish().unwrap()
}

#[derive(Clone, Copy, PartialEq)]
enum Framing {
    Stored,
    Gzip,
    Zlib,
}

/// A metadata block: two header bytes and the payload in `framing`.
fn meta_block(payload: &[u8], framing: Framing) -> Vec<u8> {
    let (body, header) = match framing {
        Framing::Stored => (payload.to_vec(), payload.len() as u16 | 0x8000),
        Framing::Gzip => {
            let c = gzip(payload);
            let n = c.len() as u16;
            (c, n)
        }
        Framing::Zlib => {
            let c = zlib(payload);
            let n = c.len() as u16;
            (c, n)
        }
    };
    let mut out = header.to_le_bytes().to_vec();
    out.extend_from_slice(&body);
    out
}

fn inode_header(kind: u16, number: u32) -> Vec<u8> {
    let mut v = Vec::new();
    v.extend_from_slice(&kind.to_le_bytes());
    v.extend_from_slice(&0o755u16.to_le_bytes());
    v.extend_from_slice(&0u16.to_le_bytes());
    v.extend_from_slice(&1u16.to_le_bytes());
    v.extend_from_slice(&1_600_000_000u32.to_le_bytes());
    v.extend_from_slice(&number.to_le_bytes());
    v
}

/// The inode table payload: a file of 10000 bytes without fragment, a
/// symlink to "target", and the root directory. Returns the payload and the
/// offset of the root inode in it.
fn inode_table() -> (Vec<u8>, usize) {
    let mut t = inode_header(2, 1);
    for v in [0u32, 0xFFFF_FFFF, 0, 10000] {
        t.extend_from_slice(&v.to_le_bytes());
    }
    for v in [4096u32 | 0x0100_0000, 300, 0] {
        t.extend_from_slice(&v.to_le_bytes());
    }
    t.extend_from_slice(&inode_header(3, 2));
    t.extend_from_slice(&1u32.to_le_bytes());
    t.extend_from_slice(&6u32.to_le_bytes());
    t.extend_from_slice(b"target");
    let root = t.len();
    t.extend_from_slice(&inode_header(1, ROOT_INODE_NUMBER));
    t.extend_from_slice(&0u32.to_le_bytes());
    t.extend_from_slice(&2u32.to_le_bytes());
    t.extend_from_slice(&3u16.to_le_bytes());
    t.extend_from_slice(&0u16.to_le_bytes());
    t.extend_from_slice(&ROOT_INODE_NUMBER.to_le_bytes());
    (t, root)
}

fn fragment_payload() -> Vec<u8> {
    let mut p = Vec::new();
    p.extend_from_slice(&1000u64.to_le_bytes());
    p.extend_from_slice(&(0x0100_0000u32 | 77).to_le_bytes());
    p.extend_from_slice(&0u32.to_le_bytes());
    p.extend_from_slice(&2000u64.to_le_bytes());
    p.extend_from_slice(&55u32.to_le_bytes());
    p.extend_from_slice(&0u32.to_le_bytes());
    p
}

const ID_BYTES: [u8; 16] = [
    0x0, 0x0, 0x0, 0x0, 0xa, 0x0, 0x0, 0x0, 0x1, 0x0, 0x2, 0x2c, 0xe6, 0x2a, 0x85, 0x7f,
];

fn xattr_payload() -> Vec<u8> {
    let mut p = Vec::new();
    for (loc, count, size) in [(0u64, 1u32, 20u32), (0x10020u64, 2, 40)] {
        p.extend_from_slice(&loc.to_le_bytes());
        p.extend_from_slice(&count.to_le_bytes());
        p.extend_from_slice(&size.to_le_bytes());
    }
    p
}

struct Layout {
    inode_blocks: Vec<Vec<u8>>,
    root_block: u64,
    root_offset: u16,
}

/// Packs the inode table into blocks of at most `split` payload bytes.
fn inode_layout(framing: Framing, split: usize) -> Layout {
    let (table, root) = inode_table();
    let mut blocks = Vec::new();
    let mut block_starts = Vec::new();
    let mut at = 0u64;
    for chunk in table.chunks(split) {
        let b = meta_block(chunk, framing);
        block_starts.push(at);
        at += b.len() as u64;
        blocks.push(b);
    }
    Layout {
        inode_blocks: blocks,
        root_block: block_starts[root / split],
        root_offset: (root % split) as u16,
    }
}

/// Builds a whole archive whose tables are stored in `framing`.
fn build_archive(framing: Framing, split: usize) -> Vec<u8> {
    let layout = inode_layout(framing, split);
    let mut img = vec![0u8; 96];
    let inode_table_start = img.len() as u64;
    for b in &layout.inode_blocks {
        img.extend_from_slice(b);
    }
    let directory_table_start = img.len() as u64;
    let fragment_block = img.len() as u64;
    img.extend_from_slice(&meta_block(&fragment_payload(), framing));
    let fragment_table_start = img.len() as u64;
    img.extend_from_slice(&fragment_block.to_le_bytes());
    let id_block = img.len() as u64;
    img.extend_from_slice(&meta_block(&ID_BYTES, framing));
    let id_table_start = img.len() as u64;
    img.extend_from_slice(&id_block.to_le_bytes());
    let xattr_block = img.len() as u64;
    img.extend_from_slice(&meta_block(&xattr_payload(), framing));
    let xattr_id_table_start = img.len() as u64;
    img.extend_from_slice(&0x4242u64.to_le_bytes());
    img.extend_from_slice(&2u32.to_le_bytes());
    img.extend_from_slice(&0u32.to_le_bytes());
    img.extend_from_slice(&xattr_block.to_le_bytes());
    let bytes_used = img.len() as u64;

    let mut sb = Vec::new();
    sb.extend_from_slice(&MAGIC_NUMBER.to_le_bytes());
    sb.extend_from_slice(&3u32.to_le_bytes());
    sb.extend_from_slice(&1_600_000_000u32.to_le_bytes());
    sb.extend_from_slice(&4096u32.to_le_bytes());
    sb.extend_from_slice(&2u32.to_le_bytes());
    let compressor: u16 = if framing == Framing::Stored { 6 } else { 1 };
    sb.extend_from_slice(&compressor.to_le_bytes());
    sb.extend_from_slice(&12u16.to_le_bytes());
    sb.extend_from_slice(&0u16.to_le_bytes());
    sb.extend_from_slice(&4u16.to_le_bytes());
    sb.extend_from_slice(&VERSION_MAJOR.to_le_bytes());
    sb.extend_from_slice(&VERSION_MINOR.to_le_bytes());
    let root_ref = (layout.root_block << 16) | layout.root_offset as u64;
    sb.extend_from_slice(&root_ref.to_le_bytes());
    for v in [
        bytes_used,
        id_table_start,
        xattr_id_table_start,
        inode_table_start,
        directory_table_start,
        fragment_table_start,
        0xFFFF_FFFF_FFFF_FFFFu64,
    ] {
        sb.extend_from_slice(&v.to_le_bytes());
    }
    assert_eq!(sb.len(), 96);
    img[..96].copy_from_slice(&sb);
    img
}

fn prepare_tests() -> (Vec<u8>, Superblock) {
    let image = build_archive(Framing::Gzip, 8192);
    let mut sb = Superblock::new();
    sb.load(&image).unwrap();
    (image, sb)
}

#[test]
fn layout_read_superblock() {
    let (image, _) = prepare_tests();
    let mut sb = Superblock::new();
    sb.load(&image).unwrap();
    assert_eq!(sb.magic, MAGIC_NUMBER);
    assert_eq!(sb.version_major, VERSION_MAJOR);
    assert_eq!(sb.version_minor, VERSION_MINOR);
    assert_eq!(sb.compressor, Algorithm::Gzip);
    assert_eq!(sb.block_size, 1u32 << sb.block_log);
    assert_eq!(sb.inode_count, 3);
    assert_eq!(sb.id_count, 4);
}

#[test]
fn test_get_inode() {
    let (image, sb) = prepare_tests();
    let block = sb.root_inode_ref.block;
    let offset = sb.root_inode_ref.offset;
    let inode = get_inode(&image, sb, block, offset as u32, InodeType::BasicDirectory).unwrap();
    assert_eq!(inode.header.inode_type, InodeType::BasicDirectory);
    assert!(inode.header.inode_number >= 1 && inode.header.inode_number <= sb.inode_count);
    match inode.body {
        InodeBody::BasicDirectory(d) => {
            assert_eq!(d.parent_inode, inode.header.inode_number);
            assert_eq!(d.nlink, 2);
            assert_eq!(d.size, 3);
        }
        _ => panic!("not a basic directory"),
    }
    assert!(inode.block_sizes.is_empty());
    assert!(inode.extra.is_empty());
}

#[test]
fn get_inode_spanning_stored_blocks() {
    let image = build_archive(Framing::Stored, 20);
    let sb = Superblock::parse(&image).unwrap();
    assert_eq!(sb.compressor, Algorithm::Zstd);
    let inode = get_inode(
        &image,
        sb,
        sb.root_inode_ref.block,
        sb.root_inode_ref.offset as u32,
        InodeType::BasicDirectory,
    )
    .unwrap();
    assert_eq!(inode.header.inode_number, ROOT_INODE_NUMBER);
    let file = get_inode(&image, sb, 0, 0, InodeType::BasicFile).unwrap();
    assert_eq!(file.block_sizes, vec![4096 | 0x0100_0000, 300, 0]);
}

#[test]
fn get_inode_file_and_symlink_tails() {
    let (image, sb) = prepare_tests();
    let file = get_inode(&image, sb, 0, 0, InodeType::BasicFile).unwrap();
    match file.body {
        InodeBody::BasicFile(f) => {
            assert_eq!(f.size, 10000);
            assert_eq!(f.fragment_block_idx, 0xFFFF_FFFF);
        }
        _ => panic!("not a basic file"),
    }
    assert_eq!(file.block_sizes, vec![4096 | 0x0100_0000, 300, 0]);
    let link = get_inode(&image, sb, 0, 16 + 16 + 12, InodeType::BasicSymlink).unwrap();
    assert_eq!(link.extra, b"target".to_vec());
    assert_eq!(link.header.inode_number, 2);
}

#[test]
fn get_inode_type_mismatch() {
    let (image, sb) = prepare_tests();
    let r = get_inode(&image, sb, 0, 0, InodeType::BasicDirectory);
    assert_eq!(r.unwrap_err(), SqsError::InodeTypeMismatch);
}

#[test]
fn get_inode_offset_beyond_block() {
    let (image, sb) = prepare_tests();
    let r = get_inode(&image, sb, 0, 5000, InodeType::BasicDirectory);
    assert_eq!(r.unwrap_err(), SqsError::OffsetBeyondBlock);
}

#[test]
fn get_inode_bad_number() {
    let (image, mut sb) = prepare_tests();
    sb.inode_count = 2;
    let r = get_inode(
        &image,
        sb,
        sb.root_inode_ref.block,
        sb.root_inode_ref.offset as u32,
        InodeType::BasicDirectory,
    );
    assert_eq!(r.unwrap_err(), SqsError::BadInodeNumber);
}

#[test]
fn get_inode_past_table_end() {
    let (image, mut sb) = prepare_tests();
    sb.inode_table_start = image.len() as u64 - 1;
    let r = get_inode(&image, sb, 0, 0, InodeType::BasicFile);
    assert_eq!(r.unwrap_err(), SqsError::UnexpectedEnd);
}

#[test]
fn inode_tab_walks_every_inode() {
    let (image, sb) = prepare_tests();
    let mut tab = InodeTab::new();
    tab.load(&image, sb).unwrap();
    let numbers: Vec<u32> = tab.data.iter().map(|h| h.inode_number).collect();
    assert_eq!(numbers, vec![1, 2, 3]);
    assert_eq!(tab.data[2].inode_type, InodeType::BasicDirectory);
}

#[test]
fn test_read_metad_block() {
    let (image, sb) = prepare_tests();
    let data = read_meta_block(&image, sb.compressor, sb.inode_table_start).unwrap();
    assert_eq!(data, inode_table().0);
    assert!(data.len() <= 8192);
}

#[test]
fn read_meta_block_zlib_framing() {
    let image = build_archive(Framing::Zlib, 8192);
    let sb = Superblock::parse(&image).unwrap();
    let data = read_meta_block(&image, sb.compressor, sb.inode_table_start).unwrap();
    assert_eq!(data, inode_table().0);
}

#[test]
fn read_meta_block_unsupported_compressor() {
    let mut image = build_archive(Framing::Gzip, 8192);
    image[20] = 6;
    let sb = Superblock::parse(&image).unwrap();
    let r = read_meta_block(&image, sb.compressor, sb.inode_table_start);
    assert_eq!(r.unwrap_err(), SqsError::UnsupportedCompressor);
}

#[test]
fn read_metadata_returns_cursor_past_bytes() {
    let image = build_archive(Framing::Stored, 20);
    let sb = Superblock::parse(&image).unwrap();
    let cursor = MetadataCursor { block: 0, offset: 10 };
    let (bytes, next) =
        read_metadata(&image, Algorithm::Uncompressed, sb.inode_table_start, cursor, 25).unwrap();
    assert_eq!(bytes, inode_table().0[10..35].to_vec());
    assert_eq!(next, MetadataCursor { block: 22, offset: 15 });
}

#[test]
fn test_lookup_table() {
    let (image, sb) = prepare_tests();
    let ids = read_lookup_table(&image, sb).unwrap();
    assert_eq!(ids.len(), sb.id_count as usize);
    assert_eq!(ids, vec![0, 10, 0x2c020001, 0x7f852ae6]);
}

#[test]
fn lookup_table_count_mismatch() {
    let (image, mut sb) = prepare_tests();
    sb.id_count = 5;
    assert_eq!(read_lookup_table(&image, sb).unwrap_err(), SqsError::IdCountMismatch);
}

#[test]
fn lookup_table_empty() {
    let (image, mut sb) = prepare_tests();
    sb.id_count = 0;
    assert!(read_lookup_table(&image, sb).unwrap().is_empty());
}

#[test]
fn test_read_fragment_table() {
    let (image, sb) = prepare_tests();
    let tab = read_fragment_table(&image, sb).unwrap();
    assert_eq!(tab.entries.len(), sb.fragment_entry_count as usize);
    assert_eq!(tab.entries[0].start, 1000);
    assert_eq!(tab.entries[0].size, 0x0100_0000 | 77);
    assert!(!tab.entries[0].compressed);
    assert_eq!(tab.entries[1].start, 2000);
    assert_eq!(tab.entries[1].size, 55);
    assert!(tab.entries[1].compressed);
}

#[test]
fn fragment_table_count_mismatch() {
    let (image, mut sb) = prepare_tests();
    sb.fragment_entry_count = 3;
    assert_eq!(read_fragment_table(&image, sb).unwrap_err(), SqsError::FragmentCountMismatch);
}

#[test]
fn fragment_table_index_truncated() {
    let (image, mut sb) = prepare_tests();
    sb.fragment_table_start = image.len() as u64 - 4;
    assert_eq!(read_fragment_table(&image, sb).unwrap_err(), SqsError::Truncated);
}

#[test]
fn test_read_xattrs_table() {
    let (image, sb) = prepare_tests();
    let tab = read_xattrs_table(&image, sb).unwrap();
    assert_eq!(tab.location, 0x4242);
    assert_eq!(tab.list.len(), 2);
    assert_eq!(tab.list[1].location, 0x10020);
    assert_eq!(tab.list[1].count, 2);
    assert_eq!(tab.list[1].size, 40);
}

#[test]
fn xattrs_table_absent() {
    let (image, mut sb) = prepare_tests();
    sb.flags = squashfs::Flags::from_bits(squashfs::layout::NO_XATTRS);
    assert!(read_xattrs_table(&image, sb).unwrap().list.is_empty());
    let (image, mut sb) = prepare_tests();
    sb.xattr_id_table_start = 0xFFFF_FFFF_FFFF_FFFF;
    assert!(read_xattrs_table(&image, sb).unwrap().list.is_empty());
}

#[test]
fn uncompressed_flag_bypasses_codec() {
    let mut image = build_archive(Framing::Stored, 8192);
    // The inode block's header now claims a compressed payload.
    image[97] &= 0x7F;
    let sb = Superblock::parse(&image).unwrap();
    let r = get_inode(&image, sb, sb.root_inode_ref.block, sb.root_inode_ref.offset as u32, InodeType::BasicDirectory);
    assert_eq!(r.unwrap_err(), SqsError::UnsupportedCompressor);
    image[24] = 0x01;
    let sb = Superblock::parse(&image).unwrap();
    assert!(sb.flags.uncompressed_inodes());
    let inode = get_inode(
        &image,
        sb,
        sb.root_inode_ref.block,
        sb.root_inode_ref.offset as u32,
        InodeType::BasicDirectory,
    )
    .unwrap();
    assert_eq!(inode.header.inode_number, ROOT_INODE_NUMBER);
}

#[test]
fn get_inode_needs_valid_block_size() {
    let (image, mut sb) = prepare_tests();
    sb.block_log = 13;
    let r = get_inode(&image, sb, 0, 0, InodeType::BasicFile);
    assert_eq!(r.unwrap_err(), SqsError::BadBlockSize);
    let mut tab = InodeTab::new();
    assert_eq!(tab.load(&image, sb).unwrap_err(), SqsError::BadBlockSize);
    assert!(tab.data.is_empty());
}

fn u32s(vals: &[u32]) -> Vec<u8> {
    vals.iter().flat_map(|v| v.to_le_bytes()).collect()
}

/// An archive whose inode table is one stored block holding an extended
/// directory with two index entries, an extended char device and an
/// extended file that ends in a fragment.
fn extended_archive() -> (Vec<u8>, Superblock, usize, usize) {
    let mut t = inode_header(8, 1);
    t.extend_from_slice(&u32s(&[2, 50, 0, 1]));
    t.extend_from_slice(&2u16.to_le_bytes());
    t.extend_from_slice(&0u16.to_le_bytes());
    t.extend_from_slice(&u32s(&[0xFFFF_FFFF]));
    t.extend_from_slice(&u32s(&[0, 0, 2]));
    t.extend_from_slice(b"abc");
    t.extend_from_slice(&u32s(&[9, 64, 0]));
    t.extend_from_slice(b"z");
    let device_at = t.len();
    t.extend_from_slice(&inode_header(12, 2));
    t.extend_from_slice(&u32s(&[1, 0x0503, 7]));
    let file_at = t.len();
    t.extend_from_slice(&inode_header(9, 3));
    t.extend_from_slice(&96u64.to_le_bytes());
    t.extend_from_slice(&5000u64.to_le_bytes());
    t.extend_from_slice(&0u64.to_le_bytes());
    t.extend_from_slice(&u32s(&[1, 4, 0, 0xFFFF_FFFF]));
    t.extend_from_slice(&u32s(&[4096]));
    let mut image = vec![0u8; 96];
    image.extend_from_slice(&meta_block(&t, Framing::Stored));
    let mut sb = Superblock::new();
    sb.inode_count = 3;
    sb.block_size = 4096;
    sb.block_log = 12;
    sb.inode_table_start = 96;
    (image, sb, device_at, file_at)
}

#[test]
fn extended_inodes() {
    let (image, sb, device_at, file_at) = extended_archive();
    let dir = get_inode(&image, sb, 0, 0, InodeType::ExtendedDirectory).unwrap();
    match dir.body {
        InodeBody::ExtendedDirectory(d) => {
            assert_eq!(d.inodex_count, 2);
            assert_eq!(d.parent_inode, 1);
            assert_eq!(d.xattr_idx, 0xFFFF_FFFF);
        }
        _ => panic!("not an extended directory"),
    }
    assert_eq!(dir.extra.len(), 12 + 3 + 12 + 1);
    assert_eq!(&dir.extra[12..15], b"abc");
    let dev = get_inode(&image, sb, 0, device_at as u32, InodeType::ExtendedCharDevice).unwrap();
    match dev.body {
        InodeBody::ExtendedCharDevice(c) => {
            assert_eq!(c.device, 0x0503);
            assert_eq!(c.xattr_idx, 7);
        }
        _ => panic!("not an extended char device"),
    }
    let file = get_inode(&image, sb, 0, file_at as u32, InodeType::ExtendedFile).unwrap();
    match file.body {
        InodeBody::ExtendedFile(f) => {
            assert_eq!(f.size, 5000);
            assert_eq!(f.block_idx, 96);
            assert_eq!(f.fragment_block_idx, 4);
        }
        _ => panic!("not an extended file"),
    }
    assert_eq!(file.block_sizes, vec![4096]);
    let mut tab = InodeTab::new();
    tab.load(&image, sb).unwrap();
    assert_eq!(tab.data.len(), 3);
    assert_eq!(tab.data[1].inode_type, InodeType::ExtendedCharDevice);
}

#[test]
fn fragment_table_empty_reads_nothing() {
    let mut sb = Superblock::new();
    sb.fragment_entry_count = 0;
    sb.fragment_table_start = 1;
    let tab = read_fragment_table(&[], sb).unwrap();
    assert!(tab.entries.is_empty());
}

#[test]
fn get_inode_type_checked_before_number() {
    let (image, mut sb) = prepare_tests();
    sb.inode_count = 2;
    let r = get_inode(
        &image,
        sb,
        sb.root_inode_ref.block,
        sb.root_inode_ref.offset as u32,
        InodeType::BasicFile,
    );
    assert_eq!(r.unwrap_err(), SqsError::InodeTypeMismatch);
}
