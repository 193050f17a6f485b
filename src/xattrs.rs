//! The xattr id table: the index of each inode's extended attributes.
use crate::bytes::{le_u32, le_u64, read_u32_le, read_u64_le};
use crate::errors::SqsError;
use crate::layout::{Superblock, NO_XATTRS};
use crate::metadata::{read_table_bytes, spec_index_fits, spec_table_bytes, METADATA_BLOCK_SIZE};
use vstd::prelude::*;

verus! {

/// Size in bytes of one xattr id entry.
pub const XATTR_IDENTRY_SIZE: usize = 16;

/// Size in bytes of the xattr id table header.
pub const XATTR_HEADER_SIZE: usize = 16;

/// The `xattr_idx` of an inode without extended attributes.
pub const NO_XATTR_INODE_FLAG: u32 = 0xffff_ffff;

/// The `xattr_id_table_start` of an archive without an xattr table.
pub const NO_XATTR_SUPERBLOCK_FLAG: u64 = 0xffff_ffff_ffff_ffff;

/// The header of the xattr id table.
#[derive(Clone, Copy, Debug, PartialEq, Eq, Structural)]
pub struct OnDiskXAttrIdTable {
    /// Location of the first metadata block of the key/value pairs.
    pub location: u64,
    /// Number of xattr id entries.
    pub count: u32,
}

/// Where the key/value pairs of one inode are.
#[derive(Clone, Copy, Debug, PartialEq, Eq, Structural)]
pub struct XAttrIndex {
    /// Reference to the first key/value pair.
    pub location: u64,
    /// Number of key/value pairs.
    pub count: u32,
    /// Total uncompressed size of the key/value pairs in bytes.
    pub size: u32,
}

/// The xattr id table of an archive.
#[derive(Clone, Debug)]
pub struct XAttrTable {
    /// Location of the first metadata block of the key/value pairs.
    pub location: u64,
    /// The id entries, in table order.
    pub list: Vec<XAttrIndex>,
    /// Raw key/value bytes; this reader returns the index only and leaves it
    /// empty.
    pub data: Vec<u8>,
}

/// A single xattr key.
#[derive(Clone, Copy, Debug, PartialEq, Eq, Structural)]
pub struct XAttrEntry {
    /// Encodes the prefix of the key.
    pub xtype: u16,
    /// Size of the key name.
    pub size: u16,
    pub key: u8,
}

/// The entry stored at `s[i..i + 16]`.
pub open spec fn spec_xattr_index(s: Seq<u8>, i: int) -> XAttrIndex {
    XAttrIndex {
        location: le_u64(s, i) as u64,
        count: le_u32(s, i + 8) as u32,
        size: le_u32(s, i + 12) as u32,
    }
}

/// The whole 16-byte entries of `s`, in order.
pub open spec fn spec_xattr_indices(s: Seq<u8>) -> Seq<XAttrIndex> {
    Seq::new((s.len() / 16) as nat, |i: int| spec_xattr_index(s, 16 * i))
}

/// Decodes the 16-byte xattr id entries of `data`.
pub fn parse_xattr_indices(data: &[u8]) -> (r: Vec<XAttrIndex>)
    ensures
        r@ == spec_xattr_indices(data@),
{
    let total = data.len() / XATTR_IDENTRY_SIZE;
    assert(16 * total <= data@.len());
    let mut list: Vec<XAttrIndex> = Vec::new();
    let mut i: usize = 0;
    while i < total
        invariant
            total == data@.len() / 16,
            16 * total <= data@.len() <= usize::MAX,
            0 <= i <= total,
            list@ =~= spec_xattr_indices(data@).subrange(0, i as int),
        decreases total - i,
    {
        let at = i * XATTR_IDENTRY_SIZE;
        list.push(
            XAttrIndex {
                location: read_u64_le(data, at),
                count: read_u32_le(data, at + 8),
                size: read_u32_le(data, at + 12),
            },
        );
        i = i + 1;
    }
    list
}

/// The xattr id table of `img` as the location of the key/value pairs and
/// the id entries.
pub open spec fn spec_xattrs_table(img: Seq<u8>, sb: Superblock) -> Result<
    (u64, Seq<XAttrIndex>),
    SqsError,
> {
    let start = sb.xattr_id_table_start as int;
    if sb.flags.spec_contains(NO_XATTRS) || sb.xattr_id_table_start == NO_XATTR_SUPERBLOCK_FLAG {
        Ok((0, Seq::empty()))
    } else if start + 16 > img.len() {
        Err(SqsError::Truncated)
    } else {
        let location = le_u64(img, start) as u64;
        let count = le_u32(img, start + 8);
        let blocks = (16 * count + METADATA_BLOCK_SIZE - 1) / METADATA_BLOCK_SIZE as int;
        if count == 0 {
            Ok((location, Seq::empty()))
        } else if !spec_index_fits(img, start + 16, blocks) {
            Err(SqsError::Truncated)
        } else {
            match spec_table_bytes(img, sb.spec_xattr_compressor(), start + 16, blocks as nat) {
                Err(e) => Err(e),
                Ok(d) => if d.len() != 16 * count {
                    Err(SqsError::IdCountMismatch)
                } else {
                    Ok((location, spec_xattr_indices(d)))
                },
            }
        }
    }
}

/// Reads the xattr id table: nothing when the archive has no xattrs, else
/// the 16-byte header at `xattr_id_table_start` and the id entries, laid
/// out as the id table is, with 16-byte entries.
pub fn read_xattrs_table(r: &[u8], sb: Superblock) -> (res: Result<XAttrTable, SqsError>)
    ensures
        match spec_xattrs_table(r@, sb) {
            Ok((location, list)) => res is Ok && res->Ok_0.location == location
                && res->Ok_0.list@ == list && res->Ok_0.data@.len() == 0,
            Err(e) => res is Err && res->Err_0 == e,
        },
{
    if sb.flags.no_xattrs() || sb.xattr_id_table_start == NO_XATTR_SUPERBLOCK_FLAG {
        return Ok(XAttrTable { location: 0, list: Vec::new(), data: Vec::new() });
    }
    let len = r.len() as u64;
    let start = sb.xattr_id_table_start;
    if start > len || len - start < XATTR_HEADER_SIZE as u64 {
        return Err(SqsError::Truncated);
    }
    let header = OnDiskXAttrIdTable {
        location: read_u64_le(r, start as usize),
        count: read_u32_le(r, start as usize + 8),
    };
    if header.count == 0 {
        return Ok(XAttrTable { location: header.location, list: Vec::new(), data: Vec::new() });
    }
    let table_size = XATTR_IDENTRY_SIZE as u64 * header.count as u64;
    let blocks = (table_size - 1) / METADATA_BLOCK_SIZE as u64 + 1;
    let index_start = start + XATTR_HEADER_SIZE as u64;
    if 8 * blocks > len - index_start {
        return Err(SqsError::Truncated);
    }
    let data = match read_table_bytes(r, sb.xattr_compressor(), index_start, blocks) {
        Ok(d) => d,
        Err(e) => return Err(e),
    };
    if data.len() as u64 != table_size {
        return Err(SqsError::IdCountMismatch);
    }
    let list = parse_xattr_indices(data.as_slice());
    Ok(XAttrTable { location: header.location, list, data: Vec::new() })
}

} // verus!
