//! The UID/GID lookup table.
use crate::bytes::{le_u32, read_u32_le};
use crate::errors::SqsError;
use crate::layout::Superblock;
use crate::metadata::{read_table_bytes, spec_index_fits, spec_table_bytes, METADATA_BLOCK_SIZE};
use vstd::prelude::*;
use vstd::slice::slice_subrange;

verus! {

/// Size in bytes of one id entry.
pub const ID_ENTRY_SIZE: usize = 4;

/// The ids packed as little-endian `u32` in `s`; a trailing partial entry is
/// not part of it.
pub open spec fn spec_ids(s: Seq<u8>) -> Seq<u32> {
    Seq::new((s.len() / 4) as nat, |i: int| le_u32(s, 4 * i) as u32)
}

/// Reads the whole little-endian `u32` entries at the front of `raw` and
/// advances `raw` past them.
pub fn parse_id_tab(raw: &mut &[u8]) -> (r: Result<Vec<u32>, SqsError>)
    ensures
        r is Ok,
        r->Ok_0@ == spec_ids(old(raw)@),
        final(raw)@ == old(raw)@.subrange(4 * (old(raw)@.len() / 4) as int, old(raw)@.len() as int),
{
    let data: &[u8] = *raw;
    let count = data.len() / ID_ENTRY_SIZE;
    assert(4 * count <= data@.len());
    let mut entries: Vec<u32> = Vec::with_capacity(count);
    let mut i: usize = 0;
    while i < count
        invariant
            count == data@.len() / 4,
            4 * count <= data@.len() <= usize::MAX,
            0 <= i <= count,
            entries@ =~= spec_ids(data@).subrange(0, i as int),
        decreases count - i,
    {
        entries.push(read_u32_le(data, 4 * i));
        i = i + 1;
    }
    *raw = slice_subrange(data, 4 * count, data.len());
    Ok(entries)
}

/// The number of metadata blocks that `count` entries of `entry_size` bytes
/// fill.
pub open spec fn spec_blocks_for(count: int, entry_size: int) -> int {
    (count * entry_size + METADATA_BLOCK_SIZE - 1) / METADATA_BLOCK_SIZE as int
}

/// The id table of the archive `img` whose superblock is `sb`.
pub open spec fn spec_lookup_table(img: Seq<u8>, sb: Superblock) -> Result<Seq<u32>, SqsError> {
    let blocks = spec_blocks_for(sb.id_count as int, 4);
    if sb.id_count == 0 {
        Ok(Seq::empty())
    } else if !spec_index_fits(img, sb.id_table_start as int, blocks) {
        Err(SqsError::Truncated)
    } else {
        match spec_table_bytes(img, sb.spec_id_compressor(), sb.id_table_start as int, blocks as nat) {
            Err(e) => Err(e),
            Ok(d) => if d.len() != 4 * sb.id_count {
                Err(SqsError::IdCountMismatch)
            } else {
                Ok(spec_ids(d))
            },
        }
    }
}

/// Reads the UID/GID lookup table: the block locations at `id_table_start`,
/// one per metadata block of the table, then the blocks, whose payloads
/// together hold exactly `id_count` little-endian `u32` ids.
pub fn read_lookup_table(r: &[u8], sb: Superblock) -> (res: Result<Vec<u32>, SqsError>)
    ensures
        match spec_lookup_table(r@, sb) {
            Ok(ids) => res is Ok && res->Ok_0@ == ids,
            Err(e) => res == Err::<Vec<u32>, SqsError>(e),
        },
        res is Ok ==> res->Ok_0@.len() == sb.id_count,
{
    if sb.id_count == 0 {
        return Ok(Vec::new());
    }
    let table_size = ID_ENTRY_SIZE as u64 * sb.id_count as u64;
    let blocks = (table_size - 1) / METADATA_BLOCK_SIZE as u64 + 1;
    assert(blocks == spec_blocks_for(sb.id_count as int, 4));
    let len = r.len() as u64;
    if sb.id_table_start > len || 8 * blocks > len - sb.id_table_start {
        return Err(SqsError::Truncated);
    }
    let data = match read_table_bytes(r, sb.id_compressor(), sb.id_table_start, blocks) {
        Ok(d) => d,
        Err(e) => return Err(e),
    };
    if data.len() as u64 != table_size {
        return Err(SqsError::IdCountMismatch);
    }
    let mut raw: &[u8] = data.as_slice();
    let ids = parse_id_tab(&mut raw);
    ids
}

} // verus!
