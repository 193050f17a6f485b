//! The fragment table: where the packed tails of files are stored.
use crate::bytes::{le_u32, le_u64, read_u32_le, read_u64_le};
use crate::compress::Algorithm;
use crate::errors::SqsError;
use crate::layout::Superblock;
use crate::metadata::{
    read_meta_block, spec_index_fits, spec_meta_block, spec_table_block_location,
};
use vstd::prelude::*;
use vstd::slice::slice_subrange;

verus! {

/// The fragment entries of an archive, in table order.
#[derive(Clone, Debug)]
pub struct FragmentsTab {
    pub entries: Vec<FragmentEntry>,
}

/// Where a fragment block is stored and how.
#[derive(Clone, Copy, Debug, PartialEq, Eq, Structural)]
pub struct FragmentEntry {
    /// Absolute offset of the fragment block.
    pub start: u64,
    /// On-disk size of the block, with `UNCOMPRESSED_FRAGMENT_FLAG` set when
    /// it is stored uncompressed.
    pub size: u32,
    /// Whether the block is compressed.
    pub compressed: bool,
}

/// Size in bytes of one on-disk fragment entry.
pub const FRAGMENT_SIZE: usize = 16;

/// The size bit that marks a fragment block as stored uncompressed.
pub const UNCOMPRESSED_FRAGMENT_FLAG: u32 = 0x0100_0000;

/// The number of fragment entries that one metadata block holds.
pub const FRAGMENTS_PER_BLOCK: u32 = 512;

pub open spec fn spec_is_uncompressed_fragment(s: u32) -> bool {
    s & UNCOMPRESSED_FRAGMENT_FLAG == UNCOMPRESSED_FRAGMENT_FLAG
}

/// Whether a fragment size carries the uncompressed flag.
pub fn is_uncompressed_fragment(s: u32) -> (r: bool)
    ensures
        r == spec_is_uncompressed_fragment(s),
{
    s & UNCOMPRESSED_FRAGMENT_FLAG == UNCOMPRESSED_FRAGMENT_FLAG
}

/// The entry stored at `s[i..i + 16]`: `{start: u64, size: u32, _pad: u32}`.
pub open spec fn spec_fragment_entry(s: Seq<u8>, i: int) -> FragmentEntry {
    FragmentEntry {
        start: le_u64(s, i) as u64,
        size: le_u32(s, i + 8) as u32,
        compressed: !spec_is_uncompressed_fragment(le_u32(s, i + 8) as u32),
    }
}

/// Decodes one 16-byte fragment entry and advances `metadata` past it.
pub fn parse_fragment(metadata: &mut &[u8]) -> (r: Result<FragmentEntry, SqsError>)
    ensures
        old(metadata)@.len() == FRAGMENT_SIZE ==> r == Ok::<FragmentEntry, SqsError>(
            spec_fragment_entry(old(metadata)@, 0),
        ) && final(metadata)@ == Seq::<u8>::empty(),
        old(metadata)@.len() != FRAGMENT_SIZE ==> r == Err::<FragmentEntry, SqsError>(
            SqsError::Truncated,
        ) && final(metadata)@ == old(metadata)@,
{
    let data: &[u8] = *metadata;
    if data.len() != FRAGMENT_SIZE {
        return Err(SqsError::Truncated);
    }
    let start = read_u64_le(data, 0);
    let size = read_u32_le(data, 8);
    *metadata = slice_subrange(data, FRAGMENT_SIZE, data.len());
    assert(metadata@ =~= Seq::<u8>::empty());
    Ok(FragmentEntry { start, size, compressed: !is_uncompressed_fragment(size) })
}

/// The whole entries of a fragment block payload, in order; trailing bytes
/// that do not fill an entry are not part of it.
pub open spec fn spec_fragments_of(payload: Seq<u8>) -> Seq<FragmentEntry> {
    Seq::new((payload.len() / 16) as nat, |i: int| spec_fragment_entry(payload, 16 * i))
}

/// Splits the payload of a fragment metadata block into 16-byte records and
/// decodes each.
pub fn parse_fragment_block(payload: &[u8]) -> (r: Vec<FragmentEntry>)
    ensures
        r@ == spec_fragments_of(payload@),
{
    let total = payload.len() / FRAGMENT_SIZE;
    assert(16 * total <= payload@.len());
    let mut entries: Vec<FragmentEntry> = Vec::new();
    let mut idx: usize = 0;
    while idx < total
        invariant
            total == payload@.len() / 16,
            16 * total <= payload@.len() <= usize::MAX,
            0 <= idx <= total,
            entries@ =~= spec_fragments_of(payload@).subrange(0, idx as int),
        decreases total - idx,
    {
        let mut record: &[u8] = slice_subrange(payload, idx * FRAGMENT_SIZE, (idx + 1) * FRAGMENT_SIZE);
        let fragment = parse_fragment(&mut record);
        match fragment {
            Ok(f) => {
                assert(f == spec_fragment_entry(payload@, 16 * idx)) by {
                    let s = payload@.subrange(16 * idx, 16 * idx + 16);
                    assert forall|k: int| 0 <= k < 12 implies s[k] == payload@[16 * idx + k] by {}
                }
                entries.push(f);
            },
            Err(_) => {
                assert(false);
            },
        }
        idx = idx + 1;
    }
    entries
}

/// The entries of the first `k` fragment blocks, each block's payload split
/// into records and the records concatenated in order.
pub open spec fn spec_fragment_entries(
    img: Seq<u8>,
    algorithm: Algorithm,
    index_start: int,
    k: nat,
) -> Result<Seq<FragmentEntry>, SqsError>
    decreases k,
{
    if k == 0 {
        Ok(Seq::empty())
    } else {
        match spec_fragment_entries(img, algorithm, index_start, (k - 1) as nat) {
            Err(e) => Err(e),
            Ok(acc) => match spec_meta_block(
                img,
                algorithm,
                spec_table_block_location(img, index_start, k - 1),
            ) {
                Err(e) => Err(e),
                Ok(d) => Ok(acc + spec_fragments_of(d)),
            },
        }
    }
}

/// Once the first `k` fragment blocks fail, so do the first `m >= k`.
proof fn lemma_fragment_entries_err(
    img: Seq<u8>,
    algorithm: Algorithm,
    index_start: int,
    k: nat,
    m: nat,
)
    requires
        k <= m,
        spec_fragment_entries(img, algorithm, index_start, k) is Err,
    ensures
        spec_fragment_entries(img, algorithm, index_start, m) == spec_fragment_entries(
            img,
            algorithm,
            index_start,
            k,
        ),
    decreases m - k,
{
    if k < m {
        lemma_fragment_entries_err(img, algorithm, index_start, k, (m - 1) as nat);
    }
}

/// The number of metadata blocks of a fragment table of `count` entries.
pub open spec fn spec_fragment_blocks(count: u32) -> int {
    (count as int + 511) / 512
}

/// The fragment table of the archive `img` whose superblock is `sb`.
pub open spec fn spec_fragment_table(img: Seq<u8>, sb: Superblock) -> Result<
    Seq<FragmentEntry>,
    SqsError,
> {
    let blocks = spec_fragment_blocks(sb.fragment_entry_count);
    if blocks == 0 {
        Ok(Seq::empty())
    } else if !spec_index_fits(img, sb.fragment_table_start as int, blocks) {
        Err(SqsError::Truncated)
    } else {
        match spec_fragment_entries(
            img,
            sb.spec_fragment_compressor(),
            sb.fragment_table_start as int,
            blocks as nat,
        ) {
            Err(e) => Err(e),
            Ok(entries) => if entries.len() != sb.fragment_entry_count {
                Err(SqsError::FragmentCountMismatch)
            } else {
                Ok(entries)
            },
        }
    }
}

/// Reads the fragment table: `ceil(fragment_entry_count / 512)` block
/// locations at `fragment_table_start`, then each block, split into 16-byte
/// entries. The table holds exactly `fragment_entry_count` entries; with no
/// entries nothing is read.
pub fn read_fragment_table(r: &[u8], sb: Superblock) -> (res: Result<FragmentsTab, SqsError>)
    ensures
        match spec_fragment_table(r@, sb) {
            Ok(entries) => res is Ok && res->Ok_0.entries@ == entries,
            Err(e) => res is Err && res->Err_0 == e,
        },
        res is Ok ==> res->Ok_0.entries@.len() == sb.fragment_entry_count,
{
    let mut blocks: u64 = sb.fragment_entry_count as u64 / FRAGMENTS_PER_BLOCK as u64;
    if sb.fragment_entry_count as u64 % FRAGMENTS_PER_BLOCK as u64 > 0 {
        blocks = blocks + 1;
    }
    assert(blocks == spec_fragment_blocks(sb.fragment_entry_count));
    if blocks == 0 {
        return Ok(FragmentsTab { entries: Vec::new() });
    }
    let len = r.len() as u64;
    if sb.fragment_table_start > len || 8 * blocks > len - sb.fragment_table_start {
        return Err(SqsError::Truncated);
    }
    let algorithm = sb.fragment_compressor();
    let ghost index_start = sb.fragment_table_start as int;
    let mut tab = FragmentsTab { entries: Vec::new() };
    let mut i: u64 = 0;
    while i < blocks
        invariant
            i <= blocks,
            len == r@.len(),
            r@.len() <= usize::MAX,
            blocks == spec_fragment_blocks(sb.fragment_entry_count),
            spec_index_fits(r@, index_start, blocks as int),
            index_start == sb.fragment_table_start,
            algorithm == sb.spec_fragment_compressor(),
            spec_fragment_entries(r@, algorithm, index_start, i as nat) == Ok::<
                Seq<FragmentEntry>,
                SqsError,
            >(tab.entries@),
        decreases blocks - i,
    {
        let location = read_u64_le(r, (sb.fragment_table_start + 8 * i) as usize);
        let metadata = match read_meta_block(r, algorithm, location) {
            Ok(d) => d,
            Err(e) => {
                proof {
                    assert(spec_fragment_entries(r@, algorithm, index_start, (i + 1) as nat) == Err::<
                        Seq<FragmentEntry>,
                        SqsError,
                    >(e));
                    lemma_fragment_entries_err(r@, algorithm, index_start, (i + 1) as nat, blocks as nat);
                }
                return Err(e);
            },
        };
        let mut parsed = parse_fragment_block(metadata.as_slice());
        let ghost before = tab.entries@;
        let ghost piece = parsed@;
        tab.entries.append(&mut parsed);
        assert(spec_fragment_entries(r@, algorithm, index_start, (i + 1) as nat) == Ok::<
            Seq<FragmentEntry>,
            SqsError,
        >(before + piece));
        i = i + 1;
    }
    if tab.entries.len() as u64 != sb.fragment_entry_count as u64 {
        return Err(SqsError::FragmentCountMismatch);
    }
    Ok(tab)
}

} // verus!
