//! Little-endian integers inside byte sequences.
use vstd::prelude::*;

verus! {

/// The unsigned 16-bit little-endian value of `s[i..i + 2]`.
pub open spec fn le_u16(s: Seq<u8>, i: int) -> int {
    s[i] + 256 * s[i + 1]
}

/// The unsigned 32-bit little-endian value of `s[i..i + 4]`.
pub open spec fn le_u32(s: Seq<u8>, i: int) -> int {
    le_u16(s, i) + 65536 * le_u16(s, i + 2)
}

/// The unsigned 64-bit little-endian value of `s[i..i + 8]`.
pub open spec fn le_u64(s: Seq<u8>, i: int) -> int {
    le_u32(s, i) + 4294967296 * le_u32(s, i + 4)
}

/// Reads the little-endian `u16` at `pos`.
pub fn read_u16_le(buf: &[u8], pos: usize) -> (r: u16)
    requires
        pos + 2 <= buf@.len(),
    ensures
        r == le_u16(buf@, pos as int),
{
    buf[pos] as u16 + 256 * (buf[pos + 1] as u16)
}

/// Reads the little-endian `u32` at `pos`.
pub fn read_u32_le(buf: &[u8], pos: usize) -> (r: u32)
    requires
        pos + 4 <= buf@.len(),
    ensures
        r == le_u32(buf@, pos as int),
{
    assert(buf@.len() == buf.len());
    read_u16_le(buf, pos) as u32 + 65536 * (read_u16_le(buf, pos + 2) as u32)
}

/// Reads the little-endian `u64` at `pos`.
pub fn read_u64_le(buf: &[u8], pos: usize) -> (r: u64)
    requires
        pos + 8 <= buf@.len(),
    ensures
        r == le_u64(buf@, pos as int),
{
    assert(buf@.len() == buf.len());
    read_u32_le(buf, pos) as u64 + 4294967296 * (read_u32_le(buf, pos + 4) as u64)
}

} // verus!
