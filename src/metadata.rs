//! Metadata blocks: the length-prefixed, optionally compressed units that
//! every table region is packed in, and the stream that they form.
use crate::bytes::{le_u16, le_u64, read_u16_le, read_u64_le};
use crate::compress::{decompress, spec_decompress, Algorithm};
use crate::errors::SqsError;
use vstd::prelude::*;
use vstd::slice::{slice_subrange, slice_to_vec};

verus! {

/// The largest uncompressed payload of a metadata block.
pub const METADATA_BLOCK_SIZE: usize = 8192;

/// The header bit that marks a block as stored uncompressed.
pub const METADATA_UNCOMPRESSED_FLAG: u16 = 0x8000;

/// Splits a block header into its on-disk payload size and whether the
/// payload is compressed (the high bit is clear).
pub open spec fn spec_metadata_size(header: u16) -> (u16, bool) {
    (header & 0x7FFF, header & 0x8000 == 0)
}

/// The block header for a payload of `size` bytes.
pub open spec fn spec_metadata_header(size: u16, compressed: bool) -> u16 {
    if compressed {
        size
    } else {
        size | 0x8000
    }
}

/// Returns the data size of a block header and whether the data is compressed.
pub fn get_metadata_size(header: u16) -> (r: (u16, bool))
    ensures
        r == spec_metadata_size(header),
        r.0 == header % 32768,
        r.1 == (header < 32768),
{
    let data_size = header & 0x7FFF;
    let compressed = header & 0x8000 == 0;
    assert(header & 0x7FFF == header % 32768) by (bit_vector);
    assert((header & 0x8000 == 0) == (header < 32768)) by (bit_vector);
    (data_size, compressed)
}

/// Builds the header of a block whose payload has `size` bytes.
pub fn encode_metadata_header(size: u16, compressed: bool) -> (r: u16)
    requires
        size <= 0x7FFF,
    ensures
        r == spec_metadata_header(size, compressed),
{
    if compressed {
        size
    } else {
        size | METADATA_UNCOMPRESSED_FLAG
    }
}

/// A header encodes a size and a compression flag exactly when it decodes
/// to them, for every size that fits in 15 bits.
pub proof fn lemma_metadata_header_round_trip(size: u16, compressed: bool, header: u16)
    requires
        size <= 0x7FFF,
    ensures
        spec_metadata_header(size, compressed) == header <==> spec_metadata_size(header) == (
            size,
            compressed,
        ),
{
    if compressed {
        assert(size <= 0x7FFF ==> (size == header <==> (header & 0x7FFF == size && header & 0x8000
            == 0))) by (bit_vector);
    } else {
        assert(size <= 0x7FFF ==> ((size | 0x8000) == header <==> (header & 0x7FFF == size
            && header & 0x8000 != 0))) by (bit_vector);
    }
}

/// The on-disk payload size of the block whose header is at `loc`.
pub open spec fn spec_stored_size(img: Seq<u8>, loc: int) -> int {
    spec_metadata_size(le_u16(img, loc) as u16).0 as int
}

/// Where the block at `loc` ends: after its header and its on-disk payload.
pub open spec fn spec_block_end(img: Seq<u8>, loc: int) -> int {
    loc + 2 + spec_stored_size(img, loc)
}

/// The uncompressed payload of the metadata block at `loc`.
pub open spec fn spec_meta_block(img: Seq<u8>, algorithm: Algorithm, loc: int) -> Result<
    Seq<u8>,
    SqsError,
> {
    if loc < 0 || loc + 2 > img.len() || spec_block_end(img, loc) > img.len() {
        Err(SqsError::Truncated)
    } else {
        let payload = img.subrange(loc + 2, spec_block_end(img, loc));
        if spec_metadata_size(le_u16(img, loc) as u16).1 {
            spec_decompress(payload, algorithm, METADATA_BLOCK_SIZE as int)
        } else if payload.len() > METADATA_BLOCK_SIZE {
            Err(SqsError::DecompressFailure)
        } else {
            Ok(payload)
        }
    }
}

/// Reads the block at `location` and returns its payload and where it ends.
fn read_block_at(r: &[u8], algorithm: Algorithm, location: u64) -> (res: Result<
    (Vec<u8>, u64),
    SqsError,
>)
    ensures
        match spec_meta_block(r@, algorithm, location as int) {
            Ok(d) => res is Ok && res->Ok_0.0@ == d && res->Ok_0.1 == spec_block_end(
                r@,
                location as int,
            ),
            Err(e) => res == Err::<(Vec<u8>, u64), SqsError>(e),
        },
{
    let len = r.len();
    if location > len as u64 || (len as u64) - location < 2 {
        return Err(SqsError::Truncated);
    }
    let loc = location as usize;
    let header = read_u16_le(r, loc);
    let (size, compressed) = get_metadata_size(header);
    if (size as usize) > len - loc - 2 {
        return Err(SqsError::Truncated);
    }
    let end = loc + 2 + size as usize;
    let payload = slice_subrange(r, loc + 2, end);
    if compressed {
        let mut output: Vec<u8> = vec![0u8; METADATA_BLOCK_SIZE];
        let written = decompress(payload, output.as_mut_slice(), algorithm);
        match written {
            Ok(n) => {
                output.truncate(n);
                assert(output@ =~= spec_decompress(payload@, algorithm, 8192)->Ok_0);
                Ok((output, end as u64))
            },
            Err(e) => Err(e),
        }
    } else {
        if payload.len() > METADATA_BLOCK_SIZE {
            return Err(SqsError::DecompressFailure);
        }
        Ok((slice_to_vec(payload), end as u64))
    }
}

/// Reads the metadata block at absolute offset `location` and returns its
/// uncompressed payload, which never exceeds 8192 bytes.
pub fn read_meta_block(r: &[u8], algorithm: Algorithm, location: u64) -> (res: Result<
    Vec<u8>,
    SqsError,
>)
    ensures
        match spec_meta_block(r@, algorithm, location as int) {
            Ok(d) => res is Ok && res->Ok_0@ == d,
            Err(e) => res == Err::<Vec<u8>, SqsError>(e),
        },
        res is Ok ==> res->Ok_0@.len() <= METADATA_BLOCK_SIZE,
{
    match read_block_at(r, algorithm, location) {
        Ok((data, _)) => Ok(data),
        Err(e) => Err(e),
    }
}

/// A position in a metadata stream: `block` is the byte offset of a block
/// from the region start (it counts on-disk bytes), `offset` a position in
/// that block's uncompressed payload.
#[derive(Clone, Copy, Debug, PartialEq, Eq, Structural)]
pub struct MetadataCursor {
    pub block: u64,
    pub offset: u32,
}

/// What a stream read yields: the bytes, then the absolute position of the
/// block where the read stopped and the offset inside it.
pub type StreamResult = Result<(Seq<u8>, int, int), SqsError>;

/// Puts `prefix` in front of the bytes of a stream result.
pub open spec fn prepend(prefix: Seq<u8>, r: StreamResult) -> StreamResult {
    match r {
        Ok((d, p, o)) => Ok((prefix + d, p, o)),
        Err(e) => Err(e),
    }
}

/// Reads `n` uncompressed bytes of the stream whose current block sits at
/// absolute offset `pos`, starting `offset` bytes into that block's payload,
/// and moving on to the block that follows on disk as often as needed.
pub open spec fn spec_read_stream(
    img: Seq<u8>,
    algorithm: Algorithm,
    pos: int,
    offset: int,
    n: int,
) -> StreamResult
    decreases img.len() - pos,
{
    if n <= 0 {
        Ok((Seq::empty(), pos, offset))
    } else if pos < 0 || pos + 2 > img.len() {
        Err(SqsError::UnexpectedEnd)
    } else {
        match spec_meta_block(img, algorithm, pos) {
            Err(e) => Err(e),
            Ok(data) => if offset > data.len() {
                Err(SqsError::OffsetBeyondBlock)
            } else if n <= data.len() - offset {
                Ok((data.subrange(offset, offset + n), pos, offset + n))
            } else {
                prepend(
                    data.subrange(offset, data.len() as int),
                    spec_read_stream(
                        img,
                        algorithm,
                        spec_block_end(img, pos),
                        0,
                        n - (data.len() - offset),
                    ),
                )
            },
        }
    }
}

/// A block that decodes holds at most 8192 bytes and ends inside the image,
/// after its header.
pub proof fn lemma_meta_block_bounds(img: Seq<u8>, algorithm: Algorithm, loc: int)
    ensures
        spec_meta_block(img, algorithm, loc) is Ok ==> {
            &&& spec_meta_block(img, algorithm, loc)->Ok_0.len() <= METADATA_BLOCK_SIZE
            &&& 0 <= loc < loc + 2 <= spec_block_end(img, loc) <= img.len()
        },
{
}

/// A successful stream read stops inside the image, no earlier than it began.
pub proof fn lemma_read_stream_bounds(
    img: Seq<u8>,
    algorithm: Algorithm,
    pos: int,
    offset: int,
    n: int,
)
    requires
        0 <= offset,
    ensures
        spec_read_stream(img, algorithm, pos, offset, n) is Ok ==> {
            let (d, p, o) = spec_read_stream(img, algorithm, pos, offset, n)->Ok_0;
            &&& n <= 0 ==> p == pos && o == offset
            &&& n > 0 ==> pos <= p <= img.len() && 0 <= o <= METADATA_BLOCK_SIZE
            &&& d.len() == if n <= 0 { 0 } else { n }
        },
    decreases img.len() - pos,
{
    lemma_meta_block_bounds(img, algorithm, pos);
    if n > 0 && 0 <= pos && pos + 2 <= img.len() {
        if let Ok(data) = spec_meta_block(img, algorithm, pos) {
            if offset <= data.len() && n > data.len() - offset {
                lemma_read_stream_bounds(
                    img,
                    algorithm,
                    spec_block_end(img, pos),
                    0,
                    n - (data.len() - offset),
                );
            }
        }
    }
}

/// The stream read that `read_metadata` performs for a cursor relative to
/// `start`.
pub open spec fn spec_read_metadata(
    img: Seq<u8>,
    algorithm: Algorithm,
    start: u64,
    cursor: MetadataCursor,
    n: int,
) -> Result<(Seq<u8>, MetadataCursor), SqsError> {
    match spec_read_stream(img, algorithm, start + cursor.block, cursor.offset as int, n) {
        Ok((d, p, o)) => Ok((d, MetadataCursor { block: (p - start) as u64, offset: o as u32 })),
        Err(e) => Err(e),
    }
}

/// Reads exactly `n` uncompressed bytes of the metadata stream of the region
/// that starts at `start`, from `cursor` on, and returns them with the cursor
/// just past them. Reads span as many blocks as needed; each next block
/// starts where the previous one ends on disk.
pub fn read_metadata(
    r: &[u8],
    algorithm: Algorithm,
    start: u64,
    cursor: MetadataCursor,
    n: usize,
) -> (res: Result<(Vec<u8>, MetadataCursor), SqsError>)
    ensures
        match spec_read_metadata(r@, algorithm, start, cursor, n as int) {
            Ok((d, c)) => res is Ok && res->Ok_0.0@ == d && res->Ok_0.1 == c,
            Err(e) => res == Err::<(Vec<u8>, MetadataCursor), SqsError>(e),
        },
        res is Ok ==> res->Ok_0.0@.len() == n,
{
    let ghost img = r@;
    let ghost pos0 = start + cursor.block;
    let ghost total = spec_read_stream(img, algorithm, pos0, cursor.offset as int, n as int);
    proof {
        lemma_read_stream_bounds(img, algorithm, pos0, cursor.offset as int, n as int);
    }
    if n == 0 {
        return Ok((Vec::new(), cursor));
    }
    let len = r.len() as u64;
    if start > len || cursor.block > len - start || len - start - cursor.block < 2 {
        return Err(SqsError::UnexpectedEnd);
    }
    let mut pos: u64 = start + cursor.block;
    let mut offset: usize = cursor.offset as usize;
    let mut remaining: usize = n;
    let mut out: Vec<u8> = Vec::new();
    loop
        invariant
            img == r@,
            len == r@.len(),
            start <= pos0 <= pos,
            pos0 == start + cursor.block,
            remaining > 0,
            total == spec_read_stream(img, algorithm, pos0, cursor.offset as int, n as int),
            total is Ok ==> total->Ok_0.0.len() == n,
            total == prepend(
                out@,
                spec_read_stream(img, algorithm, pos as int, offset as int, remaining as int),
            ),
        decreases len - pos,
    {
        if pos > len || len - pos < 2 {
            return Err(SqsError::UnexpectedEnd);
        }
        let (data, next) = match read_block_at(r, algorithm, pos) {
            Ok(b) => b,
            Err(e) => return Err(e),
        };
        if offset > data.len() {
            return Err(SqsError::OffsetBeyondBlock);
        }
        let avail = data.len() - offset;
        if remaining <= avail {
            let piece = slice_subrange(data.as_slice(), offset, offset + remaining);
            let ghost before = out@;
            out.extend_from_slice(piece);
            assert(out@ =~= before + piece@);
            assert(out@ == total->Ok_0.0) by {
                assert(before + piece@ == total->Ok_0.0);
            }
            return Ok((out, MetadataCursor { block: pos - start, offset: (offset + remaining) as u32 }));
        }
        let piece = slice_subrange(data.as_slice(), offset, data.len());
        let ghost before = out@;
        out.extend_from_slice(piece);
        assert(out@ =~= before + piece@);
        proof {
            let rest = spec_read_stream(
                img,
                algorithm,
                next as int,
                0,
                remaining - avail,
            );
            assert(prepend(before, prepend(piece@, rest)) == prepend(out@, rest)) by {
                if let Ok((d, p, o)) = rest {
                    assert(before + (piece@ + d) =~= out@ + d);
                }
            }
        }
        remaining = remaining - avail;
        pos = next;
        offset = 0;
    }
}

/// Reading `a + b` bytes of a stream is reading `a` bytes, then `b` bytes
/// from where the first read stopped.
pub proof fn lemma_read_stream_split(
    img: Seq<u8>,
    algorithm: Algorithm,
    pos: int,
    offset: int,
    a: int,
    b: int,
)
    requires
        0 <= offset,
        0 <= a,
        0 <= b,
    ensures
        spec_read_stream(img, algorithm, pos, offset, a + b) == match spec_read_stream(
            img,
            algorithm,
            pos,
            offset,
            a,
        ) {
            Ok((d, p, o)) => prepend(d, spec_read_stream(img, algorithm, p, o, b)),
            Err(e) => Err(e),
        },
    decreases img.len() - pos,
{
    lemma_meta_block_bounds(img, algorithm, pos);
    let whole = spec_read_stream(img, algorithm, pos, offset, a + b);
    if a == 0 {
        if let Ok((d, p, o)) = whole {
            assert(Seq::<u8>::empty() + d =~= d);
        }
    } else if 0 <= pos && pos + 2 <= img.len() {
        if let Ok(data) = spec_meta_block(img, algorithm, pos) {
            if offset <= data.len() {
                let avail = data.len() - offset;
                if a + b <= avail {
                    if b > 0 {
                        assert(data.subrange(offset, offset + a) + data.subrange(
                            offset + a,
                            offset + a + b,
                        ) =~= data.subrange(offset, offset + a + b));
                    } else {
                        assert(data.subrange(offset, offset + a) + Seq::<u8>::empty()
                            =~= data.subrange(offset, offset + a + b));
                    }
                } else if a <= avail {
                    let rest = spec_read_stream(
                        img,
                        algorithm,
                        spec_block_end(img, pos),
                        0,
                        a + b - avail,
                    );
                    if let Ok((d, p, o)) = rest {
                        assert(data.subrange(offset, offset + a) + (data.subrange(
                            offset + a,
                            data.len() as int,
                        ) + d) =~= data.subrange(offset, data.len() as int) + d);
                    }
                } else {
                    let next = spec_block_end(img, pos);
                    lemma_read_stream_split(img, algorithm, next, 0, a - avail, b);
                    lemma_read_stream_bounds(img, algorithm, next, 0, a - avail);
                    let head = data.subrange(offset, data.len() as int);
                    let first = spec_read_stream(img, algorithm, next, 0, a - avail);
                    if let Ok((d1, p1, o1)) = first {
                        let second = spec_read_stream(img, algorithm, p1, o1, b);
                        if let Ok((d2, p2, o2)) = second {
                            assert(head + (d1 + d2) =~= (head + d1) + d2);
                        }
                    }
                }
            }
        }
    }
}

/// Puts `prefix` in front of the bytes of a cursor read.
pub open spec fn prepend_read(
    prefix: Seq<u8>,
    r: Result<(Seq<u8>, MetadataCursor), SqsError>,
) -> Result<(Seq<u8>, MetadataCursor), SqsError> {
    match r {
        Ok((d, c)) => Ok((prefix + d, c)),
        Err(e) => Err(e),
    }
}

/// `read_metadata` for a length given as `u64`: the stream is read in pieces
/// of at most one block's payload, with the same result as one read.
pub fn read_metadata_long(
    r: &[u8],
    algorithm: Algorithm,
    start: u64,
    cursor: MetadataCursor,
    n: u64,
) -> (res: Result<(Vec<u8>, MetadataCursor), SqsError>)
    ensures
        match spec_read_metadata(r@, algorithm, start, cursor, n as int) {
            Ok((d, c)) => res is Ok && res->Ok_0.0@ == d && res->Ok_0.1 == c,
            Err(e) => res == Err::<(Vec<u8>, MetadataCursor), SqsError>(e),
        },
        res is Ok ==> res->Ok_0.0@.len() == n,
{
    let ghost img = r@;
    let ghost total = spec_read_metadata(img, algorithm, start, cursor, n as int);
    proof {
        lemma_read_stream_bounds(img, algorithm, start + cursor.block, cursor.offset as int, n as int);
    }
    let mut out: Vec<u8> = Vec::new();
    let mut cur = cursor;
    let mut done: u64 = 0;
    let len = r.len();
    assert(total == prepend_read(out@, spec_read_metadata(img, algorithm, start, cur, n as int)))
        by {
        if let Ok((d, c)) = total {
            assert(Seq::<u8>::empty() + d =~= d);
        }
    }
    while done < n
        invariant
            img == r@,
            len == img.len(),
            done <= n,
            total == spec_read_metadata(img, algorithm, start, cursor, n as int),
            total == prepend_read(
                out@,
                spec_read_metadata(img, algorithm, start, cur, (n - done) as int),
            ),
        decreases n - done,
    {
        let chunk: u64 = if n - done < METADATA_BLOCK_SIZE as u64 {
            n - done
        } else {
            METADATA_BLOCK_SIZE as u64
        };
        let ghost pos = start + cur.block;
        let ghost rem = (n - done) as int;
        proof {
            lemma_read_stream_split(
                img,
                algorithm,
                pos,
                cur.offset as int,
                chunk as int,
                rem - chunk,
            );
            lemma_read_stream_bounds(img, algorithm, pos, cur.offset as int, chunk as int);
        }
        match read_metadata(r, algorithm, start, cur, chunk as usize) {
            Ok((d, c)) => {
                let ghost before = out@;
                let ghost piece = d@;
                let mut d = d;
                out.append(&mut d);
                proof {
                    let rest = spec_read_metadata(img, algorithm, start, c, rem - chunk);
                    assert(start + c.block == spec_read_stream(
                        img,
                        algorithm,
                        pos,
                        cur.offset as int,
                        chunk as int,
                    )->Ok_0.1);
                    if let Ok((d2, c2)) = rest {
                        assert(before + (piece + d2) =~= out@ + d2);
                    }
                }
                cur = c;
                done = done + chunk;
            },
            Err(e) => {
                return Err(e);
            },
        }
    }
    proof {
        assert(spec_read_metadata(img, algorithm, start, cur, 0) == Ok::<
            (Seq<u8>, MetadataCursor),
            SqsError,
        >((Seq::empty(), cur)));
        assert(out@ + Seq::<u8>::empty() =~= out@);
    }
    Ok((out, cur))
}

/// Whether the `blocks` block locations of an indexed table, eight bytes
/// each from `index_start`, lie inside the image.
pub open spec fn spec_index_fits(img: Seq<u8>, index_start: int, blocks: int) -> bool {
    index_start + 8 * blocks <= img.len()
}

/// The absolute offset of the `i`-th block of an indexed table.
pub open spec fn spec_table_block_location(img: Seq<u8>, index_start: int, i: int) -> int {
    le_u64(img, index_start + 8 * i)
}

/// The uncompressed payloads of the first `k` blocks of an indexed table,
/// concatenated in order.
pub open spec fn spec_table_bytes(
    img: Seq<u8>,
    algorithm: Algorithm,
    index_start: int,
    k: nat,
) -> Result<Seq<u8>, SqsError>
    decreases k,
{
    if k == 0 {
        Ok(Seq::empty())
    } else {
        match spec_table_bytes(img, algorithm, index_start, (k - 1) as nat) {
            Err(e) => Err(e),
            Ok(acc) => match spec_meta_block(
                img,
                algorithm,
                spec_table_block_location(img, index_start, k - 1),
            ) {
                Err(e) => Err(e),
                Ok(d) => Ok(acc + d),
            },
        }
    }
}

/// Reads the `blocks` blocks of an indexed table whose locations start at
/// `index_start`, and concatenates their payloads.
pub fn read_table_bytes(r: &[u8], algorithm: Algorithm, index_start: u64, blocks: u64) -> (res:
    Result<Vec<u8>, SqsError>)
    requires
        spec_index_fits(r@, index_start as int, blocks as int),
    ensures
        match spec_table_bytes(r@, algorithm, index_start as int, blocks as nat) {
            Ok(d) => res is Ok && res->Ok_0@ == d,
            Err(e) => res == Err::<Vec<u8>, SqsError>(e),
        },
{
    let mut out: Vec<u8> = Vec::new();
    let mut i: u64 = 0;
    let len = r.len();
    while i < blocks
        invariant
            i <= blocks,
            len == r@.len(),
            spec_index_fits(r@, index_start as int, blocks as int),
            spec_table_bytes(r@, algorithm, index_start as int, i as nat) == Ok::<
                Seq<u8>,
                SqsError,
            >(out@),
        decreases blocks - i,
    {
        let location = read_u64_le(r, (index_start + 8 * i) as usize);
        let mut data = match read_meta_block(r, algorithm, location) {
            Ok(d) => d,
            Err(e) => {
                proof {
                    lemma_table_bytes_err(r@, algorithm, index_start as int, (i + 1) as nat, blocks as nat);
                }
                return Err(e);
            },
        };
        let ghost before = out@;
        let ghost piece = data@;
        out.append(&mut data);
        assert(spec_table_bytes(r@, algorithm, index_start as int, (i + 1) as nat) == Ok::<
            Seq<u8>,
            SqsError,
        >(before + piece));
        i = i + 1;
    }
    Ok(out)
}

/// Once the first `k` blocks of a table fail, so do the first `m >= k`.
pub proof fn lemma_table_bytes_err(
    img: Seq<u8>,
    algorithm: Algorithm,
    index_start: int,
    k: nat,
    m: nat,
)
    requires
        k <= m,
        spec_table_bytes(img, algorithm, index_start, k) is Err,
    ensures
        spec_table_bytes(img, algorithm, index_start, m) == spec_table_bytes(
            img,
            algorithm,
            index_start,
            k,
        ),
    decreases m - k,
{
    if k < m {
        lemma_table_bytes_err(img, algorithm, index_start, k, (m - 1) as nat);
    }
}

} // verus!
