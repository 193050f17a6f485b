//! The codec registry: compressor ids and the block codecs behind them.
use vstd::prelude::*;
use crate::errors::SqsError;
use vstd::slice::slice_to_vec;
use std::io::Read;
use std::io::Write;

verus! {

/// Compressor ids of the superblock.
#[derive(Clone, Copy, Debug, PartialEq, Eq, Structural)]
pub enum Algorithm {
    /// Blocks are stored as they are.
    Uncompressed,
    Gzip,
    Lzma,
    Lzo,
    Xz,
    Lz4,
    Zstd,
    /// An id that no SquashFS compressor has.
    Unknown(u16),
}

impl Algorithm {
    /// The algorithm that the on-disk compressor id `id` names.
    pub open spec fn spec_from_id(id: u16) -> Algorithm {
        if id == 0 {
            Algorithm::Uncompressed
        } else if id == 1 {
            Algorithm::Gzip
        } else if id == 2 {
            Algorithm::Lzma
        } else if id == 3 {
            Algorithm::Lzo
        } else if id == 4 {
            Algorithm::Xz
        } else if id == 5 {
            Algorithm::Lz4
        } else if id == 6 {
            Algorithm::Zstd
        } else {
            Algorithm::Unknown(id)
        }
    }

    /// The on-disk compressor id of this algorithm.
    pub open spec fn spec_id(self) -> u16 {
        match self {
            Algorithm::Uncompressed => 0,
            Algorithm::Gzip => 1,
            Algorithm::Lzma => 2,
            Algorithm::Lzo => 3,
            Algorithm::Xz => 4,
            Algorithm::Lz4 => 5,
            Algorithm::Zstd => 6,
            Algorithm::Unknown(id) => id,
        }
    }

    pub fn from_id(id: u16) -> (r: Algorithm)
        ensures
            r == Algorithm::spec_from_id(id),
    {
        match id {
            0 => Algorithm::Uncompressed,
            1 => Algorithm::Gzip,
            2 => Algorithm::Lzma,
            3 => Algorithm::Lzo,
            4 => Algorithm::Xz,
            5 => Algorithm::Lz4,
            6 => Algorithm::Zstd,
            _ => Algorithm::Unknown(id),
        }
    }

    pub fn id(&self) -> (r: u16)
        ensures
            r == self.spec_id(),
    {
        match self {
            Algorithm::Uncompressed => 0,
            Algorithm::Gzip => 1,
            Algorithm::Lzma => 2,
            Algorithm::Lzo => 3,
            Algorithm::Xz => 4,
            Algorithm::Lz4 => 5,
            Algorithm::Zstd => 6,
            Algorithm::Unknown(id) => *id,
        }
    }

    /// Whether this crate has a codec for the algorithm.
    pub open spec fn spec_supported(self) -> bool {
        self is Uncompressed || self is Gzip
    }
}

/// The superblock's compressor id under its other name.
pub type Compression = Algorithm;

impl Algorithm {
    /// The name of the algorithm.
    pub fn name(&self) -> (r: &'static str) {
        match self {
            Algorithm::Uncompressed => "None",
            Algorithm::Gzip => "Gzip",
            Algorithm::Lzma => "Lzma",
            Algorithm::Lzo => "Lzo",
            Algorithm::Xz => "Xz",
            Algorithm::Lz4 => "Lz4",
            Algorithm::Zstd => "Zstd",
            Algorithm::Unknown(_) => "Unknown",
        }
    }
}

impl Default for Algorithm {
    fn default() -> (r: Algorithm)
        ensures
            r == Algorithm::Uncompressed,
    {
        Algorithm::Uncompressed
    }
}

/// What zlib decoding makes of `raw`: `None` where the stream is invalid.
pub uninterp spec fn zlib_inflated(raw: Seq<u8>) -> Option<Seq<u8>>;

/// What gzip decoding makes of `raw`: `None` where the stream is invalid.
pub uninterp spec fn gzip_inflated(raw: Seq<u8>) -> Option<Seq<u8>>;

/// The gzip stream that encoding `raw` at the default level gives.
pub uninterp spec fn gzip_deflated(raw: Seq<u8>) -> Option<Seq<u8>>;

/// Relies on `flate2::bufread::ZlibDecoder` read to its end: the bytes that
/// the zlib stream in `raw` decodes to, `None` where flate2 reports an error.
#[verifier::external_body]
fn zlib_decode(raw: &[u8]) -> (r: Option<Vec<u8>>)
    ensures
        r is Some <==> zlib_inflated(raw@) is Some,
        r is Some ==> zlib_inflated(raw@) == Some(r->Some_0@),
{
    let mut out = Vec::new();
    match flate2::bufread::ZlibDecoder::new(raw).read_to_end(&mut out) {
        Ok(_) => Some(out),
        Err(_) => None,
    }
}

/// Relies on `flate2::bufread::GzDecoder` read to its end: the bytes that
/// the gzip member in `raw` decodes to, `None` where flate2 reports an error.
#[verifier::external_body]
fn gzip_decode(raw: &[u8]) -> (r: Option<Vec<u8>>)
    ensures
        r is Some <==> gzip_inflated(raw@) is Some,
        r is Some ==> gzip_inflated(raw@) == Some(r->Some_0@),
{
    let mut out = Vec::new();
    match flate2::bufread::GzDecoder::new(raw).read_to_end(&mut out) {
        Ok(_) => Some(out),
        Err(_) => None,
    }
}

/// Relies on `flate2::write::GzEncoder` at `Compression::default()`: the
/// gzip stream of `raw`, `None` where flate2 reports a write error.
#[verifier::external_body]
fn gzip_encode(raw: &[u8]) -> (r: Option<Vec<u8>>)
    ensures
        r is Some <==> gzip_deflated(raw@) is Some,
        r is Some ==> gzip_deflated(raw@) == Some(r->Some_0@),
{
    let mut gz = flate2::write::GzEncoder::new(Vec::new(), flate2::Compression::default());
    match gz.write_all(raw) {
        Ok(()) => gz.finish().ok(),
        Err(_) => None,
    }
}

/// A zlib stream starts with `0x78`; anything else is read as gzip.
pub open spec fn is_zlib_framed(raw: Seq<u8>) -> bool {
    raw.len() > 0 && raw[0] == 0x78
}

/// The result of decoding `raw` with `algorithm` into a buffer of `cap` bytes.
pub open spec fn spec_decompress(raw: Seq<u8>, algorithm: Algorithm, cap: int) -> Result<
    Seq<u8>,
    SqsError,
> {
    let decoded = match algorithm {
        Algorithm::Uncompressed => Some(raw),
        Algorithm::Gzip => if is_zlib_framed(raw) {
            zlib_inflated(raw)
        } else {
            gzip_inflated(raw)
        },
        _ => None,
    };
    if !algorithm.spec_supported() {
        Err(SqsError::UnsupportedCompressor)
    } else if decoded is None {
        Err(SqsError::DecompressFailure)
    } else if decoded->Some_0.len() > cap {
        Err(SqsError::DecompressFailure)
    } else {
        Ok(decoded->Some_0)
    }
}

/// Decodes `raw` with `algorithm` into the front of `output` and returns the
/// number of bytes written. `Uncompressed` is a plain copy; `Gzip` takes both
/// zlib and gzip framing. Nothing is written when an error is returned.
pub fn decompress(raw: &[u8], output: &mut [u8], algorithm: Algorithm) -> (r: Result<
    usize,
    SqsError,
>)
    ensures
        final(output)@.len() == old(output)@.len(),
        match spec_decompress(raw@, algorithm, old(output)@.len() as int) {
            Ok(d) => r == Ok::<usize, SqsError>(d.len() as usize) && final(output)@ == d
                + old(output)@.subrange(d.len() as int, old(output)@.len() as int),
            Err(e) => r == Err::<usize, SqsError>(e) && final(output)@ == old(output)@,
        },
{
    let decoded: Vec<u8> = match algorithm {
        Algorithm::Uncompressed => slice_to_vec(raw),
        Algorithm::Gzip => {
            let d = if raw.len() > 0 && raw[0] == 0x78 {
                zlib_decode(raw)
            } else {
                gzip_decode(raw)
            };
            match d {
                Some(v) => v,
                None => return Err(SqsError::DecompressFailure),
            }
        },
        _ => return Err(SqsError::UnsupportedCompressor),
    };
    if decoded.len() > output.len() {
        return Err(SqsError::DecompressFailure);
    }
    let n = decoded.len();
    let mut i: usize = 0;
    while i < n
        invariant
            n == decoded@.len(),
            n <= output@.len(),
            0 <= i <= n,
            output@.len() == old(output)@.len(),
            forall|j: int| 0 <= j < i ==> output@[j] == decoded@[j],
            forall|j: int| i <= j < output@.len() ==> output@[j] == old(output)@[j],
        decreases n - i,
    {
        output[i] = decoded[i];
        i = i + 1;
    }
    assert(output@ =~= decoded@ + old(output)@.subrange(n as int, old(output)@.len() as int));
    Ok(n)
}

/// The result of `compress` on `raw`: the bytes to store and whether they
/// are compressed.
pub open spec fn spec_compress(raw: Seq<u8>, algorithm: Algorithm) -> Result<(Seq<u8>, bool), SqsError> {
    if raw.len() == 0 || !(algorithm is Gzip) {
        Ok((raw, false))
    } else {
        match gzip_deflated(raw) {
            Some(c) => Ok((c, true)),
            None => Err(SqsError::IoError),
        }
    }
}

/// Encodes `raw` with `algorithm`. An empty input, and any algorithm but
/// `Gzip`, give the input back with `false`; `Gzip` gives its gzip stream
/// at the default level with `true`.
pub fn compress(raw: &[u8], algorithm: Algorithm) -> (r: Result<(Vec<u8>, bool), SqsError>)
    ensures
        match spec_compress(raw@, algorithm) {
            Ok((c, flag)) => r is Ok && r->Ok_0.0@ == c && r->Ok_0.1 == flag,
            Err(e) => r == Err::<(Vec<u8>, bool), SqsError>(e),
        },
{
    if raw.len() == 0 {
        return Ok((slice_to_vec(raw), false));
    }
    match algorithm {
        Algorithm::Gzip => match gzip_encode(raw) {
            Some(c) => Ok((c, true)),
            None => Err(SqsError::IoError),
        },
        _ => Ok((slice_to_vec(raw), false)),
    }
}

} // verus!
