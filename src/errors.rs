use vstd::prelude::*;

verus! {

/// What can go wrong while decoding an archive.
#[derive(Clone, Copy, Debug, PartialEq, Eq, Structural)]
pub enum SqsError {
    /// The first four bytes are not the SquashFS magic.
    BadMagic,
    /// The archive is not of format version 4.0.
    BadVersion,
    /// The block size is not a power of two in `[4096, 1048576]`.
    BadBlockSize,
    /// `block_log` is not the base-2 logarithm of `block_size`.
    BlockLogMismatch,
    /// Fewer bytes are present than a record or block header announces.
    Truncated,
    /// The image ends before a metadata stream delivered what was asked of it.
    UnexpectedEnd,
    /// The codec rejected a block, or a block exceeds 8192 uncompressed bytes.
    DecompressFailure,
    /// A block is compressed with an algorithm that has no codec here.
    UnsupportedCompressor,
    /// An inode has another type than the one its reference announced.
    InodeTypeMismatch,
    /// An inode type outside `1..=14`.
    UnknownInodeType,
    /// An inode number outside `[1, inode_count]`.
    BadInodeNumber,
    /// The fragment table holds another number of entries than announced.
    FragmentCountMismatch,
    /// An id or xattr-id table holds another number of entries than announced.
    IdCountMismatch,
    /// A cursor points past the end of an uncompressed metadata block.
    OffsetBeyondBlock,
    /// The byte source failed.
    IoError,
}

impl SqsError {
    /// A short human-readable description of the error.
    pub fn message(&self) -> (r: &'static str) {
        match self {
            SqsError::BadMagic => "bad magic number",
            SqsError::BadVersion => "unsupported format version",
            SqsError::BadBlockSize => "invalid block size",
            SqsError::BlockLogMismatch => "block_log does not match block_size",
            SqsError::Truncated => "truncated data",
            SqsError::UnexpectedEnd => "unexpected end of metadata",
            SqsError::DecompressFailure => "decompression failed",
            SqsError::UnsupportedCompressor => "unsupported compressor",
            SqsError::InodeTypeMismatch => "inode type mismatch",
            SqsError::UnknownInodeType => "unknown inode type",
            SqsError::BadInodeNumber => "inode number out of range",
            SqsError::FragmentCountMismatch => "fragment count mismatch",
            SqsError::IdCountMismatch => "id count mismatch",
            SqsError::OffsetBeyondBlock => "offset beyond metadata block",
            SqsError::IoError => "i/o error",
        }
    }
}

} // verus!
