//! The superblock: the 96-byte header at offset 0 of every archive.
use crate::bytes::{le_u16, le_u32, le_u64, read_u16_le, read_u32_le, read_u64_le};
use crate::compress::Algorithm;
use crate::errors::SqsError;
use vstd::arithmetic::power2::{lemma2_to64, lemma_pow2_unfold, pow2};
use vstd::prelude::*;

verus! {

pub const MAGIC_NUMBER: u32 = 0x7371_7368;

pub const VERSION_MAJOR: u16 = 4;

pub const VERSION_MINOR: u16 = 0;

/// Size in bytes of the on-disk superblock.
pub const SUPERBLOCK_SIZE: usize = 96;

/// Inodes are stored uncompressed; UID/GIDs too.
pub const UNCOMPRESSED_INODES: u16 = 0x0001;

/// Data blocks are stored uncompressed.
pub const UNCOMPRESSED_DATA: u16 = 0x0002;

/// Unused since version 4.
pub const CHECK: u16 = 0x0004;

/// Fragments are stored uncompressed.
pub const UNCOMPRESSED_FRAGMENTS: u16 = 0x0008;

/// Fragments are not used.
pub const NO_FRAGMENTS: u16 = 0x0010;

/// The tail of every file is stored as a fragment.
pub const ALWAYS_FRAGMENTS: u16 = 0x0020;

/// Identical files are stored once.
pub const DUPLICATES: u16 = 0x0040;

/// The export table is populated.
pub const EXPORTABLE: u16 = 0x0080;

/// Xattrs are stored uncompressed.
pub const UNCOMPRESSED_XATTRS: u16 = 0x0100;

/// Xattrs are not stored.
pub const NO_XATTRS: u16 = 0x0200;

/// The compressor options section is present.
pub const COMPRESSOR_OPTIONS: u16 = 0x0400;

/// UID/GIDs are stored uncompressed.
pub const UNCOMPRESSED_IDS: u16 = 0x0800;

/// The superblock flags, a set of bits over `u16`; unknown bits are kept.
#[derive(Clone, Copy, Debug, PartialEq, Eq, Structural)]
pub struct Flags {
    pub bits: u16,
}

impl Flags {
    pub fn empty() -> (r: Flags)
        ensures
            r.bits == 0,
    {
        Flags { bits: 0 }
    }

    pub fn from_bits(bits: u16) -> (r: Flags)
        ensures
            r.bits == bits,
    {
        Flags { bits }
    }

    pub fn bits(&self) -> (r: u16)
        ensures
            r == self.bits,
    {
        self.bits
    }

    /// Whether every bit of `mask` is set.
    pub open spec fn spec_contains(self, mask: u16) -> bool {
        self.bits & mask == mask
    }

    pub fn contains(&self, mask: u16) -> (r: bool)
        ensures
            r == self.spec_contains(mask),
    {
        self.bits & mask == mask
    }

    pub fn uncompressed_inodes(&self) -> (r: bool)
        ensures
            r == self.spec_contains(UNCOMPRESSED_INODES),
    {
        self.contains(UNCOMPRESSED_INODES)
    }

    pub fn uncompressed_data(&self) -> (r: bool)
        ensures
            r == self.spec_contains(UNCOMPRESSED_DATA),
    {
        self.contains(UNCOMPRESSED_DATA)
    }

    pub fn check(&self) -> (r: bool)
        ensures
            r == self.spec_contains(CHECK),
    {
        self.contains(CHECK)
    }

    pub fn uncompressed_fragments(&self) -> (r: bool)
        ensures
            r == self.spec_contains(UNCOMPRESSED_FRAGMENTS),
    {
        self.contains(UNCOMPRESSED_FRAGMENTS)
    }

    pub fn no_fragments(&self) -> (r: bool)
        ensures
            r == self.spec_contains(NO_FRAGMENTS),
    {
        self.contains(NO_FRAGMENTS)
    }

    pub fn always_fragments(&self) -> (r: bool)
        ensures
            r == self.spec_contains(ALWAYS_FRAGMENTS),
    {
        self.contains(ALWAYS_FRAGMENTS)
    }

    pub fn duplicates(&self) -> (r: bool)
        ensures
            r == self.spec_contains(DUPLICATES),
    {
        self.contains(DUPLICATES)
    }

    pub fn exportable(&self) -> (r: bool)
        ensures
            r == self.spec_contains(EXPORTABLE),
    {
        self.contains(EXPORTABLE)
    }

    pub fn uncompressed_xattrs(&self) -> (r: bool)
        ensures
            r == self.spec_contains(UNCOMPRESSED_XATTRS),
    {
        self.contains(UNCOMPRESSED_XATTRS)
    }

    pub fn no_xattrs(&self) -> (r: bool)
        ensures
            r == self.spec_contains(NO_XATTRS),
    {
        self.contains(NO_XATTRS)
    }

    pub fn compressor_options(&self) -> (r: bool)
        ensures
            r == self.spec_contains(COMPRESSOR_OPTIONS),
    {
        self.contains(COMPRESSOR_OPTIONS)
    }

    pub fn uncompressed_ids(&self) -> (r: bool)
        ensures
            r == self.spec_contains(UNCOMPRESSED_IDS),
    {
        self.contains(UNCOMPRESSED_IDS)
    }
}

impl Default for Flags {
    fn default() -> (r: Flags)
        ensures
            r.bits == 0,
    {
        Flags::empty()
    }
}

/// A reference to an inode: `block` is the byte offset of the metadata block
/// that holds it, relative to the inode table start, and `offset` the position
/// of the inode inside that block's uncompressed payload.
#[derive(Clone, Copy, Debug, PartialEq, Eq, Structural)]
pub struct InodeRef {
    pub offset: u16,
    pub block: u64,
}

impl InodeRef {
    /// The reference packed in a 64-bit value: offset in the low 16 bits,
    /// block in the 48 bits above.
    pub open spec fn spec_unpack(raw: u64) -> InodeRef {
        InodeRef { offset: (raw % 65536) as u16, block: raw / 65536 }
    }

    pub fn unpack(raw: u64) -> (r: InodeRef)
        ensures
            r == InodeRef::spec_unpack(raw),
    {
        InodeRef { offset: (raw % 65536) as u16, block: raw / 65536 }
    }
}

/// The archive header.
#[derive(Clone, Copy, Debug, PartialEq, Eq, Structural)]
pub struct Superblock {
    /// Equals `MAGIC_NUMBER` in every archive.
    pub magic: u32,
    /// The number of inodes in the inode table.
    pub inode_count: u32,
    /// Seconds since the epoch at which the archive was made.
    pub modification_time: u32,
    /// The size of a data block: a power of two in `[4096, 1048576]`.
    pub block_size: u32,
    /// The number of entries in the fragment table.
    pub fragment_entry_count: u32,
    /// The compressor of the archive.
    pub compressor: Algorithm,
    /// The base-2 logarithm of `block_size`.
    pub block_log: u16,
    pub flags: Flags,
    /// The number of entries in the id lookup table.
    pub id_count: u16,
    pub version_major: u16,
    pub version_minor: u16,
    /// The inode of the root directory.
    pub root_inode_ref: InodeRef,
    /// The number of bytes that the archive uses.
    pub bytes_used: u64,
    pub id_table_start: u64,
    pub xattr_id_table_start: u64,
    pub inode_table_start: u64,
    pub directory_table_start: u64,
    pub fragment_table_start: u64,
    pub export_table_start: u64,
}

/// `block_size` is a power of two in `[4096, 1048576]` whose logarithm is `log`.
pub open spec fn is_block_size_with_log(block_size: int, log: int) -> bool {
    12 <= log <= 20 && block_size == pow2(log as nat)
}

/// The header fields as they stand in the first 96 bytes of `s`.
pub open spec fn spec_superblock_fields(s: Seq<u8>) -> Superblock {
    Superblock {
        magic: le_u32(s, 0) as u32,
        inode_count: le_u32(s, 4) as u32,
        modification_time: le_u32(s, 8) as u32,
        block_size: le_u32(s, 12) as u32,
        fragment_entry_count: le_u32(s, 16) as u32,
        compressor: Algorithm::spec_from_id(le_u16(s, 20) as u16),
        block_log: le_u16(s, 22) as u16,
        flags: Flags { bits: le_u16(s, 24) as u16 },
        id_count: le_u16(s, 26) as u16,
        version_major: le_u16(s, 28) as u16,
        version_minor: le_u16(s, 30) as u16,
        root_inode_ref: InodeRef::spec_unpack(le_u64(s, 32) as u64),
        bytes_used: le_u64(s, 40) as u64,
        id_table_start: le_u64(s, 48) as u64,
        xattr_id_table_start: le_u64(s, 56) as u64,
        inode_table_start: le_u64(s, 64) as u64,
        directory_table_start: le_u64(s, 72) as u64,
        fragment_table_start: le_u64(s, 80) as u64,
        export_table_start: le_u64(s, 88) as u64,
    }
}

/// The superblock at the start of `s`, or the first check that it fails.
pub open spec fn spec_parse_superblock(s: Seq<u8>) -> Result<Superblock, SqsError> {
    let sb = spec_superblock_fields(s);
    if s.len() < 96 {
        Err(SqsError::Truncated)
    } else if sb.magic != MAGIC_NUMBER {
        Err(SqsError::BadMagic)
    } else if sb.version_major != VERSION_MAJOR || sb.version_minor != VERSION_MINOR {
        Err(SqsError::BadVersion)
    } else if !(exists|log: int| is_block_size_with_log(sb.block_size as int, log)) {
        Err(SqsError::BadBlockSize)
    } else if !is_block_size_with_log(sb.block_size as int, sb.block_log as int) {
        Err(SqsError::BlockLogMismatch)
    } else {
        Ok(sb)
    }
}

/// The logarithm of `block_size` where it is a valid block size.
fn block_size_log(block_size: u32) -> (r: Option<u16>)
    ensures
        r is Some <==> exists|log: int| is_block_size_with_log(block_size as int, log),
        r is Some ==> is_block_size_with_log(block_size as int, r->Some_0 as int),
{
    let mut log: u16 = 12;
    let mut size: u32 = 4096;
    proof {
        lemma2_to64();
    }
    while log <= 20
        invariant
            12 <= log <= 21,
            size as int == pow2(log as nat),
            log <= 20 ==> size <= 1048576,
            forall|k: int| 12 <= k < log ==> !is_block_size_with_log(block_size as int, k),
        decreases 21 - log,
    {
        if size == block_size {
            assert(is_block_size_with_log(block_size as int, log as int));
            return Some(log);
        }
        proof {
            lemma_pow2_unfold((log + 1) as nat);
            lemma2_to64();
        }
        size = size * 2;
        log = log + 1;
    }
    assert forall|k: int| !is_block_size_with_log(block_size as int, k) by {
        if 12 <= k <= 20 {
            assert(k < log);
        }
    }
    None
}

impl Superblock {
    /// A superblock whose fields are all zero.
    pub fn new() -> (r: Superblock)
        ensures
            r == Superblock::spec_zero(),
    {
        Superblock {
            magic: 0,
            inode_count: 0,
            modification_time: 0,
            block_size: 0,
            fragment_entry_count: 0,
            compressor: Algorithm::Uncompressed,
            block_log: 0,
            flags: Flags { bits: 0 },
            id_count: 0,
            version_major: 0,
            version_minor: 0,
            root_inode_ref: InodeRef { offset: 0, block: 0 },
            bytes_used: 0,
            id_table_start: 0,
            xattr_id_table_start: 0,
            inode_table_start: 0,
            directory_table_start: 0,
            fragment_table_start: 0,
            export_table_start: 0,
        }
    }

    pub open spec fn spec_zero() -> Superblock {
        Superblock {
            magic: 0,
            inode_count: 0,
            modification_time: 0,
            block_size: 0,
            fragment_entry_count: 0,
            compressor: Algorithm::Uncompressed,
            block_log: 0,
            flags: Flags { bits: 0 },
            id_count: 0,
            version_major: 0,
            version_minor: 0,
            root_inode_ref: InodeRef { offset: 0, block: 0 },
            bytes_used: 0,
            id_table_start: 0,
            xattr_id_table_start: 0,
            inode_table_start: 0,
            directory_table_start: 0,
            fragment_table_start: 0,
            export_table_start: 0,
        }
    }

    /// Reads and checks the superblock at the start of `image`: its length,
    /// magic, version, block size and block log, in that order.
    pub fn parse(image: &[u8]) -> (r: Result<Superblock, SqsError>)
        ensures
            r == spec_parse_superblock(image@),
            r is Ok ==> is_block_size_with_log(
                r->Ok_0.block_size as int,
                r->Ok_0.block_log as int,
            ),
    {
        if image.len() < SUPERBLOCK_SIZE {
            return Err(SqsError::Truncated);
        }
        let sb = Superblock {
            magic: read_u32_le(image, 0),
            inode_count: read_u32_le(image, 4),
            modification_time: read_u32_le(image, 8),
            block_size: read_u32_le(image, 12),
            fragment_entry_count: read_u32_le(image, 16),
            compressor: Algorithm::from_id(read_u16_le(image, 20)),
            block_log: read_u16_le(image, 22),
            flags: Flags::from_bits(read_u16_le(image, 24)),
            id_count: read_u16_le(image, 26),
            version_major: read_u16_le(image, 28),
            version_minor: read_u16_le(image, 30),
            root_inode_ref: InodeRef::unpack(read_u64_le(image, 32)),
            bytes_used: read_u64_le(image, 40),
            id_table_start: read_u64_le(image, 48),
            xattr_id_table_start: read_u64_le(image, 56),
            inode_table_start: read_u64_le(image, 64),
            directory_table_start: read_u64_le(image, 72),
            fragment_table_start: read_u64_le(image, 80),
            export_table_start: read_u64_le(image, 88),
        };
        assert(sb == spec_superblock_fields(image@));
        if sb.magic != MAGIC_NUMBER {
            return Err(SqsError::BadMagic);
        }
        if sb.version_major != VERSION_MAJOR || sb.version_minor != VERSION_MINOR {
            return Err(SqsError::BadVersion);
        }
        match block_size_log(sb.block_size) {
            None => Err(SqsError::BadBlockSize),
            Some(log) => {
                if log != sb.block_log {
                    proof {
                        lemma_log_unique(sb.block_size as int, log as int, sb.block_log as int);
                    }
                    Err(SqsError::BlockLogMismatch)
                } else {
                    Ok(sb)
                }
            },
        }
    }

    /// Reads the superblock at the start of `image` into `self`; on an error
    /// `self` is left as it was.
    pub fn load(&mut self, image: &[u8]) -> (r: Result<(), SqsError>)
        ensures
            match spec_parse_superblock(image@) {
                Ok(sb) => r is Ok && *final(self) == sb,
                Err(e) => r == Err::<(), SqsError>(e) && *final(self) == *old(self),
            },
            r is Ok ==> is_block_size_with_log(
                final(self).block_size as int,
                final(self).block_log as int,
            ),
    {
        match Superblock::parse(image) {
            Ok(sb) => {
                *self = sb;
                Ok(())
            },
            Err(e) => Err(e),
        }
    }

    /// Whether `block_size` is a valid block size and `block_log` its logarithm.
    pub open spec fn spec_has_valid_block_size(self) -> bool {
        is_block_size_with_log(self.block_size as int, self.block_log as int)
    }

    pub fn has_valid_block_size(&self) -> (r: bool)
        ensures
            r == self.spec_has_valid_block_size(),
    {
        match block_size_log(self.block_size) {
            Some(log) => {
                if log != self.block_log {
                    proof {
                        lemma_log_unique(self.block_size as int, log as int, self.block_log as int);
                    }
                }
                log == self.block_log
            },
            None => false,
        }
    }

    /// The algorithm that blocks of the inode table are read with: none where
    /// the inodes are flagged as uncompressed.
    pub open spec fn spec_inode_compressor(self) -> Algorithm {
        if self.flags.spec_contains(UNCOMPRESSED_INODES) {
            Algorithm::Uncompressed
        } else {
            self.compressor
        }
    }

    pub fn inode_compressor(&self) -> (r: Algorithm)
        ensures
            r == self.spec_inode_compressor(),
    {
        if self.flags.uncompressed_inodes() {
            Algorithm::Uncompressed
        } else {
            self.compressor
        }
    }

    /// The algorithm for the id table: none where ids, or inodes, are flagged
    /// as uncompressed.
    pub open spec fn spec_id_compressor(self) -> Algorithm {
        if self.flags.spec_contains(UNCOMPRESSED_INODES) || self.flags.spec_contains(
            UNCOMPRESSED_IDS,
        ) {
            Algorithm::Uncompressed
        } else {
            self.compressor
        }
    }

    pub fn id_compressor(&self) -> (r: Algorithm)
        ensures
            r == self.spec_id_compressor(),
    {
        if self.flags.uncompressed_inodes() || self.flags.uncompressed_ids() {
            Algorithm::Uncompressed
        } else {
            self.compressor
        }
    }

    /// The algorithm for the fragment table.
    pub open spec fn spec_fragment_compressor(self) -> Algorithm {
        if self.flags.spec_contains(UNCOMPRESSED_FRAGMENTS) {
            Algorithm::Uncompressed
        } else {
            self.compressor
        }
    }

    pub fn fragment_compressor(&self) -> (r: Algorithm)
        ensures
            r == self.spec_fragment_compressor(),
    {
        if self.flags.uncompressed_fragments() {
            Algorithm::Uncompressed
        } else {
            self.compressor
        }
    }

    /// The algorithm for the xattr tables.
    pub open spec fn spec_xattr_compressor(self) -> Algorithm {
        if self.flags.spec_contains(UNCOMPRESSED_XATTRS) {
            Algorithm::Uncompressed
        } else {
            self.compressor
        }
    }

    pub fn xattr_compressor(&self) -> (r: Algorithm)
        ensures
            r == self.spec_xattr_compressor(),
    {
        if self.flags.uncompressed_xattrs() {
            Algorithm::Uncompressed
        } else {
            self.compressor
        }
    }
}

impl Default for Superblock {
    fn default() -> (r: Superblock)
        ensures
            r == Superblock::spec_zero(),
    {
        Superblock::new()
    }
}

/// A block size has one logarithm.
proof fn lemma_log_unique(block_size: int, a: int, b: int)
    requires
        is_block_size_with_log(block_size, a),
        a != b,
    ensures
        !is_block_size_with_log(block_size, b),
{
    if is_block_size_with_log(block_size, b) {
        if a < b {
            vstd::arithmetic::power2::lemma_pow2_strictly_increases(a as nat, b as nat);
        } else {
            vstd::arithmetic::power2::lemma_pow2_strictly_increases(b as nat, a as nat);
        }
    }
}

} // verus!
