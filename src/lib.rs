//! Read-side parser for SquashFS 4.0 archives held in memory.
//!
//! An archive is nine byte-aligned regions: superblock, compressor options,
//! data blocks and fragments, inode table, directory table, fragment table,
//! export table, UID/GID lookup table and xattr table. Every table region is
//! packaged as a stream of metadata blocks; this crate decodes that stream and
//! the records above it, and states what each reader returns as a function of
//! the bytes of the image.

pub mod bytes;
pub mod compress;
pub mod errors;
pub mod fragment;
pub mod inode;
pub mod layout;
pub mod metadata;
pub mod uidgids;
pub mod xattrs;

pub use bytes::{read_u16_le, read_u32_le, read_u64_le};
pub use compress::{compress, decompress, Algorithm, Compression};
pub use errors::SqsError;
pub use inode::{
    get_inode, BasicBlockDevice, BasicCharDevice, BasicDirectory, BasicFifo, BasicFile, BasicSocket,
    BasicSymlink, ExtendedBlock, ExtendedChar, ExtendedDirectory, ExtendedFifo, ExtendedFile,
    ExtendedSocket, ExtendedSymlink, Inode, InodeBody, InodeHeader, InodeTab, InodeType,
};
pub use fragment::{read_fragment_table, FragmentEntry, FragmentsTab};
pub use uidgids::{parse_id_tab, read_lookup_table};
pub use xattrs::{read_xattrs_table, OnDiskXAttrIdTable, XAttrEntry, XAttrIndex, XAttrTable};
pub use metadata::{get_metadata_size, read_meta_block, read_metadata, MetadataCursor};
pub use layout::{Flags, InodeRef, Superblock, MAGIC_NUMBER, VERSION_MAJOR, VERSION_MINOR};
