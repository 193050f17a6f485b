//! Inodes: a 16-byte header, a fixed-size body selected by the inode type,
//! and for some types a variable tail, all read from the inode table's
//! metadata stream.
use crate::bytes::{le_u16, le_u32, le_u64, read_u16_le, read_u32_le, read_u64_le};
use crate::compress::Algorithm;
use crate::errors::SqsError;
use crate::layout::{is_block_size_with_log, Superblock};
use crate::metadata::{
    prepend_read, read_metadata, read_metadata_long, spec_read_metadata, MetadataCursor,
};
use crate::uidgids::{parse_id_tab, spec_ids};
use vstd::arithmetic::div_mod::lemma_div_is_ordered_by_denominator;
use vstd::arithmetic::power2::{lemma2_to64, lemma_pow2_strictly_increases};
use vstd::prelude::*;
use vstd::slice::slice_subrange;

verus! {

/// The type of an inode, on disk a `u16` in `1..=14`.
#[derive(Clone, Copy, Debug, PartialEq, Eq, Structural)]
pub enum InodeType {
    BasicDirectory,
    BasicFile,
    BasicSymlink,
    BasicBlockDevice,
    BasicCharDevice,
    BasicFifo,
    BasicSocket,
    ExtendedDirectory,
    ExtendedFile,
    ExtendedSymlink,
    ExtendedBlockDevice,
    ExtendedCharDevice,
    ExtendedFifo,
    ExtendedSocket,
}

pub const BASIC_DIRECTORY_BODY_SIZE: usize = 16;

pub const BASIC_FILE_BODY_SIZE: usize = 16;

pub const BASIC_SYMLINK_BODY_SIZE: usize = 8;

pub const BASIC_BLOCK_BODY_SIZE: usize = 8;

pub const BASIC_CHAR_BODY_SIZE: usize = 8;

pub const BASIC_FIFO_BODY_SIZE: usize = 4;

pub const BASIC_SOCKET_BODY_SIZE: usize = 4;

pub const EXTENDED_DIRECTORY_BODY_SIZE: usize = 24;

pub const EXTENDED_FILE_BODY_SIZE: usize = 40;

pub const EXTENDED_SYMLINK_BODY_SIZE: usize = 12;

pub const EXTENDED_BLOCK_BODY_SIZE: usize = 12;

pub const EXTENDED_CHAR_BODY_SIZE: usize = 12;

pub const EXTENDED_FIFO_BODY_SIZE: usize = 8;

pub const EXTENDED_SOCKET_BODY_SIZE: usize = 8;

/// Size in bytes of the inode header.
pub const INODE_HEADER_SIZE: usize = 16;

impl InodeType {
    /// The inode type that the on-disk value `v` names.
    pub open spec fn spec_from_u16(v: u16) -> Option<InodeType> {
        if v == 1 {
            Some(InodeType::BasicDirectory)
        } else if v == 2 {
            Some(InodeType::BasicFile)
        } else if v == 3 {
            Some(InodeType::BasicSymlink)
        } else if v == 4 {
            Some(InodeType::BasicBlockDevice)
        } else if v == 5 {
            Some(InodeType::BasicCharDevice)
        } else if v == 6 {
            Some(InodeType::BasicFifo)
        } else if v == 7 {
            Some(InodeType::BasicSocket)
        } else if v == 8 {
            Some(InodeType::ExtendedDirectory)
        } else if v == 9 {
            Some(InodeType::ExtendedFile)
        } else if v == 10 {
            Some(InodeType::ExtendedSymlink)
        } else if v == 11 {
            Some(InodeType::ExtendedBlockDevice)
        } else if v == 12 {
            Some(InodeType::ExtendedCharDevice)
        } else if v == 13 {
            Some(InodeType::ExtendedFifo)
        } else if v == 14 {
            Some(InodeType::ExtendedSocket)
        } else {
            None
        }
    }

    pub fn from_u16(v: u16) -> (r: Option<InodeType>)
        ensures
            r == InodeType::spec_from_u16(v),
    {
        match v {
            1 => Some(InodeType::BasicDirectory),
            2 => Some(InodeType::BasicFile),
            3 => Some(InodeType::BasicSymlink),
            4 => Some(InodeType::BasicBlockDevice),
            5 => Some(InodeType::BasicCharDevice),
            6 => Some(InodeType::BasicFifo),
            7 => Some(InodeType::BasicSocket),
            8 => Some(InodeType::ExtendedDirectory),
            9 => Some(InodeType::ExtendedFile),
            10 => Some(InodeType::ExtendedSymlink),
            11 => Some(InodeType::ExtendedBlockDevice),
            12 => Some(InodeType::ExtendedCharDevice),
            13 => Some(InodeType::ExtendedFifo),
            14 => Some(InodeType::ExtendedSocket),
            _ => None,
        }
    }

    /// The on-disk value of the type.
    pub open spec fn spec_value(self) -> u16 {
        match self {
            InodeType::BasicDirectory => 1,
            InodeType::BasicFile => 2,
            InodeType::BasicSymlink => 3,
            InodeType::BasicBlockDevice => 4,
            InodeType::BasicCharDevice => 5,
            InodeType::BasicFifo => 6,
            InodeType::BasicSocket => 7,
            InodeType::ExtendedDirectory => 8,
            InodeType::ExtendedFile => 9,
            InodeType::ExtendedSymlink => 10,
            InodeType::ExtendedBlockDevice => 11,
            InodeType::ExtendedCharDevice => 12,
            InodeType::ExtendedFifo => 13,
            InodeType::ExtendedSocket => 14,
        }
    }

    pub fn value(&self) -> (r: u16)
        ensures
            r == self.spec_value(),
            1 <= r <= 14,
    {
        match self {
            InodeType::BasicDirectory => 1,
            InodeType::BasicFile => 2,
            InodeType::BasicSymlink => 3,
            InodeType::BasicBlockDevice => 4,
            InodeType::BasicCharDevice => 5,
            InodeType::BasicFifo => 6,
            InodeType::BasicSocket => 7,
            InodeType::ExtendedDirectory => 8,
            InodeType::ExtendedFile => 9,
            InodeType::ExtendedSymlink => 10,
            InodeType::ExtendedBlockDevice => 11,
            InodeType::ExtendedCharDevice => 12,
            InodeType::ExtendedFifo => 13,
            InodeType::ExtendedSocket => 14,
        }
    }

    /// The size in bytes of the fixed body of an inode of this type.
    pub open spec fn spec_body_size(self) -> usize {
        match self {
            InodeType::BasicDirectory => BASIC_DIRECTORY_BODY_SIZE,
            InodeType::BasicFile => BASIC_FILE_BODY_SIZE,
            InodeType::BasicSymlink => BASIC_SYMLINK_BODY_SIZE,
            InodeType::BasicBlockDevice => BASIC_BLOCK_BODY_SIZE,
            InodeType::BasicCharDevice => BASIC_CHAR_BODY_SIZE,
            InodeType::BasicFifo => BASIC_FIFO_BODY_SIZE,
            InodeType::BasicSocket => BASIC_SOCKET_BODY_SIZE,
            InodeType::ExtendedDirectory => EXTENDED_DIRECTORY_BODY_SIZE,
            InodeType::ExtendedFile => EXTENDED_FILE_BODY_SIZE,
            InodeType::ExtendedSymlink => EXTENDED_SYMLINK_BODY_SIZE,
            InodeType::ExtendedBlockDevice => EXTENDED_BLOCK_BODY_SIZE,
            InodeType::ExtendedCharDevice => EXTENDED_CHAR_BODY_SIZE,
            InodeType::ExtendedFifo => EXTENDED_FIFO_BODY_SIZE,
            InodeType::ExtendedSocket => EXTENDED_SOCKET_BODY_SIZE,
        }
    }

    /// The size in bytes of the fixed body of an inode of this type.
    pub fn body_size(&self) -> (r: usize)
        ensures
            r == self.spec_body_size(),
    {
        match self {
            InodeType::BasicDirectory => BASIC_DIRECTORY_BODY_SIZE,
            InodeType::BasicFile => BASIC_FILE_BODY_SIZE,
            InodeType::BasicSymlink => BASIC_SYMLINK_BODY_SIZE,
            InodeType::BasicBlockDevice => BASIC_BLOCK_BODY_SIZE,
            InodeType::BasicCharDevice => BASIC_CHAR_BODY_SIZE,
            InodeType::BasicFifo => BASIC_FIFO_BODY_SIZE,
            InodeType::BasicSocket => BASIC_SOCKET_BODY_SIZE,
            InodeType::ExtendedDirectory => EXTENDED_DIRECTORY_BODY_SIZE,
            InodeType::ExtendedFile => EXTENDED_FILE_BODY_SIZE,
            InodeType::ExtendedSymlink => EXTENDED_SYMLINK_BODY_SIZE,
            InodeType::ExtendedBlockDevice => EXTENDED_BLOCK_BODY_SIZE,
            InodeType::ExtendedCharDevice => EXTENDED_CHAR_BODY_SIZE,
            InodeType::ExtendedFifo => EXTENDED_FIFO_BODY_SIZE,
            InodeType::ExtendedSocket => EXTENDED_SOCKET_BODY_SIZE,
        }
    }
}

impl Default for InodeType {
    fn default() -> (r: InodeType)
        ensures
            r == InodeType::BasicDirectory,
    {
        InodeType::BasicDirectory
    }
}

pub open spec fn u16_at(s: Seq<u8>, i: int) -> u16 {
    le_u16(s, i) as u16
}

pub open spec fn u32_at(s: Seq<u8>, i: int) -> u32 {
    le_u32(s, i) as u32
}

pub open spec fn u64_at(s: Seq<u8>, i: int) -> u64 {
    le_u64(s, i) as u64
}

/// `Ok(v)` where the input held enough bytes, else `Truncated`.
pub open spec fn spec_parsed<T>(enough: bool, v: T) -> Result<T, SqsError> {
    if enough {
        Ok(v)
    } else {
        Err(SqsError::Truncated)
    }
}

#[derive(Clone, Copy, Debug, PartialEq, Eq, Structural)]
pub struct BasicDirectory {
    /// Index of the directory-table block where the entries start.
    pub block_idx: u32,
    /// Number of hard links.
    pub nlink: u32,
    /// Uncompressed size of the entries in the directory table, headers included.
    pub size: u16,
    /// Offset of the entries inside their uncompressed block.
    pub offset: u16,
    /// Inode number of the parent directory.
    pub parent_inode: u32,
}

/// The fields of a `BasicDirectory` body at the front of `s`.
pub open spec fn spec_basic_directory(s: Seq<u8>) -> BasicDirectory {
    BasicDirectory {
        block_idx: u32_at(s, 0),
        nlink: u32_at(s, 4),
        size: u16_at(s, 8),
        offset: u16_at(s, 10),
        parent_inode: u32_at(s, 12),
    }
}

#[derive(Clone, Copy, Debug, PartialEq, Eq, Structural)]
pub struct BasicFile {
    /// Absolute offset of the first data block.
    pub block_idx: u32,
    /// Index of the fragment entry of the tail, `0xFFFFFFFF` where the file ends in no fragment.
    pub fragment_block_idx: u32,
    /// Offset of the tail inside the fragment block.
    pub offset: u32,
    /// Uncompressed size of the file.
    pub size: u32,
}

/// The fields of a `BasicFile` body at the front of `s`.
pub open spec fn spec_basic_file(s: Seq<u8>) -> BasicFile {
    BasicFile {
        block_idx: u32_at(s, 0),
        fragment_block_idx: u32_at(s, 4),
        offset: u32_at(s, 8),
        size: u32_at(s, 12),
    }
}

#[derive(Clone, Copy, Debug, PartialEq, Eq, Structural)]
pub struct BasicSymlink {
    /// Number of hard links.
    pub nlink: u32,
    /// Length of the target path in bytes.
    pub target_size: u32,
}

/// The fields of a `BasicSymlink` body at the front of `s`.
pub open spec fn spec_basic_symlink(s: Seq<u8>) -> BasicSymlink {
    BasicSymlink {
        nlink: u32_at(s, 0),
        target_size: u32_at(s, 4),
    }
}

#[derive(Clone, Copy, Debug, PartialEq, Eq, Structural)]
pub struct BasicBlockDevice {
    /// Number of hard links.
    pub nlink: u32,
    /// Device number.
    pub device: u32,
}

/// The fields of a `BasicBlockDevice` body at the front of `s`.
pub open spec fn spec_basic_block_device(s: Seq<u8>) -> BasicBlockDevice {
    BasicBlockDevice {
        nlink: u32_at(s, 0),
        device: u32_at(s, 4),
    }
}

#[derive(Clone, Copy, Debug, PartialEq, Eq, Structural)]
pub struct BasicCharDevice {
    /// Number of hard links.
    pub nlink: u32,
    /// Device number.
    pub device: u32,
}

/// The fields of a `BasicCharDevice` body at the front of `s`.
pub open spec fn spec_basic_char_device(s: Seq<u8>) -> BasicCharDevice {
    BasicCharDevice {
        nlink: u32_at(s, 0),
        device: u32_at(s, 4),
    }
}

#[derive(Clone, Copy, Debug, PartialEq, Eq, Structural)]
pub struct BasicFifo {
    /// Number of hard links.
    pub nlink: u32,
}

/// The fields of a `BasicFifo` body at the front of `s`.
pub open spec fn spec_basic_fifo(s: Seq<u8>) -> BasicFifo {
    BasicFifo {
        nlink: u32_at(s, 0),
    }
}

#[derive(Clone, Copy, Debug, PartialEq, Eq, Structural)]
pub struct BasicSocket {
    /// Number of hard links.
    pub nlink: u32,
}

/// The fields of a `BasicSocket` body at the front of `s`.
pub open spec fn spec_basic_socket(s: Seq<u8>) -> BasicSocket {
    BasicSocket {
        nlink: u32_at(s, 0),
    }
}

#[derive(Clone, Copy, Debug, PartialEq, Eq, Structural)]
pub struct ExtendedDirectory {
    /// Number of hard links.
    pub nlink: u32,
    /// Uncompressed size of the entries in the directory table, headers included.
    pub size: u32,
    /// Index of the directory-table block where the entries start.
    pub block_idx: u32,
    /// Inode number of the parent directory.
    pub parent_inode: u32,
    /// Number of directory index entries after the body.
    pub inodex_count: u16,
    /// Offset of the entries inside their uncompressed block.
    pub offset: u16,
    /// Index into the xattr id table, `0xFFFFFFFF` for none.
    pub xattr_idx: u32,
}

/// The fields of a `ExtendedDirectory` body at the front of `s`.
pub open spec fn spec_extended_directory(s: Seq<u8>) -> ExtendedDirectory {
    ExtendedDirectory {
        nlink: u32_at(s, 0),
        size: u32_at(s, 4),
        block_idx: u32_at(s, 8),
        parent_inode: u32_at(s, 12),
        inodex_count: u16_at(s, 16),
        offset: u16_at(s, 18),
        xattr_idx: u32_at(s, 20),
    }
}

#[derive(Clone, Copy, Debug, PartialEq, Eq, Structural)]
pub struct ExtendedFile {
    /// Absolute offset of the first data block.
    pub block_idx: u64,
    /// Uncompressed size of the file.
    pub size: u64,
    /// Bytes saved by leaving out blocks of zeros.
    pub sparse: u64,
    /// Number of hard links.
    pub nlink: u32,
    /// Index of the fragment entry of the tail, `0xFFFFFFFF` where the file ends in no fragment.
    pub fragment_block_idx: u32,
    /// Offset of the tail inside the fragment block.
    pub offset: u32,
    /// Index into the xattr id table, `0xFFFFFFFF` for none.
    pub xattr_idx: u32,
}

/// The fields of a `ExtendedFile` body at the front of `s`.
pub open spec fn spec_extended_file(s: Seq<u8>) -> ExtendedFile {
    ExtendedFile {
        block_idx: u64_at(s, 0),
        size: u64_at(s, 8),
        sparse: u64_at(s, 16),
        nlink: u32_at(s, 24),
        fragment_block_idx: u32_at(s, 28),
        offset: u32_at(s, 32),
        xattr_idx: u32_at(s, 36),
    }
}

#[derive(Clone, Copy, Debug, PartialEq, Eq, Structural)]
pub struct ExtendedSymlink {
    /// Number of hard links.
    pub nlink: u32,
    /// Length of the target path in bytes.
    pub target_size: u32,
    /// Index into the xattr id table, `0xFFFFFFFF` for none.
    pub xattr_idx: u32,
}

/// The fields of a `ExtendedSymlink` body at the front of `s`.
pub open spec fn spec_extended_symlink(s: Seq<u8>) -> ExtendedSymlink {
    ExtendedSymlink {
        nlink: u32_at(s, 0),
        target_size: u32_at(s, 4),
        xattr_idx: u32_at(s, 8),
    }
}

#[derive(Clone, Copy, Debug, PartialEq, Eq, Structural)]
pub struct ExtendedBlock {
    /// Number of hard links.
    pub nlink: u32,
    /// Device number.
    pub device: u32,
    /// Index into the xattr id table, `0xFFFFFFFF` for none.
    pub xattr_idx: u32,
}

/// The fields of a `ExtendedBlock` body at the front of `s`.
pub open spec fn spec_extended_block(s: Seq<u8>) -> ExtendedBlock {
    ExtendedBlock {
        nlink: u32_at(s, 0),
        device: u32_at(s, 4),
        xattr_idx: u32_at(s, 8),
    }
}

#[derive(Clone, Copy, Debug, PartialEq, Eq, Structural)]
pub struct ExtendedChar {
    /// Number of hard links.
    pub nlink: u32,
    /// Device number.
    pub device: u32,
    /// Index into the xattr id table, `0xFFFFFFFF` for none.
    pub xattr_idx: u32,
}

/// The fields of a `ExtendedChar` body at the front of `s`.
pub open spec fn spec_extended_char(s: Seq<u8>) -> ExtendedChar {
    ExtendedChar {
        nlink: u32_at(s, 0),
        device: u32_at(s, 4),
        xattr_idx: u32_at(s, 8),
    }
}

#[derive(Clone, Copy, Debug, PartialEq, Eq, Structural)]
pub struct ExtendedFifo {
    /// Number of hard links.
    pub nlink: u32,
    /// Index into the xattr id table, `0xFFFFFFFF` for none.
    pub xattr_idx: u32,
}

/// The fields of a `ExtendedFifo` body at the front of `s`.
pub open spec fn spec_extended_fifo(s: Seq<u8>) -> ExtendedFifo {
    ExtendedFifo {
        nlink: u32_at(s, 0),
        xattr_idx: u32_at(s, 4),
    }
}

#[derive(Clone, Copy, Debug, PartialEq, Eq, Structural)]
pub struct ExtendedSocket {
    /// Number of hard links.
    pub nlink: u32,
    /// Index into the xattr id table, `0xFFFFFFFF` for none.
    pub xattr_idx: u32,
}

/// The fields of a `ExtendedSocket` body at the front of `s`.
pub open spec fn spec_extended_socket(s: Seq<u8>) -> ExtendedSocket {
    ExtendedSocket {
        nlink: u32_at(s, 0),
        xattr_idx: u32_at(s, 4),
    }
}

/// Decodes a `BasicDirectory` body from the front of `data`.
pub fn parse_basic_directory(data: &[u8]) -> (r: Result<BasicDirectory, SqsError>)
    ensures
        r == spec_parsed(data@.len() >= BASIC_DIRECTORY_BODY_SIZE, spec_basic_directory(data@)),
{
    if data.len() < BASIC_DIRECTORY_BODY_SIZE {
        return Err(SqsError::Truncated);
    }
    Ok(
        BasicDirectory {
            block_idx: read_u32_le(data, 0),
            nlink: read_u32_le(data, 4),
            size: read_u16_le(data, 8),
            offset: read_u16_le(data, 10),
            parent_inode: read_u32_le(data, 12),
        },
    )
}

/// Decodes the fixed `BasicFile` body from the front of `data`.
pub fn parse_basic_file_body(data: &[u8]) -> (r: Result<BasicFile, SqsError>)
    ensures
        r == spec_parsed(data@.len() >= BASIC_FILE_BODY_SIZE, spec_basic_file(data@)),
{
    if data.len() < BASIC_FILE_BODY_SIZE {
        return Err(SqsError::Truncated);
    }
    Ok(
        BasicFile {
            block_idx: read_u32_le(data, 0),
            fragment_block_idx: read_u32_le(data, 4),
            offset: read_u32_le(data, 8),
            size: read_u32_le(data, 12),
        },
    )
}

/// Decodes a `BasicSymlink` body from the front of `data`.
pub fn parse_basic_symlink(data: &[u8]) -> (r: Result<BasicSymlink, SqsError>)
    ensures
        r == spec_parsed(data@.len() >= BASIC_SYMLINK_BODY_SIZE, spec_basic_symlink(data@)),
{
    if data.len() < BASIC_SYMLINK_BODY_SIZE {
        return Err(SqsError::Truncated);
    }
    Ok(
        BasicSymlink {
            nlink: read_u32_le(data, 0),
            target_size: read_u32_le(data, 4),
        },
    )
}

/// Decodes a `BasicBlockDevice` body from the front of `data`.
pub fn parse_basic_block_device(data: &[u8]) -> (r: Result<BasicBlockDevice, SqsError>)
    ensures
        r == spec_parsed(data@.len() >= BASIC_BLOCK_BODY_SIZE, spec_basic_block_device(data@)),
{
    if data.len() < BASIC_BLOCK_BODY_SIZE {
        return Err(SqsError::Truncated);
    }
    Ok(
        BasicBlockDevice {
            nlink: read_u32_le(data, 0),
            device: read_u32_le(data, 4),
        },
    )
}

/// Decodes a `BasicSocket` body from the front of `data`.
pub fn parse_basic_ipc(data: &[u8]) -> (r: Result<BasicSocket, SqsError>)
    ensures
        r == spec_parsed(data@.len() >= BASIC_SOCKET_BODY_SIZE, spec_basic_socket(data@)),
{
    if data.len() < BASIC_SOCKET_BODY_SIZE {
        return Err(SqsError::Truncated);
    }
    Ok(
        BasicSocket {
            nlink: read_u32_le(data, 0),
        },
    )
}

/// Decodes a `ExtendedDirectory` body from the front of `data`.
pub fn parse_extened_directory(data: &[u8]) -> (r: Result<ExtendedDirectory, SqsError>)
    ensures
        r == spec_parsed(data@.len() >= EXTENDED_DIRECTORY_BODY_SIZE, spec_extended_directory(data@)),
{
    if data.len() < EXTENDED_DIRECTORY_BODY_SIZE {
        return Err(SqsError::Truncated);
    }
    Ok(
        ExtendedDirectory {
            nlink: read_u32_le(data, 0),
            size: read_u32_le(data, 4),
            block_idx: read_u32_le(data, 8),
            parent_inode: read_u32_le(data, 12),
            inodex_count: read_u16_le(data, 16),
            offset: read_u16_le(data, 18),
            xattr_idx: read_u32_le(data, 20),
        },
    )
}

/// Decodes a `ExtendedFile` body from the front of `data`.
pub fn parse_extened_file(data: &[u8]) -> (r: Result<ExtendedFile, SqsError>)
    ensures
        r == spec_parsed(data@.len() >= EXTENDED_FILE_BODY_SIZE, spec_extended_file(data@)),
{
    if data.len() < EXTENDED_FILE_BODY_SIZE {
        return Err(SqsError::Truncated);
    }
    Ok(
        ExtendedFile {
            block_idx: read_u64_le(data, 0),
            size: read_u64_le(data, 8),
            sparse: read_u64_le(data, 16),
            nlink: read_u32_le(data, 24),
            fragment_block_idx: read_u32_le(data, 28),
            offset: read_u32_le(data, 32),
            xattr_idx: read_u32_le(data, 36),
        },
    )
}

/// Decodes a `ExtendedSymlink` body from the front of `data`.
pub fn parse_extened_symlink(data: &[u8]) -> (r: Result<ExtendedSymlink, SqsError>)
    ensures
        r == spec_parsed(data@.len() >= EXTENDED_SYMLINK_BODY_SIZE, spec_extended_symlink(data@)),
{
    if data.len() < EXTENDED_SYMLINK_BODY_SIZE {
        return Err(SqsError::Truncated);
    }
    Ok(
        ExtendedSymlink {
            nlink: read_u32_le(data, 0),
            target_size: read_u32_le(data, 4),
            xattr_idx: read_u32_le(data, 8),
        },
    )
}

/// Decodes a `ExtendedBlock` body from the front of `data`.
pub fn parse_extened_block_device(data: &[u8]) -> (r: Result<ExtendedBlock, SqsError>)
    ensures
        r == spec_parsed(data@.len() >= EXTENDED_BLOCK_BODY_SIZE, spec_extended_block(data@)),
{
    if data.len() < EXTENDED_BLOCK_BODY_SIZE {
        return Err(SqsError::Truncated);
    }
    Ok(
        ExtendedBlock {
            nlink: read_u32_le(data, 0),
            device: read_u32_le(data, 4),
            xattr_idx: read_u32_le(data, 8),
        },
    )
}

/// Decodes a `ExtendedSocket` body from the front of `data`.
pub fn parse_extened_ipc(data: &[u8]) -> (r: Result<ExtendedSocket, SqsError>)
    ensures
        r == spec_parsed(data@.len() >= EXTENDED_SOCKET_BODY_SIZE, spec_extended_socket(data@)),
{
    if data.len() < EXTENDED_SOCKET_BODY_SIZE {
        return Err(SqsError::Truncated);
    }
    Ok(
        ExtendedSocket {
            nlink: read_u32_le(data, 0),
            xattr_idx: read_u32_le(data, 4),
        },
    )
}

/// The fixed-size body of an inode, one variant per inode type.
#[derive(Clone, Copy, Debug, PartialEq, Eq, Structural)]
pub enum InodeBody {
    BasicDirectory(BasicDirectory),
    BasicFile(BasicFile),
    BasicSymlink(BasicSymlink),
    BasicBlockDevice(BasicBlockDevice),
    BasicCharDevice(BasicCharDevice),
    BasicFifo(BasicFifo),
    BasicSocket(BasicSocket),
    ExtendedDirectory(ExtendedDirectory),
    ExtendedFile(ExtendedFile),
    ExtendedSymlink(ExtendedSymlink),
    ExtendedBlockDevice(ExtendedBlock),
    ExtendedCharDevice(ExtendedChar),
    ExtendedFifo(ExtendedFifo),
    ExtendedSocket(ExtendedSocket),
}

/// The body of an inode of type `t` at the front of `s`.
pub open spec fn spec_body(t: InodeType, s: Seq<u8>) -> InodeBody {
    match t {
        InodeType::BasicDirectory => InodeBody::BasicDirectory(spec_basic_directory(s)),
        InodeType::BasicFile => InodeBody::BasicFile(spec_basic_file(s)),
        InodeType::BasicSymlink => InodeBody::BasicSymlink(spec_basic_symlink(s)),
        InodeType::BasicBlockDevice => InodeBody::BasicBlockDevice(spec_basic_block_device(s)),
        InodeType::BasicCharDevice => InodeBody::BasicCharDevice(spec_basic_char_device(s)),
        InodeType::BasicFifo => InodeBody::BasicFifo(spec_basic_fifo(s)),
        InodeType::BasicSocket => InodeBody::BasicSocket(spec_basic_socket(s)),
        InodeType::ExtendedDirectory => InodeBody::ExtendedDirectory(spec_extended_directory(s)),
        InodeType::ExtendedFile => InodeBody::ExtendedFile(spec_extended_file(s)),
        InodeType::ExtendedSymlink => InodeBody::ExtendedSymlink(spec_extended_symlink(s)),
        InodeType::ExtendedBlockDevice => InodeBody::ExtendedBlockDevice(spec_extended_block(s)),
        InodeType::ExtendedCharDevice => InodeBody::ExtendedCharDevice(spec_extended_char(s)),
        InodeType::ExtendedFifo => InodeBody::ExtendedFifo(spec_extended_fifo(s)),
        InodeType::ExtendedSocket => InodeBody::ExtendedSocket(spec_extended_socket(s)),
    }
}

/// Decodes the fixed body of an inode of type `itype` from the front of
/// `data`.
pub fn parse_inode_body(data: &[u8], itype: InodeType) -> (r: Result<InodeBody, SqsError>)
    ensures
        r == spec_parsed(data@.len() >= itype.spec_body_size(), spec_body(itype, data@)),
{
    match itype {
        InodeType::BasicDirectory => match parse_basic_directory(data) {
            Ok(b) => Ok(InodeBody::BasicDirectory(b)),
            Err(e) => Err(e),
        },
        InodeType::BasicFile => match parse_basic_file_body(data) {
            Ok(b) => Ok(InodeBody::BasicFile(b)),
            Err(e) => Err(e),
        },
        InodeType::BasicSymlink => match parse_basic_symlink(data) {
            Ok(b) => Ok(InodeBody::BasicSymlink(b)),
            Err(e) => Err(e),
        },
        InodeType::BasicBlockDevice => match parse_basic_block_device(data) {
            Ok(b) => Ok(InodeBody::BasicBlockDevice(b)),
            Err(e) => Err(e),
        },
        InodeType::BasicCharDevice => match parse_basic_block_device(data) {
            Ok(b) => Ok(InodeBody::BasicCharDevice(BasicCharDevice { nlink: b.nlink, device: b.device })),
            Err(e) => Err(e),
        },
        InodeType::BasicFifo => match parse_basic_ipc(data) {
            Ok(b) => Ok(InodeBody::BasicFifo(BasicFifo { nlink: b.nlink })),
            Err(e) => Err(e),
        },
        InodeType::BasicSocket => match parse_basic_ipc(data) {
            Ok(b) => Ok(InodeBody::BasicSocket(b)),
            Err(e) => Err(e),
        },
        InodeType::ExtendedDirectory => match parse_extened_directory(data) {
            Ok(b) => Ok(InodeBody::ExtendedDirectory(b)),
            Err(e) => Err(e),
        },
        InodeType::ExtendedFile => match parse_extened_file(data) {
            Ok(b) => Ok(InodeBody::ExtendedFile(b)),
            Err(e) => Err(e),
        },
        InodeType::ExtendedSymlink => match parse_extened_symlink(data) {
            Ok(b) => Ok(InodeBody::ExtendedSymlink(b)),
            Err(e) => Err(e),
        },
        InodeType::ExtendedBlockDevice => match parse_extened_block_device(data) {
            Ok(b) => Ok(InodeBody::ExtendedBlockDevice(b)),
            Err(e) => Err(e),
        },
        InodeType::ExtendedCharDevice => match parse_extened_block_device(data) {
            Ok(b) => Ok(
                InodeBody::ExtendedCharDevice(
                    ExtendedChar { nlink: b.nlink, device: b.device, xattr_idx: b.xattr_idx },
                ),
            ),
            Err(e) => Err(e),
        },
        InodeType::ExtendedFifo => match parse_extened_ipc(data) {
            Ok(b) => Ok(InodeBody::ExtendedFifo(ExtendedFifo { nlink: b.nlink, xattr_idx: b.xattr_idx })),
            Err(e) => Err(e),
        },
        InodeType::ExtendedSocket => match parse_extened_ipc(data) {
            Ok(b) => Ok(InodeBody::ExtendedSocket(b)),
            Err(e) => Err(e),
        },
    }
}

/// The common header of every inode.
#[derive(Clone, Copy, Debug, PartialEq, Eq, Structural)]
pub struct InodeHeader {
    /// The type of the inode, which selects its body.
    pub inode_type: InodeType,
    /// Permission bits, as the mode bits of `mode_t`.
    pub permissions: u16,
    /// Index of the owner's user id in the id table.
    pub uid_idx: u16,
    /// Index of the group id in the id table.
    pub gid_idx: u16,
    /// Seconds since the epoch of the last modification.
    pub modified_time: u32,
    /// Position of the inode in the list of all inodes, in `[1, inode_count]`;
    /// hard links share it.
    pub inode_number: u32,
}

/// The header at the front of `s`, or `UnknownInodeType` for a type value
/// outside `1..=14`.
pub open spec fn spec_inode_header(s: Seq<u8>) -> Result<InodeHeader, SqsError> {
    match InodeType::spec_from_u16(u16_at(s, 0)) {
        None => Err(SqsError::UnknownInodeType),
        Some(t) => Ok(
            InodeHeader {
                inode_type: t,
                permissions: u16_at(s, 2),
                uid_idx: u16_at(s, 4),
                gid_idx: u16_at(s, 6),
                modified_time: u32_at(s, 8),
                inode_number: u32_at(s, 12),
            },
        ),
    }
}

/// Decodes the 16-byte inode header at the front of `data`.
pub fn parse_inode_header(data: &[u8]) -> (r: Result<InodeHeader, SqsError>)
    ensures
        data@.len() < INODE_HEADER_SIZE ==> r == Err::<InodeHeader, SqsError>(SqsError::Truncated),
        data@.len() >= INODE_HEADER_SIZE ==> r == spec_inode_header(data@),
        r is Ok ==> 1 <= r->Ok_0.inode_type.spec_value() <= 14,
{
    if data.len() < INODE_HEADER_SIZE {
        return Err(SqsError::Truncated);
    }
    let inode_type = match InodeType::from_u16(read_u16_le(data, 0)) {
        Some(t) => t,
        None => return Err(SqsError::UnknownInodeType),
    };
    Ok(
        InodeHeader {
            inode_type,
            permissions: read_u16_le(data, 2),
            uid_idx: read_u16_le(data, 4),
            gid_idx: read_u16_le(data, 6),
            modified_time: read_u32_le(data, 8),
            inode_number: read_u32_le(data, 12),
        },
    )
}

/// The `fragment_block_idx` of a file that ends in no fragment.
pub const NO_FRAGMENT: u32 = 0xFFFF_FFFF;

/// Size in bytes of the fixed part of a directory index entry.
pub const DIRECTORY_INDEX_HEADER_SIZE: usize = 12;

/// The number of entries in the block list of a file of `size` bytes: one
/// per full block, and one more for a partial last block that is not
/// stored as a fragment.
pub open spec fn spec_block_list_count(size: int, block_size: int, fragment: u32) -> int {
    size / block_size + if size % block_size != 0 && fragment == NO_FRAGMENT {
        1int
    } else {
        0int
    }
}

pub fn block_list_count(size: u64, block_size: u32, fragment: u32) -> (r: u64)
    requires
        block_size >= 4096,
    ensures
        r == spec_block_list_count(size as int, block_size as int, fragment),
        4 * r <= u64::MAX,
{
    proof {
        lemma_div_is_ordered_by_denominator(size as int, 4096, block_size as int);
    }
    let full = size / block_size as u64;
    if size % block_size as u64 != 0 && fragment == NO_FRAGMENT {
        full + 1
    } else {
        full
    }
}

/// A `BasicFile` body at the front of `s` and the block list that follows
/// it, `block_list_count` little-endian `u32` entries.
pub open spec fn spec_parse_basic_file(s: Seq<u8>, block_size: u32) -> Result<
    (BasicFile, Seq<u32>),
    SqsError,
> {
    let f = spec_basic_file(s);
    let n = spec_block_list_count(f.size as int, block_size as int, f.fragment_block_idx);
    if s.len() < BASIC_FILE_BODY_SIZE {
        Err(SqsError::Truncated)
    } else if block_size == 0 {
        Err(SqsError::BadBlockSize)
    } else if s.len() < BASIC_FILE_BODY_SIZE + 4 * n {
        Err(SqsError::Truncated)
    } else {
        Ok((f, spec_ids(s.subrange(16, 16 + 4 * n))))
    }
}

/// Decodes a `BasicFile` inode body and its block list from the front of
/// `data`, for an archive of `block_size`.
pub fn parse_basic_file(data: &[u8], block_size: u32) -> (r: Result<(BasicFile, Vec<u32>), SqsError>)
    ensures
        match spec_parse_basic_file(data@, block_size) {
            Ok((f, list)) => r is Ok && r->Ok_0.0 == f && r->Ok_0.1@ == list,
            Err(e) => r is Err && r->Err_0 == e,
        },
{
    let body = match parse_basic_file_body(data) {
        Ok(b) => b,
        Err(e) => return Err(e),
    };
    if block_size == 0 {
        return Err(SqsError::BadBlockSize);
    }
    proof {
        lemma_div_is_ordered_by_denominator(body.size as int, 1, block_size as int);
    }
    let full = body.size as u64 / block_size as u64;
    let count = if body.size as u64 % block_size as u64 != 0 && body.fragment_block_idx == NO_FRAGMENT {
        full + 1
    } else {
        full
    };
    let avail = data.len() - BASIC_FILE_BODY_SIZE;
    if (avail as u64) < 4 * count {
        return Err(SqsError::Truncated);
    }
    let end = BASIC_FILE_BODY_SIZE + 4 * count as usize;
    let mut list: &[u8] = slice_subrange(data, BASIC_FILE_BODY_SIZE, end);
    match parse_id_tab(&mut list) {
        Ok(blocks) => Ok((body, blocks)),
        Err(e) => Err(e),
    }
}

/// A decoded inode as a value: header, body, the on-disk sizes of the data
/// blocks of a file, and the raw tail of a symlink (its target) or of an
/// extended directory (its index entries).
pub type InodeView = (InodeHeader, InodeBody, Seq<u32>, Seq<u8>);

/// A decoded inode.
#[derive(Clone, Debug)]
pub struct Inode {
    pub header: InodeHeader,
    pub body: InodeBody,
    /// For files: one entry per data block, its on-disk size with the
    /// uncompressed flag; `0` is a hole. Empty for other types.
    pub block_sizes: Vec<u32>,
    /// For symlinks the target path; for extended directories the raw
    /// directory index entries. Empty for other types.
    pub extra: Vec<u8>,
}

impl View for Inode {
    type V = InodeView;

    open spec fn view(&self) -> InodeView {
        (self.header, self.body, self.block_sizes@, self.extra@)
    }
}

/// The raw bytes of `k` directory index entries from `c` on: each is twelve
/// bytes `{index: u32, start: u32, name_size: u32}` and a name of
/// `name_size + 1` bytes.
pub open spec fn spec_dir_index(
    img: Seq<u8>,
    algorithm: Algorithm,
    start: u64,
    c: MetadataCursor,
    k: nat,
) -> Result<(Seq<u8>, MetadataCursor), SqsError>
    decreases k,
{
    if k == 0 {
        Ok((Seq::empty(), c))
    } else {
        match spec_read_metadata(img, algorithm, start, c, 12) {
            Err(e) => Err(e),
            Ok((h, c1)) => match spec_read_metadata(
                img,
                algorithm,
                start,
                c1,
                le_u32(h, 8) + 1,
            ) {
                Err(e) => Err(e),
                Ok((name, c2)) => prepend_read(
                    h + name,
                    spec_dir_index(img, algorithm, start, c2, (k - 1) as nat),
                ),
            },
        }
    }
}

/// The block list of a file whose list has `count` entries.
pub open spec fn spec_file_tail(
    img: Seq<u8>,
    algorithm: Algorithm,
    start: u64,
    c: MetadataCursor,
    count: int,
) -> Result<(Seq<u32>, Seq<u8>, MetadataCursor), SqsError> {
    match spec_read_metadata(img, algorithm, start, c, 4 * count) {
        Err(e) => Err(e),
        Ok((b, c2)) => Ok((spec_ids(b), Seq::empty(), c2)),
    }
}

/// The raw tail of `n` bytes of a symlink.
pub open spec fn spec_raw_tail(
    img: Seq<u8>,
    algorithm: Algorithm,
    start: u64,
    c: MetadataCursor,
    n: int,
) -> Result<(Seq<u32>, Seq<u8>, MetadataCursor), SqsError> {
    match spec_read_metadata(img, algorithm, start, c, n) {
        Err(e) => Err(e),
        Ok((t, c2)) => Ok((Seq::empty(), t, c2)),
    }
}

/// The variable tail that follows `body` at `c`.
pub open spec fn spec_inode_tail(
    img: Seq<u8>,
    algorithm: Algorithm,
    start: u64,
    body: InodeBody,
    block_size: u32,
    c: MetadataCursor,
) -> Result<(Seq<u32>, Seq<u8>, MetadataCursor), SqsError> {
    match body {
        InodeBody::BasicFile(f) => spec_file_tail(
            img,
            algorithm,
            start,
            c,
            spec_block_list_count(f.size as int, block_size as int, f.fragment_block_idx),
        ),
        InodeBody::ExtendedFile(f) => spec_file_tail(
            img,
            algorithm,
            start,
            c,
            spec_block_list_count(f.size as int, block_size as int, f.fragment_block_idx),
        ),
        InodeBody::BasicSymlink(l) => spec_raw_tail(img, algorithm, start, c, l.target_size as int),
        InodeBody::ExtendedSymlink(l) => spec_raw_tail(
            img,
            algorithm,
            start,
            c,
            l.target_size as int,
        ),
        InodeBody::ExtendedDirectory(d) => match spec_dir_index(
            img,
            algorithm,
            start,
            c,
            d.inodex_count as nat,
        ) {
            Err(e) => Err(e),
            Ok((x, c2)) => Ok((Seq::empty(), x, c2)),
        },
        _ => Ok((Seq::empty(), Seq::empty(), c)),
    }
}

/// The 16 bytes at cursor `c` of the inode table decoded as an inode
/// header, and the cursor after them.
pub open spec fn spec_read_raw_inode_header(
    img: Seq<u8>,
    sb: Superblock,
    c: MetadataCursor,
) -> Result<(InodeHeader, MetadataCursor), SqsError> {
    match spec_read_metadata(img, sb.spec_inode_compressor(), sb.inode_table_start, c, 16) {
        Err(e) => Err(e),
        Ok((h, c1)) => match spec_inode_header(h) {
            Err(e) => Err(e),
            Ok(header) => Ok((header, c1)),
        },
    }
}

/// Whether an inode number lies in `[1, inode_count]`.
pub open spec fn spec_inode_number_in_range(header: InodeHeader, sb: Superblock) -> bool {
    1 <= header.inode_number <= sb.inode_count
}

/// The inode header at cursor `c` of the inode table, and the cursor after
/// it; its number must lie in `[1, inode_count]`.
pub open spec fn spec_read_inode_header(img: Seq<u8>, sb: Superblock, c: MetadataCursor) -> Result<
    (InodeHeader, MetadataCursor),
    SqsError,
> {
    match spec_read_raw_inode_header(img, sb, c) {
        Err(e) => Err(e),
        Ok((header, c1)) => if !spec_inode_number_in_range(header, sb) {
            Err(SqsError::BadInodeNumber)
        } else {
            Ok((header, c1))
        },
    }
}

/// The body and tail that follow `header` at cursor `c`, and the cursor
/// after them.
pub open spec fn spec_read_inode_body(
    img: Seq<u8>,
    sb: Superblock,
    header: InodeHeader,
    c: MetadataCursor,
) -> Result<(InodeView, MetadataCursor), SqsError> {
    let algorithm = sb.spec_inode_compressor();
    let t = header.inode_type;
    match spec_read_metadata(img, algorithm, sb.inode_table_start, c, t.spec_body_size() as int) {
        Err(e) => Err(e),
        Ok((b, c1)) => {
            let body = spec_body(t, b);
            match spec_inode_tail(img, algorithm, sb.inode_table_start, body, sb.block_size, c1) {
                Err(e) => Err(e),
                Ok((sizes, extra, c2)) => Ok(((header, body, sizes, extra), c2)),
            }
        },
    }
}

/// The inode at cursor `c` of the inode table, which must be of type
/// `expected`.
pub open spec fn spec_get_inode(
    img: Seq<u8>,
    sb: Superblock,
    c: MetadataCursor,
    expected: InodeType,
) -> Result<InodeView, SqsError> {
    if !sb.spec_has_valid_block_size() {
        Err(SqsError::BadBlockSize)
    } else {
        match spec_read_raw_inode_header(img, sb, c) {
            Err(e) => Err(e),
            Ok((header, c1)) => if header.inode_type != expected {
                Err(SqsError::InodeTypeMismatch)
            } else if !spec_inode_number_in_range(header, sb) {
                Err(SqsError::BadInodeNumber)
            } else {
                match spec_read_inode_body(img, sb, header, c1) {
                    Err(e) => Err(e),
                    Ok((v, _)) => Ok(v),
                }
            },
        }
    }
}

/// Reads the raw bytes of `count` directory index entries from `cursor` on.
fn read_directory_index(
    r: &[u8],
    algorithm: Algorithm,
    start: u64,
    cursor: MetadataCursor,
    count: u16,
) -> (res: Result<(Vec<u8>, MetadataCursor), SqsError>)
    ensures
        match spec_dir_index(r@, algorithm, start, cursor, count as nat) {
            Ok((d, c)) => res is Ok && res->Ok_0.0@ == d && res->Ok_0.1 == c,
            Err(e) => res == Err::<(Vec<u8>, MetadataCursor), SqsError>(e),
        },
{
    let ghost img = r@;
    let ghost total = spec_dir_index(img, algorithm, start, cursor, count as nat);
    let mut out: Vec<u8> = Vec::new();
    let mut cur = cursor;
    let mut i: u16 = 0;
    assert(total == prepend_read(out@, spec_dir_index(img, algorithm, start, cur, count as nat)))
        by {
        if let Ok((d, c)) = total {
            assert(Seq::<u8>::empty() + d =~= d);
        }
    }
    while i < count
        invariant
            img == r@,
            i <= count,
            total == spec_dir_index(img, algorithm, start, cursor, count as nat),
            total == prepend_read(
                out@,
                spec_dir_index(img, algorithm, start, cur, (count - i) as nat),
            ),
        decreases count - i,
    {
        let (mut head, c1) = match read_metadata(r, algorithm, start, cur, DIRECTORY_INDEX_HEADER_SIZE) {
            Ok(x) => x,
            Err(e) => return Err(e),
        };
        let name_size = read_u32_le(head.as_slice(), 8);
        let (mut name, c2) = match read_metadata_long(r, algorithm, start, c1, name_size as u64 + 1) {
            Ok(x) => x,
            Err(e) => return Err(e),
        };
        let ghost before = out@;
        let ghost h = head@;
        let ghost nm = name@;
        out.append(&mut head);
        out.append(&mut name);
        proof {
            let rest = spec_dir_index(img, algorithm, start, c2, (count - i - 1) as nat);
            if let Ok((d, c)) = rest {
                assert(before + (h + nm + d) =~= out@ + d);
            }
        }
        cur = c2;
        i = i + 1;
    }
    proof {
        assert(out@ + Seq::<u8>::empty() =~= out@);
    }
    Ok((out, cur))
}

/// Reads 16 bytes at `cursor` of the inode table and decodes them as an
/// inode header.
fn read_raw_inode_header(r: &[u8], sb: Superblock, cursor: MetadataCursor) -> (res: Result<
    (InodeHeader, MetadataCursor),
    SqsError,
>)
    ensures
        res == spec_read_raw_inode_header(r@, sb, cursor),
{
    let (bytes, c1) = match read_metadata(
        r,
        sb.inode_compressor(),
        sb.inode_table_start,
        cursor,
        INODE_HEADER_SIZE,
    ) {
        Ok(x) => x,
        Err(e) => return Err(e),
    };
    match parse_inode_header(bytes.as_slice()) {
        Ok(h) => Ok((h, c1)),
        Err(e) => Err(e),
    }
}

/// Reads the inode header at `cursor` of the inode table and returns it with
/// the cursor just past it.
pub fn read_inode_header(r: &[u8], sb: Superblock, cursor: MetadataCursor) -> (res: Result<
    (InodeHeader, MetadataCursor),
    SqsError,
>)
    ensures
        res == spec_read_inode_header(r@, sb, cursor),
        res is Ok ==> 1 <= res->Ok_0.0.inode_number <= sb.inode_count,
        res is Ok ==> 1 <= res->Ok_0.0.inode_type.spec_value() <= 14,
{
    let (header, c1) = match read_raw_inode_header(r, sb, cursor) {
        Ok(x) => x,
        Err(e) => return Err(e),
    };
    if header.inode_number < 1 || header.inode_number > sb.inode_count {
        return Err(SqsError::BadInodeNumber);
    }
    Ok((header, c1))
}

/// Reads the body and tail of the inode whose `header` was read up to
/// `cursor`, and returns the inode with the cursor just past it.
pub fn read_inode_body(
    r: &[u8],
    sb: Superblock,
    header: InodeHeader,
    cursor: MetadataCursor,
) -> (res: Result<(Inode, MetadataCursor), SqsError>)
    requires
        is_block_size_with_log(sb.block_size as int, sb.block_log as int),
    ensures
        match spec_read_inode_body(r@, sb, header, cursor) {
            Ok((v, c)) => res is Ok && res->Ok_0.0@ == v && res->Ok_0.1 == c,
            Err(e) => res is Err && res->Err_0 == e,
        },
{
    proof {
        lemma2_to64();
        if sb.block_log > 12 {
            lemma_pow2_strictly_increases(12, sb.block_log as nat);
        }
    }
    let algorithm = sb.inode_compressor();
    let start = sb.inode_table_start;
    let t = header.inode_type;
    let (raw, c1) = match read_metadata(r, algorithm, start, cursor, t.body_size()) {
        Ok(x) => x,
        Err(e) => return Err(e),
    };
    let body = match parse_inode_body(raw.as_slice(), t) {
        Ok(b) => b,
        Err(e) => return Err(e),
    };
    let mut block_sizes: Vec<u32> = Vec::new();
    let mut extra: Vec<u8> = Vec::new();
    let mut c2 = c1;
    let file_size: Option<(u64, u32)> = match body {
        InodeBody::BasicFile(f) => Some((f.size as u64, f.fragment_block_idx)),
        InodeBody::ExtendedFile(f) => Some((f.size, f.fragment_block_idx)),
        _ => None,
    };
    let raw_len: Option<u64> = match body {
        InodeBody::BasicSymlink(l) => Some(l.target_size as u64),
        InodeBody::ExtendedSymlink(l) => Some(l.target_size as u64),
        _ => None,
    };
    if let Some((size, fragment)) = file_size {
        let count = block_list_count(size, sb.block_size, fragment);
        let (list, c) = match read_metadata_long(r, algorithm, start, c1, 4 * count) {
            Ok(x) => x,
            Err(e) => return Err(e),
        };
        let mut bytes: &[u8] = list.as_slice();
        block_sizes = match parse_id_tab(&mut bytes) {
            Ok(v) => v,
            Err(e) => return Err(e),
        };
        c2 = c;
    } else if let Some(n) = raw_len {
        let (target, c) = match read_metadata_long(r, algorithm, start, c1, n) {
            Ok(x) => x,
            Err(e) => return Err(e),
        };
        extra = target;
        c2 = c;
    } else if let InodeBody::ExtendedDirectory(d) = body {
        let (index, c) = match read_directory_index(r, algorithm, start, c1, d.inodex_count) {
            Ok(x) => x,
            Err(e) => return Err(e),
        };
        extra = index;
        c2 = c;
    }
    Ok((Inode { header, body, block_sizes, extra }, c2))
}

/// Reads the inode at (`block`, `offset`) of the inode table: its header,
/// which must be of type `inode_type` and then carry a number in
/// `[1, inode_count]`, then its body and tail. The superblock must carry a
/// valid block size.
pub fn get_inode(r: &[u8], sb: Superblock, block: u64, offset: u32, inode_type: InodeType) -> (res:
    Result<Inode, SqsError>)
    ensures
        match spec_get_inode(r@, sb, MetadataCursor { block, offset }, inode_type) {
            Ok(v) => res is Ok && res->Ok_0@ == v,
            Err(e) => res is Err && res->Err_0 == e,
        },
        res is Ok ==> 1 <= res->Ok_0.header.inode_number <= sb.inode_count,
        res is Ok ==> 1 <= res->Ok_0.header.inode_type.spec_value() <= 14,
        res is Ok ==> res->Ok_0.header.inode_type == inode_type,
{
    if !sb.has_valid_block_size() {
        return Err(SqsError::BadBlockSize);
    }
    let cursor = MetadataCursor { block, offset };
    let (header, c1) = match read_raw_inode_header(r, sb, cursor) {
        Ok(x) => x,
        Err(e) => return Err(e),
    };
    if header.inode_type != inode_type {
        return Err(SqsError::InodeTypeMismatch);
    }
    if header.inode_number < 1 || header.inode_number > sb.inode_count {
        return Err(SqsError::BadInodeNumber);
    }
    match read_inode_body(r, sb, header, c1) {
        Ok((inode, _)) => Ok(inode),
        Err(e) => Err(e),
    }
}

/// The headers of the first `k` inodes of the inode table, read one after
/// the other from its start, and the cursor after the last.
pub open spec fn spec_inode_walk(img: Seq<u8>, sb: Superblock, k: nat) -> Result<
    (Seq<InodeHeader>, MetadataCursor),
    SqsError,
>
    decreases k,
{
    if k == 0 {
        Ok((Seq::empty(), MetadataCursor { block: 0, offset: 0 }))
    } else {
        match spec_inode_walk(img, sb, (k - 1) as nat) {
            Err(e) => Err(e),
            Ok((headers, c)) => match spec_read_inode_header(img, sb, c) {
                Err(e) => Err(e),
                Ok((header, c1)) => match spec_read_inode_body(img, sb, header, c1) {
                    Err(e) => Err(e),
                    Ok((_, c2)) => Ok((headers.push(header), c2)),
                },
            },
        }
    }
}

/// Once the walk fails after `k` inodes, it fails the same way after `m >= k`.
proof fn lemma_inode_walk_err(img: Seq<u8>, sb: Superblock, k: nat, m: nat)
    requires
        k <= m,
        spec_inode_walk(img, sb, k) is Err,
    ensures
        spec_inode_walk(img, sb, m) == spec_inode_walk(img, sb, k),
    decreases m - k,
{
    if k < m {
        lemma_inode_walk_err(img, sb, k, (m - 1) as nat);
    }
}

/// The headers of all inodes of an archive, in inode-table order.
#[derive(Clone, Debug)]
pub struct InodeTab {
    pub data: Vec<InodeHeader>,
}

impl InodeTab {
    pub fn new() -> (r: InodeTab)
        ensures
            r.data@.len() == 0,
    {
        InodeTab { data: Vec::new() }
    }

    /// Walks the inode table from its start, decoding `inode_count` inodes
    /// one after the other, and keeps their headers. The superblock must
    /// carry a valid block size. On an error `self` is left as it was.
    pub fn load(&mut self, r: &[u8], sb: Superblock) -> (res: Result<(), SqsError>)
        ensures
            res is Ok ==> forall|i: int|
                0 <= i < final(self).data@.len() ==> 1 <= (#[trigger] final(self).data@[i]).inode_number
                    <= sb.inode_count,
            !sb.spec_has_valid_block_size() ==> res == Err::<(), SqsError>(SqsError::BadBlockSize)
                && final(self).data@ == old(self).data@,
            sb.spec_has_valid_block_size() ==> match spec_inode_walk(r@, sb, sb.inode_count as nat) {
                Ok((headers, _)) => res is Ok && final(self).data@ == headers,
                Err(e) => res == Err::<(), SqsError>(e) && final(self).data@ == old(self).data@,
            },
    {
        if !sb.has_valid_block_size() {
            return Err(SqsError::BadBlockSize);
        }
        let mut headers: Vec<InodeHeader> = Vec::new();
        let mut cursor = MetadataCursor { block: 0, offset: 0 };
        let mut i: u32 = 0;
        while i < sb.inode_count
            invariant
                i <= sb.inode_count,
                is_block_size_with_log(sb.block_size as int, sb.block_log as int),
                forall|j: int|
                    0 <= j < headers@.len() ==> 1 <= (#[trigger] headers@[j]).inode_number
                        <= sb.inode_count,
                spec_inode_walk(r@, sb, i as nat) == Ok::<
                    (Seq<InodeHeader>, MetadataCursor),
                    SqsError,
                >((headers@, cursor)),
            decreases sb.inode_count - i,
        {
            let step = match read_inode_header(r, sb, cursor) {
                Ok((header, c1)) => match read_inode_body(r, sb, header, c1) {
                    Ok((_, c2)) => Ok((header, c2)),
                    Err(e) => Err(e),
                },
                Err(e) => Err(e),
            };
            match step {
                Ok((header, c2)) => {
                    headers.push(header);
                    cursor = c2;
                },
                Err(e) => {
                    proof {
                        assert(spec_inode_walk(r@, sb, (i + 1) as nat) == Err::<
                            (Seq<InodeHeader>, MetadataCursor),
                            SqsError,
                        >(e));
                        lemma_inode_walk_err(r@, sb, (i + 1) as nat, sb.inode_count as nat);
                    }
                    return Err(e);
                },
            }
            i = i + 1;
        }
        self.data = headers;
        Ok(())
    }
}

impl Default for InodeTab {
    fn default() -> (r: InodeTab)
        ensures
            r.data@.len() == 0,
    {
        InodeTab::new()
    }
}

} // verus!
