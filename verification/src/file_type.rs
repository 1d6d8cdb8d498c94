//! The kernel's file-type tags and their decoded form.

use vstd::prelude::*;

verus! {

/// Tag for an unknown file type.
pub const DT_UNKNOWN: u8 = 0;

/// Tag for a FIFO.
pub const DT_FIFO: u8 = 1;

/// Tag for a character device.
pub const DT_CHR: u8 = 2;

/// Tag for a directory.
pub const DT_DIR: u8 = 4;

/// Tag for a block device.
pub const DT_BLK: u8 = 6;

/// Tag for a regular file.
pub const DT_REG: u8 = 8;

/// Tag for a symbolic link.
pub const DT_LNK: u8 = 10;

/// Tag for a socket.
pub const DT_SOCK: u8 = 12;

/// The kind of filesystem object a directory entry refers to: the closed
/// set of kernel-defined type tags.
#[derive(Clone, Copy, Debug, PartialEq, Eq, Structural)]
pub enum FileType {
    /// A regular file.
    RegularFile,
    /// A directory.
    Directory,
    /// A symbolic link.
    Symlink,
    /// A FIFO.
    Fifo,
    /// A socket.
    Socket,
    /// A character device.
    CharacterDevice,
    /// A block device.
    BlockDevice,
    /// Any other tag the kernel may emit.
    Unknown,
}

/// The file type a kernel type tag decodes to.
pub open spec fn file_type_of(d_type: u8) -> FileType {
    if d_type == DT_REG {
        FileType::RegularFile
    } else if d_type == DT_DIR {
        FileType::Directory
    } else if d_type == DT_LNK {
        FileType::Symlink
    } else if d_type == DT_FIFO {
        FileType::Fifo
    } else if d_type == DT_SOCK {
        FileType::Socket
    } else if d_type == DT_CHR {
        FileType::CharacterDevice
    } else if d_type == DT_BLK {
        FileType::BlockDevice
    } else {
        FileType::Unknown
    }
}

impl FileType {
    /// Decode a kernel type tag.
    pub fn from_dirent_d_type(d_type: u8) -> (r: FileType)
        ensures
            r == file_type_of(d_type),
    {
        if d_type == DT_REG {
            FileType::RegularFile
        } else if d_type == DT_DIR {
            FileType::Directory
        } else if d_type == DT_LNK {
            FileType::Symlink
        } else if d_type == DT_FIFO {
            FileType::Fifo
        } else if d_type == DT_SOCK {
            FileType::Socket
        } else if d_type == DT_CHR {
            FileType::CharacterDevice
        } else if d_type == DT_BLK {
            FileType::BlockDevice
        } else {
            FileType::Unknown
        }
    }
}

} // verus!
