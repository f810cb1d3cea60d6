//! The metadata record a successful `statat` returns.

use vstd::prelude::*;

use crate::time::Timespec;

verus! {

/// Mask selecting the file-type bits of a mode value.
pub const S_IFMT: u32 = 0o170000;

/// File-type bits of a directory.
pub const S_IFDIR: u32 = 0o040000;

/// File-type bits of a regular file.
pub const S_IFREG: u32 = 0o100000;

/// File-type bits of a symbolic link.
pub const S_IFLNK: u32 = 0o120000;

/// File metadata, populated entirely by a successful native call. The shim
/// that performs the call builds this record only after the call reported
/// success, so no field ever holds indeterminate data.
#[derive(Clone, Copy, Debug, PartialEq, Eq, Structural)]
pub struct Stat {
    /// Device holding the file.
    pub dev: u64,
    /// Inode number.
    pub ino: u64,
    /// Number of hard links.
    pub nlink: u64,
    /// File type and permission bits.
    pub mode: u32,
    /// Owning user id.
    pub uid: u32,
    /// Owning group id.
    pub gid: u32,
    /// Device number, for device special files.
    pub rdev: u64,
    /// Size in bytes.
    pub size: i64,
    /// Preferred block size for I/O.
    pub blksize: i64,
    /// Number of allocated blocks.
    pub blocks: i64,
    /// Last access time.
    pub atime: Timespec,
    /// Last modification time.
    pub mtime: Timespec,
    /// Last status change time.
    pub ctime: Timespec,
}

impl Stat {
    /// Whether the record describes a directory.
    pub fn is_dir(&self) -> (r: bool)
        ensures
            r == (self.mode & S_IFMT == S_IFDIR),
    {
        self.mode & S_IFMT == S_IFDIR
    }

    /// Whether the record describes a regular file.
    pub fn is_file(&self) -> (r: bool)
        ensures
            r == (self.mode & S_IFMT == S_IFREG),
    {
        self.mode & S_IFMT == S_IFREG
    }

    /// Whether the record describes a symbolic link.
    pub fn is_symlink(&self) -> (r: bool)
        ensures
            r == (self.mode & S_IFMT == S_IFLNK),
    {
        self.mode & S_IFMT == S_IFLNK
    }
}

} // verus!
