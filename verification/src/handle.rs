//! Directory and file handles, including the non-owned ambient
//! "current working directory" handle.

use vstd::prelude::*;

verus! {

/// The reserved descriptor value the native calls read as "resolve this path
/// relative to the process's current working directory".
pub const AT_FDCWD: i32 = -100;

/// A reference to an open directory, or the ambient current-working-directory
/// sentinel.
///
/// An ambient handle refers to an ambient authority rather than an open
/// resource: it must never be released. `is_ambient` lets generic closing
/// logic skip it.
#[derive(Clone, Copy, Debug, PartialEq, Eq, Structural)]
pub struct DirHandle {
    fd: i32,
    ambient: bool,
}

impl DirHandle {
    /// The raw descriptor value handed to native calls.
    pub closed spec fn fd_spec(&self) -> i32 {
        self.fd
    }

    /// Whether this is the non-owned current-working-directory sentinel.
    pub closed spec fn is_ambient_spec(&self) -> bool {
        self.ambient
    }

    /// Well-formed: the ambient handle carries exactly the reserved sentinel
    /// value, and an owned handle carries a real (non-negative) descriptor.
    pub open spec fn wf(&self) -> bool {
        if self.is_ambient_spec() {
            self.fd_spec() == AT_FDCWD
        } else {
            self.fd_spec() >= 0
        }
    }

    /// Wraps a descriptor of an open directory. The caller stays responsible
    /// for closing it exactly once.
    pub fn from_fd(fd: i32) -> (r: DirHandle)
        requires
            fd >= 0,
        ensures
            r.fd_spec() == fd,
            !r.is_ambient_spec(),
            r.wf(),
    {
        DirHandle { fd, ambient: false }
    }

    /// The raw descriptor value.
    pub fn as_raw_fd(&self) -> (r: i32)
        ensures
            r == self.fd_spec(),
    {
        self.fd
    }

    /// True for the ambient sentinel, which must never be closed.
    pub fn is_ambient(&self) -> (r: bool)
        ensures
            r == self.is_ambient_spec(),
    {
        self.ambient
    }
}

/// Returns the handle for the process's current working directory. It wraps
/// the reserved sentinel value, not an open resource, so it is marked
/// ambient and must never be closed by the caller or by this layer.
pub fn cwd() -> (r: DirHandle)
    ensures
        r.is_ambient_spec(),
        r.fd_spec() == AT_FDCWD,
        r.wf(),
{
    DirHandle { fd: AT_FDCWD, ambient: true }
}

/// An open file descriptor returned by a successful `openat`, exclusively
/// owned by the caller, who must release it exactly once.
#[derive(Clone, Copy, Debug, PartialEq, Eq, Structural)]
pub struct FileHandle {
    fd: i32,
}

impl FileHandle {
    /// The raw descriptor value.
    pub closed spec fn fd_spec(&self) -> i32 {
        self.fd
    }

    /// Well-formed: a real descriptor, never the sentinel.
    pub open spec fn wf(&self) -> bool {
        self.fd_spec() >= 0
    }

    /// Takes ownership of a descriptor returned by a native call.
    pub fn from_fd(fd: i32) -> (r: FileHandle)
        requires
            fd >= 0,
        ensures
            r.fd_spec() == fd,
            r.wf(),
    {
        FileHandle { fd }
    }

    /// The raw descriptor value.
    pub fn as_raw_fd(&self) -> (r: i32)
        ensures
            r == self.fd_spec(),
    {
        self.fd
    }

    /// Reuses an open file descriptor as a directory handle, for operations
    /// resolved relative to it. Ownership is unchanged: the caller still
    /// closes the descriptor exactly once.
    pub fn into_dir(self) -> (r: DirHandle)
        requires
            self.wf(),
        ensures
            r.fd_spec() == self.fd_spec(),
            !r.is_ambient_spec(),
            r.wf(),
    {
        DirHandle { fd: self.fd, ambient: false }
    }
}

} // verus!
