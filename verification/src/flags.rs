//! Opaque flag and mode bundles.
//!
//! Each is a flat set of named bits consumed opaquely by this layer: the
//! numeric value is forwarded to the native call unchanged, with no
//! interpretation imposed here. The named constants are the bits the
//! operations in this crate are documented against.

use vstd::prelude::*;

verus! {

/// Resolve the terminal component of the path without following it if it is
/// a symbolic link.
pub const AT_SYMLINK_NOFOLLOW: i32 = 0x100;

/// Remove an (empty) directory instead of a non-directory entry.
pub const AT_REMOVEDIR: i32 = 0x200;

/// Check access using the effective rather than the real user and group ids.
pub const AT_EACCESS: i32 = 0x200;

/// Follow the source path if it is a symbolic link.
pub const AT_SYMLINK_FOLLOW: i32 = 0x400;

/// Open-time flags for `openat`.
#[derive(Clone, Copy, Debug, PartialEq, Eq, Structural)]
pub struct OFlags {
    bits: i32,
}

impl OFlags {
    /// The raw bit pattern forwarded to the native call.
    pub closed spec fn bits_spec(&self) -> i32 {
        self.bits
    }

    /// Wraps a raw bit pattern.
    pub fn from_bits(bits: i32) -> (r: OFlags)
        ensures
            r.bits_spec() == bits,
    {
        OFlags { bits }
    }

    /// The raw bit pattern.
    pub fn bits(&self) -> (r: i32)
        ensures
            r == self.bits_spec(),
    {
        self.bits
    }
}

/// Permission bits for created or changed filesystem objects.
#[derive(Clone, Copy, Debug, PartialEq, Eq, Structural)]
pub struct Mode {
    bits: u32,
}

impl Mode {
    /// The raw bit pattern forwarded to the native call.
    pub closed spec fn bits_spec(&self) -> u32 {
        self.bits
    }

    /// Wraps a raw bit pattern.
    pub fn from_bits(bits: u32) -> (r: Mode)
        ensures
            r.bits_spec() == bits,
    {
        Mode { bits }
    }

    /// The raw bit pattern.
    pub fn bits(&self) -> (r: u32)
        ensures
            r == self.bits_spec(),
    {
        self.bits
    }
}

/// Behavior flags shared by the directory-relative calls (symlink
/// following, directory removal, and the like).
#[derive(Clone, Copy, Debug, PartialEq, Eq, Structural)]
pub struct AtFlags {
    bits: i32,
}

impl AtFlags {
    /// The raw bit pattern forwarded to the native call.
    pub closed spec fn bits_spec(&self) -> i32 {
        self.bits
    }

    /// Wraps a raw bit pattern.
    pub fn from_bits(bits: i32) -> (r: AtFlags)
        ensures
            r.bits_spec() == bits,
    {
        AtFlags { bits }
    }

    /// The empty flag set.
    pub fn empty() -> (r: AtFlags)
        ensures
            r.bits_spec() == 0,
    {
        AtFlags { bits: 0 }
    }

    /// The raw bit pattern.
    pub fn bits(&self) -> (r: i32)
        ensures
            r == self.bits_spec(),
    {
        self.bits
    }
}

/// Access classes probed by `accessat` (read, write, execute, existence).
#[derive(Clone, Copy, Debug, PartialEq, Eq, Structural)]
pub struct Access {
    bits: i32,
}

impl Access {
    /// The raw bit pattern forwarded to the native call.
    pub closed spec fn bits_spec(&self) -> i32 {
        self.bits
    }

    /// Wraps a raw bit pattern.
    pub fn from_bits(bits: i32) -> (r: Access)
        ensures
            r.bits_spec() == bits,
    {
        Access { bits }
    }

    /// The raw bit pattern.
    pub fn bits(&self) -> (r: i32)
        ensures
            r == self.bits_spec(),
    {
        self.bits
    }
}

/// Flags for the copy-on-write file clone operation.
#[derive(Clone, Copy, Debug, PartialEq, Eq, Structural)]
pub struct CloneFlags {
    bits: i32,
}

impl CloneFlags {
    /// The raw bit pattern forwarded to the native call.
    pub closed spec fn bits_spec(&self) -> i32 {
        self.bits
    }

    /// Wraps a raw bit pattern.
    pub fn from_bits(bits: i32) -> (r: CloneFlags)
        ensures
            r.bits_spec() == bits,
    {
        CloneFlags { bits }
    }

    /// The raw bit pattern.
    pub fn bits(&self) -> (r: i32)
        ensures
            r == self.bits_spec(),
    {
        self.bits
    }
}

} // verus!
