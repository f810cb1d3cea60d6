//! High-resolution timestamps for `utimensat`.

use vstd::prelude::*;

verus! {

/// Sentinel nanosecond value: set the timestamp to the current time. Passed
/// through verbatim; the kernel interprets it, not this layer.
pub const UTIME_NOW: i64 = 0x3fffffff;

/// Sentinel nanosecond value: leave the timestamp unchanged. Passed through
/// verbatim; the kernel interprets it, not this layer.
pub const UTIME_OMIT: i64 = 0x3ffffffe;

/// A timestamp in seconds and nanoseconds, as the native call takes it.
/// The nanosecond field may hold one of the sentinel values above.
#[derive(Clone, Copy, Debug, PartialEq, Eq, Structural)]
pub struct Timespec {
    /// Whole seconds.
    pub sec: i64,
    /// Nanoseconds, or a sentinel.
    pub nsec: i64,
}

} // verus!
