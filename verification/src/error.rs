//! The error type shared by every operation, and the two translators that
//! turn a native call's raw return value into a structured result.

use vstd::prelude::*;

verus! {

/// Outcome of a failed operation.
///
/// Native call failures carry the platform's numeric error code verbatim, so
/// callers can match on platform-specific kinds. Path conversion failures are
/// raised before any native call is attempted. Operations gated behind
/// optional platform features report `Unsupported` distinctly, so callers can
/// tell "try a fallback" from a genuine failure.
#[derive(Clone, Copy, Debug, PartialEq, Eq, Structural)]
pub enum Error {
    /// The path argument holds an embedded null byte and cannot be
    /// represented as a null-terminated byte string.
    InvalidPath,
    /// The operation is not available on this system.
    Unsupported,
    /// The native call failed; the payload is the platform's error code,
    /// unchanged.
    Os(i32),
}

/// Translates a return convention where zero means success and any other
/// value means failure, with the error code taken from the platform's
/// last-error slot.
pub fn zero_ok(ret: i64, errno: i32) -> (r: Result<(), Error>)
    ensures
        ret == 0 ==> r is Ok,
        ret != 0 ==> (r matches Err(e) && e == Error::Os(errno)),
{
    if ret == 0 {
        Ok(())
    } else {
        Err(Error::Os(errno))
    }
}

/// Translates a return convention where a strictly negative value means
/// failure and any other value is the successful result.
pub fn negone_err(ret: i64, errno: i32) -> (r: Result<i64, Error>)
    ensures
        ret >= 0 ==> (r matches Ok(v) && v == ret),
        ret < 0 ==> (r matches Err(e) && e == Error::Os(errno)),
{
    if ret >= 0 {
        Ok(ret)
    } else {
        Err(Error::Os(errno))
    }
}

} // verus!
