//! The directory-relative operations.
//!
//! Each operation is stateless and independent: a front end converts the
//! caller's arguments into a call record holding exactly the plain values
//! the native entry point takes, and — where the raw result needs more than
//! the shared translators in `error` — a back end interprets what came back.
//! Path conversion fails before any native call could be attempted, so a
//! path with an embedded null byte never reaches the boundary.

use vstd::prelude::*;

use crate::error::Error;
use crate::flags::{Access, AtFlags, CloneFlags, Mode, OFlags};
use crate::handle::{DirHandle, FileHandle};
use crate::path::{has_nul, CPath};
use crate::time::Timespec;

verus! {

/// The platform's maximum path length; symlink targets fit in one buffer of
/// this size plus one byte.
pub const PATH_MAX: usize = 4096;

/// Starting buffer size for the growing-buffer symlink read strategy: big
/// enough for the vast majority of targets.
pub const READLINK_INITIAL_BUFSIZE: usize = 256;

/// Marshaled arguments of an `openat` call.
#[derive(Debug)]
pub struct OpenatCall {
    /// Raw directory descriptor the path is resolved against.
    pub dirfd: i32,
    /// Null-terminated path.
    pub path: CPath,
    /// Open-time flag bits, forwarded unchanged.
    pub oflags: i32,
    /// Permission bits for a created file, forwarded unchanged.
    pub mode: u32,
}

/// `openat(dirfd, path, oflags, mode)`: marshals the arguments for opening
/// a file relative to a directory handle.
pub fn openat(dirfd: &DirHandle, path: &[u8], oflags: OFlags, mode: Mode) -> (r: Result<
    OpenatCall,
    Error,
>)
    ensures
        has_nul(path@) <==> (r matches Err(e) && e == Error::InvalidPath),
        !has_nul(path@) ==> (r matches Ok(c) && c.dirfd == dirfd.fd_spec() && c.path@ == path@.push(
            0u8,
        ) && c.path.wf() && c.oflags == oflags.bits_spec() && c.mode == mode.bits_spec()),
{
    let path = match CPath::new(path) {
        Ok(p) => p,
        Err(e) => return Err(e),
    };
    Ok(OpenatCall { dirfd: dirfd.as_raw_fd(), path, oflags: oflags.bits(), mode: mode.bits() })
}

/// Interprets the raw return of the native open call: a non-negative value
/// is a fresh descriptor whose ownership passes to the caller; a negative
/// value is a failure carrying the platform's error code.
pub fn openat_finish(ret: i32, errno: i32) -> (r: Result<FileHandle, Error>)
    ensures
        ret >= 0 ==> (r matches Ok(h) && h.fd_spec() == ret && h.wf()),
        ret < 0 ==> (r matches Err(e) && e == Error::Os(errno)),
{
    if ret >= 0 {
        Ok(FileHandle::from_fd(ret))
    } else {
        Err(Error::Os(errno))
    }
}

/// Marshaled arguments of a `readlinkat` call using the single fixed-size
/// buffer strategy.
#[derive(Debug)]
pub struct ReadlinkatCall {
    /// Raw directory descriptor the path is resolved against.
    pub dirfd: i32,
    /// Null-terminated path.
    pub path: CPath,
    /// Buffer size the shim must allocate: the platform maximum plus one.
    pub bufsize: usize,
}

/// `readlinkat(dirfd, path)`: marshals the arguments for reading a symlink
/// target relative to a directory handle. On this platform a reliable
/// maximum path length exists, so one buffer of `bufsize` bytes suffices.
pub fn readlinkat(dirfd: &DirHandle, path: &[u8]) -> (r: Result<ReadlinkatCall, Error>)
    ensures
        has_nul(path@) <==> (r matches Err(e) && e == Error::InvalidPath),
        !has_nul(path@) ==> (r matches Ok(c) && c.dirfd == dirfd.fd_spec() && c.path@ == path@.push(
            0u8,
        ) && c.path.wf() && c.bufsize == PATH_MAX + 1),
{
    let path = match CPath::new(path) {
        Ok(p) => p,
        Err(e) => return Err(e),
    };
    Ok(ReadlinkatCall { dirfd: dirfd.as_raw_fd(), path, bufsize: PATH_MAX + 1 })
}

/// Interprets the raw return of the native symlink read: a non-negative
/// value counts the bytes written at the front of the buffer, and the result
/// is exactly those bytes — no implicit null terminator included.
pub fn readlinkat_finish(buffer: &[u8], ret: i64, errno: i32) -> (r: Result<Vec<u8>, Error>)
    requires
        ret >= 0 ==> ret as int <= buffer@.len(),
    ensures
        ret < 0 ==> (r matches Err(e) && e == Error::Os(errno)),
        ret >= 0 ==> (r matches Ok(v) && v@ == buffer@.subrange(0, ret as int)),
{
    if ret < 0 {
        return Err(Error::Os(errno));
    }
    let len = buffer.len();
    assert(0 <= ret as int <= len as int);
    let n = ret as usize;
    Ok(copy_prefix(buffer, n))
}

/// One step of the growing-buffer symlink read strategy, for platforms
/// without a reliable maximum path length.
#[derive(Debug)]
pub enum ReadlinkStep {
    /// The target fit strictly inside the buffer: exactly these bytes.
    Done(Vec<u8>),
    /// The buffer was filled completely, which cannot be told apart from
    /// truncation: retry with a buffer of this strictly larger size.
    Retry(usize),
}

/// Decides, from a filled buffer and the raw return of one native symlink
/// read, whether the target was read completely or the read must be retried
/// with a strictly larger buffer. The retry sizes grow monotonically, so the
/// loop terminates for every finite target.
pub fn readlinkat_step(buffer: &[u8], ret: i64, errno: i32) -> (r: Result<ReadlinkStep, Error>)
    requires
        1 <= buffer@.len() < usize::MAX,
        ret >= 0 ==> ret as int <= buffer@.len(),
    ensures
        ret < 0 ==> (r matches Err(e) && e == Error::Os(errno)),
        0 <= ret && (ret as int) < buffer@.len() ==> (r matches Ok(s) && s matches
            ReadlinkStep::Done(v) && v@ == buffer@.subrange(0, ret as int)),
        ret as int == buffer@.len() ==> (r matches Ok(s) && s matches ReadlinkStep::Retry(c) && c
            > buffer@.len() && c as int == (if buffer@.len() as int * 2 <= usize::MAX as int {
            buffer@.len() as int * 2
        } else {
            usize::MAX as int
        })),
{
    if ret < 0 {
        return Err(Error::Os(errno));
    }
    let len = buffer.len();
    assert(0 <= ret as int <= len as int);
    let n = ret as usize;
    if n < len {
        Ok(ReadlinkStep::Done(copy_prefix(buffer, n)))
    } else {
        let new_size: usize = if len <= usize::MAX / 2 {
            len * 2
        } else {
            usize::MAX
        };
        Ok(ReadlinkStep::Retry(new_size))
    }
}

/// Marshaled arguments of a `mkdirat` call.
#[derive(Debug)]
pub struct MkdiratCall {
    /// Raw directory descriptor the path is resolved against.
    pub dirfd: i32,
    /// Null-terminated path.
    pub path: CPath,
    /// Permission bits for the new directory, forwarded unchanged.
    pub mode: u32,
}

/// `mkdirat(dirfd, path, mode)`: marshals the arguments for creating a
/// directory relative to a directory handle. An already existing entry is a
/// normal native failure, not special-cased here.
pub fn mkdirat(dirfd: &DirHandle, path: &[u8], mode: Mode) -> (r: Result<MkdiratCall, Error>)
    ensures
        has_nul(path@) <==> (r matches Err(e) && e == Error::InvalidPath),
        !has_nul(path@) ==> (r matches Ok(c) && c.dirfd == dirfd.fd_spec() && c.path@ == path@.push(
            0u8,
        ) && c.path.wf() && c.mode == mode.bits_spec()),
{
    let path = match CPath::new(path) {
        Ok(p) => p,
        Err(e) => return Err(e),
    };
    Ok(MkdiratCall { dirfd: dirfd.as_raw_fd(), path, mode: mode.bits() })
}

/// Marshaled arguments of a `linkat` call.
#[derive(Debug)]
pub struct LinkatCall {
    /// Raw directory descriptor the source path is resolved against.
    pub old_dirfd: i32,
    /// Null-terminated source path.
    pub old_path: CPath,
    /// Raw directory descriptor the destination path is resolved against.
    pub new_dirfd: i32,
    /// Null-terminated destination path.
    pub new_path: CPath,
    /// Behavior flag bits (source symlink following), forwarded unchanged.
    pub flags: i32,
}

/// `linkat(old_dirfd, old_path, new_dirfd, new_path, flags)`: marshals the
/// arguments for creating a second directory entry for an existing file.
pub fn linkat(
    old_dirfd: &DirHandle,
    old_path: &[u8],
    new_dirfd: &DirHandle,
    new_path: &[u8],
    flags: AtFlags,
) -> (r: Result<LinkatCall, Error>)
    ensures
        (has_nul(old_path@) || has_nul(new_path@)) <==> (r matches Err(e) && e
            == Error::InvalidPath),
        !has_nul(old_path@) && !has_nul(new_path@) ==> (r matches Ok(c) && c.old_dirfd
            == old_dirfd.fd_spec() && c.old_path@ == old_path@.push(0u8) && c.old_path.wf()
            && c.new_dirfd == new_dirfd.fd_spec() && c.new_path@ == new_path@.push(0u8)
            && c.new_path.wf() && c.flags == flags.bits_spec()),
{
    let old_path = match CPath::new(old_path) {
        Ok(p) => p,
        Err(e) => return Err(e),
    };
    let new_path = match CPath::new(new_path) {
        Ok(p) => p,
        Err(e) => return Err(e),
    };
    Ok(
        LinkatCall {
            old_dirfd: old_dirfd.as_raw_fd(),
            old_path,
            new_dirfd: new_dirfd.as_raw_fd(),
            new_path,
            flags: flags.bits(),
        },
    )
}

/// Marshaled arguments of an `unlinkat` call.
#[derive(Debug)]
pub struct UnlinkatCall {
    /// Raw directory descriptor the path is resolved against.
    pub dirfd: i32,
    /// Null-terminated path.
    pub path: CPath,
    /// Behavior flag bits, forwarded unchanged; they alone select whether a
    /// file or an empty directory may be removed — the target's type is not
    /// inspected first.
    pub flags: i32,
}

/// `unlinkat(dirfd, path, flags)`: marshals the arguments for removing a
/// directory entry relative to a directory handle.
pub fn unlinkat(dirfd: &DirHandle, path: &[u8], flags: AtFlags) -> (r: Result<UnlinkatCall, Error>)
    ensures
        has_nul(path@) <==> (r matches Err(e) && e == Error::InvalidPath),
        !has_nul(path@) ==> (r matches Ok(c) && c.dirfd == dirfd.fd_spec() && c.path@ == path@.push(
            0u8,
        ) && c.path.wf() && c.flags == flags.bits_spec()),
{
    let path = match CPath::new(path) {
        Ok(p) => p,
        Err(e) => return Err(e),
    };
    Ok(UnlinkatCall { dirfd: dirfd.as_raw_fd(), path, flags: flags.bits() })
}

/// Marshaled arguments of a `renameat` call.
#[derive(Debug)]
pub struct RenameatCall {
    /// Raw directory descriptor the source path is resolved against.
    pub old_dirfd: i32,
    /// Null-terminated source path.
    pub old_path: CPath,
    /// Raw directory descriptor the destination path is resolved against.
    pub new_dirfd: i32,
    /// Null-terminated destination path.
    pub new_path: CPath,
}

/// `renameat(old_dirfd, old_path, new_dirfd, new_path)`: marshals the
/// arguments for atomically moving an entry, possibly across two directory
/// handles within the same filesystem. A cross-filesystem move is a normal
/// native failure, not papered over here.
pub fn renameat(
    old_dirfd: &DirHandle,
    old_path: &[u8],
    new_dirfd: &DirHandle,
    new_path: &[u8],
) -> (r: Result<RenameatCall, Error>)
    ensures
        (has_nul(old_path@) || has_nul(new_path@)) <==> (r matches Err(e) && e
            == Error::InvalidPath),
        !has_nul(old_path@) && !has_nul(new_path@) ==> (r matches Ok(c) && c.old_dirfd
            == old_dirfd.fd_spec() && c.old_path@ == old_path@.push(0u8) && c.old_path.wf()
            && c.new_dirfd == new_dirfd.fd_spec() && c.new_path@ == new_path@.push(0u8)
            && c.new_path.wf()),
{
    let old_path = match CPath::new(old_path) {
        Ok(p) => p,
        Err(e) => return Err(e),
    };
    let new_path = match CPath::new(new_path) {
        Ok(p) => p,
        Err(e) => return Err(e),
    };
    Ok(
        RenameatCall {
            old_dirfd: old_dirfd.as_raw_fd(),
            old_path,
            new_dirfd: new_dirfd.as_raw_fd(),
            new_path,
        },
    )
}

/// Marshaled arguments of a `symlinkat` call.
#[derive(Debug)]
pub struct SymlinkatCall {
    /// Null-terminated target text, stored by the kernel verbatim: it is not
    /// resolved relative to any handle, and not validated.
    pub target: CPath,
    /// Raw directory descriptor the new link's path is resolved against.
    pub new_dirfd: i32,
    /// Null-terminated path of the new link.
    pub new_path: CPath,
}

/// `symlinkat(old_path, new_dirfd, new_path)`: marshals the arguments for
/// creating a symbolic link whose stored target text is exactly
/// `old_path`, unresolved and unvalidated.
pub fn symlinkat(old_path: &[u8], new_dirfd: &DirHandle, new_path: &[u8]) -> (r: Result<
    SymlinkatCall,
    Error,
>)
    ensures
        (has_nul(old_path@) || has_nul(new_path@)) <==> (r matches Err(e) && e
            == Error::InvalidPath),
        !has_nul(old_path@) && !has_nul(new_path@) ==> (r matches Ok(c) && c.target@
            == old_path@.push(0u8) && c.target.wf() && c.new_dirfd == new_dirfd.fd_spec()
            && c.new_path@ == new_path@.push(0u8) && c.new_path.wf()),
{
    let target = match CPath::new(old_path) {
        Ok(p) => p,
        Err(e) => return Err(e),
    };
    let new_path = match CPath::new(new_path) {
        Ok(p) => p,
        Err(e) => return Err(e),
    };
    Ok(SymlinkatCall { target, new_dirfd: new_dirfd.as_raw_fd(), new_path })
}

/// Marshaled arguments of a `statat` call.
#[derive(Debug)]
pub struct StatatCall {
    /// Raw directory descriptor the path is resolved against.
    pub dirfd: i32,
    /// Null-terminated path.
    pub path: CPath,
    /// Behavior flag bits (terminal symlink following), forwarded unchanged.
    pub flags: i32,
}

/// `statat(dirfd, path, flags)`: marshals the arguments for querying file
/// metadata relative to a directory handle. The shim builds the metadata
/// record only after the native call reported success, so indeterminate
/// data is never exposed as metadata.
pub fn statat(dirfd: &DirHandle, path: &[u8], flags: AtFlags) -> (r: Result<StatatCall, Error>)
    ensures
        has_nul(path@) <==> (r matches Err(e) && e == Error::InvalidPath),
        !has_nul(path@) ==> (r matches Ok(c) && c.dirfd == dirfd.fd_spec() && c.path@ == path@.push(
            0u8,
        ) && c.path.wf() && c.flags == flags.bits_spec()),
{
    let path = match CPath::new(path) {
        Ok(p) => p,
        Err(e) => return Err(e),
    };
    Ok(StatatCall { dirfd: dirfd.as_raw_fd(), path, flags: flags.bits() })
}

/// Marshaled arguments of an `accessat` call.
#[derive(Debug)]
pub struct AccessatCall {
    /// Raw directory descriptor the path is resolved against.
    pub dirfd: i32,
    /// Null-terminated path.
    pub path: CPath,
    /// Access-class bits to probe, forwarded unchanged.
    pub access: i32,
    /// Behavior flag bits, forwarded unchanged.
    pub flags: i32,
}

/// `accessat(dirfd, path, access, flags)`: marshals the arguments for
/// probing permissions relative to a directory handle.
pub fn accessat(dirfd: &DirHandle, path: &[u8], access: Access, flags: AtFlags) -> (r: Result<
    AccessatCall,
    Error,
>)
    ensures
        has_nul(path@) <==> (r matches Err(e) && e == Error::InvalidPath),
        !has_nul(path@) ==> (r matches Ok(c) && c.dirfd == dirfd.fd_spec() && c.path@ == path@.push(
            0u8,
        ) && c.path.wf() && c.access == access.bits_spec() && c.flags == flags.bits_spec()),
{
    let path = match CPath::new(path) {
        Ok(p) => p,
        Err(e) => return Err(e),
    };
    Ok(AccessatCall { dirfd: dirfd.as_raw_fd(), path, access: access.bits(), flags: flags.bits() })
}

/// Marshaled arguments of a `utimensat` call.
#[derive(Debug)]
pub struct UtimensatCall {
    /// Raw directory descriptor the path is resolved against.
    pub dirfd: i32,
    /// Null-terminated path.
    pub path: CPath,
    /// New access time; sentinel values pass through verbatim.
    pub atime: Timespec,
    /// New modification time; sentinel values pass through verbatim.
    pub mtime: Timespec,
    /// Behavior flag bits, forwarded unchanged.
    pub flags: i32,
}

/// `utimensat(dirfd, path, times, flags)`: marshals the arguments for
/// setting a file's access and modification timestamps, atomically relative
/// to each other as the native call permits. Sentinel timestamp values are
/// passed through verbatim and interpreted by the kernel, not here.
pub fn utimensat(dirfd: &DirHandle, path: &[u8], times: &[Timespec; 2], flags: AtFlags) -> (r:
    Result<UtimensatCall, Error>)
    ensures
        has_nul(path@) <==> (r matches Err(e) && e == Error::InvalidPath),
        !has_nul(path@) ==> (r matches Ok(c) && c.dirfd == dirfd.fd_spec() && c.path@ == path@.push(
            0u8,
        ) && c.path.wf() && c.atime == times@[0] && c.mtime == times@[1] && c.flags
            == flags.bits_spec()),
{
    let path = match CPath::new(path) {
        Ok(p) => p,
        Err(e) => return Err(e),
    };
    Ok(
        UtimensatCall {
            dirfd: dirfd.as_raw_fd(),
            path,
            atime: times[0],
            mtime: times[1],
            flags: flags.bits(),
        },
    )
}

/// Marshaled arguments of a `chmodat` call. There is no flags field: the
/// "do not follow the terminal symlink" behavior is not supported by this
/// operation on any platform.
#[derive(Debug)]
pub struct ChmodatCall {
    /// Raw directory descriptor the path is resolved against.
    pub dirfd: i32,
    /// Null-terminated path.
    pub path: CPath,
    /// New permission bits, forwarded unchanged.
    pub mode: u32,
}

/// `chmodat(dirfd, path, mode)`: marshals the arguments for changing a
/// file's permission bits relative to a directory handle.
///
/// No flags argument exists, so a "do not follow the terminal symlink"
/// request cannot be expressed at all: platform support for that flag
/// varies too widely to offer. The call record carries exactly the
/// descriptor, the path and the mode, and nothing else, on every platform;
/// where the platform's library entry point takes no flags parameter the
/// shim uses it directly, and where it demands one the shim issues the raw
/// numbered system call instead.
pub fn chmodat(dirfd: &DirHandle, path: &[u8], mode: Mode) -> (r: Result<ChmodatCall, Error>)
    ensures
        has_nul(path@) <==> (r matches Err(e) && e == Error::InvalidPath),
        !has_nul(path@) ==> (r matches Ok(c) && c.dirfd == dirfd.fd_spec() && c.path@ == path@.push(
            0u8,
        ) && c.path.wf() && c.mode == mode.bits_spec()),
{
    let path = match CPath::new(path) {
        Ok(p) => p,
        Err(e) => return Err(e),
    };
    Ok(ChmodatCall { dirfd: dirfd.as_raw_fd(), path, mode: mode.bits() })
}

/// Marshaled arguments of an `fclonefileat` call.
#[derive(Debug)]
pub struct FclonefileatCall {
    /// Raw descriptor of the source file.
    pub src_fd: i32,
    /// Raw directory descriptor the destination path is resolved against.
    pub dst_dirfd: i32,
    /// Null-terminated destination path.
    pub dst_path: CPath,
    /// Clone flag bits, forwarded unchanged.
    pub flags: i32,
}

/// `fclonefileat(src, dst_dir, dst, flags)`: marshals the arguments for a
/// copy-on-write clone of a file's content and metadata in one atomic step.
/// The native primitive exists only on some platforms; where it is missing
/// the shim reports `Error::Unsupported` rather than failing to load or
/// silently doing nothing.
pub fn fclonefileat(src: &FileHandle, dst_dir: &DirHandle, dst: &[u8], flags: CloneFlags) -> (r:
    Result<FclonefileatCall, Error>)
    ensures
        has_nul(dst@) <==> (r matches Err(e) && e == Error::InvalidPath),
        !has_nul(dst@) ==> (r matches Ok(c) && c.src_fd == src.fd_spec() && c.dst_dirfd
            == dst_dir.fd_spec() && c.dst_path@ == dst@.push(0u8) && c.dst_path.wf() && c.flags
            == flags.bits_spec()),
{
    let dst_path = match CPath::new(dst) {
        Ok(p) => p,
        Err(e) => return Err(e),
    };
    Ok(
        FclonefileatCall {
            src_fd: src.as_raw_fd(),
            dst_dirfd: dst_dir.as_raw_fd(),
            dst_path,
            flags: flags.bits(),
        },
    )
}

/// Copies the first `n` bytes of `src` into a fresh vector.
fn copy_prefix(src: &[u8], n: usize) -> (r: Vec<u8>)
    requires
        n <= src@.len(),
    ensures
        r@ == src@.subrange(0, n as int),
{
    let mut out: Vec<u8> = Vec::new();
    let mut i: usize = 0;
    while i < n
        invariant
            i <= n,
            n <= src@.len(),
            out@ == src@.subrange(0, i as int),
        decreases n - i,
    {
        out.push(src[i]);
        assert(src@.subrange(0, i as int).push(src@[i as int]) =~= src@.subrange(0, i + 1));
        i = i + 1;
    }
    out
}

} // verus!
