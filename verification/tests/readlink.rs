//! The two symlink-read buffer strategies: one maximum-sized attempt, and
//! the retry loop with a monotonically growing buffer.

use dirat::at::{readlinkat_finish, readlinkat_step, ReadlinkStep, READLINK_INITIAL_BUFSIZE};
use dirat::error::Error;

/// Mimics the native symlink read: writes as much of `target` as fits at the
/// front of `buf` and returns the number of bytes written. Like the real
/// call, it cannot signal whether the target was truncated.
fn fake_readlink(target: &[u8], buf: &mut [u8]) -> i64 {
    let n = target.len().min(buf.len());
    buf[..n].copy_from_slice(&target[..n]);
    n as i64
}

#[test]
fn finish_returns_exactly_the_reported_bytes() {
    let mut buf = vec![0u8; 4097];
    let n = fake_readlink(b"foo/bar", &mut buf);
    assert_eq!(n, 7);
    let got = readlinkat_finish(&buf, n, 0).unwrap();
    assert_eq!(got, b"foo/bar".to_vec());
}

#[test]
fn finish_does_not_append_a_terminator() {
    let mut buf = vec![0u8; 4097];
    let n = fake_readlink(b"x", &mut buf);
    let got = readlinkat_finish(&buf, n, 0).unwrap();
    assert_eq!(got.len(), 1);
    assert_eq!(got, vec![b'x']);
}

#[test]
fn finish_surfaces_the_native_error_code() {
    let buf = vec![0u8; 4097];
    assert_eq!(readlinkat_finish(&buf, -1, 22).unwrap_err(), Error::Os(22));
}

#[test]
fn step_finishes_when_the_target_fits_strictly() {
    let mut buf = vec![0u8; 256];
    let n = fake_readlink(b"short-target", &mut buf);
    match readlinkat_step(&buf, n, 0).unwrap() {
        ReadlinkStep::Done(v) => assert_eq!(v, b"short-target".to_vec()),
        ReadlinkStep::Retry(_) => panic!("a strictly smaller count must finish"),
    }
}

#[test]
fn step_retries_with_a_strictly_larger_buffer_on_an_exact_fill() {
    let target = vec![b'a'; 256];
    let mut buf = vec![0u8; 256];
    let n = fake_readlink(&target, &mut buf);
    assert_eq!(n, 256);
    match readlinkat_step(&buf, n, 0).unwrap() {
        ReadlinkStep::Done(_) => panic!("a full buffer cannot be told from truncation"),
        ReadlinkStep::Retry(c) => assert!(c > 256),
    }
}

#[test]
fn step_surfaces_the_native_error_code() {
    let buf = vec![0u8; 256];
    assert_eq!(readlinkat_step(&buf, -1, 2).unwrap_err(), Error::Os(2));
}

#[test]
fn retry_loop_recovers_a_target_longer_than_the_first_guess() {
    // A 1000-byte target overflows the 256-byte initial guess, so the loop
    // must grow the buffer at least once and still return the target
    // byte-for-byte.
    let target: Vec<u8> = (0..1000u32).map(|i| b'a' + (i % 26) as u8).collect();
    let mut size = READLINK_INITIAL_BUFSIZE;
    assert_eq!(size, 256);
    let mut grew = 0u32;
    loop {
        let mut buf = vec![0u8; size];
        let ret = fake_readlink(&target, &mut buf);
        match readlinkat_step(&buf, ret, 0).unwrap() {
            ReadlinkStep::Done(v) => {
                assert_eq!(v, target);
                break;
            }
            ReadlinkStep::Retry(c) => {
                assert!(c > size);
                size = c;
                grew += 1;
            }
        }
        assert!(grew < 64, "the retry sizes must grow quickly");
    }
    assert!(grew >= 1, "the initial guess must have been outgrown");
}

#[test]
fn retry_loop_returns_an_exact_fit_of_the_initial_buffer() {
    // A target of exactly the initial size forces one retry (an exact fill
    // is indistinguishable from truncation) and then comes back whole.
    let target = vec![b'z'; READLINK_INITIAL_BUFSIZE];
    let mut size = READLINK_INITIAL_BUFSIZE;
    let mut out = None;
    for _ in 0..8 {
        let mut buf = vec![0u8; size];
        let ret = fake_readlink(&target, &mut buf);
        match readlinkat_step(&buf, ret, 0).unwrap() {
            ReadlinkStep::Done(v) => {
                out = Some(v);
                break;
            }
            ReadlinkStep::Retry(c) => size = c,
        }
    }
    assert_eq!(out.unwrap(), target);
}
