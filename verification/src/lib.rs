//! Safe, verified marshaling layer for POSIX directory-relative (`*at`)
//! filesystem calls.
//!
//! Every operation here is split in two: a verified front end that converts
//! the caller's arguments into the exact plain values the native call takes
//! (null-terminated path bytes, raw descriptor, raw flag bits), and a
//! verified back end that interprets the native call's raw return value.
//! The native call itself is left to an unverified shim outside this crate,
//! which hands raw results straight back.

pub mod at;
pub mod error;
pub mod flags;
pub mod handle;
pub mod path;
pub mod stat;
pub mod time;
