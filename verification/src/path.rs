//! Conversion of caller-supplied path bytes into the null-terminated form
//! the native calls take.

use vstd::prelude::*;

use crate::error::Error;

verus! {

/// True when the byte sequence holds a null byte anywhere.
pub open spec fn has_nul(s: Seq<u8>) -> bool {
    exists|i: int| 0 <= i < s.len() && s[i] == 0
}

/// A path marshaled for the boundary crossing: the caller's bytes with a
/// single null terminator appended, and no null byte anywhere else. The
/// conversion never truncates or alters the caller's bytes; it fails cleanly
/// instead.
#[derive(Debug)]
pub struct CPath {
    bytes: Vec<u8>,
}

impl View for CPath {
    type V = Seq<u8>;

    closed spec fn view(&self) -> Seq<u8> {
        self.bytes@
    }
}

impl CPath {
    /// Well-formed: non-empty, and the one null byte is the final one.
    pub open spec fn wf(&self) -> bool {
        &&& self@.len() >= 1
        &&& self@[self@.len() - 1] == 0
        &&& !has_nul(self@.subrange(0, self@.len() - 1))
    }

    /// Marshals path bytes by appending a null terminator. Fails with
    /// `Error::InvalidPath`, exactly when the input holds an embedded null
    /// byte, before any native call could be attempted.
    pub fn new(path: &[u8]) -> (r: Result<CPath, Error>)
        ensures
            has_nul(path@) <==> (r matches Err(e) && e == Error::InvalidPath),
            !has_nul(path@) ==> (r matches Ok(p) && p@ == path@.push(0u8) && p.wf()),
    {
        let n = path.len();
        let mut out: Vec<u8> = Vec::new();
        let mut i: usize = 0;
        while i < n
            invariant
                n == path@.len(),
                i <= n,
                out@ == path@.subrange(0, i as int),
                forall|j: int| 0 <= j < i ==> path@[j] != 0,
            decreases n - i,
        {
            let b = path[i];
            if b == 0 {
                return Err(Error::InvalidPath);
            }
            out.push(b);
            i = i + 1;
        }
        out.push(0);
        assert(path@.subrange(0, n as int) =~= path@);
        assert(out@ =~= path@.push(0u8));
        assert(path@.push(0u8).subrange(0, n as int) =~= path@);
        Ok(CPath { bytes: out })
    }

    /// Marshaling loses nothing: dropping the terminator of a marshaled path
    /// recovers the caller's bytes exactly, and two different paths never
    /// marshal to the same bytes. So the boundary crossing neither truncates
    /// nor corrupts a path, and never conflates two paths.
    pub proof fn lemma_marshal_lossless(s: Seq<u8>, t: Seq<u8>)
        requires
            !has_nul(s),
            !has_nul(t),
        ensures
            s.push(0u8).subrange(0, s.len() as int) == s,
            s.push(0u8) == t.push(0u8) ==> s == t,
    {
        assert(s.push(0u8).subrange(0, s.len() as int) =~= s);
        if s.push(0u8) == t.push(0u8) {
            assert(s.len() == t.len());
            assert forall|i: int| 0 <= i < s.len() implies s[i] == t[i] by {
                assert(s.push(0u8)[i] == s[i]);
                assert(t.push(0u8)[i] == t[i]);
            }
            assert(s =~= t);
        }
    }

    /// The marshaled bytes, terminator included; a pointer to the first one
    /// is what the native call receives.
    pub fn as_bytes(&self) -> (r: &Vec<u8>)
        ensures
            r@ == self@,
    {
        &self.bytes
    }
}

} // verus!
