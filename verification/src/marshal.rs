use vstd::prelude::*;
use vstd::string::StringSliceAdditionalSpecFns;

verus! {

/// No byte of `s` is the terminator byte; such a sequence can cross the
/// boundary as a terminated native string without truncation.
pub open spec fn nul_free(s: Seq<u8>) -> bool {
    forall|i: int| 0 <= i < s.len() ==> s[i] != 0
}

/// A text value could not be marshaled into a native string: it holds an
/// embedded terminator byte. This is surfaced to the caller before any
/// native call is made, so no native state is touched on this path.
#[derive(Clone, Copy, PartialEq, Eq, Structural, Debug)]
pub enum MarshalError {
    EmbeddedNul,
}

/// Whether `s` can cross the boundary as a terminated byte sequence.
pub fn marshals(s: &str) -> (r: bool)
    ensures
        r == nul_free(s.spec_bytes()),
{
    let bytes = s.as_bytes();
    let n = bytes.len();
    let mut i: usize = 0;
    while i < n
        invariant
            n == bytes@.len(),
            bytes@ == s.spec_bytes(),
            0 <= i <= n,
            forall|j: int| 0 <= j < i ==> bytes@[j] != 0,
        decreases n - i,
    {
        if bytes[i] == 0 {
            assert(!nul_free(s.spec_bytes()));
            return false;
        }
        i += 1;
    }
    true
}

} // verus!
