//! Comparison of texts.

use vstd::prelude::*;
use vstd::utf8::*;

verus! {

/// Whether two texts are the same, character for character. Texts of the same
/// length are compared over all their bytes, whether or not an earlier byte
/// differed.
pub fn same_text(a: &str, b: &str) -> (same: bool)
    ensures
        same == (a@ == b@),
{
    let x = a.as_bytes();
    let y = b.as_bytes();
    proof {
        encode_utf8_decode_utf8(a@);
        encode_utf8_decode_utf8(b@);
    }
    if x.len() != y.len() {
        return false;
    }
    let mut same = true;
    let mut i: usize = 0;
    while i < x.len()
        invariant
            i <= x.len(),
            x.len() == y.len(),
            same == (forall|j: int| 0 <= j < i ==> x@[j] == y@[j]),
        decreases x.len() - i,
    {
        let here = x[i] == y[i];
        same = same && here;
        i = i + 1;
    }
    proof {
        if same {
            assert(x@ =~= y@);
        }
    }
    same
}

} // verus!
