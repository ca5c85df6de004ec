//! Substring search on the UTF-8 bytes of text.

use vstd::prelude::*;
use vstd::string::*;

verus! {

/// `pat` occurs in `text` at position `i`.
pub open spec fn occurs_at(text: Seq<u8>, pat: Seq<u8>, i: int) -> bool {
    0 <= i && i + pat.len() <= text.len() && text.subrange(i, i + pat.len()) == pat
}

/// `pat` occurs somewhere in `text`.
pub open spec fn has_subslice(text: Seq<u8>, pat: Seq<u8>) -> bool {
    exists|i: int| occurs_at(text, pat, i)
}

/// Whether `pat` is a contiguous part of `text`.
pub fn contains_bytes(text: &[u8], pat: &[u8]) -> (r: bool)
    ensures
        r == has_subslice(text@, pat@),
{
    let n: usize = text.len();
    let mut i: usize = 0;
    while pat.len() <= n - i
        invariant
            n == text@.len(),
            i <= text@.len(),
            forall|k: int| 0 <= k < i ==> !occurs_at(text@, pat@, k),
        decreases text@.len() - i,
    {
        let mut j: usize = 0;
        let mut agree = true;
        while agree && j < pat.len()
            invariant
                n == text@.len(),
                i + pat@.len() <= text@.len(),
                j <= pat@.len(),
                forall|m: int| 0 <= m < j ==> text@[i + m] == pat@[m],
                !agree ==> j < pat@.len() && text@[i + j] != pat@[j as int],
            decreases pat@.len() - j + (if agree { 1int } else { 0int }),
        {
            if text[i + j] == pat[j] {
                j = j + 1;
            } else {
                agree = false;
            }
        }
        if j == pat.len() {
            assert(text@.subrange(i as int, i + pat@.len()) =~= pat@);
            assert(occurs_at(text@, pat@, i as int));
            return true;
        }
        assert(!occurs_at(text@, pat@, i as int)) by {
            if occurs_at(text@, pat@, i as int) {
                assert(text@.subrange(i as int, i + pat@.len())[j as int] == text@[i + j]);
            }
        }
        i = i + 1;
    }
    assert forall|k: int| !occurs_at(text@, pat@, k) by {
        if 0 <= k && k + pat@.len() <= text@.len() {
            assert(k < i);
        }
    }
    false
}

/// Whether the UTF-8 encoding of `pat` is a contiguous part of that of `text`.
pub fn text_contains(text: &str, pat: &str) -> (r: bool)
    ensures
        r == has_subslice(text.spec_bytes(), pat.spec_bytes()),
{
    contains_bytes(text.as_bytes(), pat.as_bytes())
}

} // verus!
