//! Substring search over character sequences, used by the bridge's
//! interception rule.

use vstd::prelude::*;
use vstd::string::StrSliceExecFns;

verus! {

/// The needle `n` occurs in the haystack `h` starting at position `i`.
pub open spec fn matches_at(h: Seq<char>, n: Seq<char>, i: int) -> bool {
    &&& 0 <= i
    &&& i + n.len() <= h.len()
    &&& forall|j: int| 0 <= j < n.len() ==> h[i + j] == n[j]
}

/// The needle `n` occurs somewhere in the haystack `h`.
pub open spec fn contains_seq(h: Seq<char>, n: Seq<char>) -> bool {
    exists|i: int| matches_at(h, n, i)
}

/// Character-wise substring test: does `h` contain `n`?
pub fn contains_substr(h: &str, n: &str) -> (r: bool)
    ensures
        r == contains_seq(h@, n@),
{
    let hl = h.unicode_len();
    let nl = n.unicode_len();
    if nl > hl {
        assert(forall|i: int| !matches_at(h@, n@, i));
        return false;
    }
    let mut i: usize = 0;
    while i <= hl - nl
        invariant
            nl <= hl,
            hl == h@.len(),
            nl == n@.len(),
            i <= hl - nl + 1,
            forall|k: int| 0 <= k < i ==> !matches_at(h@, n@, k),
        decreases hl - nl - i + 1,
    {
        let mut j: usize = 0;
        let mut ok = true;
        while j < nl && ok
            invariant
                nl <= hl,
                hl == h@.len(),
                nl == n@.len(),
                i <= hl - nl,
                j <= nl,
                ok ==> forall|t: int| 0 <= t < j ==> h@[i + t] == n@[t],
                !ok ==> !matches_at(h@, n@, i as int),
            decreases nl - j + (if ok { 1int } else { 0int }),
        {
            if h.get_char(i + j) != n.get_char(j) {
                assert(!matches_at(h@, n@, i as int));
                ok = false;
            } else {
                j += 1;
            }
        }
        if ok {
            assert(matches_at(h@, n@, i as int));
            return true;
        }
        i += 1;
    }
    assert(forall|k: int| !matches_at(h@, n@, k));
    false
}

} // verus!
