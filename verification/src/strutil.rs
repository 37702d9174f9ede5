//! Small verified helpers for comparing and assembling strings.

use vstd::prelude::*;
use vstd::string::StrSliceExecFns;
use vstd::string::StringExecFns;

verus! {

/// True exactly when the two strings hold the same characters.
pub fn chars_eq(a: &str, b: &str) -> (r: bool)
    ensures
        r == (a@ == b@),
{
    let alen = a.unicode_len();
    let blen = b.unicode_len();
    if alen != blen {
        return false;
    }
    let mut i: usize = 0;
    while i < alen
        invariant
            i <= alen,
            alen == a@.len(),
            blen == b@.len(),
            alen == blen,
            forall|j: int| 0 <= j < i ==> a@[j] == b@[j],
        decreases alen - i,
    {
        if a.get_char(i) != b.get_char(i) {
            return false;
        }
        i += 1;
    }
    proof {
        assert(a@ =~= b@);
    }
    true
}

/// True exactly when `a` ends with the characters of `suffix`.
pub open spec fn spec_ends_with(a: Seq<char>, suffix: Seq<char>) -> bool {
    suffix.len() <= a.len() && a.subrange(a.len() - suffix.len(), a.len() as int) == suffix
}

/// True exactly when the string ends with the given suffix.
pub fn ends_with(a: &str, suffix: &str) -> (r: bool)
    ensures
        r == spec_ends_with(a@, suffix@),
{
    let alen = a.unicode_len();
    let slen = suffix.unicode_len();
    if slen > alen {
        return false;
    }
    let mut i: usize = 0;
    while i < slen
        invariant
            i <= slen,
            slen <= alen,
            alen == a@.len(),
            slen == suffix@.len(),
            forall|j: int| 0 <= j < i ==> a@[a@.len() - slen + j] == suffix@[j],
        decreases slen - i,
    {
        if a.get_char(alen - slen + i) != suffix.get_char(i) {
            return false;
        }
        i += 1;
    }
    proof {
        assert(a@.subrange(a@.len() - suffix@.len(), a@.len() as int) =~= suffix@);
    }
    true
}

/// Concatenation of two strings.
pub fn concat_str(a: &str, b: &str) -> (r: String)
    ensures
        r@ == a@ + b@,
{
    let mut s = String::from_str(a);
    s.append(b);
    s
}

} // verus!
