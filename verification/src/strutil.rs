//! Character-level string helpers.

use vstd::prelude::*;

verus! {

/// Character-by-character string equality.
pub fn str_eq(a: &str, b: &str) -> (r: bool)
    ensures
        r == (a@ == b@),
{
    let a_len = a.unicode_len();
    let b_len = b.unicode_len();
    if a_len != b_len {
        return false;
    }
    let mut i: usize = 0;
    while i < a_len
        invariant
            i <= a_len,
            a_len == a@.len(),
            a_len == b@.len(),
            forall|j: int| 0 <= j < i ==> a@[j] == b@[j],
        decreases a_len - i,
    {
        if a.get_char(i) != b.get_char(i) {
            return false;
        }
        i = i + 1;
    }
    proof {
        assert(a@ =~= b@);
    }
    true
}

/// The first seven characters of `s`, or all of `s` when it is shorter.
pub open spec fn spec_short(s: Seq<char>) -> Seq<char> {
    if s.len() <= 7 {
        s
    } else {
        s.take(7)
    }
}

/// The abbreviated hash shown by the default templates.
pub fn short_hash(s: &str) -> (r: String)
    ensures
        r@ == spec_short(s@),
{
    let len = s.unicode_len();
    if len <= 7 {
        String::from_str(s)
    } else {
        String::from_str(s.substring_char(0, 7))
    }
}

} // verus!
