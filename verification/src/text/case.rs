//! Letter case.

use vstd::prelude::*;
use crate::text::chars_of;

verus! {

/// The lowercase form of a string under the Unicode case mapping, as
/// `str::to_lowercase` computes it.
pub uninterp spec fn lowercase(s: Seq<char>) -> Seq<char>;

/// Calls `str::to_lowercase`. The result is a function of the characters
/// alone; it is named, not described.
#[verifier::external_body]
pub(crate) fn to_lowercase(s: &str) -> (out: String)
    ensures
        out@ == lowercase(s@),
{
    s.to_lowercase()
}

/// The lowercase form of an ASCII capital letter; any other character
/// unchanged.
pub open spec fn ascii_lower(c: char) -> char {
    if 'A' <= c <= 'Z' {
        ((c as u32) + 32) as char
    } else {
        c
    }
}

/// The two sequences are equal up to the case of ASCII letters.
pub open spec fn eq_ignore_ascii_case(a: Seq<char>, b: Seq<char>) -> bool {
    &&& a.len() == b.len()
    &&& forall|i: int| 0 <= i < a.len() ==> ascii_lower(#[trigger] a[i]) == ascii_lower(b[i])
}

fn char_ascii_lower(c: char) -> (l: char)
    ensures
        l == ascii_lower(c),
{
    let u: u32 = c as u32;
    if 65 <= u && u <= 90 {
        ((u as u8) + 32) as char
    } else {
        c
    }
}

/// Tests whether `v[from..to]` equals the characters of `p` up to the case of
/// ASCII letters.
pub fn range_eq_ignore_ascii_case(v: &Vec<char>, from: usize, to: usize, p: &str) -> (same: bool)
    requires
        from <= to <= v.len(),
    ensures
        same == eq_ignore_ascii_case(v@.subrange(from as int, to as int), p@),
{
    let pv = chars_of(p);
    if to - from != pv.len() {
        return false;
    }
    let ghost s = v@.subrange(from as int, to as int);
    let n = pv.len();
    let mut k: usize = 0;
    while k < n
        invariant
            from <= to <= v.len(),
            n == pv.len(),
            n == to - from,
            k <= n,
            s == v@.subrange(from as int, to as int),
            pv@ == p@,
            forall|i: int| 0 <= i < k ==> ascii_lower(#[trigger] s[i]) == ascii_lower(p@[i]),
        decreases n - k,
    {
        if char_ascii_lower(v[from + k]) != char_ascii_lower(pv[k]) {
            proof {
                assert(s[k as int] == v@[from + k]);
            }
            return false;
        }
        proof {
            assert(s[k as int] == v@[from + k]);
        }
        k += 1;
    }
    true
}

} // verus!
