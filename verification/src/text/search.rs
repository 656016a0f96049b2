//! Prefix tests and substring search on character sequences.

use vstd::prelude::*;
use crate::text::chars_of;

verus! {

/// `needle` occurs in `s` at index `i`.
pub open spec fn matches_at(s: Seq<char>, needle: Seq<char>, i: int) -> bool {
    &&& 0 <= i
    &&& i + needle.len() <= s.len()
    &&& s.subrange(i, i + needle.len()) == needle
}

/// Index of the first occurrence of `needle` in `s` at or after `from`.
pub open spec fn find_from(s: Seq<char>, needle: Seq<char>, from: int) -> Option<int>
    decreases s.len() - from + 1,
{
    if from < 0 || from + needle.len() > s.len() {
        None
    } else if matches_at(s, needle, from) {
        Some(from)
    } else {
        find_from(s, needle, from + 1)
    }
}

/// Index of the first occurrence of `needle` in `s`.
pub open spec fn find(s: Seq<char>, needle: Seq<char>) -> Option<int> {
    find_from(s, needle, 0)
}

/// `needle` occurs somewhere in `s`.
pub open spec fn contains(s: Seq<char>, needle: Seq<char>) -> bool {
    find(s, needle) is Some
}

/// `find_from` returns the least matching index at or after `from`, and
/// `None` exactly when there is no such index.
pub proof fn lemma_find_from(s: Seq<char>, needle: Seq<char>, from: int)
    requires
        0 <= from,
    ensures
        match find_from(s, needle, from) {
            Some(i) => {
                &&& from <= i
                &&& matches_at(s, needle, i)
                &&& forall|j: int| from <= j < i ==> !matches_at(s, needle, j)
            },
            None => forall|j: int| from <= j ==> !matches_at(s, needle, j),
        },
    decreases s.len() - from + 1,
{
    if from + needle.len() > s.len() {
    } else if matches_at(s, needle, from) {
    } else {
        lemma_find_from(s, needle, from + 1);
    }
}

/// `contains` holds exactly when some index matches.
pub proof fn lemma_contains_iff_exists(s: Seq<char>, needle: Seq<char>)
    ensures
        contains(s, needle) <==> exists|i: int| matches_at(s, needle, i),
{
    lemma_find_from(s, needle, 0);
    if exists|i: int| matches_at(s, needle, i) {
        let i = choose|i: int| matches_at(s, needle, i);
        assert(0 <= i);
    }
}

/// Tests whether `p` occurs in `v` at index `at`, looking no further than `to`.
pub fn matches_in(v: &Vec<char>, at: usize, to: usize, p: &Vec<char>) -> (b: bool)
    requires
        at <= to <= v.len(),
    ensures
        b == matches_at(v@.subrange(0, to as int), p@, at as int),
        b == p@.is_prefix_of(v@.subrange(at as int, to as int)),
{
    let n = p.len();
    if n > to - at {
        return false;
    }
    let mut k: usize = 0;
    while k < n
        invariant
            at <= to <= v.len(),
            n == p.len(),
            n <= to - at,
            0 <= k <= n,
            forall|j: int| 0 <= j < k ==> v@[at + j] == p@[j],
        decreases n - k,
    {
        if v[at + k] != p[k] {
            proof {
                let w = v@.subrange(0, to as int);
                assert(w.subrange(at as int, at + n)[k as int] == v@[at + k]);
                assert(v@.subrange(at as int, to as int)[k as int] == v@[at + k]);
            }
            return false;
        }
        k += 1;
    }
    proof {
        let w = v@.subrange(0, to as int);
        assert(w.subrange(at as int, at + n) =~= p@);
        assert(v@.subrange(at as int, to as int).subrange(0, n as int) =~= p@);
    }
    true
}

/// Tests whether `v[from..to]` starts with the characters of `p`.
pub fn range_starts_with(v: &Vec<char>, from: usize, to: usize, p: &str) -> (b: bool)
    requires
        from <= to <= v.len(),
    ensures
        b == p@.is_prefix_of(v@.subrange(from as int, to as int)),
{
    let pv = chars_of(p);
    matches_in(v, from, to, &pv)
}

/// Tests whether `v[from..to]` is exactly the characters of `p`.
pub fn range_equals(v: &Vec<char>, from: usize, to: usize, p: &Vec<char>) -> (b: bool)
    requires
        from <= to <= v.len(),
    ensures
        b == (v@.subrange(from as int, to as int) == p@),
{
    if to - from != p.len() {
        return false;
    }
    let b = matches_in(v, from, to, p);
    proof {
        let s = v@.subrange(from as int, to as int);
        if b {
            assert(s.subrange(0, p@.len() as int) =~= s);
        }
    }
    b
}

/// Index of the first occurrence of `p` in `v[from..to]`, relative to `from`.
pub fn range_find(v: &Vec<char>, from: usize, to: usize, p: &Vec<char>) -> (r: Option<usize>)
    requires
        from <= to <= v.len(),
    ensures
        match r {
            Some(i) => find(v@.subrange(from as int, to as int), p@) == Some(i as int) && from + i
                + p@.len() <= to,
            None => find(v@.subrange(from as int, to as int), p@) is None,
        },
{
    let ghost s = v@.subrange(from as int, to as int);
    let n = p.len();
    if n > to - from {
        return None;
    }
    let last: usize = to - n;
    let mut i: usize = from;
    while i <= last
        invariant
            from <= i <= last + 1,
            last + n == to,
            to <= v.len(),
            n == p.len(),
            s == v@.subrange(from as int, to as int),
            find(s, p@) == find_from(s, p@, i - from),
        decreases last + 1 - i,
    {
        let hit = matches_in(v, i, to, p);
        proof {
            let t = v@.subrange(i as int, to as int);
            assert(t.subrange(0, n as int) =~= s.subrange(i - from, i - from + n));
        }
        if hit {
            return Some(i - from);
        }
        i += 1;
    }
    None
}

/// Tests whether the characters of `p` occur in `v[from..to]`.
pub fn range_contains(v: &Vec<char>, from: usize, to: usize, p: &str) -> (b: bool)
    requires
        from <= to <= v.len(),
    ensures
        b == contains(v@.subrange(from as int, to as int), p@),
{
    let pv = chars_of(p);
    range_find(v, from, to, &pv).is_some()
}

/// Tests whether `needle` occurs in `s`.
pub fn str_contains(s: &str, needle: &str) -> (b: bool)
    ensures
        b == contains(s@, needle@),
{
    let v = chars_of(s);
    let b = range_contains(&v, 0, v.len(), needle);
    proof {
        assert(v@.subrange(0, v@.len() as int) =~= v@);
    }
    b
}

/// Tests whether `a` and `b` hold the same characters.
pub fn str_equals(a: &str, b: &str) -> (same: bool)
    ensures
        same == (a@ == b@),
{
    let av = chars_of(a);
    let bv = chars_of(b);
    let same = range_equals(&av, 0, av.len(), &bv);
    proof {
        assert(av@.subrange(0, av@.len() as int) =~= av@);
    }
    same
}

} // verus!
