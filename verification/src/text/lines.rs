//! Splitting text into lines and joining lines into text.

use vstd::prelude::*;
use vstd::string::*;
use crate::text::{chars_of, string_of_range};

verus! {

/// What a sequence of strings holds.
pub open spec fn texts(v: Seq<String>) -> Seq<Seq<char>> {
    v.map_values(|s: String| s@)
}

/// Number of characters of `s` from `from` up to the next line feed, or to
/// the end where there is none.
pub open spec fn line_len(s: Seq<char>, from: int) -> nat
    decreases s.len() - from,
{
    if 0 <= from < s.len() && s[from] != '\n' {
        1 + line_len(s, from + 1)
    } else {
        0
    }
}

/// A line without the carriage return that ended it, if one did.
pub open spec fn strip_cr(line: Seq<char>) -> Seq<char> {
    if line.len() > 0 && line.last() == '\r' {
        line.drop_last()
    } else {
        line
    }
}

/// The lines of `s[from..]`. A line ends at a line feed, or at a carriage
/// return directly followed by one; the terminator is not part of the line.
/// The last line need not be terminated, and text that ends in a terminator
/// has no empty line after it.
pub open spec fn lines_from(s: Seq<char>, from: int) -> Seq<Seq<char>>
    decreases s.len() - from,
{
    if from < 0 || from >= s.len() {
        Seq::empty()
    } else {
        let end = from + line_len(s, from);
        if end < s.len() {
            seq![strip_cr(s.subrange(from, end))] + lines_from(s, end + 1)
        } else {
            seq![s.subrange(from, end)]
        }
    }
}

/// The lines of `s`.
pub open spec fn lines(s: Seq<char>) -> Seq<Seq<char>> {
    lines_from(s, 0)
}

/// The parts with `sep` between each two neighbours.
pub open spec fn join(parts: Seq<Seq<char>>, sep: Seq<char>) -> Seq<char>
    decreases parts.len(),
{
    if parts.len() == 0 {
        Seq::empty()
    } else if parts.len() == 1 {
        parts[0]
    } else {
        join(parts.drop_last(), sep) + sep + parts.last()
    }
}

/// A line never runs past the end of the text, and holds no line feed.
pub proof fn lemma_line_len(s: Seq<char>, from: int)
    requires
        0 <= from <= s.len(),
    ensures
        from + line_len(s, from) <= s.len(),
        from + line_len(s, from) < s.len() ==> s[from + line_len(s, from)] == '\n',
        forall|k: int| from <= k < from + line_len(s, from) ==> s[k] != '\n',
    decreases s.len() - from,
{
    if from < s.len() && s[from] != '\n' {
        lemma_line_len(s, from + 1);
    }
}

/// Splits text into its lines.
pub fn split_lines(s: &str) -> (out: Vec<String>)
    ensures
        texts(out@) == lines(s@),
{
    let v = chars_of(s);
    let n = v.len();
    let mut out: Vec<String> = Vec::new();
    let mut from: usize = 0;
    proof {
        assert(texts(out@) + lines_from(v@, 0) =~= lines(s@));
    }
    while from < n
        invariant
            n == v.len(),
            v@ == s@,
            from <= n,
            texts(out@) + lines_from(v@, from as int) == lines(s@),
        decreases n - from,
    {
        let mut end: usize = from;
        while end < n && v[end] != '\n'
            invariant
                n == v.len(),
                from <= end <= n,
                end + line_len(v@, end as int) == from + line_len(v@, from as int),
            decreases n - end,
        {
            end += 1;
        }
        let ghost done = texts(out@);
        if end < n {
            let stop: usize = if end > from && v[end - 1] == '\r' {
                (end - 1) as usize
            } else {
                end
            };
            let line = string_of_range(&v, from, stop);
            out.push(line);
            proof {
                let whole = v@.subrange(from as int, end as int);
                assert(strip_cr(whole) =~= v@.subrange(from as int, stop as int));
                assert(texts(out@) =~= done + seq![line@]);
                assert(texts(out@) + lines_from(v@, end + 1) =~= done + lines_from(
                    v@,
                    from as int,
                ));
            }
            from = end + 1;
        } else {
            let line = string_of_range(&v, from, end);
            out.push(line);
            proof {
                assert(texts(out@) =~= done + seq![line@]);
                assert(texts(out@) + lines_from(v@, n as int) =~= done + lines_from(
                    v@,
                    from as int,
                ));
            }
            from = n;
        }
    }
    proof {
        assert(texts(out@) + lines_from(v@, n as int) =~= texts(out@));
    }
    out
}

/// Joins strings with `sep` between each two neighbours.
pub fn join_strings(parts: &Vec<String>, sep: &str) -> (out: String)
    ensures
        out@ == join(texts(parts@), sep@),
{
    let ghost all = texts(parts@);
    let mut out = String::new();
    let mut i: usize = 0;
    proof {
        assert(all.take(0) =~= Seq::<Seq<char>>::empty());
    }
    while i < parts.len()
        invariant
            i <= parts.len(),
            all == texts(parts@),
            out@ == join(all.take(i as int), sep@),
        decreases parts.len() - i,
    {
        if i > 0 {
            out.append(sep);
        }
        out.append(parts[i].as_str());
        proof {
            let next = all.take(i + 1);
            assert(next.drop_last() =~= all.take(i as int));
            assert(next.last() == parts@[i as int]@);
            if i == 0 {
                assert(out@ =~= next[0]);
            }
        }
        i += 1;
    }
    proof {
        assert(all.take(parts@.len() as int) =~= all);
    }
    out
}

} // verus!
