//! Putting the summary section into the text of a note.

use vstd::prelude::*;
use vstd::string::*;
use crate::obsidian::transcript_section::is_transcript_heading;
use crate::text::{chars_of, trim, trim_range};
use crate::text::case::{eq_ignore_ascii_case, range_eq_ignore_ascii_case};
use crate::text::lines::{join, join_strings, lines, split_lines, texts};
use crate::text::search::range_starts_with;

verus! {

/// Where the pass over the lines of a note stands.
pub struct SummaryPass {
    /// The lines put out so far.
    pub out: Seq<Seq<char>>,
    /// The pass is inside the old summary section.
    pub in_summary: bool,
    /// The new section was put out.
    pub inserted: bool,
}

/// The line is the heading of a summary section.
pub open spec fn is_summary_heading(line: Seq<char>) -> bool {
    eq_ignore_ascii_case(trim(line), "## Summary"@)
}

/// The line starts a section of the second level.
pub open spec fn is_second_level_heading(line: Seq<char>) -> bool {
    "## "@.is_prefix_of(trim(line))
}

/// The line is a title: it starts with `# `.
pub open spec fn is_title_line(line: Seq<char>) -> bool {
    "# "@.is_prefix_of(line)
}

/// The summary section as it is put in front of other lines: the heading, an
/// empty line, the summary, an empty line.
pub open spec fn summary_block(summary: Seq<char>) -> Seq<Seq<char>> {
    seq!["## Summary"@, Seq::empty(), summary, Seq::empty()]
}

/// The summary section as it is put after a title: an empty line, the
/// heading, an empty line, the summary.
pub open spec fn summary_after_title(summary: Seq<char>) -> Seq<Seq<char>> {
    seq![Seq::empty(), "## Summary"@, Seq::empty(), summary]
}

/// The pass after one more line. The first summary heading is replaced by
/// the new section, and the lines under it are left out, up to the next
/// heading of the second level that is no summary heading. Every other line
/// is put out as it is.
pub open spec fn summary_step(pass: SummaryPass, line: Seq<char>, summary: Seq<char>) -> SummaryPass {
    if !pass.in_summary && is_summary_heading(line) {
        SummaryPass { out: pass.out + summary_block(summary), in_summary: true, inserted: true }
    } else if pass.in_summary && is_second_level_heading(line) && !is_summary_heading(line) {
        SummaryPass { out: pass.out.push(line), in_summary: false, ..pass }
    } else if pass.in_summary {
        pass
    } else {
        SummaryPass { out: pass.out.push(line), ..pass }
    }
}

/// The pass over all the lines.
pub open spec fn summary_pass(lines: Seq<Seq<char>>, summary: Seq<char>) -> SummaryPass
    decreases lines.len(),
{
    if lines.len() == 0 {
        SummaryPass { out: Seq::empty(), in_summary: false, inserted: false }
    } else {
        summary_step(summary_pass(lines.drop_last(), summary), lines.last(), summary)
    }
}

/// A kind of line that is looked for.
#[derive(Debug, Clone, Copy, PartialEq, Eq, Structural)]
pub enum LineKind {
    TranscriptHeading,
    Title,
}

/// The line is of the kind.
pub open spec fn is_of_kind(kind: LineKind, line: Seq<char>) -> bool {
    match kind {
        LineKind::TranscriptHeading => is_transcript_heading(line),
        LineKind::Title => is_title_line(line),
    }
}

/// Index of the first line of the kind.
pub open spec fn first_of_kind(lines: Seq<Seq<char>>, kind: LineKind) -> Option<int>
    decreases lines.len(),
{
    if lines.len() == 0 {
        None
    } else if is_of_kind(kind, lines[0]) {
        Some(0)
    } else {
        match first_of_kind(lines.drop_first(), kind) {
            Some(i) => Some(i + 1),
            None => None,
        }
    }
}

/// The lines with `block` put in at index `at`.
pub open spec fn spliced(lines: Seq<Seq<char>>, at: int, block: Seq<Seq<char>>) -> Seq<Seq<char>> {
    lines.take(at) + block + lines.skip(at)
}

/// The lines of the note with the summary section. Where the note has a
/// summary section the new one takes its place. Else it goes in front of the
/// transcript section; else after the title; and a note without any of these
/// stays as it is.
pub open spec fn lines_with_summary(lines: Seq<Seq<char>>, summary: Seq<char>) -> Seq<Seq<char>> {
    let pass = summary_pass(lines, summary);
    if pass.inserted {
        pass.out
    } else {
        match first_of_kind(pass.out, LineKind::TranscriptHeading) {
            Some(i) => spliced(pass.out, i, summary_block(summary)),
            None => match first_of_kind(pass.out, LineKind::Title) {
                Some(i) => spliced(pass.out, i + 1, summary_after_title(summary)),
                None => pass.out,
            },
        }
    }
}

/// The note with the summary section.
pub open spec fn with_summary(content: Seq<char>, summary: Seq<char>) -> Seq<char> {
    join(lines_with_summary(lines(content), summary), seq!['\n'])
}

fn line_is_of_kind(kind: LineKind, line: &str) -> (b: bool)
    ensures
        b == is_of_kind(kind, line@),
{
    let v = chars_of(line);
    proof {
        assert(v@.subrange(0, v@.len() as int) =~= v@);
    }
    match kind {
        LineKind::TranscriptHeading => {
            let (a, b) = trim_range(&v, 0, v.len());
            range_eq_ignore_ascii_case(&v, a, b, "## Transcript")
        },
        LineKind::Title => range_starts_with(&v, 0, v.len(), "# "),
    }
}

fn find_line(all: &Vec<String>, kind: LineKind) -> (found: Option<usize>)
    ensures
        match found {
            Some(i) => first_of_kind(texts(all@), kind) == Some(i as int) && i < all.len(),
            None => first_of_kind(texts(all@), kind) is None,
        },
{
    let ghost ls = texts(all@);
    let mut i: usize = 0;
    proof {
        assert(ls.skip(0) =~= ls);
    }
    while i < all.len()
        invariant
            i <= all.len(),
            ls == texts(all@),
            first_of_kind(ls, kind) == match first_of_kind(ls.skip(i as int), kind) {
                Some(k) => Some(k + i),
                None => None,
            },
        decreases all.len() - i,
    {
        proof {
            let rest = ls.skip(i as int);
            assert(rest[0] == all@[i as int]@);
            assert(rest.drop_first() =~= ls.skip(i + 1));
        }
        if line_is_of_kind(kind, all[i].as_str()) {
            return Some(i);
        }
        i += 1;
    }
    None
}

fn push_block(out: &mut Vec<String>, summary: &str, after_title: bool)
    ensures
        texts(final(out)@) == texts(old(out)@) + (if after_title {
            summary_after_title(summary@)
        } else {
            summary_block(summary@)
        }),
{
    let ghost before = texts(out@);
    if after_title {
        out.push(String::new());
        out.push("## Summary".to_owned());
        out.push(String::new());
        out.push(summary.to_owned());
        proof {
            assert(texts(out@) =~= before + summary_after_title(summary@));
        }
    } else {
        out.push("## Summary".to_owned());
        out.push(String::new());
        out.push(summary.to_owned());
        out.push(String::new());
        proof {
            assert(texts(out@) =~= before + summary_block(summary@));
        }
    }
}

fn splice_block(all: &Vec<String>, at: usize, summary: &str, after_title: bool) -> (out: Vec<
    String,
>)
    requires
        at <= all.len(),
    ensures
        texts(out@) == spliced(
            texts(all@),
            at as int,
            if after_title {
                summary_after_title(summary@)
            } else {
                summary_block(summary@)
            },
        ),
{
    let ghost ls = texts(all@);
    let ghost block = if after_title {
        summary_after_title(summary@)
    } else {
        summary_block(summary@)
    };
    let mut out: Vec<String> = Vec::new();
    let mut i: usize = 0;
    while i < at
        invariant
            i <= at <= all.len(),
            ls == texts(all@),
            texts(out@) == ls.take(i as int),
        decreases at - i,
    {
        let ghost before = texts(out@);
        out.push(all[i].clone());
        proof {
            assert(texts(out@) =~= before.push(all@[i as int]@));
            assert(ls.take(i + 1) =~= ls.take(i as int).push(ls[i as int]));
        }
        i += 1;
    }
    push_block(&mut out, summary, after_title);
    while i < all.len()
        invariant
            at <= i <= all.len(),
            ls == texts(all@),
            texts(out@) == ls.take(at as int) + block + ls.subrange(at as int, i as int),
        decreases all.len() - i,
    {
        let ghost before = texts(out@);
        out.push(all[i].clone());
        proof {
            assert(texts(out@) =~= before.push(all@[i as int]@));
            assert(ls.subrange(at as int, i + 1) =~= ls.subrange(at as int, i as int).push(
                ls[i as int],
            ));
            assert(texts(out@) =~= ls.take(at as int) + block + ls.subrange(at as int, i + 1));
        }
        i += 1;
    }
    proof {
        assert(ls.subrange(at as int, all@.len() as int) =~= ls.skip(at as int));
    }
    out
}

/// Inserts or replaces the summary section of a note.
pub fn insert_summary_section(content: &str, summary: &str) -> (updated: String)
    ensures
        updated@ == with_summary(content@, summary@),
{
    let all = split_lines(content);
    let ghost ls = texts(all@);
    let mut out: Vec<String> = Vec::new();
    let mut in_summary = false;
    let mut inserted = false;
    let mut i: usize = 0;
    proof {
        assert(ls.take(0) =~= Seq::<Seq<char>>::empty());
        assert(texts(out@) =~= Seq::<Seq<char>>::empty());
    }
    while i < all.len()
        invariant
            i <= all.len(),
            ls == texts(all@),
            summary_pass(ls.take(i as int), summary@) == (SummaryPass {
                out: texts(out@),
                in_summary,
                inserted,
            }),
        decreases all.len() - i,
    {
        let ghost before = texts(out@);
        proof {
            let next = ls.take(i + 1);
            assert(next.drop_last() =~= ls.take(i as int));
            assert(next.last() == all@[i as int]@);
        }
        let line = &all[i];
        let v = chars_of(line.as_str());
        let (a, b) = trim_range(&v, 0, v.len());
        proof {
            assert(v@.subrange(0, v@.len() as int) =~= v@);
        }
        let is_summary = range_eq_ignore_ascii_case(&v, a, b, "## Summary");
        if !in_summary && is_summary {
            in_summary = true;
            push_block(&mut out, summary, false);
            inserted = true;
        } else if in_summary && range_starts_with(&v, a, b, "## ") && !is_summary {
            in_summary = false;
            out.push(line.clone());
            proof {
                assert(texts(out@) =~= before.push(line@));
            }
        } else if in_summary {
        } else {
            out.push(line.clone());
            proof {
                assert(texts(out@) =~= before.push(line@));
            }
        }
        i += 1;
    }
    proof {
        assert(ls.take(all@.len() as int) =~= ls);
        reveal_strlit("\n");
        assert("\n"@ =~= seq!['\n']);
    }
    if inserted {
        return join_strings(&out, "\n");
    }
    match find_line(&out, LineKind::TranscriptHeading) {
        Some(at) => {
            let placed = splice_block(&out, at, summary, false);
            join_strings(&placed, "\n")
        },
        None => match find_line(&out, LineKind::Title) {
            Some(at) => {
                let placed = splice_block(&out, at + 1, summary, true);
                join_strings(&placed, "\n")
            },
            None => join_strings(&out, "\n"),
        },
    }
}

} // verus!
