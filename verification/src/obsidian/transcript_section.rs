//! Putting the transcript section into the text of a note.

use vstd::prelude::*;
use vstd::string::*;
use crate::obsidian::markdown::{count_heading_level, heading, heading_level, is_heading};
use crate::text::{chars_of, trim, trim_range, trim_string};
use crate::text::case::{eq_ignore_ascii_case, range_eq_ignore_ascii_case};
use crate::text::lines::{join, join_strings, lines, split_lines, texts};

verus! {

/// Where the pass over the lines of a note stands.
pub struct TranscriptPass {
    /// The lines put out so far.
    pub out: Seq<Seq<char>>,
    /// The pass is inside the old transcript section.
    pub in_section: bool,
    /// The new section was put out.
    pub inserted: bool,
    /// The level of the heading of the old section.
    pub level: nat,
}

/// The line is the heading of a transcript section.
pub open spec fn is_transcript_heading(line: Seq<char>) -> bool {
    eq_ignore_ascii_case(trim(line), "## Transcript"@)
}

/// The pass after one more line. The heading of the old section and the
/// lines under it are left out. The first heading of the same level or above
/// after it ends the old section, and the new section takes its place in
/// front of that heading. Every other line is put out as it is.
pub open spec fn transcript_step(pass: TranscriptPass, line: Seq<char>, section: Seq<char>) -> TranscriptPass {
    let t = trim(line);
    if !pass.in_section && is_transcript_heading(line) {
        TranscriptPass { in_section: true, level: heading_level(t), ..pass }
    } else if pass.in_section && heading(t) && heading_level(t) <= pass.level {
        if pass.inserted {
            TranscriptPass { out: pass.out.push(line), in_section: false, ..pass }
        } else {
            TranscriptPass {
                out: pass.out.push(section).push(Seq::empty()).push(line),
                in_section: false,
                inserted: true,
                ..pass
            }
        }
    } else if pass.in_section {
        pass
    } else {
        TranscriptPass { out: pass.out.push(line), ..pass }
    }
}

/// The pass over all the lines.
pub open spec fn transcript_pass(lines: Seq<Seq<char>>, section: Seq<char>) -> TranscriptPass
    decreases lines.len(),
{
    if lines.len() == 0 {
        TranscriptPass { out: Seq::empty(), in_section: false, inserted: false, level: 0 }
    } else {
        transcript_step(transcript_pass(lines.drop_last(), section), lines.last(), section)
    }
}

/// The lines of the note with the transcript section: where the pass did not
/// put the section out, it follows at the end, after an empty line.
pub open spec fn lines_with_transcript(lines: Seq<Seq<char>>, section: Seq<char>) -> Seq<Seq<char>> {
    let pass = transcript_pass(lines, section);
    if pass.inserted {
        pass.out
    } else if pass.out.len() > 0 && pass.out.last().len() > 0 {
        pass.out.push(Seq::empty()).push(section)
    } else {
        pass.out.push(section)
    }
}

/// The note with the transcript section in place of the old one, or at its
/// end.
pub open spec fn with_transcript(content: Seq<char>, section: Seq<char>) -> Seq<char> {
    join(lines_with_transcript(lines(content), section), seq!['\n'])
}

/// Inserts or replaces the transcript section of a note.
pub fn insert_transcript_section(content: &str, transcript_section: &str) -> (updated: String)
    ensures
        updated@ == with_transcript(content@, transcript_section@),
{
    let all = split_lines(content);
    let ghost ls = texts(all@);
    let ghost section = transcript_section@;
    let mut out: Vec<String> = Vec::new();
    let mut in_section = false;
    let mut inserted = false;
    let mut level: usize = 0;
    let mut i: usize = 0;
    proof {
        assert(ls.take(0) =~= Seq::<Seq<char>>::empty());
        assert(texts(out@) =~= Seq::<Seq<char>>::empty());
    }
    while i < all.len()
        invariant
            i <= all.len(),
            ls == texts(all@),
            section == transcript_section@,
            transcript_pass(ls.take(i as int), section) == (TranscriptPass {
                out: texts(out@),
                in_section,
                inserted,
                level: level as nat,
            }),
        decreases all.len() - i,
    {
        let ghost before = texts(out@);
        let ghost pass = transcript_pass(ls.take(i as int), section);
        proof {
            let next = ls.take(i + 1);
            assert(next.drop_last() =~= ls.take(i as int));
            assert(next.last() == all@[i as int]@);
        }
        let line = &all[i];
        let v = chars_of(line.as_str());
        let (a, b) = trim_range(&v, 0, v.len());
        proof {
            assert(v@.subrange(0, v@.len() as int) =~= v@);
        }
        let trimmed = trim_string(line.as_str());
        if !in_section && range_eq_ignore_ascii_case(&v, a, b, "## Transcript") {
            in_section = true;
            level = count_heading_level(trimmed.as_str());
        } else if in_section && is_heading(trimmed.as_str()) && count_heading_level(
            trimmed.as_str(),
        ) <= level {
            if !inserted {
                out.push(transcript_section.to_owned());
                out.push(String::new());
                inserted = true;
                out.push(line.clone());
                proof {
                    assert(texts(out@) =~= before.push(section).push(Seq::empty()).push(line@));
                }
            } else {
                out.push(line.clone());
                proof {
                    assert(texts(out@) =~= before.push(line@));
                }
            }
            in_section = false;
        } else if in_section {
        } else {
            out.push(line.clone());
            proof {
                assert(texts(out@) =~= before.push(line@));
            }
        }
        i += 1;
    }
    proof {
        assert(ls.take(all@.len() as int) =~= ls);
    }
    if !inserted {
        let ghost before = texts(out@);
        if out.len() > 0 && !out[out.len() - 1].as_str().is_empty() {
            out.push(String::new());
            out.push(transcript_section.to_owned());
            proof {
                assert(before.last() == out@[before.len() - 1]@);
                assert(texts(out@) =~= before.push(Seq::empty()).push(section));
            }
        } else {
            out.push(transcript_section.to_owned());
            proof {
                if before.len() > 0 {
                    assert(before.last() == out@[before.len() - 1]@);
                }
                assert(texts(out@) =~= before.push(section));
            }
        }
    }
    proof {
        reveal_strlit("\n");
        assert("\n"@ =~= seq!['\n']);
    }
    join_strings(&out, "\n")
}

} // verus!
