//! The metadata block of a note: the text between a leading `---` line and
//! the next line that starts with `---`.

use vstd::prelude::*;
use vstd::string::*;
use crate::obsidian::markdown::{class_of, skip_class, CharClass};
use crate::text::{
    chars_of,
    leading_count,
    string_of_range,
    trim,
    trim_range,
    trim_start,
    trim_start_range,
};
use crate::text::search::{find, range_find, range_starts_with};

verus! {

/// The parts of a note with a metadata block.
pub struct FrontmatterParts {
    /// The text between the markers.
    pub block: Seq<char>,
    /// The text after the closing marker.
    pub rest: Seq<char>,
}

/// The metadata block of a note and what follows it. A note has a block
/// when, leading whitespace aside, it starts with `---` and a later line
/// starts with `---` too.
pub open spec fn frontmatter_parts(content: Seq<char>) -> Option<FrontmatterParts> {
    let c = trim_start(content);
    if !"---"@.is_prefix_of(c) {
        None
    } else {
        let after = c.skip(3);
        match find(after, "\n---"@) {
            Some(pos) => Some(FrontmatterParts { block: after.take(pos), rest: after.skip(pos + 4) }),
            None => None,
        }
    }
}

/// The metadata of a note, trimmed: nothing when the note has no block or
/// the block is blank.
pub open spec fn frontmatter_text(content: Seq<char>) -> Option<Seq<char>> {
    match frontmatter_parts(content) {
        Some(parts) => if trim(parts.block).len() == 0 {
            None
        } else {
            Some(trim(parts.block))
        },
        None => None,
    }
}

/// `s` without its leading line feeds and, after those, its leading
/// carriage returns.
pub open spec fn skip_line_breaks(s: Seq<char>) -> Seq<char> {
    let t = s.skip(leading_count(s, class_of(CharClass::LineFeed)) as int);
    t.skip(leading_count(t, class_of(CharClass::CarriageReturn)) as int)
}

/// The note after its metadata block: what follows the closing marker,
/// without the line breaks it starts with. A note without a block is its own
/// body, leading whitespace aside.
pub open spec fn body_after_frontmatter(content: Seq<char>) -> Seq<char> {
    match frontmatter_parts(content) {
        Some(parts) => skip_line_breaks(parts.rest),
        None => trim_start(content),
    }
}

/// Where the parts of a note lie in its characters.
pub struct FrontmatterBounds {
    /// Start of the note without its leading whitespace.
    pub start: usize,
    /// Bounds of the block and start of the rest, where there is a block.
    pub block: Option<(usize, usize, usize)>,
}

/// Finds the metadata block of a note.
pub fn locate_frontmatter(v: &Vec<char>) -> (bounds: FrontmatterBounds)
    ensures
        bounds.start <= v.len(),
        v@.subrange(bounds.start as int, v@.len() as int) == trim_start(v@),
        match bounds.block {
            Some((from, to, rest)) => {
                &&& bounds.start <= from <= to <= rest <= v.len()
                &&& frontmatter_parts(v@) == Some(
                    FrontmatterParts {
                        block: v@.subrange(from as int, to as int),
                        rest: v@.subrange(rest as int, v@.len() as int),
                    },
                )
            },
            None => frontmatter_parts(v@) is None,
        },
{
    let n = v.len();
    let start = trim_start_range(v, 0, n);
    proof {
        assert(v@.subrange(0, n as int) =~= v@);
    }
    if !range_starts_with(v, start, n, "---") {
        return FrontmatterBounds { start, block: None };
    }
    proof {
        reveal_strlit("---");
        reveal_strlit("\n---");
    }
    let from: usize = start + 3;
    let closing = chars_of("\n---");
    let ghost c = trim_start(v@);
    let ghost after = c.skip(3);
    proof {
        assert(after =~= v@.subrange(from as int, n as int));
    }
    match range_find(v, from, n, &closing) {
        Some(pos) => {
            proof {
                assert(after.take(pos as int) =~= v@.subrange(from as int, from + pos));
                assert(after.skip(pos + 4) =~= v@.subrange(from + pos + 4, n as int));
            }
            FrontmatterBounds { start, block: Some((from, from + pos, from + pos + 4)) }
        },
        None => FrontmatterBounds { start, block: None },
    }
}

/// The metadata of a note as text to be read, if it has any.
pub fn frontmatter_yaml(content: &str) -> (yaml: Option<String>)
    ensures
        match yaml {
            Some(text) => frontmatter_text(content@) == Some(text@),
            None => frontmatter_text(content@) is None,
        },
{
    let v = chars_of(content);
    let bounds = locate_frontmatter(&v);
    match bounds.block {
        Some((from, to, _)) => {
            let (a, b) = trim_range(&v, from, to);
            if a == b {
                None
            } else {
                Some(string_of_range(&v, a, b))
            }
        },
        None => None,
    }
}

/// Bounds of the body of a note in its characters.
pub fn locate_body(v: &Vec<char>) -> (from: usize)
    ensures
        from <= v.len(),
        v@.subrange(from as int, v@.len() as int) == body_after_frontmatter(v@),
{
    let n = v.len();
    let bounds = locate_frontmatter(v);
    match bounds.block {
        Some((_, _, rest)) => {
            let a = skip_class(v, rest, n, CharClass::LineFeed);
            let b = skip_class(v, a, n, CharClass::CarriageReturn);
            proof {
                let r = v@.subrange(rest as int, n as int);
                let t = r.skip(a - rest);
                assert(t =~= v@.subrange(a as int, n as int));
                assert(t.skip(b - a) =~= v@.subrange(b as int, n as int));
            }
            b
        },
        None => bounds.start,
    }
}

/// The content of a note after its metadata block.
pub fn get_body_after_frontmatter(content: &str) -> (body: String)
    ensures
        body@ == body_after_frontmatter(content@),
{
    let v = chars_of(content);
    let from = locate_body(&v);
    string_of_range(&v, from, v.len())
}

} // verus!
