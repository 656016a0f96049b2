//! The markdown forms that a meeting note is made of: headings and list
//! items.

use vstd::prelude::*;
use vstd::string::*;
use crate::text::{
    chars_of,
    leading_count,
    lemma_leading_count,
    string_of_range,
    trim,
    trim_range,
};
use crate::text::search::range_starts_with;

verus! {

/// A set of characters that a scan skips.
#[derive(Debug, Clone, Copy, PartialEq, Eq, Structural)]
pub enum CharClass {
    /// The heading mark `#`.
    Hash,
    /// An ASCII decimal digit.
    Digit,
    /// The line feed.
    LineFeed,
    /// The carriage return.
    CarriageReturn,
}

/// `c` belongs to the class.
pub open spec fn in_class(class: CharClass, c: char) -> bool {
    match class {
        CharClass::Hash => c == '#',
        CharClass::Digit => '0' <= c <= '9',
        CharClass::LineFeed => c == '\n',
        CharClass::CarriageReturn => c == '\r',
    }
}

/// The class as a predicate.
pub open spec fn class_of(class: CharClass) -> spec_fn(char) -> bool {
    |c: char| in_class(class, c)
}

fn is_in_class(class: CharClass, c: char) -> (b: bool)
    ensures
        b == in_class(class, c),
{
    let u: u32 = c as u32;
    match class {
        CharClass::Hash => c == '#',
        CharClass::Digit => 48 <= u && u <= 57,
        CharClass::LineFeed => c == '\n',
        CharClass::CarriageReturn => c == '\r',
    }
}

/// Index of the first character of `v[from..to]` outside the class, or `to`
/// when there is none.
pub fn skip_class(v: &Vec<char>, from: usize, to: usize, class: CharClass) -> (i: usize)
    requires
        from <= to <= v.len(),
    ensures
        from <= i <= to,
        i - from == leading_count(v@.subrange(from as int, to as int), class_of(class)),
{
    let mut i: usize = from;
    while i < to && is_in_class(class, v[i])
        invariant
            from <= i <= to <= v.len(),
            forall|k: int| from <= k < i ==> in_class(class, #[trigger] v@[k]),
        decreases to - i,
    {
        i += 1;
    }
    proof {
        let s = v@.subrange(from as int, to as int);
        let drop = class_of(class);
        assert forall|k: int| 0 <= k < i - from implies drop(#[trigger] s[k]) by {
            assert(s[k] == v@[from + k]);
        }
        lemma_leading_count(s, drop, i - from);
    }
    i
}

/// The level of a heading line: the number of `#` that it starts with.
pub open spec fn heading_level(line: Seq<char>) -> nat {
    leading_count(line, class_of(CharClass::Hash))
}

/// The line is a heading: trimmed, it starts with one or more `#` followed
/// by a space.
pub open spec fn heading(line: Seq<char>) -> bool {
    let t = trim(line);
    let n = heading_level(t);
    n > 0 && n < t.len() && t[n as int] == ' '
}

/// Counts the `#` that a line starts with.
pub fn count_heading_level(line: &str) -> (level: usize)
    ensures
        level == heading_level(line@),
{
    let v = chars_of(line);
    proof {
        assert(v@.subrange(0, v@.len() as int) =~= v@);
    }
    skip_class(&v, 0, v.len(), CharClass::Hash)
}

/// Tests whether a line is a markdown heading.
pub fn is_heading(line: &str) -> (b: bool)
    ensures
        b == heading(line@),
{
    let v = chars_of(line);
    let (a, b) = trim_range(&v, 0, v.len());
    let i = skip_class(&v, a, b, CharClass::Hash);
    proof {
        assert(v@.subrange(0, v@.len() as int) =~= v@);
        let t = v@.subrange(a as int, b as int);
        if i < b {
            assert(t[i - a] == v@[i as int]);
        }
    }
    i > a && i < b && v[i] == ' '
}

/// A trimmed line carries a checkbox mark: it starts with `- [ ]`, `- [x]`
/// or `- [X]`.
pub open spec fn has_checkbox_mark(t: Seq<char>) -> bool {
    "- [ ]"@.is_prefix_of(t) || "- [x]"@.is_prefix_of(t) || "- [X]"@.is_prefix_of(t)
}

/// The text of a checkbox item: what follows the mark, trimmed. A line with
/// the mark alone is no item.
pub open spec fn checkbox_item(line: Seq<char>) -> Option<Seq<char>> {
    let t = trim(line);
    if has_checkbox_mark(t) && t.len() > 5 {
        Some(trim(t.skip(5)))
    } else {
        None
    }
}

/// The text of a bullet item: what follows `- `, trimmed. A checkbox is no
/// bullet item.
pub open spec fn bullet_item(line: Seq<char>) -> Option<Seq<char>> {
    let t = trim(line);
    if "- "@.is_prefix_of(t) && !"- ["@.is_prefix_of(t) {
        Some(trim(t.skip(2)))
    } else {
        None
    }
}

/// The text of a numbered item: what follows one or more digits and a full
/// stop, trimmed.
pub open spec fn numbered_item(line: Seq<char>) -> Option<Seq<char>> {
    let t = trim(line);
    let d = leading_count(t, class_of(CharClass::Digit));
    if d > 0 && d < t.len() && t[d as int] == '.' {
        Some(trim(t.skip(d as int + 1)))
    } else {
        None
    }
}

/// The trimmed text of `v[from..to]`, as a string.
fn trimmed_string(v: &Vec<char>, from: usize, to: usize) -> (out: String)
    requires
        from <= to <= v.len(),
    ensures
        out@ == trim(v@.subrange(from as int, to as int)),
{
    let (a, b) = trim_range(v, from, to);
    string_of_range(v, a, b)
}

/// Extracts the text of a checkbox item.
pub fn extract_checkbox_item(line: &str) -> (item: Option<String>)
    ensures
        match item {
            Some(text) => checkbox_item(line@) == Some(text@),
            None => checkbox_item(line@) is None,
        },
{
    let v = chars_of(line);
    let (a, b) = trim_range(&v, 0, v.len());
    proof {
        assert(v@.subrange(0, v@.len() as int) =~= v@);
    }
    let marked = range_starts_with(&v, a, b, "- [ ]") || range_starts_with(&v, a, b, "- [x]")
        || range_starts_with(&v, a, b, "- [X]");
    if marked && b - a > 5 {
        proof {
            assert(v@.subrange(a as int, b as int).skip(5) =~= v@.subrange(a + 5, b as int));
        }
        Some(trimmed_string(&v, a + 5, b))
    } else {
        None
    }
}

/// Extracts the text of a bullet item.
pub fn extract_bullet_item(line: &str) -> (item: Option<String>)
    ensures
        match item {
            Some(text) => bullet_item(line@) == Some(text@),
            None => bullet_item(line@) is None,
        },
{
    let v = chars_of(line);
    let (a, b) = trim_range(&v, 0, v.len());
    proof {
        assert(v@.subrange(0, v@.len() as int) =~= v@);
    }
    if range_starts_with(&v, a, b, "- ") && !range_starts_with(&v, a, b, "- [") {
        proof {
            reveal_strlit("- ");
            assert(v@.subrange(a as int, b as int).skip(2) =~= v@.subrange(a + 2, b as int));
        }
        Some(trimmed_string(&v, a + 2, b))
    } else {
        None
    }
}

/// Extracts the text of a numbered item.
pub fn extract_numbered_item(line: &str) -> (item: Option<String>)
    ensures
        match item {
            Some(text) => numbered_item(line@) == Some(text@),
            None => numbered_item(line@) is None,
        },
{
    let v = chars_of(line);
    let (a, b) = trim_range(&v, 0, v.len());
    let i = skip_class(&v, a, b, CharClass::Digit);
    proof {
        assert(v@.subrange(0, v@.len() as int) =~= v@);
        let t = v@.subrange(a as int, b as int);
        if i < b {
            assert(t[i - a] == v@[i as int]);
        }
    }
    if i > a && i < b && v[i] == '.' {
        proof {
            assert(v@.subrange(a as int, b as int).skip(i - a + 1) =~= v@.subrange(
                i + 1,
                b as int,
            ));
        }
        Some(trimmed_string(&v, i + 1, b))
    } else {
        None
    }
}

} // verus!
