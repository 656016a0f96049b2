//! Reading a meeting note: its title and its configured sections.

use std::path::{Path, PathBuf};
use vstd::prelude::*;
use vstd::string::*;
use crate::obsidian::builtin::{are_builtin_matchers, get_matchers};
use crate::obsidian::frontmatter::{
    body_after_frontmatter,
    frontmatter_text,
    frontmatter_yaml,
    get_body_after_frontmatter,
};
use crate::obsidian::markdown::{
    bullet_item,
    checkbox_item,
    count_heading_level,
    extract_bullet_item,
    extract_checkbox_item,
    extract_numbered_item,
    heading,
    heading_level,
    is_heading,
    numbered_item,
};
use crate::obsidian::sections::{
    copy_matcher,
    field_names,
    find_matcher,
    same_matcher,
    matcher_fields,
    matcher_index,
    ContentType,
    SectionMatcher,
};
use crate::obsidian::types::{MeetingFrontmatter, MeetingPrep};
use crate::text::{chars_of, option_text, string_of_range, trim, trim_range, trim_string};
use crate::text::case::{lowercase, to_lowercase};
use crate::text::lines::{join, join_strings, lines, split_lines, texts};
use crate::text::search::{contains, range_starts_with, str_contains, str_equals};

verus! {

/// Why a note could not be read.
#[derive(Debug, Clone)]
pub enum ParseError {
    IoError(String),
    FrontmatterError(String),
    MissingContent,
    ConfigError(String),
}

/// What a [`ParseError`] holds.
pub enum ParseFailure {
    IoError(Seq<char>),
    FrontmatterError(Seq<char>),
    MissingContent,
    ConfigError(Seq<char>),
}

impl View for ParseError {
    type V = ParseFailure;

    open spec fn view(&self) -> ParseFailure {
        match self {
            ParseError::IoError(detail) => ParseFailure::IoError(detail@),
            ParseError::FrontmatterError(detail) => ParseFailure::FrontmatterError(detail@),
            ParseError::MissingContent => ParseFailure::MissingContent,
            ParseError::ConfigError(detail) => ParseFailure::ConfigError(detail@),
        }
    }
}

/// The message of a failure.
pub open spec fn failure_message(failure: ParseFailure) -> Seq<char> {
    match failure {
        ParseFailure::IoError(detail) => "Failed to read file: "@ + detail,
        ParseFailure::FrontmatterError(detail) => "Invalid frontmatter: "@ + detail,
        ParseFailure::MissingContent => "Missing required content"@,
        ParseFailure::ConfigError(detail) => "Config error: "@ + detail,
    }
}

impl ParseError {
    /// The message of the error.
    pub fn message(&self) -> (text: String)
        ensures
            text@ == failure_message(self@),
    {
        match self {
            ParseError::IoError(detail) => {
                let mut text = "Failed to read file: ".to_owned();
                text.append(detail.as_str());
                text
            },
            ParseError::FrontmatterError(detail) => {
                let mut text = "Invalid frontmatter: ".to_owned();
                text.append(detail.as_str());
                text
            },
            ParseError::MissingContent => "Missing required content".to_owned(),
            ParseError::ConfigError(detail) => {
                let mut text = "Config error: ".to_owned();
                text.append(detail.as_str());
                text
            },
        }
    }
}

/// The line opens a section with these patterns: trimmed and in lowercase,
/// it is one of them.
pub open spec fn opens_section(patterns: Seq<Seq<char>>, line: Seq<char>) -> bool {
    patterns.contains(lowercase(trim(line)))
}

/// The first line at or after `from` that opens the section.
pub open spec fn opening_line(lines: Seq<Seq<char>>, patterns: Seq<Seq<char>>, from: int) -> Option<
    int,
>
    decreases lines.len() - from,
{
    if from < 0 || from >= lines.len() {
        None
    } else if opens_section(patterns, lines[from]) {
        Some(from)
    } else {
        opening_line(lines, patterns, from + 1)
    }
}

/// The line ends a section that was opened at `level`: it is a heading of
/// that level or above.
pub open spec fn ends_section(line: Seq<char>, level: nat) -> bool {
    heading(trim(line)) && heading_level(trim(line)) <= level
}

/// Number of lines from `from` on that belong to a section opened at
/// `level`.
pub open spec fn section_len(lines: Seq<Seq<char>>, level: nat, from: int) -> nat
    decreases lines.len() - from,
{
    if 0 <= from < lines.len() && !ends_section(lines[from], level) {
        1 + section_len(lines, level, from + 1)
    } else {
        0
    }
}

/// The text of the section with these patterns: the lines after the first
/// heading that opens it, up to the next heading of the same level or above,
/// joined by line feeds. Nothing when no heading opens the section.
pub open spec fn section_text(content: Seq<char>, patterns: Seq<Seq<char>>) -> Option<Seq<char>> {
    let all = lines(content);
    match opening_line(all, patterns, 0) {
        Some(i) => {
            let level = heading_level(trim(all[i]));
            Some(join(all.subrange(i + 1, i + 1 + section_len(all, level, i + 1)), seq!['\n']))
        },
        None => None,
    }
}

fn matches_pattern(patterns: &Vec<String>, lowered: &str) -> (b: bool)
    ensures
        b == texts(patterns@).contains(lowered@),
{
    let mut k: usize = 0;
    while k < patterns.len()
        invariant
            k <= patterns.len(),
            forall|j: int| 0 <= j < k ==> texts(patterns@)[j] != lowered@,
        decreases patterns.len() - k,
    {
        if str_equals(patterns[k].as_str(), lowered) {
            proof {
                assert(texts(patterns@)[k as int] == lowered@);
            }
            return true;
        }
        k += 1;
    }
    false
}

/// Finds the text of the section of a matcher.
pub fn find_section_by_matcher(content: &str, matcher: &SectionMatcher) -> (section: Option<
    String,
>)
    ensures
        match section {
            Some(text) => section_text(content@, texts(matcher.patterns@)) == Some(text@),
            None => section_text(content@, texts(matcher.patterns@)) is None,
        },
{
    let all = split_lines(content);
    let ghost ls = texts(all@);
    let ghost patterns = texts(matcher.patterns@);
    let n = all.len();
    let mut i: usize = 0;
    let mut level: usize = 0;
    let mut found = false;
    while i < n && !found
        invariant
            n == all.len(),
            i <= n,
            ls == texts(all@),
            patterns == texts(matcher.patterns@),
            !found ==> opening_line(ls, patterns, 0) == opening_line(ls, patterns, i as int),
            found ==> 0 < i && opening_line(ls, patterns, 0) == Some(i - 1) && level
                == heading_level(trim(ls[i - 1])),
        decreases n - i,
    {
        let trimmed = trim_string(all[i].as_str());
        let lowered = to_lowercase(trimmed.as_str());
        proof {
            assert(ls[i as int] == all@[i as int]@);
        }
        if matches_pattern(&matcher.patterns, lowered.as_str()) {
            found = true;
            level = count_heading_level(trimmed.as_str());
        }
        i += 1;
    }
    if !found {
        return None;
    }
    let first = i;
    let mut kept: Vec<String> = Vec::new();
    let mut stop = false;
    while i < n && !stop
        invariant
            n == all.len(),
            first <= i <= n,
            ls == texts(all@),
            texts(kept@) == ls.subrange(first as int, i as int),
            !stop ==> first + section_len(ls, level as nat, first as int) == i + section_len(
                ls,
                level as nat,
                i as int,
            ),
            stop ==> first + section_len(ls, level as nat, first as int) == i,
        decreases n - i + (if stop {
            0int
        } else {
            1int
        }),
    {
        let trimmed = trim_string(all[i].as_str());
        proof {
            assert(ls[i as int] == all@[i as int]@);
        }
        if is_heading(trimmed.as_str()) && count_heading_level(trimmed.as_str()) <= level {
            stop = true;
        } else {
            let ghost before = texts(kept@);
            kept.push(all[i].clone());
            proof {
                assert(texts(kept@) =~= before.push(ls[i as int]));
                assert(ls.subrange(first as int, i + 1) =~= ls.subrange(first as int, i as int).push(
                    ls[i as int],
                ));
            }
            i += 1;
        }
    }
    proof {
        reveal_strlit("\n");
        assert("\n"@ =~= seq!['\n']);
    }
    Some(join_strings(&kept, "\n"))
}

/// A text, if it is not empty.
pub open spec fn non_empty(text: Option<Seq<char>>) -> Option<Seq<char>> {
    match text {
        Some(t) => if t.len() > 0 {
            Some(t)
        } else {
            None
        },
        None => None,
    }
}

/// The item that a line of a section holds. A bullet section takes bullet
/// items and, where a line is none, numbered items. A checkbox section keeps
/// the state of the box in front of the text. A raw section takes every line
/// that is not blank, as it is. An item without text is none.
pub open spec fn line_item(content_type: ContentType, line: Seq<char>) -> Option<Seq<char>> {
    let t = trim(line);
    match content_type {
        ContentType::Bullet => match bullet_item(t) {
            Some(text) => non_empty(Some(text)),
            None => non_empty(numbered_item(t)),
        },
        ContentType::Numbered => non_empty(numbered_item(t)),
        ContentType::Checkbox => match non_empty(checkbox_item(t)) {
            Some(text) => if contains(t, "[x]"@) || contains(t, "[X]"@) {
                Some("[x] "@ + text)
            } else {
                Some("[ ] "@ + text)
            },
            None => None,
        },
        ContentType::Raw => if t.len() > 0 {
            Some(line)
        } else {
            None
        },
    }
}

/// The items of the lines, in order.
pub open spec fn collect_items(lines: Seq<Seq<char>>, content_type: ContentType) -> Seq<Seq<char>>
    decreases lines.len(),
{
    if lines.len() == 0 {
        Seq::empty()
    } else {
        let before = collect_items(lines.drop_last(), content_type);
        match line_item(content_type, lines.last()) {
            Some(item) => before.push(item),
            None => before,
        }
    }
}

/// The items of the section with these patterns; none when the note has no
/// such section.
pub open spec fn section_items(
    body: Seq<char>,
    patterns: Seq<Seq<char>>,
    content_type: ContentType,
) -> Seq<Seq<char>> {
    match section_text(body, patterns) {
        Some(text) => collect_items(lines(text), content_type),
        None => Seq::empty(),
    }
}

fn keep_non_empty(item: Option<String>) -> (kept: Option<String>)
    ensures
        match kept {
            Some(text) => non_empty(
                match item {
                    Some(t) => Some(t@),
                    None => None,
                },
            ) == Some(text@),
            None => non_empty(
                match item {
                    Some(t) => Some(t@),
                    None => None,
                },
            ) is None,
        },
{
    match item {
        Some(text) => if text.as_str().is_empty() {
            None
        } else {
            Some(text)
        },
        None => None,
    }
}

fn item_of_line(content_type: ContentType, line: &str) -> (item: Option<String>)
    ensures
        match item {
            Some(text) => line_item(content_type, line@) == Some(text@),
            None => line_item(content_type, line@) is None,
        },
{
    let trimmed = trim_string(line);
    let t = trimmed.as_str();
    match content_type {
        ContentType::Bullet => {
            let bullet = extract_bullet_item(t);
            if bullet.is_some() {
                keep_non_empty(bullet)
            } else {
                keep_non_empty(extract_numbered_item(t))
            }
        },
        ContentType::Numbered => keep_non_empty(extract_numbered_item(t)),
        ContentType::Checkbox => match keep_non_empty(extract_checkbox_item(t)) {
            Some(text) => {
                let mut item = if str_contains(t, "[x]") || str_contains(t, "[X]") {
                    "[x] ".to_owned()
                } else {
                    "[ ] ".to_owned()
                };
                item.append(text.as_str());
                Some(item)
            },
            None => None,
        },
        ContentType::Raw => if t.is_empty() {
            None
        } else {
            Some(line.to_owned())
        },
    }
}

/// Extracts the items of the section of a matcher.
pub fn extract_section_items(body: &str, matcher: &SectionMatcher) -> (items: Vec<String>)
    ensures
        texts(items@) == section_items(body@, texts(matcher.patterns@), matcher.content_type),
{
    let mut items: Vec<String> = Vec::new();
    let section = match find_section_by_matcher(body, matcher) {
        Some(text) => text,
        None => {
            proof {
                assert(texts(items@) =~= Seq::<Seq<char>>::empty());
            }
            return items;
        },
    };
    let all = split_lines(section.as_str());
    let ghost ls = texts(all@);
    let mut i: usize = 0;
    proof {
        assert(ls.take(0) =~= Seq::<Seq<char>>::empty());
        assert(texts(items@) =~= collect_items(ls.take(0), matcher.content_type));
    }
    while i < all.len()
        invariant
            i <= all.len(),
            ls == texts(all@),
            texts(items@) == collect_items(ls.take(i as int), matcher.content_type),
        decreases all.len() - i,
    {
        let ghost before = texts(items@);
        proof {
            let next = ls.take(i + 1);
            assert(next.drop_last() =~= ls.take(i as int));
            assert(next.last() == all@[i as int]@);
        }
        match item_of_line(matcher.content_type, all[i].as_str()) {
            Some(item) => {
                items.push(item);
                proof {
                    assert(texts(items@) =~= before.push(item@));
                }
            },
            None => {},
        }
        i += 1;
    }
    proof {
        assert(ls.take(all@.len() as int) =~= ls);
    }
    items
}

/// The title that a line holds: what follows `# `, trimmed.
pub open spec fn title_of_line(line: Seq<char>) -> Option<Seq<char>> {
    let t = trim(line);
    if "# "@.is_prefix_of(t) {
        Some(trim(t.skip(2)))
    } else {
        None
    }
}

/// The title of the first line that holds one; empty when none does.
pub open spec fn first_title(lines: Seq<Seq<char>>) -> Seq<char>
    decreases lines.len(),
{
    if lines.len() == 0 {
        Seq::empty()
    } else {
        match title_of_line(lines[0]) {
            Some(title) => title,
            None => first_title(lines.drop_first()),
        }
    }
}

/// The title of a note: that of the first top-level heading of its body.
pub open spec fn note_title(content: Seq<char>) -> Seq<char> {
    first_title(lines(body_after_frontmatter(content)))
}

/// Extracts the title of a note from its first `# ` heading.
pub fn extract_title(content: &str) -> (title: String)
    ensures
        title@ == note_title(content@),
{
    let body = get_body_after_frontmatter(content);
    let all = split_lines(body.as_str());
    let ghost ls = texts(all@);
    let mut i: usize = 0;
    proof {
        assert(ls.skip(0) =~= ls);
    }
    while i < all.len()
        invariant
            i <= all.len(),
            ls == texts(all@),
            note_title(content@) == first_title(ls),
            first_title(ls) == first_title(ls.skip(i as int)),
        decreases all.len() - i,
    {
        let v = chars_of(all[i].as_str());
        let (a, b) = trim_range(&v, 0, v.len());
        proof {
            let rest = ls.skip(i as int);
            assert(rest[0] == all@[i as int]@);
            assert(rest.drop_first() =~= ls.skip(i + 1));
            assert(v@.subrange(0, v@.len() as int) =~= v@);
            reveal_strlit("# ");
        }
        if range_starts_with(&v, a, b, "# ") {
            let (c, d) = trim_range(&v, a + 2, b);
            proof {
                let rest = ls.skip(i as int);
                let t = trim(rest[0]);
                assert(t == v@.subrange(a as int, b as int));
                assert(t.skip(2) =~= v@.subrange(a + 2, b as int));
                assert(title_of_line(rest[0]) == Some(v@.subrange(c as int, d as int)));
                assert(rest.len() > 0);
                assert(first_title(rest) == v@.subrange(c as int, d as int));
            }
            return string_of_range(&v, c, d);
        }
        proof {
            let rest = ls.skip(i as int);
            assert(trim(rest[0]) == v@.subrange(a as int, b as int));
            assert(title_of_line(rest[0]) is None);
        }
        i += 1;
    }
    String::new()
}

/// A file name as a title: hyphens and underscores become spaces.
pub open spec fn spaced(stem: Seq<char>) -> Seq<char> {
    stem.map_values(
        |c: char|
            if c == '-' || c == '_' {
                ' '
            } else {
                c
            },
    )
}

/// Makes a title from the stem of a file name.
pub fn title_from_stem(stem: &str) -> (title: String)
    ensures
        title@ == spaced(stem@),
{
    let v = chars_of(stem);
    let mut title = String::new();
    let mut i: usize = 0;
    while i < v.len()
        invariant
            i <= v.len(),
            v@ == stem@,
            title@ == spaced(stem@).take(i as int),
        decreases v.len() - i,
    {
        let c = v[i];
        if c == '-' || c == '_' {
            title.push(' ');
        } else {
            title.push(c);
        }
        i += 1;
        proof {
            assert(title@ =~= spaced(stem@).take(i as int));
        }
    }
    proof {
        assert(spaced(stem@).take(v@.len() as int) =~= spaced(stem@));
    }
    title
}

/// Calls `Path::to_path_buf`. Nothing is claimed of the copy.
#[verifier::external_body]
fn path_buf_of(path: &Path) -> (owned: PathBuf) {
    path.to_path_buf()
}

/// The stem of the file name of a path, where it has one that is valid
/// UTF-8: `Path::file_stem`, then `OsStr::to_str`. Nothing is claimed of it.
#[verifier::external_body]
fn file_stem_of(path: &Path) -> (stem: Option<String>) {
    path.file_stem().and_then(|s| s.to_str()).map(|s| s.to_owned())
}

/// The matcher of a configured field.
pub fn get_matcher_for_field(field: &str) -> (found: Option<SectionMatcher>)
    ensures
        exists|matchers: Seq<SectionMatcher>| #[trigger]
            are_builtin_matchers(matchers) && match found {
                Some(matcher) => matcher_index(matchers, field@) is Some && same_matcher(
                    matcher,
                    matchers[matcher_index(matchers, field@)->0],
                ),
                None => matcher_index(matchers, field@) is None,
            },
{
    let matchers = get_matchers();
    match find_matcher(&matchers, field) {
        Some(matcher) => Some(copy_matcher(matcher)),
        None => None,
    }
}

/// The names of the configured fields, in order.
pub fn get_configured_fields() -> (fields: Vec<String>)
    ensures
        exists|matchers: Seq<SectionMatcher>| #[trigger]
            are_builtin_matchers(matchers) && texts(fields@) == matcher_fields(matchers),
{
    let matchers = get_matchers();
    field_names(&matchers)
}

/// The items of a field: those of the section of its matcher, or none when
/// no matcher is configured for it.
pub open spec fn field_items(body: Seq<char>, matchers: Seq<SectionMatcher>, field: Seq<char>) -> Seq<
    Seq<char>,
> {
    match matcher_index(matchers, field) {
        Some(i) => section_items(body, texts(matchers[i].patterns@), matchers[i].content_type),
        None => Seq::empty(),
    }
}

fn items_of_field(body: &str, matchers: &Vec<SectionMatcher>, field: &str) -> (items: Vec<String>)
    ensures
        texts(items@) == field_items(body@, matchers@, field@),
{
    match find_matcher(matchers, field) {
        Some(matcher) => extract_section_items(body, matcher),
        None => {
            let items: Vec<String> = Vec::new();
            proof {
                assert(texts(items@) =~= Seq::<Seq<char>>::empty());
            }
            items
        },
    }
}

/// The title of a note: that of its first top-level heading, or else the
/// stem of its file name with spaces for hyphens and underscores, or else
/// none.
pub open spec fn title_or_stem(content: Seq<char>, stem: Option<Seq<char>>) -> Seq<char> {
    if note_title(content).len() > 0 {
        note_title(content)
    } else {
        match stem {
            Some(stem) => spaced(stem),
            None => Seq::empty(),
        }
    }
}

/// What was read of a note agrees with its text, the stem of its file name
/// and the matchers: the title, and the items of each field.
pub open spec fn reads_note(
    prep: MeetingPrep,
    content: Seq<char>,
    stem: Option<Seq<char>>,
    matchers: Seq<SectionMatcher>,
) -> bool {
    let body = body_after_frontmatter(content);
    &&& prep.raw_content@ == content
    &&& prep.title@ == title_or_stem(content, stem)
    &&& texts(prep.agenda@) == field_items(body, matchers, "agenda"@)
    &&& texts(prep.notes@) == field_items(body, matchers, "notes"@)
    &&& texts(prep.action_items@) == field_items(body, matchers, "action_items"@)
    &&& texts(prep.goals@) == field_items(body, matchers, "goals"@)
    &&& prep.context@ == join(field_items(body, matchers, "context"@), seq!['\n'])
}

/// The message of metadata that could not be read.
pub open spec fn yaml_failure(detail: Seq<char>) -> ParseFailure {
    ParseFailure::FrontmatterError("YAML parse error: "@ + detail)
}

/// Reading the note with this outcome of reading its metadata gives this
/// result. The outcome is looked at only when the note has metadata;
/// metadata that could not be read fails the whole note.
pub open spec fn reads_metadata(
    result: Result<MeetingPrep, ParseError>,
    content: Seq<char>,
    yaml: Result<MeetingFrontmatter, String>,
) -> bool {
    if frontmatter_text(content) is None {
        result matches Ok(prep) && prep.frontmatter.is_empty()
    } else {
        match yaml {
            Ok(frontmatter) => result matches Ok(prep) && prep.frontmatter == frontmatter,
            Err(detail) => result matches Err(e) && e@ == yaml_failure(detail@),
        }
    }
}

/// Reads a meeting note that lies at `file_path`, whose file name has the
/// stem `file_stem`. `yaml` is what reading the metadata of the note (see
/// [`frontmatter_yaml`]) gave. The title comes from the first top-level
/// heading of the body, or else from the stem; the sections are those that
/// are configured.
pub fn read_note(
    file_path: PathBuf,
    file_stem: Option<String>,
    content: &str,
    yaml: Result<MeetingFrontmatter, String>,
) -> (result: Result<MeetingPrep, ParseError>)
    ensures
        reads_metadata(result, content@, yaml),
        result matches Ok(prep) ==> prep.file_path == file_path && exists|
            matchers: Seq<SectionMatcher>,
        | #[trigger]
            are_builtin_matchers(matchers) && reads_note(
                prep,
                content@,
                option_text(file_stem),
                matchers,
            ),
{
    let frontmatter = match frontmatter_yaml(content) {
        Some(_) => match yaml {
            Ok(frontmatter) => frontmatter,
            Err(detail) => {
                let mut text = "YAML parse error: ".to_owned();
                text.append(detail.as_str());
                return Err(ParseError::FrontmatterError(text));
            },
        },
        None => MeetingFrontmatter::default(),
    };
    let mut title = extract_title(content);
    if title.as_str().is_empty() {
        match &file_stem {
            Some(stem) => {
                title = title_from_stem(stem.as_str());
            },
            None => {
                proof {
                    assert(title@ =~= Seq::<char>::empty());
                }
            },
        }
    }
    proof {
        assert(title@ == title_or_stem(content@, option_text(file_stem)));
    }
    let body = get_body_after_frontmatter(content);
    let matchers = get_matchers();
    let agenda = items_of_field(body.as_str(), &matchers, "agenda");
    let notes = items_of_field(body.as_str(), &matchers, "notes");
    let action_items = items_of_field(body.as_str(), &matchers, "action_items");
    let goals = items_of_field(body.as_str(), &matchers, "goals");
    let context_lines = items_of_field(body.as_str(), &matchers, "context");
    proof {
        reveal_strlit("\n");
        assert("\n"@ =~= seq!['\n']);
    }
    let context = join_strings(&context_lines, "\n");
    let prep = MeetingPrep {
        file_path,
        frontmatter,
        title,
        agenda,
        notes,
        action_items,
        goals,
        context,
        raw_content: content.to_owned(),
    };
    proof {
        assert(reads_note(prep, content@, option_text(file_stem), matchers@));
    }
    Ok(prep)
}

/// Reads a meeting note from its path and its text: [`read_note`] with the
/// path and the stem of its file name, which the path alone determines.
pub fn parse_meeting_file(
    path: &Path,
    content: &str,
    yaml: Result<MeetingFrontmatter, String>,
) -> (result: Result<MeetingPrep, ParseError>)
    ensures
        reads_metadata(result, content@, yaml),
        result matches Ok(prep) ==> exists|matchers: Seq<SectionMatcher>, stem: Option<Seq<char>>|
            #[trigger] are_builtin_matchers(matchers) && #[trigger] reads_note(
                prep,
                content@,
                stem,
                matchers,
            ),
{
    let file_stem = file_stem_of(path);
    let ghost stem = option_text(file_stem);
    let result = read_note(path_buf_of(path), file_stem, content, yaml);
    proof {
        if result is Ok {
            let prep = result->Ok_0;
            let matchers = choose|matchers: Seq<SectionMatcher>| #[trigger]
                are_builtin_matchers(matchers) && reads_note(prep, content@, stem, matchers);
            assert(are_builtin_matchers(matchers) && reads_note(prep, content@, stem, matchers));
        }
    }
    result
}

} // verus!
