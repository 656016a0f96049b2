//! The sections that are read from a note, and the headings that open them.
//!
//! Each section has labels in several languages. A heading opens the section
//! when, trimmed and in lowercase, it equals one of the section's patterns:
//! the heading marks of one of its levels, a space, and one of its labels in
//! lowercase.

use vstd::prelude::*;
use vstd::string::*;
use crate::text::case::{lowercase, to_lowercase};
use crate::text::lines::texts;
use crate::text::search::str_equals;

verus! {

/// How the content of a section is read.
#[derive(Debug, Clone, Copy, PartialEq, Eq, Structural)]
pub enum ContentType {
    Bullet,
    Numbered,
    Checkbox,
    Raw,
}

/// The labels of a section in one language.
#[derive(Debug, Clone)]
pub struct LabelSet {
    pub language: String,
    pub labels: Vec<String>,
}

/// A section as it is configured.
#[derive(Debug, Clone)]
pub struct SectionDefinition {
    pub field: String,
    pub levels: Vec<usize>,
    pub content_type: ContentType,
    pub labels: Vec<LabelSet>,
}

/// A section with all its heading patterns.
#[derive(Debug, Clone)]
pub struct SectionMatcher {
    pub field: String,
    pub levels: Vec<usize>,
    pub content_type: ContentType,
    /// Every heading that opens the section, in lowercase.
    pub patterns: Vec<String>,
}

/// No language has two label sets.
pub open spec fn languages_distinct(sets: Seq<LabelSet>) -> bool {
    forall|i: int, j: int|
        0 <= i < j < sets.len() ==> (#[trigger] sets[i]).language@ != (#[trigger] sets[j]).language@
}

/// The labels of each language of a definition.
pub open spec fn label_groups(sets: Seq<LabelSet>) -> Seq<Seq<Seq<char>>> {
    sets.map_values(|set: LabelSet| texts(set.labels@))
}

/// `count` heading marks.
pub open spec fn heading_marks(count: nat) -> Seq<char> {
    Seq::new(count, |i: int| '#')
}

/// The heading of `level` with `label`, in lowercase.
pub open spec fn heading_pattern(level: usize, label: Seq<char>) -> Seq<char> {
    heading_marks(level as nat) + seq![' '] + lowercase(label)
}

/// The patterns of one label: one for each level, in the order of the
/// levels.
pub open spec fn label_patterns(levels: Seq<usize>, label: Seq<char>) -> Seq<Seq<char>> {
    levels.map_values(|level: usize| heading_pattern(level, label))
}

/// The patterns of a list of labels, label by label.
pub open spec fn labels_patterns(levels: Seq<usize>, labels: Seq<Seq<char>>) -> Seq<Seq<char>>
    decreases labels.len(),
{
    if labels.len() == 0 {
        Seq::empty()
    } else {
        labels_patterns(levels, labels.drop_last()) + label_patterns(levels, labels.last())
    }
}

/// The patterns of all languages, language by language.
pub open spec fn groups_patterns(levels: Seq<usize>, groups: Seq<Seq<Seq<char>>>) -> Seq<
    Seq<char>,
>
    decreases groups.len(),
{
    if groups.len() == 0 {
        Seq::empty()
    } else {
        groups_patterns(levels, groups.drop_last()) + labels_patterns(levels, groups.last())
    }
}

/// The matcher is the compiled form of the definition.
pub open spec fn is_compiled(matcher: SectionMatcher, definition: SectionDefinition) -> bool {
    &&& matcher.field@ == definition.field@
    &&& matcher.levels@ == definition.levels@
    &&& matcher.content_type == definition.content_type
    &&& texts(matcher.patterns@) == groups_patterns(
        definition.levels@,
        label_groups(definition.labels@),
    )
}

fn push_pattern(patterns: &mut Vec<String>, level: usize, label: &str)
    ensures
        final(patterns)@.len() == old(patterns)@.len() + 1,
        texts(final(patterns)@) == texts(old(patterns)@).push(heading_pattern(level, label@)),
{
    let mut pattern = String::new();
    let mut k: usize = 0;
    while k < level
        invariant
            k <= level,
            pattern@ == heading_marks(k as nat),
        decreases level - k,
    {
        pattern.push('#');
        k += 1;
        proof {
            assert(pattern@ =~= heading_marks(k as nat));
        }
    }
    pattern.push(' ');
    let lowered = to_lowercase(label);
    pattern.append(lowered.as_str());
    proof {
        assert(pattern@ =~= heading_pattern(level, label@));
    }
    let ghost before = texts(patterns@);
    patterns.push(pattern);
    proof {
        assert(texts(patterns@) =~= before.push(heading_pattern(level, label@)));
    }
}

fn push_label_patterns(patterns: &mut Vec<String>, levels: &Vec<usize>, label: &str)
    ensures
        texts(final(patterns)@) == texts(old(patterns)@) + label_patterns(levels@, label@),
{
    let mut k: usize = 0;
    proof {
        assert(texts(patterns@) =~= texts(old(patterns)@) + label_patterns(levels@, label@).take(
            0,
        ));
    }
    while k < levels.len()
        invariant
            k <= levels.len(),
            texts(patterns@) == texts(old(patterns)@) + label_patterns(levels@, label@).take(
                k as int,
            ),
        decreases levels.len() - k,
    {
        push_pattern(patterns, levels[k], label);
        proof {
            let all = label_patterns(levels@, label@);
            assert(all.take(k + 1) =~= all.take(k as int).push(all[k as int]));
            assert(texts(patterns@) =~= texts(old(patterns)@) + all.take(k + 1));
        }
        k += 1;
    }
    proof {
        let all = label_patterns(levels@, label@);
        assert(all.take(levels@.len() as int) =~= all);
    }
}

fn push_labels_patterns(patterns: &mut Vec<String>, levels: &Vec<usize>, labels: &Vec<String>)
    ensures
        texts(final(patterns)@) == texts(old(patterns)@) + labels_patterns(levels@, texts(labels@)),
{
    let ghost all = texts(labels@);
    let mut l: usize = 0;
    proof {
        assert(all.take(0) =~= Seq::<Seq<char>>::empty());
        assert(texts(patterns@) =~= texts(old(patterns)@) + labels_patterns(levels@, all.take(0)));
    }
    while l < labels.len()
        invariant
            l <= labels.len(),
            all == texts(labels@),
            texts(patterns@) == texts(old(patterns)@) + labels_patterns(
                levels@,
                all.take(l as int),
            ),
        decreases labels.len() - l,
    {
        push_label_patterns(patterns, levels, labels[l].as_str());
        proof {
            let next = all.take(l + 1);
            assert(next.drop_last() =~= all.take(l as int));
            assert(next.last() == labels@[l as int]@);
            assert(texts(patterns@) =~= texts(old(patterns)@) + labels_patterns(levels@, next));
        }
        l += 1;
    }
    proof {
        assert(all.take(labels@.len() as int) =~= all);
    }
}

fn copy_levels(levels: &Vec<usize>) -> (out: Vec<usize>)
    ensures
        out@ == levels@,
{
    let mut out: Vec<usize> = Vec::new();
    let mut i: usize = 0;
    while i < levels.len()
        invariant
            i <= levels.len(),
            out@ == levels@.take(i as int),
        decreases levels.len() - i,
    {
        out.push(levels[i]);
        proof {
            assert(out@ =~= levels@.take(i + 1));
        }
        i += 1;
    }
    proof {
        assert(levels@.take(levels@.len() as int) =~= levels@);
    }
    out
}

/// Compiles a definition: every label of every language at every level
/// becomes a pattern.
pub fn compile_section(definition: &SectionDefinition) -> (matcher: SectionMatcher)
    ensures
        is_compiled(matcher, *definition),
{
    let ghost groups = label_groups(definition.labels@);
    let mut patterns: Vec<String> = Vec::new();
    let mut g: usize = 0;
    proof {
        assert(groups.take(0) =~= Seq::<Seq<Seq<char>>>::empty());
        assert(texts(patterns@) =~= groups_patterns(definition.levels@, groups.take(0)));
    }
    while g < definition.labels.len()
        invariant
            g <= definition.labels.len(),
            groups == label_groups(definition.labels@),
            texts(patterns@) == groups_patterns(definition.levels@, groups.take(g as int)),
        decreases definition.labels.len() - g,
    {
        push_labels_patterns(&mut patterns, &definition.levels, &definition.labels[g].labels);
        proof {
            let next = groups.take(g + 1);
            assert(next.drop_last() =~= groups.take(g as int));
            assert(next.last() == texts(definition.labels@[g as int].labels@));
        }
        g += 1;
    }
    proof {
        assert(groups.take(definition.labels@.len() as int) =~= groups);
    }
    SectionMatcher {
        field: definition.field.clone(),
        levels: copy_levels(&definition.levels),
        content_type: definition.content_type,
        patterns,
    }
}

/// The matchers are the compiled forms of the definitions, one for one.
pub open spec fn all_compiled(matchers: Seq<SectionMatcher>, definitions: Seq<SectionDefinition>) -> bool {
    &&& matchers.len() == definitions.len()
    &&& forall|i: int| 0 <= i < matchers.len() ==> is_compiled(#[trigger] matchers[i], definitions[i])
}

/// Compiles every definition, in order.
pub fn compile_sections(definitions: &Vec<SectionDefinition>) -> (matchers: Vec<SectionMatcher>)
    ensures
        all_compiled(matchers@, definitions@),
{
    let mut matchers: Vec<SectionMatcher> = Vec::new();
    let mut i: usize = 0;
    while i < definitions.len()
        invariant
            i <= definitions.len(),
            matchers@.len() == i,
            forall|k: int| 0 <= k < i ==> is_compiled(#[trigger] matchers@[k], definitions@[k]),
        decreases definitions.len() - i,
    {
        matchers.push(compile_section(&definitions[i]));
        i += 1;
    }
    matchers
}

/// The first matcher for `field`, if there is one.
pub open spec fn matcher_index(matchers: Seq<SectionMatcher>, field: Seq<char>) -> Option<int>
    decreases matchers.len(),
{
    if matchers.len() == 0 {
        None
    } else if matchers[0].field@ == field {
        Some(0)
    } else {
        match matcher_index(matchers.drop_first(), field) {
            Some(i) => Some(i + 1),
            None => None,
        }
    }
}

/// Finds the matcher of a field.
pub fn find_matcher<'a>(matchers: &'a Vec<SectionMatcher>, field: &str) -> (found: Option<
    &'a SectionMatcher,
>)
    ensures
        match found {
            Some(matcher) => matcher_index(matchers@, field@) is Some && *matcher
                == matchers@[matcher_index(matchers@, field@)->0],
            None => matcher_index(matchers@, field@) is None,
        },
{
    let mut i: usize = 0;
    proof {
        assert(matchers@.skip(0) =~= matchers@);
    }
    while i < matchers.len()
        invariant
            i <= matchers.len(),
            matcher_index(matchers@, field@) == match matcher_index(
                matchers@.skip(i as int),
                field@,
            ) {
                Some(k) => Some(k + i),
                None => None,
            },
        decreases matchers.len() - i,
    {
        proof {
            let rest = matchers@.skip(i as int);
            assert(rest[0] == matchers@[i as int]);
            assert(rest.drop_first() =~= matchers@.skip(i + 1));
        }
        if str_equals(matchers[i].field.as_str(), field) {
            return Some(&matchers[i]);
        }
        i += 1;
    }
    None
}

/// The fields of the matchers, in order.
pub open spec fn matcher_fields(matchers: Seq<SectionMatcher>) -> Seq<Seq<char>> {
    matchers.map_values(|m: SectionMatcher| m.field@)
}

/// The names of the fields of the matchers.
pub fn field_names(matchers: &Vec<SectionMatcher>) -> (fields: Vec<String>)
    ensures
        texts(fields@) == matcher_fields(matchers@),
{
    let mut fields: Vec<String> = Vec::new();
    let mut i: usize = 0;
    while i < matchers.len()
        invariant
            i <= matchers.len(),
            fields@.len() == i,
            forall|k: int| 0 <= k < i ==> fields@[k]@ == matchers@[k].field@,
        decreases matchers.len() - i,
    {
        fields.push(matchers[i].field.clone());
        i += 1;
    }
    proof {
        assert(texts(fields@) =~= matcher_fields(matchers@));
    }
    fields
}

/// The two matchers hold the same.
pub open spec fn same_matcher(a: SectionMatcher, b: SectionMatcher) -> bool {
    &&& a.field@ == b.field@
    &&& a.levels@ == b.levels@
    &&& a.content_type == b.content_type
    &&& texts(a.patterns@) == texts(b.patterns@)
}

/// A copy of a matcher.
pub fn copy_matcher(matcher: &SectionMatcher) -> (copy: SectionMatcher)
    ensures
        same_matcher(copy, *matcher),
{
    let mut patterns: Vec<String> = Vec::new();
    let mut i: usize = 0;
    while i < matcher.patterns.len()
        invariant
            i <= matcher.patterns.len(),
            patterns@.len() == i,
            forall|k: int| 0 <= k < i ==> patterns@[k]@ == matcher.patterns@[k]@,
        decreases matcher.patterns.len() - i,
    {
        patterns.push(matcher.patterns[i].clone());
        i += 1;
    }
    proof {
        assert(texts(patterns@) =~= texts(matcher.patterns@));
    }
    SectionMatcher {
        field: matcher.field.clone(),
        levels: copy_levels(&matcher.levels),
        content_type: matcher.content_type,
        patterns,
    }
}

} // verus!
