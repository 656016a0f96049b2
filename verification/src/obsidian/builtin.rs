//! The sections that are configured: agenda, notes, action items, goals and
//! context, each with English and Dutch labels, at heading levels two and
//! three.

use vstd::prelude::*;
use vstd::string::*;
use crate::obsidian::sections::{
    all_compiled,
    compile_sections,
    groups_patterns,
    is_compiled,
    label_groups,
    languages_distinct,
    matcher_index,
    ContentType,
    LabelSet,
    SectionDefinition,
    SectionMatcher,
};
use crate::text::lines::texts;

verus! {

/// Number of configured sections.
pub const SECTION_COUNT: usize = 5;

/// The field name of the configured section `i`.
pub open spec fn builtin_field(i: int) -> Seq<char> {
    if i == 0 {
        "agenda"@
    } else if i == 1 {
        "notes"@
    } else if i == 2 {
        "action_items"@
    } else if i == 3 {
        "goals"@
    } else {
        "context"@
    }
}

/// How the configured section `i` is read.
pub open spec fn builtin_content_type(i: int) -> ContentType {
    if i == 0 || i == 1 {
        ContentType::Bullet
    } else if i == 2 || i == 3 {
        ContentType::Checkbox
    } else {
        ContentType::Raw
    }
}

/// The English labels of the configured section `i`.
pub open spec fn english_labels(i: int) -> Seq<Seq<char>> {
    if i == 0 {
        seq!["Agenda"@, "Meeting Agenda"@, "Topics"@]
    } else if i == 1 {
        seq!["Notes"@, "Meeting Notes"@]
    } else if i == 2 {
        seq!["Action Items"@, "Actions"@, "Tasks"@, "To Do"@]
    } else if i == 3 {
        seq!["Goals"@, "Objectives"@]
    } else {
        seq!["Context"@, "Background"@]
    }
}

/// The Dutch labels of the configured section `i`.
pub open spec fn dutch_labels(i: int) -> Seq<Seq<char>> {
    if i == 0 {
        seq!["Agenda"@, "Agendapunten"@]
    } else if i == 1 {
        seq!["Notities"@, "Aantekeningen"@]
    } else if i == 2 {
        seq!["Actiepunten"@, "Acties"@, "Taken"@]
    } else if i == 3 {
        seq!["Doelen"@, "Doelstellingen"@]
    } else {
        seq!["Context"@, "Achtergrond"@]
    }
}

/// The definition is the configured section `i`.
pub open spec fn is_builtin_section(definition: SectionDefinition, i: int) -> bool {
    &&& definition.field@ == builtin_field(i)
    &&& definition.levels@ == seq![2usize, 3usize]
    &&& definition.content_type == builtin_content_type(i)
    &&& definition.labels@.len() == 2
    &&& definition.labels@[0].language@ == "en"@
    &&& definition.labels@[1].language@ == "nl"@
    &&& languages_distinct(definition.labels@)
    &&& label_groups(definition.labels@) == seq![english_labels(i), dutch_labels(i)]
}

/// The definitions are the configured sections, in order.
pub open spec fn are_builtin_sections(definitions: Seq<SectionDefinition>) -> bool {
    &&& definitions.len() == SECTION_COUNT
    &&& forall|i: int| 0 <= i < definitions.len() ==> is_builtin_section(#[trigger] definitions[i], i)
}

fn owned(items: Vec<&str>) -> (out: Vec<String>)
    ensures
        out@.len() == items@.len(),
        forall|k: int| 0 <= k < out@.len() ==> #[trigger] out@[k]@ == items@[k]@,
{
    let mut out: Vec<String> = Vec::new();
    let mut i: usize = 0;
    while i < items.len()
        invariant
            i <= items.len(),
            out@.len() == i,
            forall|k: int| 0 <= k < i ==> #[trigger] out@[k]@ == items@[k]@,
        decreases items.len() - i,
    {
        out.push(items[i].to_owned());
        i += 1;
    }
    out
}

fn section(index: usize, field: &str, content_type: ContentType, english: Vec<&str>, dutch: Vec<
    &str,
>) -> (definition: SectionDefinition)
    requires
        field@ == builtin_field(index as int),
        content_type == builtin_content_type(index as int),
        english@.len() == english_labels(index as int).len(),
        forall|k: int| 0 <= k < english@.len() ==> #[trigger] english@[k]@ == english_labels(index as int)[k],
        dutch@.len() == dutch_labels(index as int).len(),
        forall|k: int| 0 <= k < dutch@.len() ==> #[trigger] dutch@[k]@ == dutch_labels(index as int)[k],
    ensures
        is_builtin_section(definition, index as int),
{
    let mut levels: Vec<usize> = Vec::new();
    levels.push(2);
    levels.push(3);
    let en = LabelSet { language: "en".to_owned(), labels: owned(english) };
    let nl = LabelSet { language: "nl".to_owned(), labels: owned(dutch) };
    proof {
        assert(texts(en.labels@) =~= english_labels(index as int));
        assert(texts(nl.labels@) =~= dutch_labels(index as int));
        assert(levels@ =~= seq![2usize, 3usize]);
    }
    let mut labels: Vec<LabelSet> = Vec::new();
    labels.push(en);
    labels.push(nl);
    proof {
        assert(label_groups(labels@) =~= seq![
            english_labels(index as int),
            dutch_labels(index as int),
        ]);
        reveal_strlit("en");
        reveal_strlit("nl");
        assert("en"@[0] != "nl"@[0]);
    }
    SectionDefinition { field: field.to_owned(), levels, content_type, labels }
}

/// The configured sections.
pub fn builtin_sections() -> (definitions: Vec<SectionDefinition>)
    ensures
        are_builtin_sections(definitions@),
{
    let mut definitions: Vec<SectionDefinition> = Vec::new();
    definitions.push(
        section(
            0,
            "agenda",
            ContentType::Bullet,
            vec!["Agenda", "Meeting Agenda", "Topics"],
            vec!["Agenda", "Agendapunten"],
        ),
    );
    definitions.push(
        section(
            1,
            "notes",
            ContentType::Bullet,
            vec!["Notes", "Meeting Notes"],
            vec!["Notities", "Aantekeningen"],
        ),
    );
    definitions.push(
        section(
            2,
            "action_items",
            ContentType::Checkbox,
            vec!["Action Items", "Actions", "Tasks", "To Do"],
            vec!["Actiepunten", "Acties", "Taken"],
        ),
    );
    definitions.push(
        section(
            3,
            "goals",
            ContentType::Checkbox,
            vec!["Goals", "Objectives"],
            vec!["Doelen", "Doelstellingen"],
        ),
    );
    definitions.push(
        section(
            4,
            "context",
            ContentType::Raw,
            vec!["Context", "Background"],
            vec!["Context", "Achtergrond"],
        ),
    );
    definitions
}

/// The matchers are those of the configured sections.
pub open spec fn are_builtin_matchers(matchers: Seq<SectionMatcher>) -> bool {
    exists|definitions: Seq<SectionDefinition>|
        are_builtin_sections(definitions) && #[trigger] all_compiled(matchers, definitions)
}

/// The matchers of the configured sections.
pub fn get_matchers() -> (matchers: Vec<SectionMatcher>)
    ensures
        are_builtin_matchers(matchers@),
{
    let definitions = builtin_sections();
    compile_sections(&definitions)
}

/// The patterns of the configured section `i`: each of its labels, English
/// first, at levels two and three.
pub open spec fn builtin_patterns(i: int) -> Seq<Seq<char>> {
    groups_patterns(seq![2usize, 3usize], seq![english_labels(i), dutch_labels(i)])
}

/// The configured fields are found under their names: each name leads to the
/// matcher of its section, with the content type and the patterns of that
/// section.
pub proof fn lemma_builtin_fields(matchers: Seq<SectionMatcher>)
    requires
        are_builtin_matchers(matchers),
    ensures
        matchers.len() == SECTION_COUNT,
        matcher_index(matchers, "agenda"@) == Some(0int),
        matcher_index(matchers, "notes"@) == Some(1int),
        matcher_index(matchers, "action_items"@) == Some(2int),
        matcher_index(matchers, "goals"@) == Some(3int),
        matcher_index(matchers, "context"@) == Some(4int),
        forall|i: int|
            0 <= i < SECTION_COUNT ==> (#[trigger] matchers[i]).content_type
                == builtin_content_type(i) && texts(matchers[i].patterns@) == builtin_patterns(i),
{
    let definitions = choose|definitions: Seq<SectionDefinition>|
        are_builtin_sections(definitions) && #[trigger] all_compiled(matchers, definitions);
    reveal_strlit("agenda");
    reveal_strlit("notes");
    reveal_strlit("action_items");
    reveal_strlit("goals");
    reveal_strlit("context");
    assert forall|i: int| 0 <= i < 5 implies (#[trigger] matchers[i]).field@ == builtin_field(i)
        && matchers[i].content_type == builtin_content_type(i) && texts(matchers[i].patterns@)
        == builtin_patterns(i) by {
        assert(is_compiled(matchers[i], definitions[i]));
        assert(is_builtin_section(definitions[i], i));
    }
    let m1 = matchers.drop_first();
    let m2 = m1.drop_first();
    let m3 = m2.drop_first();
    let m4 = m3.drop_first();
    assert(m1[0] == matchers[1] && m2[0] == matchers[2] && m3[0] == matchers[3] && m4[0]
        == matchers[4]);
    assert(matchers[0].field@ == "agenda"@);
    assert(matchers[1].field@ == "notes"@);
    assert(matchers[2].field@ == "action_items"@);
    assert(matchers[3].field@ == "goals"@);
    assert(matchers[4].field@ == "context"@);
    assert("agenda"@.len() == 6 && "notes"@.len() == 5 && "action_items"@.len() == 12
        && "goals"@.len() == 5 && "context"@.len() == 7);
    assert("notes"@[0] == 'n' && "goals"@[0] == 'g');
    assert(matcher_index(m4, "context"@) == Some(0int));
    assert(matcher_index(m3, "context"@) == Some(1int));
    assert(matcher_index(m2, "context"@) == Some(2int));
    assert(matcher_index(m1, "context"@) == Some(3int));
    assert(matcher_index(m3, "goals"@) == Some(0int));
    assert(matcher_index(m2, "goals"@) == Some(1int));
    assert(matcher_index(m1, "goals"@) == Some(2int));
    assert(matcher_index(m2, "action_items"@) == Some(0int));
    assert(matcher_index(m1, "action_items"@) == Some(1int));
    assert(matcher_index(m1, "notes"@) == Some(0int));
}

} // verus!
