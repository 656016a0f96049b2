use std::path::Path;

use meeting_companion::obsidian::builtin::get_matchers;
use meeting_companion::obsidian::frontmatter::{frontmatter_yaml, get_body_after_frontmatter};
use meeting_companion::obsidian::labels::get_labels_for_field;
use meeting_companion::obsidian::markdown::{
    count_heading_level, extract_bullet_item, extract_checkbox_item, extract_numbered_item,
    is_heading,
};
use meeting_companion::obsidian::parser::{
    extract_section_items, extract_title, find_section_by_matcher, get_configured_fields,
    get_matcher_for_field, parse_meeting_file, read_note, title_from_stem, ParseError,
};
use meeting_companion::obsidian::types::{MeetingFrontmatter, MeetingPrep};

/// New format sample
const SAMPLE_FILE_NEW: &str = r#"---
tags: meeting
date: 2026-01-23
time_start: 2026-01-23T10:00:00
time_end:
attendees:
  - Bart van der Meeren
  - Attendee A
---

# Weekly Standup

## Agenda
- Review last week's progress
- Discuss blockers
- Plan for next week

## Notes
- Team is on track for deadline
- Need to coordinate with design team

## Action Items
- [ ] Send follow-up email
- [x] Update project board
- [ ] Schedule next meeting
"#;

/// Legacy format sample
const SAMPLE_FILE_LEGACY: &str = r#"---
date: 2026-01-22
type: meeting
attendees: [Attendee A, Attendee B]
status: scheduled
---

# Meeting: Project Kickoff

## Prep
### Goals
- [ ] Align on timeline
- [x] Review budget
- [ ] Assign workstreams

### Agenda
1. Introductions (5 min)
2. Scope review (15 min)
3. Q&A (10 min)

### Context
Background from previous conversations...
This is multiline context.
"#;

/// Dutch format sample
const SAMPLE_FILE_DUTCH: &str = r#"---
date: 2026-01-23
attendees:
  - Attendee B
---

# Weekelijkse Vergadering

## Agendapunten
- Voortgang bespreken
- Planning volgende week

## Notities
- Alles op schema
- Meer resources nodig

## Actiepunten
- [ ] Email versturen
- [x] Document bijwerken
"#;

fn dated(date: &str) -> Result<MeetingFrontmatter, String> {
    let mut frontmatter = MeetingFrontmatter::default();
    frontmatter.date = Some(date.to_string());
    Ok(frontmatter)
}

fn parse(path: &Path, content: &str, date: &str) -> Result<MeetingPrep, ParseError> {
    parse_meeting_file(path, content, dated(date))
}

// ===== Config Loading Tests =====

#[test]
fn test_config_loads_successfully() {
    let matchers = get_matchers();
    assert!(!matchers.is_empty(), "Should have loaded section matchers");
}

#[test]
fn test_config_has_expected_fields() {
    let fields = get_configured_fields();
    assert!(fields.contains(&"agenda".to_string()));
    assert!(fields.contains(&"notes".to_string()));
    assert!(fields.contains(&"action_items".to_string()));
    assert!(fields.contains(&"goals".to_string()));
    assert!(fields.contains(&"context".to_string()));
}

#[test]
fn test_get_labels_for_field() {
    let labels = get_labels_for_field("agenda");
    assert!(!labels.is_empty());
    assert!(labels.iter().any(|l| l.contains("agenda")));
}

// ===== New Format Tests =====

#[test]
fn test_extract_title_new_format() {
    let title = extract_title(SAMPLE_FILE_NEW);
    assert_eq!(title, "Weekly Standup");
}

#[test]
fn test_extract_agenda_new_format() {
    let path = Path::new("test.md");
    let prep = parse(path, SAMPLE_FILE_NEW, "2026-01-23").unwrap();
    assert_eq!(prep.agenda.len(), 3);
    assert_eq!(prep.agenda[0], "Review last week's progress");
    assert_eq!(prep.agenda[1], "Discuss blockers");
    assert_eq!(prep.agenda[2], "Plan for next week");
}

#[test]
fn test_extract_notes_new_format() {
    let path = Path::new("test.md");
    let prep = parse(path, SAMPLE_FILE_NEW, "2026-01-23").unwrap();
    assert_eq!(prep.notes.len(), 2);
    assert_eq!(prep.notes[0], "Team is on track for deadline");
    assert_eq!(prep.notes[1], "Need to coordinate with design team");
}

#[test]
fn test_extract_action_items_new_format() {
    let path = Path::new("test.md");
    let prep = parse(path, SAMPLE_FILE_NEW, "2026-01-23").unwrap();
    assert_eq!(prep.action_items.len(), 3);
    assert_eq!(prep.action_items[0], "[ ] Send follow-up email");
    assert_eq!(prep.action_items[1], "[x] Update project board");
    assert_eq!(prep.action_items[2], "[ ] Schedule next meeting");
}

// ===== Legacy Format Tests =====

#[test]
fn test_extract_goals_legacy() {
    let path = Path::new("test.md");
    let prep = parse(path, SAMPLE_FILE_LEGACY, "2026-01-22").unwrap();
    assert_eq!(prep.goals.len(), 3);
    assert!(prep.goals[0].contains("Align on timeline"));
    assert!(prep.goals[1].contains("Review budget"));
    assert!(prep.goals[2].contains("Assign workstreams"));
}

#[test]
fn test_extract_context_legacy() {
    let path = Path::new("test.md");
    let prep = parse(path, SAMPLE_FILE_LEGACY, "2026-01-22").unwrap();
    assert!(prep.context.contains("Background from previous conversations"));
    assert!(prep.context.contains("multiline context"));
}

// ===== Dutch Format Tests =====

#[test]
fn test_parse_dutch_agenda() {
    let path = Path::new("test.md");
    let prep = parse(path, SAMPLE_FILE_DUTCH, "2026-01-23").unwrap();
    assert_eq!(prep.agenda.len(), 2);
    assert_eq!(prep.agenda[0], "Voortgang bespreken");
    assert_eq!(prep.agenda[1], "Planning volgende week");
}

#[test]
fn test_parse_dutch_notes() {
    let path = Path::new("test.md");
    let prep = parse(path, SAMPLE_FILE_DUTCH, "2026-01-23").unwrap();
    assert_eq!(prep.notes.len(), 2);
    assert_eq!(prep.notes[0], "Alles op schema");
    assert_eq!(prep.notes[1], "Meer resources nodig");
}

#[test]
fn test_parse_dutch_action_items() {
    let path = Path::new("test.md");
    let prep = parse(path, SAMPLE_FILE_DUTCH, "2026-01-23").unwrap();
    assert_eq!(prep.action_items.len(), 2);
    assert!(prep.action_items[0].contains("Email versturen"));
    assert!(prep.action_items[1].contains("Document bijwerken"));
}

// ===== Edge Case Tests =====

#[test]
fn test_title_from_filename() {
    let content = "---\ndate: 2026-01-22\n---\n";
    let path = Path::new("weekly-standup-notes.md");
    let prep = parse(path, content, "2026-01-22").unwrap();
    assert_eq!(prep.title, "weekly standup notes");
}

#[test]
fn test_case_insensitive_matching() {
    let content = r#"---
date: 2026-01-23
---

# Test Meeting

## AGENDA
- Item 1
- Item 2
"#;
    let path = Path::new("test.md");
    let prep = parse(path, content, "2026-01-23").unwrap();
    assert_eq!(prep.agenda.len(), 2);
}

#[test]
fn test_minimal_file() {
    let content = r#"---
date: 2026-01-22
---

# Quick Meeting
"#;
    let path = Path::new("minimal.md");
    let prep = parse(path, content, "2026-01-22").unwrap();

    assert_eq!(prep.title, "Quick Meeting");
    assert!(prep.goals.is_empty());
    assert!(prep.agenda.is_empty());
    assert!(prep.notes.is_empty());
    assert!(prep.action_items.is_empty());
    assert!(prep.context.is_empty());
    assert_eq!(prep.frontmatter.date, Some("2026-01-22".to_string()));
}

// ===== Helper Function Tests =====

#[test]
fn test_checkbox_extraction() {
    assert_eq!(extract_checkbox_item("- [ ] Task 1"), Some("Task 1".to_string()));
    assert_eq!(extract_checkbox_item("- [x] Done task"), Some("Done task".to_string()));
    assert_eq!(extract_checkbox_item("- [X] Done task"), Some("Done task".to_string()));
    assert_eq!(extract_checkbox_item("Regular text"), None);
    assert_eq!(extract_checkbox_item("- Just a bullet"), None);
}

#[test]
fn test_bullet_extraction() {
    assert_eq!(extract_bullet_item("- Simple item"), Some("Simple item".to_string()));
    assert_eq!(extract_bullet_item("- Another item"), Some("Another item".to_string()));
    assert_eq!(extract_bullet_item("- [ ] Checkbox"), None);
    assert_eq!(extract_bullet_item("Regular text"), None);
    assert_eq!(extract_bullet_item("1. Numbered"), None);
}

#[test]
fn test_numbered_item_extraction() {
    assert_eq!(extract_numbered_item("1. First item"), Some("First item".to_string()));
    assert_eq!(extract_numbered_item("10. Tenth item"), Some("Tenth item".to_string()));
    assert_eq!(extract_numbered_item("Regular text"), None);
    assert_eq!(extract_numbered_item("- Bullet point"), None);
}

// ===== Further cases =====

#[test]
fn frontmatter_block_is_framed() {
    assert_eq!(
        frontmatter_yaml(SAMPLE_FILE_LEGACY),
        Some(
            "date: 2026-01-22\ntype: meeting\nattendees: [Attendee A, Attendee B]\nstatus: scheduled"
                .to_string()
        )
    );
    assert_eq!(frontmatter_yaml("# Just a title\nSome content"), None);
    assert_eq!(frontmatter_yaml("---\n---\n# Title"), None);
    assert_eq!(frontmatter_yaml("---\ndate: x\n"), None);
    assert_eq!(frontmatter_yaml("  \n---\na: b\n---\n"), Some("a: b".to_string()));
}

#[test]
fn body_follows_the_frontmatter() {
    assert_eq!(get_body_after_frontmatter("---\na: b\n---\n\n# T\n"), "# T\n");
    assert_eq!(get_body_after_frontmatter("---\na: b\n---\r\nrest"), "\nrest");
    assert_eq!(get_body_after_frontmatter("---\na: b\n---\n\r\rrest"), "rest");
    assert_eq!(get_body_after_frontmatter("  no frontmatter"), "no frontmatter");
    assert_eq!(get_body_after_frontmatter("---\nunterminated"), "---\nunterminated");
}

#[test]
fn unreadable_metadata_fails_the_note() {
    let result = parse_meeting_file(
        Path::new("test.md"),
        SAMPLE_FILE_NEW,
        Err("bad indentation".to_string()),
    );
    match result {
        Err(ParseError::FrontmatterError(detail)) => {
            assert_eq!(detail, "YAML parse error: bad indentation");
        }
        other => panic!("unexpected: {:?}", other.map(|p| p.title)),
    }
}

#[test]
fn metadata_outcome_is_ignored_without_a_block() {
    let prep = parse_meeting_file(
        Path::new("plain_note.md"),
        "no heading here",
        Err("never looked at".to_string()),
    )
    .unwrap();
    assert!(prep.frontmatter.date.is_none());
    assert_eq!(prep.title, "plain note");
    assert_eq!(prep.raw_content, "no heading here");
    assert_eq!(prep.file_path, Path::new("plain_note.md"));
}

#[test]
fn error_messages() {
    assert_eq!(ParseError::IoError("gone".to_string()).message(), "Failed to read file: gone");
    assert_eq!(
        ParseError::FrontmatterError("bad".to_string()).message(),
        "Invalid frontmatter: bad"
    );
    assert_eq!(ParseError::MissingContent.message(), "Missing required content");
    assert_eq!(ParseError::ConfigError("x".to_string()).message(), "Config error: x");
}

#[test]
fn headings_and_levels() {
    assert_eq!(count_heading_level("## Agenda"), 2);
    assert_eq!(count_heading_level("Agenda"), 0);
    assert_eq!(count_heading_level("####"), 4);
    assert!(is_heading("# Title"));
    assert!(is_heading("   ### Deep  "));
    assert!(!is_heading("#Title"));
    assert!(!is_heading("##"));
    assert!(!is_heading("text # not"));
    assert!(!is_heading(""));
}

#[test]
fn list_item_edges() {
    assert_eq!(extract_checkbox_item("- [ ]"), None);
    assert_eq!(extract_checkbox_item("- [x]done"), Some("done".to_string()));
    assert_eq!(extract_checkbox_item("  - [ ]   spaced   "), Some("spaced".to_string()));
    assert_eq!(extract_bullet_item("-"), None);
    assert_eq!(extract_bullet_item("- x"), Some("x".to_string()));
    assert_eq!(extract_numbered_item("12."), Some(String::new()));
    assert_eq!(extract_numbered_item("12.x"), Some("x".to_string()));
    assert_eq!(extract_numbered_item("7. "), Some(String::new()));
    assert_eq!(extract_numbered_item(".5"), None);
}

#[test]
fn title_from_stem_replaces_separators() {
    assert_eq!(title_from_stem("a-b_c d"), "a b c d");
    assert_eq!(title_from_stem(""), "");
}

#[test]
fn section_ends_at_heading_of_same_level() {
    let matcher = get_matcher_for_field("notes").unwrap();
    let body = "intro\n## Notes\n- one\n### Deeper\n- two\n## Other\n- three\n";
    assert_eq!(
        find_section_by_matcher(body, &matcher),
        Some("- one\n### Deeper\n- two".to_string())
    );
    assert_eq!(extract_section_items(body, &matcher), vec!["one", "two"]);
    assert_eq!(find_section_by_matcher("nothing here", &matcher), None);
    assert_eq!(find_section_by_matcher("## Notes", &matcher), Some(String::new()));
}

#[test]
fn raw_section_keeps_lines_as_they_are() {
    let matcher = get_matcher_for_field("context").unwrap();
    let body = "### Context\n  indented line\n\n- bullet stays\n";
    assert_eq!(
        extract_section_items(body, &matcher),
        vec!["  indented line", "- bullet stays"]
    );
}

#[test]
fn bullet_section_takes_numbered_items_too() {
    let matcher = get_matcher_for_field("agenda").unwrap();
    let body = "## Agenda\n1. First\n- Second\n- [ ] not a bullet\nplain\n";
    assert_eq!(extract_section_items(body, &matcher), vec!["First", "Second"]);
}

#[test]
fn unknown_field_has_no_matcher() {
    assert!(get_matcher_for_field("nonsense").is_none());
    assert!(get_labels_for_field("nonsense").is_empty());
}

#[test]
fn labels_are_sorted_and_unique() {
    let labels = get_labels_for_field("agenda");
    assert_eq!(
        labels,
        vec!["agenda", "agendapunten", "meeting agenda", "topics"]
    );
    let mut sorted = labels.clone();
    sorted.sort();
    sorted.dedup();
    assert_eq!(labels, sorted);
}

#[test]
fn configured_fields_in_order() {
    assert_eq!(
        get_configured_fields(),
        vec!["agenda", "notes", "action_items", "goals", "context"]
    );
}

#[test]
fn patterns_cover_levels_and_labels() {
    let matcher = get_matcher_for_field("goals").unwrap();
    assert_eq!(
        matcher.patterns,
        vec![
            "## goals",
            "### goals",
            "## objectives",
            "### objectives",
            "## doelen",
            "### doelen",
            "## doelstellingen",
            "### doelstellingen",
        ]
    );
    assert_eq!(matcher.levels, vec![2, 3]);
}

#[test]
fn note_title_comes_from_heading_then_stem() {
    let path = std::path::PathBuf::from("dir/some-file_name.md");
    let with_heading = read_note(
        path.clone(),
        Some("some-file_name".to_string()),
        "# Real Title\n",
        Ok(MeetingFrontmatter::default()),
    )
    .unwrap();
    assert_eq!(with_heading.title, "Real Title");
    assert_eq!(with_heading.file_path, path);
    let from_stem = read_note(
        path.clone(),
        Some("some-file_name".to_string()),
        "no heading",
        Ok(MeetingFrontmatter::default()),
    )
    .unwrap();
    assert_eq!(from_stem.title, "some file name");
    let none = read_note(path, None, "no heading", Ok(MeetingFrontmatter::default())).unwrap();
    assert_eq!(none.title, "");
}

#[test]
fn note_metadata_is_kept_as_given() {
    let mut frontmatter = MeetingFrontmatter::default();
    frontmatter.status = Some("scheduled".to_string());
    frontmatter.attendees = Some(vec!["A".to_string(), "B".to_string()]);
    let prep = parse_meeting_file(Path::new("x.md"), SAMPLE_FILE_LEGACY, Ok(frontmatter)).unwrap();
    assert_eq!(prep.frontmatter.status, Some("scheduled".to_string()));
    assert_eq!(prep.frontmatter.attendees, Some(vec!["A".to_string(), "B".to_string()]));
    assert_eq!(prep.title, "Meeting: Project Kickoff");
    assert_eq!(prep.agenda, vec!["Introductions (5 min)", "Scope review (15 min)", "Q&A (10 min)"]);
    assert_eq!(
        prep.context,
        "Background from previous conversations...\nThis is multiline context."
    );
    assert_eq!(prep.raw_content, SAMPLE_FILE_LEGACY);
}
