//! Writing a meeting note: a whole note made from a recording, and a
//! transcript merged into a note that exists.

use vstd::prelude::*;
use vstd::string::*;
use crate::obsidian::frontmatter::{frontmatter_parts, locate_frontmatter};
use crate::obsidian::transcript_section::{insert_transcript_section, with_transcript};
use crate::text::{
    chars_of,
    option_text,
    string_of_range,
    trim_end,
    trim_end_range,
    trim_start,
    trim_start_range,
};
use crate::text::lines::{join, join_strings, lines, split_lines, texts};
use crate::text::search::{contains, range_contains, range_starts_with};

verus! {

/// One piece of a transcript.
#[derive(Debug, Clone)]
pub struct TranscriptSegment {
    /// Time as `HH:MM:SS` or `MM:SS`.
    pub timestamp: String,
    pub speaker: Option<String>,
    pub text: String,
}

/// A request to save a transcript into a note.
#[derive(Debug, Clone)]
pub struct SaveTranscriptRequest {
    pub file_path: String,
    pub segments: Vec<TranscriptSegment>,
    /// Whether the status of the note is set to completed.
    pub update_status: bool,
}

/// The status is updated unless the request says otherwise.
pub fn default_update_status() -> (update: bool)
    ensures
        update,
{
    true
}

/// One entry of the transcript of a generated note.
#[derive(Debug, Clone)]
pub struct MarkdownTranscriptEntry {
    /// Time as it is shown, such as `[00:02:15]`.
    pub display_time: String,
    pub text: String,
    pub speaker: Option<String>,
}

/// What a generated note is made from.
#[derive(Debug, Clone)]
pub struct MeetingMarkdownData {
    pub date: String,
    pub time_start: String,
    pub duration: String,
    pub recording_filename: Option<String>,
    pub entries: Vec<MarkdownTranscriptEntry>,
    pub summary: Option<String>,
}

/// Why a note could not be written.
#[derive(Debug, Clone)]
pub enum WriteError {
    ReadError(String),
    WriteError(String),
    RenameError(String),
    FormatError(String),
}

/// The message of a write error.
pub open spec fn write_error_message(error: WriteError) -> Seq<char> {
    match error {
        WriteError::ReadError(detail) => "Failed to read file: "@ + detail@,
        WriteError::WriteError(detail) => "Failed to write file: "@ + detail@,
        WriteError::RenameError(detail) => "Failed to rename temp file: "@ + detail@,
        WriteError::FormatError(detail) => "Invalid file format: "@ + detail@,
    }
}

impl WriteError {
    /// The message of the error.
    pub fn message(&self) -> (text: String)
        ensures
            text@ == write_error_message(*self),
    {
        let (prefix, detail) = match self {
            WriteError::ReadError(detail) => ("Failed to read file: ", detail),
            WriteError::WriteError(detail) => ("Failed to write file: ", detail),
            WriteError::RenameError(detail) => ("Failed to rename temp file: ", detail),
            WriteError::FormatError(detail) => ("Invalid file format: ", detail),
        };
        let mut text = prefix.to_owned();
        text.append(detail.as_str());
        text
    }
}

/// A line of a transcript: the time, the speaker in bold where there is one,
/// and the text.
pub open spec fn transcript_line(time: Seq<char>, speaker: Option<Seq<char>>, text: Seq<char>) -> Seq<
    char,
> {
    match speaker {
        Some(name) => time + " **"@ + name + ":** "@ + text,
        None => time + " "@ + text,
    }
}

/// Every line followed by an empty one.
pub open spec fn spaced_out(lines: Seq<Seq<char>>) -> Seq<Seq<char>>
    decreases lines.len(),
{
    if lines.len() == 0 {
        Seq::empty()
    } else {
        spaced_out(lines.drop_last()).push(lines.last()).push(Seq::empty())
    }
}

/// The transcript section with these lines: the heading, an empty line, and
/// the lines with an empty line after each; a note on the absence of a
/// transcript when there are none.
pub open spec fn transcript_section(lines: Seq<Seq<char>>) -> Seq<char> {
    if lines.len() == 0 {
        "## Transcript\n\n_No transcript recorded._\n"@
    } else {
        join(seq!["## Transcript"@, Seq::empty()] + spaced_out(lines), seq!['\n'])
    }
}

/// The line of an entry of a generated note.
pub open spec fn entry_line(entry: MarkdownTranscriptEntry) -> Seq<char> {
    transcript_line(entry.display_time@, option_text(entry.speaker), entry.text@)
}

/// The line of a segment: its time in square brackets, then as for an
/// entry.
pub open spec fn segment_line(segment: TranscriptSegment) -> Seq<char> {
    transcript_line(
        "["@ + segment.timestamp@ + "]"@,
        option_text(segment.speaker),
        segment.text@,
    )
}

/// The lines of the entries.
pub open spec fn entry_lines(entries: Seq<MarkdownTranscriptEntry>) -> Seq<Seq<char>> {
    entries.map_values(|e: MarkdownTranscriptEntry| entry_line(e))
}

/// The lines of the segments.
pub open spec fn segment_lines(segments: Seq<TranscriptSegment>) -> Seq<Seq<char>> {
    segments.map_values(|s: TranscriptSegment| segment_line(s))
}

fn line_of(time: &str, speaker: &Option<String>, text: &str, bracket: bool) -> (line: String)
    ensures
        line@ == transcript_line(
            if bracket {
                "["@ + time@ + "]"@
            } else {
                time@
            },
            option_text(*speaker),
            text@,
        ),
{
    let mut line = String::new();
    if bracket {
        line.append("[");
        line.append(time);
        line.append("]");
    } else {
        line.append(time);
    }
    match speaker {
        Some(name) => {
            line.append(" **");
            line.append(name.as_str());
            line.append(":** ");
        },
        None => {
            line.append(" ");
        },
    }
    line.append(text);
    proof {
        assert(line@ =~= transcript_line(
            if bracket {
                "["@ + time@ + "]"@
            } else {
                time@
            },
            option_text(*speaker),
            text@,
        ));
    }
    line
}

fn section_of_lines(lines: Vec<String>) -> (section: String)
    ensures
        section@ == transcript_section(texts(lines@)),
{
    if lines.len() == 0 {
        return "## Transcript\n\n_No transcript recorded._\n".to_owned();
    }
    let ghost all = texts(lines@);
    let mut out: Vec<String> = Vec::new();
    out.push("## Transcript".to_owned());
    out.push(String::new());
    let mut i: usize = 0;
    proof {
        assert(all.take(0) =~= Seq::<Seq<char>>::empty());
        assert(texts(out@) =~= seq!["## Transcript"@, Seq::empty()] + spaced_out(all.take(0)));
    }
    while i < lines.len()
        invariant
            i <= lines.len(),
            all == texts(lines@),
            texts(out@) == seq!["## Transcript"@, Seq::<char>::empty()] + spaced_out(
                all.take(i as int),
            ),
        decreases lines.len() - i,
    {
        let ghost before = texts(out@);
        out.push(lines[i].clone());
        out.push(String::new());
        proof {
            let next = all.take(i + 1);
            assert(next.drop_last() =~= all.take(i as int));
            assert(next.last() == lines@[i as int]@);
            assert(texts(out@) =~= before.push(lines@[i as int]@).push(Seq::empty()));
            assert(texts(out@) =~= seq!["## Transcript"@, Seq::<char>::empty()] + spaced_out(next));
        }
        i += 1;
    }
    proof {
        assert(all.take(lines@.len() as int) =~= all);
        reveal_strlit("\n");
        assert("\n"@ =~= seq!['\n']);
    }
    join_strings(&out, "\n")
}

/// Formats the entries of a generated note as its transcript section.
pub fn format_markdown_transcript(entries: &Vec<MarkdownTranscriptEntry>) -> (section: String)
    ensures
        section@ == transcript_section(entry_lines(entries@)),
{
    let mut lines: Vec<String> = Vec::new();
    let mut i: usize = 0;
    while i < entries.len()
        invariant
            i <= entries.len(),
            lines@.len() == i,
            forall|k: int| 0 <= k < i ==> lines@[k]@ == entry_line(entries@[k]),
        decreases entries.len() - i,
    {
        let entry = &entries[i];
        lines.push(line_of(entry.display_time.as_str(), &entry.speaker, entry.text.as_str(), false));
        i += 1;
    }
    proof {
        assert(texts(lines@) =~= entry_lines(entries@));
    }
    section_of_lines(lines)
}

/// Formats transcript segments as the transcript section of a note.
pub fn format_transcript_section(segments: &Vec<TranscriptSegment>) -> (section: String)
    ensures
        section@ == transcript_section(segment_lines(segments@)),
{
    let mut lines: Vec<String> = Vec::new();
    let mut i: usize = 0;
    while i < segments.len()
        invariant
            i <= segments.len(),
            lines@.len() == i,
            forall|k: int| 0 <= k < i ==> lines@[k]@ == segment_line(segments@[k]),
        decreases segments.len() - i,
    {
        let segment = &segments[i];
        lines.push(line_of(segment.timestamp.as_str(), &segment.speaker, segment.text.as_str(), true));
        i += 1;
    }
    proof {
        assert(texts(lines@) =~= segment_lines(segments@));
    }
    section_of_lines(lines)
}

/// A generated note: the metadata block, the title, the summary where there
/// is one, and the transcript.
pub open spec fn meeting_markdown(data: MeetingMarkdownData) -> Seq<char> {
    "---\n"@ + "date: "@ + data.date@ + "\n"@ + "time_start: "@ + data.time_start@ + "\n"@
        + "duration: "@ + data.duration@ + "\n"@ + (match data.recording_filename {
        Some(name) => "recording: "@ + name@ + "\n"@,
        None => Seq::empty(),
    }) + "status: completed\n"@ + "---\n\n"@ + "# Meeting Notes - "@ + data.date@ + "\n\n"@ + (
    match data.summary {
        Some(summary) => "## Summary\n\n"@ + summary@ + "\n\n"@,
        None => Seq::empty(),
    }) + transcript_section(entry_lines(data.entries@))
}

/// Generates the markdown of a note for a recording.
pub fn generate_meeting_markdown(data: &MeetingMarkdownData) -> (content: String)
    ensures
        content@ == meeting_markdown(*data),
{
    let mut content = String::new();
    content.append("---\n");
    content.append("date: ");
    content.append(data.date.as_str());
    content.append("\n");
    content.append("time_start: ");
    content.append(data.time_start.as_str());
    content.append("\n");
    content.append("duration: ");
    content.append(data.duration.as_str());
    content.append("\n");
    match &data.recording_filename {
        Some(name) => {
            content.append("recording: ");
            content.append(name.as_str());
            content.append("\n");
        },
        None => {},
    }
    content.append("status: completed\n");
    content.append("---\n\n");
    content.append("# Meeting Notes - ");
    content.append(data.date.as_str());
    content.append("\n\n");
    match &data.summary {
        Some(summary) => {
            content.append("## Summary\n\n");
            content.append(summary.as_str());
            content.append("\n\n");
        },
        None => {},
    }
    let transcript = format_markdown_transcript(&data.entries);
    content.append(transcript.as_str());
    proof {
        assert(content@ =~= meeting_markdown(*data));
    }
    content
}

/// The line of the metadata with the status replaced where it is one.
pub open spec fn status_line(line: Seq<char>, status: Seq<char>) -> Seq<char> {
    if "status:"@.is_prefix_of(trim_start(line)) {
        "status: "@ + status
    } else {
        line
    }
}

/// The metadata with the given status: every status line replaced, or, where
/// the metadata names no status, one added at its end.
pub open spec fn block_with_status(block: Seq<char>, status: Seq<char>) -> Seq<char> {
    if contains(block, "status:"@) {
        join(lines(block).map_values(|line: Seq<char>| status_line(line, status)), seq!['\n'])
    } else {
        trim_end(block) + "\nstatus: "@ + status
    }
}

/// The note with the status in its metadata set. A note without a metadata
/// block stays as it is, leading whitespace aside.
pub open spec fn with_status(content: Seq<char>, status: Seq<char>) -> Seq<char> {
    match frontmatter_parts(content) {
        Some(parts) => "---\n"@ + block_with_status(parts.block, status) + "\n---"@ + parts.rest,
        None => trim_start(content),
    }
}

/// Sets the status field in the metadata of a note.
pub fn update_frontmatter_status(content: &str, new_status: &str) -> (updated: String)
    ensures
        updated@ == with_status(content@, new_status@),
{
    let v = chars_of(content);
    let n = v.len();
    let bounds = locate_frontmatter(&v);
    let (from, to, rest) = match bounds.block {
        Some(found) => found,
        None => {
            return string_of_range(&v, bounds.start, n);
        },
    };
    let ghost block = v@.subrange(from as int, to as int);
    let mut out = "---\n".to_owned();
    if range_contains(&v, from, to, "status:") {
        let block_text = string_of_range(&v, from, to);
        let all = split_lines(block_text.as_str());
        let ghost ls = texts(all@);
        let mut changed: Vec<String> = Vec::new();
        let mut i: usize = 0;
        while i < all.len()
            invariant
                i <= all.len(),
                ls == texts(all@),
                changed@.len() == i,
                forall|k: int| 0 <= k < i ==> changed@[k]@ == status_line(ls[k], new_status@),
            decreases all.len() - i,
        {
            let line = chars_of(all[i].as_str());
            let a = trim_start_range(&line, 0, line.len());
            proof {
                assert(line@.subrange(0, line@.len() as int) =~= line@);
                assert(ls[i as int] == all@[i as int]@);
            }
            if range_starts_with(&line, a, line.len(), "status:") {
                let mut replaced = "status: ".to_owned();
                replaced.append(new_status);
                changed.push(replaced);
            } else {
                changed.push(all[i].clone());
            }
            i += 1;
        }
        proof {
            assert(texts(changed@) =~= ls.map_values(
                |line: Seq<char>| status_line(line, new_status@),
            ));
            reveal_strlit("\n");
            assert("\n"@ =~= seq!['\n']);
        }
        let joined = join_strings(&changed, "\n");
        out.append(joined.as_str());
    } else {
        let b = trim_end_range(&v, from, to);
        let kept = string_of_range(&v, from, b);
        out.append(kept.as_str());
        out.append("\nstatus: ");
        out.append(new_status);
    }
    out.append("\n---");
    let tail = string_of_range(&v, rest, n);
    out.append(tail.as_str());
    proof {
        assert(out@ =~= with_status(content@, new_status@));
    }
    out
}

/// The note with the transcript merged in: the status completed where that
/// is asked, and the transcript section put in place.
pub open spec fn merged_note(content: Seq<char>, segments: Seq<TranscriptSegment>, update_status: bool) -> Seq<
    char,
> {
    with_transcript(
        if update_status {
            with_status(content, "completed"@)
        } else {
            content
        },
        transcript_section(segment_lines(segments)),
    )
}

/// Merges transcript segments into the text of a note. Always succeeds.
pub fn merge_transcript(note_content: &str, segments: &Vec<TranscriptSegment>, update_status: bool) -> (result:
    Result<String, WriteError>)
    ensures
        result matches Ok(content) && content@ == merged_note(
            note_content@,
            segments@,
            update_status,
        ),
{
    let content = if update_status {
        update_frontmatter_status(note_content, "completed")
    } else {
        note_content.to_owned()
    };
    let section = format_transcript_section(segments);
    Ok(insert_transcript_section(content.as_str(), section.as_str()))
}

} // verus!
