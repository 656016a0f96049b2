//! What a meeting note holds.

use std::path::{Path, PathBuf};
use vstd::prelude::*;
use crate::text::lines::texts;

verus! {

/// `std::path::PathBuf`, carried through as an opaque value.
#[verifier::external_type_specification]
#[verifier::external_body]
pub struct ExPathBuf(PathBuf);

/// `std::path::Path`, carried through as an opaque value.
#[verifier::external_type_specification]
#[verifier::external_body]
pub struct ExPath(Path);

/// `PathBuf::clone`. Nothing is claimed of the copy.
pub assume_specification[ <PathBuf as Clone>::clone ](path: &PathBuf) -> PathBuf;

/// Tags of a note: one, or a list.
#[derive(Debug, Clone)]
pub enum StringOrVec {
    Single(String),
    Multiple(Vec<String>),
}

/// A copy of the strings of `v`.
pub fn clone_strings(v: &Vec<String>) -> (out: Vec<String>)
    ensures
        texts(out@) == texts(v@),
{
    let mut out: Vec<String> = Vec::new();
    let mut i: usize = 0;
    while i < v.len()
        invariant
            i <= v.len(),
            out@.len() == i,
            forall|k: int| 0 <= k < i ==> out@[k]@ == v@[k]@,
        decreases v.len() - i,
    {
        out.push(v[i].clone());
        i += 1;
    }
    proof {
        assert(texts(out@) =~= texts(v@));
    }
    out
}

impl StringOrVec {
    /// The tags as a sequence: the single tag alone, or the list as it is.
    pub open spec fn tags(&self) -> Seq<Seq<char>> {
        match self {
            StringOrVec::Single(s) => seq![s@],
            StringOrVec::Multiple(v) => texts(v@),
        }
    }

    /// The tags as a list.
    pub fn as_vec(&self) -> (out: Vec<String>)
        ensures
            texts(out@) == self.tags(),
    {
        match self {
            StringOrVec::Single(s) => {
                let mut out: Vec<String> = Vec::new();
                out.push(s.clone());
                proof {
                    assert(texts(out@) =~= self.tags());
                }
                out
            },
            StringOrVec::Multiple(v) => clone_strings(v),
        }
    }
}

/// The metadata block at the head of a note.
#[derive(Debug, Clone)]
pub struct MeetingFrontmatter {
    pub tags: Option<StringOrVec>,
    pub date: Option<String>,
    pub time_start: Option<String>,
    pub time_end: Option<String>,
    pub meeting_type: Option<String>,
    pub attendees: Option<Vec<String>>,
    pub status: Option<String>,
}

impl MeetingFrontmatter {
    /// No field is set.
    pub open spec fn is_empty(&self) -> bool {
        &&& self.tags is None
        &&& self.date is None
        &&& self.time_start is None
        &&& self.time_end is None
        &&& self.meeting_type is None
        &&& self.attendees is None
        &&& self.status is None
    }
}

impl Default for MeetingFrontmatter {
    fn default() -> (frontmatter: Self)
        ensures
            frontmatter.is_empty(),
    {
        MeetingFrontmatter {
            tags: None,
            date: None,
            time_start: None,
            time_end: None,
            meeting_type: None,
            attendees: None,
            status: None,
        }
    }
}

/// What was read from a meeting note.
#[derive(Debug, Clone)]
pub struct MeetingPrep {
    /// Where the note lies.
    pub file_path: PathBuf,
    pub frontmatter: MeetingFrontmatter,
    /// From the first top-level heading, or from the file name.
    pub title: String,
    pub agenda: Vec<String>,
    pub notes: Vec<String>,
    pub action_items: Vec<String>,
    pub goals: Vec<String>,
    pub context: String,
    /// The whole note as it was read.
    pub raw_content: String,
}

impl MeetingPrep {
    /// A note of which nothing was read yet: only its place and its text
    /// are set.
    pub fn new(file_path: PathBuf, raw_content: String) -> (prep: Self)
        ensures
            prep.file_path == file_path,
            prep.raw_content@ == raw_content@,
            prep.frontmatter.is_empty(),
            prep.title@.len() == 0,
            prep.agenda@.len() == 0,
            prep.notes@.len() == 0,
            prep.action_items@.len() == 0,
            prep.goals@.len() == 0,
            prep.context@.len() == 0,
    {
        MeetingPrep {
            file_path,
            frontmatter: MeetingFrontmatter::default(),
            title: String::new(),
            agenda: Vec::new(),
            notes: Vec::new(),
            action_items: Vec::new(),
            goals: Vec::new(),
            context: String::new(),
            raw_content,
        }
    }
}

} // verus!
