//! Meeting notes in markdown: reading what a note holds and writing
//! transcripts and summaries into it.

pub mod builtin;
pub mod frontmatter;
pub mod labels;
pub mod markdown;
pub mod parser;
pub mod sections;
pub mod summary_section;
pub mod transcript_section;
pub mod types;
pub mod writer;
