//! Streaming speech-transcription client core and meeting-note text processing.

pub mod decimal;
pub mod deepgram;
pub mod obsidian;
pub mod text;
pub mod whisper;
