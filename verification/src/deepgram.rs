//! Client core for a cloud speech-to-text service with streaming results and
//! speaker diarization.

pub mod audio;
pub mod config;
pub mod connection;
pub mod handshake;
pub mod model;
pub mod provider;
pub mod request;
pub mod response;
pub mod single_shot;
pub mod transcript;
