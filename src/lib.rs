//! Capture of multi-party voice audio: per-stream buffering of decoded PCM,
//! attribution of streams to speakers, and WAV framing of finished utterances.

pub mod codec;
pub mod buffers;
pub mod registry;
pub mod receiver;
pub mod config;
pub mod handler;
