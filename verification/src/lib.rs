//! A local voice-capture relay library: a recording-session state machine,
//! a message protocol with a canonical JSON wire form, and a transcription
//! engine abstraction with retry, timeout and primary/fallback failover.

pub mod asr;
pub mod audio;
pub mod codec;
pub mod config;
pub mod protocol;
pub mod selector;
pub mod server;
pub mod session;
pub mod shell;
pub mod text;
