//! Voice sessions per guild, and the protocol to the media extraction tool.
//!
//! [`voice`] holds the registry of sessions, [`ytdl`] says how to call the
//! extraction tool and what its output means, and [`commands`] decides what
//! each voice command does between two steps of talking to the outside.

pub mod commands;
pub mod decimal;
pub mod error;
pub mod framing;
pub mod json;
pub mod record;
pub mod voice;
pub mod ytdl;

pub use voice::VoiceManager;
