//! Playback engine of a music player for a remote media server.
//!
//! The crate holds the parts of the player that decide: the catalogue
//! records and how a server answer becomes albums, the play queue, the
//! bookkeeping of the fetch-decode pipeline, and the state machine that
//! turns commands and pipeline events into the effects to perform. Every
//! effect (network, audio device, channels) is handed back to the caller
//! as a value.

pub mod config;
pub mod error;
pub mod jellyfin;
pub mod queue;
pub mod pipeline;
pub mod machine;
pub mod audio;
pub mod navigation;
