//! Session management for a pausable screen recording.
//!
//! The library decides; a host performs. Every effect on the outside world (the
//! capture tool, the audio server, the filesystem, the merge tool) is handed to
//! the host as a [`command::Command`], and the host answers with a
//! [`command::Reply`]. All decisions in between are verified.

pub mod audio;
mod clock;
pub mod command;
pub mod config;
pub mod recorder;
pub mod runs;
pub mod session;
pub mod text;
