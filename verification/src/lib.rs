//! Core of a desktop media-processing backend: preset resolution, asset
//! directory management, TTL-based cleanup of generated files, and the state
//! machine of one external-encoder run, with the parsing of the encoder's
//! textual progress and duration output.
//!
//! All file-system and process I/O lives outside this crate; these modules
//! work on plain values (byte strings for paths and output lines, integers
//! for times and sizes) and decide what the surrounding shell should do.

pub mod assets;
pub mod domain;
pub mod error;
pub mod janitor;
pub mod orchestrator;
pub mod preset;
pub mod session;
pub mod timecode;
