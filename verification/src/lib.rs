//! A small music library engine: it extracts per-codec audio metadata from
//! files, validates and completes draft records, plans the import of those
//! records into a store, negotiates a hardware output configuration for
//! playback, and drives a play/pause/stop transport state machine.
//!
//! All decision logic lives here and is verified; filesystem walking, the
//! database connection and the live audio device are operated by a thin
//! unverified shell that calls into this crate.

pub mod codecs;
pub mod import;
pub mod models;
pub mod negotiate;
pub mod parse;
pub mod playback;
pub mod text;
pub mod userconfig;
