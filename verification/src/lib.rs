//! Core of a terminal audio-playback controller: a rotating playback queue
//! over an immutable track catalog, a shared position counter driven both by
//! transport controls and by end-of-stream completion signals, and the
//! derived "now playing" projection (track, elapsed/total label, percentage).
//!
//! Audio decoding, tag reading and terminal rendering are external
//! collaborators; this crate holds the queue engine and the logic those
//! collaborators call into.

pub mod audio;
pub mod custom_source;
pub mod duration;
pub mod player;
pub mod selection;
pub mod text;
pub mod track;
