//! Core of a local-file music player: a deduplicated, sorted track library,
//! tag metadata handling, and the playback state machine with wraparound
//! navigation. File and device I/O live outside this crate; the logic here is
//! verified.

pub mod library;
pub mod order;
pub mod player;
pub mod scan;
pub mod tags;
pub mod track;
pub mod transport;
