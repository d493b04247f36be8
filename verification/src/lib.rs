//! Core of a calendar editing surface: an event model, the event-store
//! semantics (range-overlap queries, create/update/delete), the file-name
//! logic of the directory-backed store, and the interaction state machine
//! that governs an event while it is dragged, resized, cloned, renamed or
//! deleted, until the edit is committed into the authoritative event list
//! or discarded.
//!
//! Timestamps are plain counts of seconds of local civil time, starting at
//! a midnight; the pixel-to-time mapping and the calendar rendering around
//! this core convert at the boundary.

pub mod backend;
pub mod event;
pub mod interaction;
pub mod local_dir;
