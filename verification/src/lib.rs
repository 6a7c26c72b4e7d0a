//! A small text-editing core: a line buffer with a cursor, the edit actions
//! that change it, and the state machine that sequences edits with file
//! effects.

pub mod action;
pub mod buffer;
pub mod editor;
pub mod error;
pub mod event;
pub mod laws;
pub mod scheduler;
pub mod status;
pub mod text;
