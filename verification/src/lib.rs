//! State and rules of a terminal music browser and player: a list with a
//! cursor, the queue of pending tracks, the playback session and the
//! directory browser.

pub mod stateful_list;
pub mod queue;
pub mod paths;
pub mod app;
