//! Core logic of a terminal client for a music streaming service:
//! the playback queue, the application state machine, response decoding
//! and the text formatting shown by the interface.

pub mod api;
pub mod app;
pub mod player;
pub mod ui;
pub mod utils;
