//! The playback policy of a terminal audio player: playlists and their saved
//! state, the checkpoint rules, and the decisions behind the interface.

pub mod app;
pub mod application;
pub mod artwork;
pub mod cli;
pub mod clock;
pub mod editing_laws;
pub mod json;
pub mod library;
pub mod listening_laws;
pub mod media;
pub mod model;
pub mod path;
pub mod persistence;
pub mod playback;
pub mod playlist;
pub mod queue;
pub mod resume;
pub mod session;
pub mod session_laws;
pub mod session_promises;
pub mod station;
pub mod text;
pub mod tui;
pub mod width;
