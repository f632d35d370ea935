//! The decisions behind the terminal front end.

pub mod browser;
pub mod browser_laws;
pub mod geometry;
pub mod images;
pub mod input;
pub mod input_laws;
pub mod keys;
pub mod layout;
pub mod listing;
pub mod render;
pub mod run;
pub mod screen_laws;
pub mod state;
pub mod tabs;
