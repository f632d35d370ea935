//! The saved state: its shape, its reading and its writing.

pub mod file;
pub mod laws;
pub mod model;
pub mod queue_codec;
pub mod recovery;
pub mod recovery_laws;
pub mod repair_laws;
pub mod round_trip;
pub mod store;
