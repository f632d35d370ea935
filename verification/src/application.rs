//! The decisions between the queue, the engine and a front end.

pub mod browse;
pub mod command;
pub mod enrich;
pub mod transport;
pub mod view;
