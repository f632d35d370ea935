//! Saved radio stations.

pub mod model;
pub mod store;
