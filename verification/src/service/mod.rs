//! The mirror's operations.

pub mod access;
pub mod progress;
pub mod queries;
pub mod sessions;
pub mod store;
pub mod syncing;
