//! The chat engine's API reference and its session-ownership guard.

pub mod docs;
pub mod owner_guard;
