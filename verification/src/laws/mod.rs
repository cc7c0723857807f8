//! What the crate promises of its operations: stated in terms of what goes in
//! and what comes out, apart from how the operations are defined.

pub mod writes;
pub mod requests;
pub mod rows;
pub mod fetched;
pub mod quota;
pub mod sessions;
pub mod lookups;
pub mod tasks;
pub mod endpoints;
pub mod runs;
pub mod texts;
pub mod settings;
