//! One repository's sync as tasks: what there is to do, in which order, and
//! how it went.

pub mod queue;
pub mod report;
pub mod runner;
pub mod task;
pub mod worker;
