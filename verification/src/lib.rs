//! Mirror of source-hosting repositories: rate limiting, synchronisation
//! scheduling, response conversion and the queries served from the mirror.

use vstd::prelude::*;

pub mod cache;
pub mod chat_engine;
pub mod client;
pub mod config;
pub mod context;
pub mod convert;
pub mod decimal;
pub mod endpoints;
pub mod error;
pub mod fetch;
pub mod gear;
pub mod json;
pub mod laws;
pub mod metrics;
pub mod migration;
pub mod models;
pub mod moment;
pub mod ports;
pub mod rate_limit;
pub mod records;
pub mod scheduler;
pub mod scope;
pub mod service;
pub mod summary;
pub mod sync;
pub mod text;
pub mod wire;

verus! {

} // verus!
