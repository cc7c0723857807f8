//! Per-token rate-limit admission with adaptive concurrency.
//!
//! - [`controller`]: the per-token state machine with its admission gates,
//!   `release` and `observe`.
//! - [`headers`]: the `x-ratelimit-*` and `retry-after` values of one response.
//! - [`probe`]: the authoritative quota a controller reconciles against.
//! - [`registry`]: one controller per token fingerprint.

use vstd::prelude::*;

pub mod controller;
pub mod headers;
pub mod probe;
pub mod registry;

verus! {

/// Errors that can occur in rate-limit admission.
#[derive(Debug, Clone, Copy, PartialEq, Eq, Structural)]
pub enum RateLimitError {
    /// No budget remains and no future reset window is known to wait for.
    BudgetExhausted,
}

impl RateLimitError {
    /// What went wrong, in words.
    pub fn message(&self) -> (out: &'static str)
        ensures
            out@ == "rate-limit budget exhausted; no reset window to wait for"@,
    {
        match self {
            RateLimitError::BudgetExhausted =>
                "rate-limit budget exhausted; no reset window to wait for",
        }
    }
}

} // verus!
