//! The authoritative quota of a token.
//!
//! The remaining count that responses carry is inaccurate when many requests
//! run at once: each serving node counts down its own view, so a burst can
//! drive that count far below the one that is enforced. The enforced count can
//! be asked for without spending quota, and a controller consults it before it
//! pauses.

use crate::moment::Moment;
use vstd::prelude::*;

verus! {

/// Core-pool quota as the rate-limit endpoint reports it.
#[derive(Debug, Clone, Copy, PartialEq, Eq, Structural)]
pub struct AuthoritativeQuota {
    /// Core calls remaining in the current window.
    pub remaining: u32,
    /// Total hourly core quota.
    pub limit: u32,
    /// When the current core window resets, if known.
    pub reset_at: Option<Moment>,
}

impl AuthoritativeQuota {
    pub open spec fn wf(self) -> bool {
        match self.reset_at {
            Some(reset) => reset.wf(),
            None => true,
        }
    }
}

} // verus!
