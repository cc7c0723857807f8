//! Which repository syncs next, and how many at once.

use crate::context::SecurityContext;
use crate::scope::ScopeConfig;
use vstd::prelude::*;

pub mod pool;
pub mod queue;

verus! {

/// One unit of background work: sync `owner/name` on behalf of `ctx`, and
/// record the outcome against the session created when it was queued.
///
/// The caller's context travels with the job, because the work outlives the
/// request that asked for it and still writes in the caller's tenant.
#[derive(Debug)]
pub struct SyncJob {
    pub session_id: u128,
    pub ctx: SecurityContext,
    pub owner: String,
    pub name: String,
    /// What this run collects.
    pub scope: ScopeConfig,
    /// Re-fetch everything, whatever is cached.
    pub force: bool,
}

} // verus!
