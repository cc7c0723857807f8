//! What is measured of the requests that are sent.

use crate::rate_limit::headers::RateLimitHeaders;
use vstd::prelude::*;
use vstd::string::*;

verus! {

pub const METER_NAME: &'static str = "github-mirror";

pub const REQUESTS: &'static str = "github_mirror_github_requests_total";

pub const REQUEST_DURATION: &'static str = "github_mirror_github_request_duration_seconds";

pub const RESPONSE_BYTES: &'static str = "github_mirror_github_response_bytes_total";

pub const RATE_LIMIT_REMAINING: &'static str = "github_mirror_github_rate_limit_remaining";

/// How a request ended.
#[derive(Debug, Clone, Copy, PartialEq, Eq, Structural)]
pub enum Outcome {
    /// A `2xx` with a fresh body.
    Fresh,
    /// A `304`: served from the cache, no quota spent.
    NotModified,
    /// A `429` or a rate-limit `403` that is retried.
    RateLimited,
    /// Any other status, or no response at all.
    Failed,
}

impl Outcome {
    pub open spec fn spec_name(self) -> Seq<char> {
        match self {
            Outcome::Fresh => "fresh"@,
            Outcome::NotModified => "not_modified"@,
            Outcome::RateLimited => "rate_limited"@,
            Outcome::Failed => "failed"@,
        }
    }

    /// The outcome's name.
    pub fn as_str(self) -> (out: &'static str)
        ensures
            out@ == self.spec_name(),
    {
        match self {
            Outcome::Fresh => "fresh",
            Outcome::NotModified => "not_modified",
            Outcome::RateLimited => "rate_limited",
            Outcome::Failed => "failed",
        }
    }
}

/// What is counted of a request: its method, its status (0 when there was no
/// answer) and its outcome.
#[derive(Debug)]
pub struct RequestSample {
    pub method: &'static str,
    pub status: i64,
    pub outcome: &'static str,
    /// The remaining quota that the answer reports, and of which pool.
    pub remaining: Option<(u64, String)>,
}

/// The pool that headers speak of: the core pool unless they name another.
pub open spec fn pool_of(seen: RateLimitHeaders) -> Seq<char> {
    match seen.resource {
        Some(resource) => resource@,
        None => "core"@,
    }
}

/// What is measured of a request.
pub fn request(method: &'static str, status: u16, outcome: Outcome, seen: &RateLimitHeaders) -> (out:
    RequestSample)
    ensures
        out.method@ == method@,
        out.status == status,
        out.outcome@ == outcome.spec_name(),
        match out.remaining {
            Some((remaining, pool)) => seen.remaining is Some && remaining == seen.remaining->0
                && pool@ == pool_of(*seen),
            None => seen.remaining is None,
        },
{
    let remaining = match seen.remaining {
        Some(remaining) => {
            let pool = match &seen.resource {
                Some(resource) => resource.clone(),
                None => "core".to_owned(),
            };
            Some((remaining as u64, pool))
        },
        None => None,
    };
    RequestSample { method, status: status as i64, outcome: outcome.as_str(), remaining }
}

/// Bytes of a response body, as they are counted.
pub fn response_bytes(bytes: usize) -> (out: u64)
    ensures
        out == bytes,
{
    bytes as u64
}

/// No two outcomes have the same name.
pub proof fn outcome_names_are_distinct(one: Outcome, other: Outcome)
    requires
        one != other,
    ensures
        one.spec_name() != other.spec_name(),
{
    reveal_strlit("fresh");
    reveal_strlit("not_modified");
    reveal_strlit("rate_limited");
    reveal_strlit("failed");
    assert("fresh"@.len() == 5);
    assert("not_modified"@.len() == 12);
    assert("rate_limited"@.len() == 12);
    assert("failed"@.len() == 6);
    assert("not_modified"@[0] != "rate_limited"@[0]);
}

} // verus!
