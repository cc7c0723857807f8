//! Per-token [`RateLimitController`]: tracks the remaining quota, its reset
//! time, the concurrency cap, the active backoff and the requests in flight;
//! decides admission and adapts the cap.
//!
//! A controller neither sleeps nor reads a clock. Each step takes the time as
//! an argument and answers with what the caller has to wait for.

use crate::moment::{Moment, Span};
use crate::rate_limit::headers::RateLimitHeaders;
use crate::rate_limit::probe::AuthoritativeQuota;
use crate::rate_limit::RateLimitError;
use crate::text;
use vstd::prelude::*;
use vstd::string::*;

verus! {

/// Never halve the concurrency cap below this value.
pub const SOFT_CAP_MIN: u32 = 1;

/// Initial cap on the requests in flight for one token.
pub const SOFT_CAP_DEFAULT: u32 = 10;

/// Upper bound on the quota reserve withheld from callers.
///
/// The reserve is a tenth of the hourly quota. On a large quota a flat tenth
/// strands hundreds of usable calls, so it is capped.
pub const RESERVE_MAX: u32 = 50;

/// Hourly quota taken for granted until a response names one.
pub const LIMIT_DEFAULT: u32 = 5000;

/// The authoritative quota is asked for at most once in this many nanoseconds.
pub const PROBE_COOLDOWN_NANOS: u64 = 5_000_000_000;

/// Per-token rate-limit controller.
#[derive(Debug)]
pub struct RateLimitController {
    /// Calls remaining in the current window.
    pub remaining: u32,
    /// When the current window resets.
    pub reset_at: Option<Moment>,
    /// Callers are parked until this time.
    pub backoff_until: Option<Moment>,
    /// Maximum number of requests in flight.
    pub soft_cap: u32,
    /// Total hourly quota.
    pub limit: u32,
    /// Most recent authoritative quota, if one was fetched.
    pub authoritative: Option<AuthoritativeQuota>,
    /// Monotonic clock reading, in nanoseconds, when it was fetched.
    pub authoritative_at: Option<u64>,
    /// Requests in flight.
    pub in_flight: u32,
}

/// The gating inputs of one admission attempt.
#[derive(Debug, Clone, Copy, PartialEq, Eq, Structural)]
pub struct GateSnapshot {
    /// Maximum number of requests in flight.
    pub soft_cap: u32,
    /// Active backoff deadline, if any.
    pub backoff_until: Option<Moment>,
    /// Calls remaining in the current window.
    pub remaining: u32,
    /// When the current window resets.
    pub reset_at: Option<Moment>,
    /// Quota withheld from callers.
    pub reserve: u32,
}

/// What reconciliation with the authoritative quota decided.
#[derive(Debug, Clone, Copy, PartialEq, Eq, Structural)]
pub enum QuotaDecision {
    /// Quota remains after all; evaluate admission again.
    Proceed,
    /// Quota is spent; pause until the carried reset time, if any.
    Pause(Option<Moment>),
}

/// What one admission attempt asks of the caller.
#[derive(Debug, Clone, Copy, PartialEq, Eq, Structural)]
pub enum AdmitStep {
    /// A backoff is active: wait this long, then attempt again.
    Backoff(Span),
    /// The quota looks spent, by these figures: consult the authoritative one,
    /// see [`RateLimitController::probe_step`], then
    /// [`RateLimitController::await_quota`].
    Reconcile(GateSnapshot),
    /// The cap is reached: wait for a release, then attempt again.
    AwaitSlot,
    /// Every gate is open. The request counts as in flight.
    Admit,
}

/// Where the authoritative quota comes from.
#[derive(Debug, Clone, Copy, PartialEq, Eq, Structural)]
pub enum ProbeStep {
    /// From memory; nothing is known where there is none.
    Use(Option<AuthoritativeQuota>),
    /// From a fetch, see [`RateLimitController::authoritative_quota`].
    Fetch,
}

/// Read-only copy of a controller's state.
#[derive(Debug, Clone, Copy, PartialEq, Eq, Structural)]
pub struct ControllerSnapshot {
    /// Remaining quota.
    pub remaining: u32,
    /// Current cap.
    pub soft_cap: u32,
    /// Requests in flight.
    pub in_flight: u32,
    /// Active backoff deadline, if any.
    pub backoff_until: Option<Moment>,
    /// When the window resets.
    pub reset_at: Option<Moment>,
}

pub open spec fn moment_wf(moment: Option<Moment>) -> bool {
    match moment {
        Some(moment) => moment.wf(),
        None => true,
    }
}

/// The quota withheld from callers: a tenth of the hourly quota, capped.
pub open spec fn reserve_of(limit: u32) -> u32 {
    if limit / 10 <= RESERVE_MAX {
        limit / 10
    } else {
        RESERVE_MAX
    }
}

/// Quota remains above the reserve.
pub open spec fn quota_open(remaining: u32, reserve: u32) -> bool {
    remaining > reserve
}

/// A backoff holds at `now`.
pub open spec fn backing_off(backoff_until: Option<Moment>, now: Moment) -> bool {
    match backoff_until {
        Some(until) => now.instant() < until.instant(),
        None => false,
    }
}

/// The headers speak of the core pool: they name it, or no pool at all.
pub open spec fn speaks_of_core(headers: RateLimitHeaders) -> bool {
    match headers.resource {
        Some(resource) => text::same_but_for_case(resource@, "core"@),
        None => true,
    }
}

/// The value of a header, or what was known before.
pub open spec fn header_or<T>(header: Option<T>, before: T) -> T {
    match header {
        Some(value) => value,
        None => before,
    }
}

/// The response asks to slow down.
pub open spec fn slows_down(headers: RateLimitHeaders, http_status: u16) -> bool {
    http_status == 429 || headers.retry_after_secs is Some
}

/// The cap after a slow-down: half, but no less than one.
pub open spec fn halved(soft_cap: u32) -> u32 {
    if soft_cap / 2 >= SOFT_CAP_MIN {
        soft_cap / 2
    } else {
        SOFT_CAP_MIN
    }
}

/// The response is a success: its status is one of the 200s.
pub open spec fn succeeded(http_status: u16) -> bool {
    200 <= http_status < 300
}

/// The cap after a success: one more while quota is healthy and the maximum is
/// not reached.
pub open spec fn grown(soft_cap: u32, remaining: u32, limit: u32, max_cap: u32) -> u32 {
    if remaining > limit / 10 && soft_cap < max_cap {
        (soft_cap + 1) as u32
    } else {
        soft_cap
    }
}

/// The authoritative quota kept for the cooldown, if it is still fresh.
pub open spec fn fresh_quota(controller: RateLimitController, clock: u64) -> Option<
    AuthoritativeQuota,
> {
    match controller.authoritative_at {
        Some(at) => if controller.authoritative is Some && clock - at < PROBE_COOLDOWN_NANOS {
            controller.authoritative
        } else {
            None
        },
        None => None,
    }
}

/// What reconciliation decides for an authoritative quota, or for its absence.
pub open spec fn decision(
    quota: Option<AuthoritativeQuota>,
    reset_at: Option<Moment>,
    reserve: u32,
) -> QuotaDecision {
    match quota {
        None => QuotaDecision::Pause(reset_at),
        Some(quota) => if quota_open(quota.remaining, reserve) {
            QuotaDecision::Proceed
        } else if quota.reset_at is Some {
            QuotaDecision::Pause(quota.reset_at)
        } else {
            QuotaDecision::Pause(reset_at)
        },
    }
}

impl Default for RateLimitController {
    fn default() -> (out: Self)
        ensures
            out.wf(),
            out == RateLimitController::fresh(SOFT_CAP_DEFAULT, LIMIT_DEFAULT),
    {
        Self::new()
    }
}

impl RateLimitController {
    /// The cap is never below its floor, and every time it holds is
    /// representable.
    pub open spec fn wf(self) -> bool {
        &&& self.soft_cap >= SOFT_CAP_MIN
        &&& moment_wf(self.reset_at)
        &&& moment_wf(self.backoff_until)
        &&& match self.authoritative {
            Some(quota) => quota.wf(),
            None => true,
        }
    }

    /// A controller that has seen no response.
    pub open spec fn fresh(soft_cap: u32, limit: u32) -> Self {
        RateLimitController {
            remaining: u32::MAX,
            reset_at: None,
            backoff_until: None,
            soft_cap,
            limit,
            authoritative: None,
            authoritative_at: None,
            in_flight: 0,
        }
    }

    /// The state with the figures of an authoritative quota.
    pub open spec fn adopting(self, quota: AuthoritativeQuota) -> Self {
        RateLimitController {
            remaining: quota.remaining,
            limit: quota.limit,
            reset_at: if quota.reset_at is Some {
                quota.reset_at
            } else {
                self.reset_at
            },
            ..self
        }
    }

    /// The state with one more request in flight.
    pub open spec fn admitted(self) -> Self {
        RateLimitController { in_flight: (self.in_flight + 1) as u32, ..self }
    }

    /// The state with one request fewer in flight; the count wraps at zero.
    pub open spec fn released(self) -> Self {
        RateLimitController {
            in_flight: if self.in_flight > 0 {
                (self.in_flight - 1) as u32
            } else {
                u32::MAX
            },
            ..self
        }
    }

    /// A new controller with default limits.
    pub fn new() -> (out: Self)
        ensures
            out.wf(),
            out == Self::fresh(SOFT_CAP_DEFAULT, LIMIT_DEFAULT),
    {
        RateLimitController {
            remaining: u32::MAX,
            reset_at: None,
            backoff_until: None,
            soft_cap: SOFT_CAP_DEFAULT,
            limit: LIMIT_DEFAULT,
            authoritative: None,
            authoritative_at: None,
            in_flight: 0,
        }
    }

    /// A controller with a specific initial cap and hourly quota.
    pub fn with_limits(soft_cap: u32, limit: u32) -> (out: Self)
        ensures
            out.wf(),
            out == Self::fresh(
                if soft_cap >= SOFT_CAP_MIN {
                    soft_cap
                } else {
                    SOFT_CAP_MIN
                },
                limit,
            ),
    {
        let mut out = Self::new();
        out.soft_cap = if soft_cap >= SOFT_CAP_MIN {
            soft_cap
        } else {
            SOFT_CAP_MIN
        };
        out.limit = limit;
        out
    }

    /// The gating inputs of one admission attempt.
    pub open spec fn spec_gate(self) -> GateSnapshot {
        GateSnapshot {
            soft_cap: self.soft_cap,
            backoff_until: self.backoff_until,
            remaining: self.remaining,
            reset_at: self.reset_at,
            reserve: reserve_of(self.limit),
        }
    }

    /// The gating inputs of one admission attempt.
    pub fn gate_snapshot(&self) -> (out: GateSnapshot)
        ensures
            out == self.spec_gate(),
    {
        let tenth: u32 = self.limit / 10;
        GateSnapshot {
            soft_cap: self.soft_cap,
            backoff_until: self.backoff_until,
            remaining: self.remaining,
            reset_at: self.reset_at,
            reserve: if tenth <= RESERVE_MAX {
                tenth
            } else {
                RESERVE_MAX
            },
        }
    }

    /// One admission attempt: every gate once, in order. `now` is the time of
    /// the attempt.
    pub fn admit_attempt(&mut self, now: Moment) -> (out: AdmitStep)
        requires
            old(self).wf(),
            now.wf(),
        ensures
            final(self).wf(),
            out is Backoff <==> backing_off(old(self).backoff_until, now),
            out is Backoff ==> out->Backoff_0.wf() && out->Backoff_0.length()
                == old(self).backoff_until->0.instant() - now.instant(),
            out is Reconcile <==> !backing_off(old(self).backoff_until, now) && !quota_open(
                old(self).remaining,
                reserve_of(old(self).limit),
            ),
            out is Reconcile ==> out->Reconcile_0 == old(self).spec_gate(),
            out is AwaitSlot <==> !backing_off(old(self).backoff_until, now) && quota_open(
                old(self).remaining,
                reserve_of(old(self).limit),
            ) && old(self).in_flight >= old(self).soft_cap,
            out is Admit ==> *final(self) == old(self).admitted(),
            out is Admit ==> final(self).in_flight <= final(self).soft_cap,
            !(out is Admit) ==> *final(self) == *old(self),
    {
        let gate = self.gate_snapshot();
        match honour_backoff(gate.backoff_until, now) {
            Some(delay) => return AdmitStep::Backoff(delay),
            None => {},
        }
        if gate.remaining <= gate.reserve {
            return AdmitStep::Reconcile(gate);
        }
        if self.in_flight >= gate.soft_cap {
            return AdmitStep::AwaitSlot;
        }
        self.in_flight = self.in_flight + 1;
        AdmitStep::Admit
    }

    /// Where the authoritative quota is to come from. `clock` is the reading of
    /// the monotonic clock; `wired` says whether it can be fetched at all, and
    /// `idle` that no other fetch is under way.
    ///
    /// A quota fetched within the cooldown is used again. While another fetch
    /// is under way the last quota is used, however old it is.
    pub fn probe_step(&self, clock: u64, wired: bool, idle: bool) -> (out: ProbeStep)
        ensures
            out == match fresh_quota(*self, clock) {
                Some(quota) => ProbeStep::Use(Some(quota)),
                None => if !wired {
                    ProbeStep::Use(None)
                } else if !idle {
                    ProbeStep::Use(self.authoritative)
                } else {
                    ProbeStep::Fetch
                },
            },
    {
        match self.cached_quota(clock) {
            Some(quota) => ProbeStep::Use(Some(quota)),
            None => {
                if !wired {
                    ProbeStep::Use(None)
                } else if !idle {
                    ProbeStep::Use(self.authoritative)
                } else {
                    ProbeStep::Fetch
                }
            },
        }
    }

    fn cached_quota(&self, clock: u64) -> (out: Option<AuthoritativeQuota>)
        ensures
            out == fresh_quota(*self, clock),
    {
        match (self.authoritative, self.authoritative_at) {
            (Some(quota), Some(at)) => {
                if clock < at || clock - at < PROBE_COOLDOWN_NANOS {
                    Some(quota)
                } else {
                    None
                }
            },
            _ => None,
        }
    }

    /// The authoritative quota after a fetch: the fetched one, kept from now
    /// on, or the one kept before when the fetch failed.
    pub fn authoritative_quota(&mut self, fetched: Option<AuthoritativeQuota>, clock: u64) -> (out:
        Option<AuthoritativeQuota>)
        requires
            old(self).wf(),
            fetched is Some ==> fetched->0.wf(),
        ensures
            final(self).wf(),
            fetched is Some ==> *final(self) == (RateLimitController {
                authoritative: fetched,
                authoritative_at: Some(clock),
                ..*old(self)
            }),
            fetched is None ==> *final(self) == *old(self),
            out == final(self).authoritative,
    {
        if fetched.is_some() {
            self.authoritative = fetched;
            self.authoritative_at = Some(clock);
        }
        self.authoritative
    }

    /// Reconciles a quota that looks spent with the authoritative one. When
    /// quota remains after all, its figures are adopted.
    pub fn reconcile_quota(
        &mut self,
        quota: Option<AuthoritativeQuota>,
        reset_at: Option<Moment>,
        reserve: u32,
    ) -> (out: QuotaDecision)
        requires
            old(self).wf(),
            quota is Some ==> quota->0.wf(),
        ensures
            final(self).wf(),
            out == decision(quota, reset_at, reserve),
            out is Pause ==> *final(self) == *old(self),
            out is Proceed ==> *final(self) == old(self).adopting(quota->0),
    {
        match quota {
            None => QuotaDecision::Pause(reset_at),
            Some(quota) => {
                if quota.remaining <= reserve {
                    return match quota.reset_at {
                        Some(reset) => QuotaDecision::Pause(Some(reset)),
                        None => QuotaDecision::Pause(reset_at),
                    };
                }
                self.remaining = quota.remaining;
                self.limit = quota.limit;
                if quota.reset_at.is_some() {
                    self.reset_at = quota.reset_at;
                }
                QuotaDecision::Proceed
            },
        }
    }

    /// What a quota that looked spent, by the figures of `gate`, asks of the
    /// caller at `now`, given the authoritative one: `None` to attempt
    /// admission again at once, or the time to wait for the reset, after which
    /// [`RateLimitController::refill_after_reset`] is due.
    ///
    /// The budget is exhausted when the authoritative quota is spent too, or
    /// unknown, and no reset lies ahead.
    pub fn await_quota(
        &mut self,
        gate: &GateSnapshot,
        quota: Option<AuthoritativeQuota>,
        now: Moment,
    ) -> (out: Result<Option<Span>, RateLimitError>)
        requires
            old(self).wf(),
            moment_wf(gate.reset_at),
            quota is Some ==> quota->0.wf(),
            now.wf(),
        ensures
            final(self).wf(),
            ({
                let decided = decision(quota, gate.reset_at, gate.reserve);
                match out {
                    Ok(None) => decided is Proceed && *final(self) == old(self).adopting(quota->0),
                    Ok(Some(delay)) => {
                        &&& decided is Pause
                        &&& backing_off(decided->Pause_0, now)
                        &&& delay.wf()
                        &&& delay.length() == decided->Pause_0->0.instant() - now.instant()
                        &&& *final(self) == *old(self)
                    },
                    Err(error) => {
                        &&& decided is Pause
                        &&& !backing_off(decided->Pause_0, now)
                        &&& error == RateLimitError::BudgetExhausted
                        &&& *final(self) == *old(self)
                    },
                }
            }),
    {
        match self.reconcile_quota(quota, gate.reset_at, gate.reserve) {
            QuotaDecision::Proceed => Ok(None),
            QuotaDecision::Pause(reset) => match honour_backoff(reset, now) {
                Some(delay) => Ok(Some(delay)),
                None => Err(RateLimitError::BudgetExhausted),
            },
        }
    }

    /// After the pause for a reset: the quota counts as refilled, and the
    /// authoritative figures as stale, so that the next attempt goes through
    /// and its response brings the true figures.
    pub fn refill_after_reset(&mut self)
        requires
            old(self).wf(),
        ensures
            final(self).wf(),
            *final(self) == (RateLimitController {
                remaining: old(self).limit,
                authoritative: None,
                authoritative_at: None,
                ..*old(self)
            }),
    {
        self.remaining = self.limit;
        self.authoritative = None;
        self.authoritative_at = None;
    }

    /// Gives back the slot of a request, after its response or error.
    pub fn release(&mut self)
        ensures
            *final(self) == old(self).released(),
            old(self).wf() ==> final(self).wf(),
    {
        self.in_flight = self.in_flight.wrapping_sub(1);
    }

    /// Updates the state from the headers of a response.
    ///
    /// The budget is read from responses of the core pool alone. A response
    /// that asks to slow down halves the cap whatever its pool. Any other ends
    /// the backoff, and a success lets the cap grow by one, up to `max_cap`.
    pub fn observe(&mut self, headers: &RateLimitHeaders, http_status: u16, max_cap: u32, now: Moment)
        requires
            old(self).wf(),
            headers.wf(),
            now.wf(),
        ensures
            final(self).wf(),
            *final(self) == old(self).observed(*headers, http_status, max_cap, now),
            speaks_of_core(*headers) && headers.limit is Some ==> final(self).limit
                == headers.limit->0,
            speaks_of_core(*headers) && headers.remaining is Some ==> final(self).remaining
                == headers.remaining->0,
            speaks_of_core(*headers) && headers.reset_at is Some ==> final(self).reset_at
                == headers.reset_at,
            !speaks_of_core(*headers) || headers.limit is None ==> final(self).limit
                == old(self).limit,
            !speaks_of_core(*headers) || headers.remaining is None ==> final(self).remaining
                == old(self).remaining,
            !speaks_of_core(*headers) || headers.reset_at is None ==> final(self).reset_at
                == old(self).reset_at,
    {
        self.ingest_core_budget(headers);
        if http_status == 429 || headers.retry_after_secs.is_some() {
            self.back_off(headers, now);
        } else {
            self.backoff_until = None;
            if 200 <= http_status && http_status < 300 {
                self.grow_soft_cap(max_cap);
            }
        }
    }

    /// The state with the budget of a response read into it.
    pub open spec fn ingested(self, headers: RateLimitHeaders) -> Self {
        if speaks_of_core(headers) {
            RateLimitController {
                remaining: header_or(headers.remaining, self.remaining),
                limit: header_or(headers.limit, self.limit),
                reset_at: if headers.reset_at is Some {
                    headers.reset_at
                } else {
                    self.reset_at
                },
                ..self
            }
        } else {
            self
        }
    }

    /// The state after a slow-down.
    pub open spec fn backed_off(self, headers: RateLimitHeaders, now: Moment) -> Self {
        RateLimitController {
            soft_cap: halved(self.soft_cap),
            backoff_until: match headers.retry_after_secs {
                Some(secs) => Some(now.spec_after_secs(secs as nat)),
                None => self.backoff_until,
            },
            ..self
        }
    }

    /// The state after a response.
    pub open spec fn observed(
        self,
        headers: RateLimitHeaders,
        http_status: u16,
        max_cap: u32,
        now: Moment,
    ) -> Self {
        let read = self.ingested(headers);
        if slows_down(headers, http_status) {
            read.backed_off(headers, now)
        } else {
            RateLimitController {
                backoff_until: None,
                soft_cap: if succeeded(http_status) {
                    grown(read.soft_cap, read.remaining, read.limit, max_cap)
                } else {
                    read.soft_cap
                },
                ..read
            }
        }
    }

    fn ingest_core_budget(&mut self, headers: &RateLimitHeaders)
        requires
            old(self).wf(),
            headers.wf(),
        ensures
            final(self).wf(),
            *final(self) == old(self).ingested(*headers),
    {
        let is_core = match &headers.resource {
            Some(resource) => text::eq_ignore_ascii_case(resource.as_str(), "core"),
            None => true,
        };
        if !is_core {
            return;
        }
        match headers.remaining {
            Some(remaining) => {
                self.remaining = remaining;
            },
            None => {},
        }
        match headers.reset_at {
            Some(reset) => {
                self.reset_at = Some(reset);
            },
            None => {},
        }
        match headers.limit {
            Some(limit) => {
                self.limit = limit;
            },
            None => {},
        }
    }

    fn back_off(&mut self, headers: &RateLimitHeaders, now: Moment)
        requires
            old(self).wf(),
            now.wf(),
        ensures
            final(self).wf(),
            *final(self) == old(self).backed_off(*headers, now),
    {
        let half: u32 = self.soft_cap / 2;
        self.soft_cap = if half >= SOFT_CAP_MIN {
            half
        } else {
            SOFT_CAP_MIN
        };
        match headers.retry_after_secs {
            Some(secs) => {
                self.backoff_until = Some(now.after_secs(secs));
            },
            None => {},
        }
    }

    fn grow_soft_cap(&mut self, max_cap: u32)
        requires
            old(self).wf(),
        ensures
            final(self).wf(),
            *final(self) == (RateLimitController {
                soft_cap: grown(old(self).soft_cap, old(self).remaining, old(self).limit, max_cap),
                ..*old(self)
            }),
    {
        let healthy_threshold: u32 = self.limit / 10;
        if self.remaining > healthy_threshold && self.soft_cap < max_cap {
            self.soft_cap = self.soft_cap + 1;
        }
    }

    /// Copy of the current state for diagnostics.
    pub fn snapshot(&self) -> (out: ControllerSnapshot)
        ensures
            out == (ControllerSnapshot {
                remaining: self.remaining,
                soft_cap: self.soft_cap,
                in_flight: self.in_flight,
                backoff_until: self.backoff_until,
                reset_at: self.reset_at,
            }),
    {
        ControllerSnapshot {
            remaining: self.remaining,
            soft_cap: self.soft_cap,
            in_flight: self.in_flight,
            backoff_until: self.backoff_until,
            reset_at: self.reset_at,
        }
    }
}

/// How long it is at `now` until a deadline; `None` when there is none, or it
/// is over.
pub fn honour_backoff(backoff_until: Option<Moment>, now: Moment) -> (out: Option<Span>)
    requires
        moment_wf(backoff_until),
        now.wf(),
    ensures
        out is Some <==> backing_off(backoff_until, now),
        out is Some ==> out->0.wf() && out->0.length() == backoff_until->0.instant()
            - now.instant(),
{
    match backoff_until {
        Some(until) => {
            if !now.precedes(&until) {
                return None;
            }
            Some(now.until(&until))
        },
        None => None,
    }
}

// ---------------------------------------------------------------------------
// Laws
// ---------------------------------------------------------------------------

/// The reserve never exceeds its cap, nor a tenth of the quota, and leaves
/// something of any quota there is.
pub proof fn reserve_is_bounded(limit: u32)
    ensures
        reserve_of(limit) <= RESERVE_MAX,
        reserve_of(limit) <= limit / 10,
        limit > 0 ==> reserve_of(limit) < limit,
{
}

/// A response never moves the cap below its floor, never above both its old
/// value and the maximum, and up by at most one.
pub proof fn cap_moves_within_bounds(
    before: RateLimitController,
    headers: RateLimitHeaders,
    http_status: u16,
    max_cap: u32,
    now: Moment,
)
    requires
        before.wf(),
    ensures
        ({
            let after = before.observed(headers, http_status, max_cap, now);
            &&& SOFT_CAP_MIN <= after.soft_cap
            &&& after.soft_cap <= before.soft_cap + 1
            &&& after.soft_cap <= before.soft_cap || after.soft_cap <= max_cap
            &&& slows_down(headers, http_status) ==> after.soft_cap <= before.soft_cap
        }),
{
}

/// Only a success raises the cap, and only one that leaves more than a tenth of
/// the hourly quota.
pub proof fn cap_grows_on_healthy_success_alone(
    before: RateLimitController,
    headers: RateLimitHeaders,
    http_status: u16,
    max_cap: u32,
    now: Moment,
)
    requires
        before.wf(),
        before.observed(headers, http_status, max_cap, now).soft_cap > before.soft_cap,
    ensures
        succeeded(http_status),
        headers.retry_after_secs is None,
        ({
            let after = before.observed(headers, http_status, max_cap, now);
            after.remaining > after.limit / 10
        }),
{
}

/// A response that asks to slow down halves the cap whatever pool it speaks
/// of, and a `retry-after` backs off from now on.
pub proof fn slow_down_applies_to_every_pool(
    before: RateLimitController,
    headers: RateLimitHeaders,
    http_status: u16,
    max_cap: u32,
    now: Moment,
)
    requires
        slows_down(headers, http_status),
        now.wf(),
    ensures
        ({
            let after = before.observed(headers, http_status, max_cap, now);
            &&& after.soft_cap == halved(before.soft_cap)
            &&& headers.retry_after_secs is Some ==> after.backoff_until is Some
                && after.backoff_until->0.instant() >= now.instant()
        }),
{
}

/// A response of another pool leaves the budget as it was.
pub proof fn other_pools_leave_the_budget(
    before: RateLimitController,
    headers: RateLimitHeaders,
    http_status: u16,
    max_cap: u32,
    now: Moment,
)
    requires
        !speaks_of_core(headers),
    ensures
        ({
            let after = before.observed(headers, http_status, max_cap, now);
            &&& after.remaining == before.remaining
            &&& after.limit == before.limit
            &&& after.reset_at == before.reset_at
        }),
{
}

/// A response that does not ask to slow down ends the backoff.
pub proof fn calm_response_ends_the_backoff(
    before: RateLimitController,
    headers: RateLimitHeaders,
    http_status: u16,
    max_cap: u32,
    now: Moment,
    at: Moment,
)
    requires
        !slows_down(headers, http_status),
    ensures
        !backing_off(before.observed(headers, http_status, max_cap, now).backoff_until, at),
{
}

/// A request is refused only when the inline quota is spent, the authoritative
/// quota is spent or unknown, and no reset lies ahead.
pub proof fn refusal_needs_spent_quota_and_no_reset(
    quota: Option<AuthoritativeQuota>,
    reset_at: Option<Moment>,
    reserve: u32,
    now: Moment,
)
    ensures
        (decision(quota, reset_at, reserve) is Pause && !backing_off(
            decision(quota, reset_at, reserve)->Pause_0,
            now,
        )) ==> {
            &&& (quota is Some ==> !quota_open(quota->0.remaining, reserve))
            &&& (quota is None || quota->0.reset_at is None ==> !backing_off(reset_at, now))
            &&& (quota is Some ==> !backing_off(quota->0.reset_at, now))
        },
{
}

/// Once the pause for a reset is over the quota gate is open, for any quota
/// that is not zero.
pub proof fn refilled_quota_is_open(before: RateLimitController)
    requires
        before.limit > 0,
    ensures
        quota_open(before.limit, reserve_of(before.limit)),
{
}

/// When reconciliation proceeds and the hourly quota is the known one, the
/// quota gate is open on the next attempt.
pub proof fn reconciled_quota_is_open(
    before: RateLimitController,
    quota: AuthoritativeQuota,
    reset_at: Option<Moment>,
)
    requires
        quota.limit == before.limit,
        decision(Some(quota), reset_at, reserve_of(before.limit)) is Proceed,
    ensures
        quota_open(quota.remaining, reserve_of(quota.limit)),
{
}

/// A quota that was just fetched is served from memory for the whole cooldown.
pub proof fn fetched_quota_is_kept_for_the_cooldown(
    controller: RateLimitController,
    quota: AuthoritativeQuota,
    fetched_at: u64,
    clock: u64,
)
    requires
        controller.authoritative == Some(quota),
        controller.authoritative_at == Some(fetched_at),
        fetched_at <= clock,
    ensures
        fresh_quota(controller, clock) == if clock - fetched_at < PROBE_COOLDOWN_NANOS {
            Some(quota)
        } else {
            None
        },
{
}

/// A request that was admitted and released leaves the controller as it was.
pub proof fn release_undoes_admission(before: RateLimitController)
    requires
        before.in_flight < before.soft_cap,
    ensures
        before.admitted().released() == before,
{
}

} // verus!
