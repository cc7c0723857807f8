//! Points in time and lengths of time, in whole seconds and nanoseconds.
//!
//! The range of a [`Moment`] is the one of `chrono`'s UTC date and time, and
//! that of a [`Span`] the non-negative half of `chrono::TimeDelta`.

use chrono::{DateTime, TimeDelta, TimeZone, Utc};
use vstd::prelude::*;

verus! {

pub const NANOS_PER_SEC: u32 = 1_000_000_000;

/// Seconds since the epoch at the first and at the last representable second.
pub const FIRST_SECOND: i64 = -8_334_601_228_800;

pub const LAST_SECOND: i64 = 8_210_266_876_799;

/// The longest length of time: 2^63 - 1 milliseconds.
pub const LONGEST_SPAN_SECS: i64 = 9_223_372_036_854_775;

pub const LONGEST_SPAN_NANOS: u32 = 807_000_000;

/// A point in time: seconds since the epoch, and nanoseconds within the second.
#[derive(Debug, Clone, Copy, PartialEq, Eq, Structural)]
pub struct Moment {
    pub secs: i64,
    pub nanos: u32,
}

/// A length of time that is not negative.
#[derive(Debug, Clone, Copy, PartialEq, Eq, Structural)]
pub struct Span {
    pub secs: i64,
    pub nanos: u32,
}

impl Moment {
    pub open spec fn wf(self) -> bool {
        FIRST_SECOND <= self.secs <= LAST_SECOND && self.nanos < NANOS_PER_SEC
    }

    /// Nanoseconds since the epoch.
    pub open spec fn instant(self) -> int {
        self.secs * 1_000_000_000 + self.nanos
    }

    /// The last representable moment.
    pub fn last() -> (out: Self)
        ensures
            out.wf(),
            out.secs == LAST_SECOND,
            out.nanos == NANOS_PER_SEC - 1,
            forall|other: Moment| #[trigger] other.wf() ==> other.instant() <= out.instant(),
    {
        Moment { secs: LAST_SECOND, nanos: NANOS_PER_SEC - 1 }
    }

    /// Whether this moment comes before the other.
    pub fn precedes(&self, other: &Moment) -> (out: bool)
        requires
            self.wf(),
            other.wf(),
        ensures
            out == (self.instant() < other.instant()),
    {
        self.secs < other.secs || (self.secs == other.secs && self.nanos < other.nanos)
    }

    /// The time from this moment to the other; nothing when the other is no later.
    pub fn until(&self, other: &Moment) -> (out: Span)
        requires
            self.wf(),
            other.wf(),
        ensures
            out.wf(),
            out.length() == if self.instant() < other.instant() {
                other.instant() - self.instant()
            } else {
                0
            },
    {
        if !self.precedes(other) {
            return Span { secs: 0, nanos: 0 };
        }
        if other.nanos >= self.nanos {
            Span { secs: other.secs - self.secs, nanos: other.nanos - self.nanos }
        } else {
            Span {
                secs: other.secs - self.secs - 1,
                nanos: NANOS_PER_SEC - (self.nanos - other.nanos),
            }
        }
    }

    /// The moment `secs` seconds after this one, or the last moment when that
    /// lies beyond it.
    pub fn after_secs(&self, secs: u64) -> (out: Moment)
        requires
            self.wf(),
        ensures
            out.wf(),
            out == self.spec_after_secs(secs as nat),
    {
        let by = if secs <= i64::MAX as u64 {
            match seconds(secs as i64) {
                Some(span) => span,
                None => Span::longest(),
            }
        } else {
            Span::longest()
        };
        match later(*self, by) {
            Some(moment) => moment,
            None => Moment::last(),
        }
    }

    /// See [`Moment::after_secs`].
    pub open spec fn spec_after_secs(self, secs: nat) -> Moment {
        if self.secs + secs <= LAST_SECOND {
            Moment { secs: (self.secs + secs) as i64, nanos: self.nanos }
        } else {
            Moment { secs: LAST_SECOND, nanos: (NANOS_PER_SEC - 1) as u32 }
        }
    }
}

impl Span {
    pub open spec fn wf(self) -> bool {
        &&& 0 <= self.secs <= LONGEST_SPAN_SECS
        &&& self.nanos < NANOS_PER_SEC
        &&& self.secs == LONGEST_SPAN_SECS ==> self.nanos <= LONGEST_SPAN_NANOS
    }

    /// Nanoseconds in the span.
    pub open spec fn length(self) -> int {
        self.secs * 1_000_000_000 + self.nanos
    }

    /// The longest span.
    pub fn longest() -> (out: Self)
        ensures
            out.wf(),
            out.secs == LONGEST_SPAN_SECS,
            out.nanos == LONGEST_SPAN_NANOS,
    {
        Span { secs: LONGEST_SPAN_SECS, nanos: LONGEST_SPAN_NANOS }
    }
}

/// The moment a number of seconds after the epoch, where there is one.
pub open spec fn moment_at(secs: int) -> Option<Moment> {
    if FIRST_SECOND <= secs <= LAST_SECOND {
        Some(Moment { secs: secs as i64, nanos: 0 })
    } else {
        None
    }
}

/// `TimeZone::timestamp_opt` of `chrono::Utc` at a whole second, taken as its
/// single result: the moment that many seconds after the epoch, or `None` when
/// the second lies outside the range of moments.
#[verifier::external_body]
pub(crate) fn from_timestamp(secs: i64) -> (out: Option<Moment>)
    ensures
        out == moment_at(secs as int),
{
    let at = Utc.timestamp_opt(secs, 0).single()?;
    Some(Moment { secs: at.timestamp(), nanos: at.timestamp_subsec_nanos() })
}

/// `TimeDelta::try_seconds` of a number of seconds that is not negative: a span
/// of that many seconds, or `None` when it is longer than the longest span.
#[verifier::external_body]
fn seconds(secs: i64) -> (out: Option<Span>)
    requires
        0 <= secs,
    ensures
        out == if secs <= LONGEST_SPAN_SECS {
            Some(Span { secs, nanos: 0 })
        } else {
            None
        },
{
    let delta = TimeDelta::try_seconds(secs)?;
    Some(Span { secs: delta.num_seconds(), nanos: delta.subsec_nanos().unsigned_abs() })
}

/// `DateTime::checked_add_signed` with a delta that is not negative: the moment
/// that much later, or `None` when it lies beyond the last moment.
#[verifier::external_body]
fn later(at: Moment, by: Span) -> (out: Option<Moment>)
    requires
        at.wf(),
        by.wf(),
    ensures
        match out {
            Some(moment) => moment.wf() && moment.instant() == at.instant() + by.length(),
            None => at.instant() + by.length() >= (LAST_SECOND + 1) * 1_000_000_000,
        },
{
    let from = DateTime::<Utc>::from_timestamp(at.secs, at.nanos)?;
    let to = from.checked_add_signed(TimeDelta::new(by.secs, by.nanos)?)?;
    Some(Moment { secs: to.timestamp(), nanos: to.timestamp_subsec_nanos() })
}

} // verus!
