//! The rate-limit headers of one response.

use crate::decimal;
use crate::json;
use crate::moment;
use crate::moment::Moment;
use crate::text::same;
use vstd::prelude::*;

verus! {

/// Rate-limit headers of a single response. Any of them may be absent.
#[derive(Debug, Clone)]
pub struct RateLimitHeaders {
    /// `x-ratelimit-limit`: the token's total hourly quota.
    pub limit: Option<u32>,
    /// `x-ratelimit-remaining`: requests still available in the current window.
    pub remaining: Option<u32>,
    /// `x-ratelimit-used`: requests consumed in the current window.
    pub used: Option<u32>,
    /// `x-ratelimit-reset`: when the window resets.
    pub reset_at: Option<Moment>,
    /// `x-ratelimit-resource`: resource category (`core`, `search`, ...).
    pub resource: Option<String>,
    /// `retry-after` seconds, present on 429 and some 403 responses.
    pub retry_after_secs: Option<u64>,
    /// Whether the response was a `429 Too Many Requests`.
    pub is_secondary_rate_limit: bool,
}

/// What the headers of a response say.
#[verifier::ext_equal]
pub struct HeadersView {
    pub limit: Option<nat>,
    pub remaining: Option<nat>,
    pub used: Option<nat>,
    pub reset_at: Option<Moment>,
    pub resource: Option<Seq<char>>,
    pub retry_after_secs: Option<nat>,
    pub is_secondary_rate_limit: bool,
}

pub open spec fn natural(value: Option<u32>) -> Option<nat> {
    match value {
        Some(value) => Some(value as nat),
        None => None,
    }
}

pub open spec fn wide_natural(value: Option<u64>) -> Option<nat> {
    match value {
        Some(value) => Some(value as nat),
        None => None,
    }
}

impl View for RateLimitHeaders {
    type V = HeadersView;

    open spec fn view(&self) -> HeadersView {
        HeadersView {
            limit: natural(self.limit),
            remaining: natural(self.remaining),
            used: natural(self.used),
            reset_at: self.reset_at,
            resource: json::text_of(self.resource),
            retry_after_secs: wide_natural(self.retry_after_secs),
            is_secondary_rate_limit: self.is_secondary_rate_limit,
        }
    }
}

/// A response without any of the headers.
pub open spec fn no_headers() -> HeadersView {
    HeadersView {
        limit: None,
        remaining: None,
        used: None,
        reset_at: None,
        resource: None,
        retry_after_secs: None,
        is_secondary_rate_limit: false,
    }
}

/// The value read, or the one known before when the text is malformed.
pub open spec fn read_or(text: Seq<char>, max: nat, before: Option<nat>) -> Option<nat> {
    match decimal::unsigned_value(text, max) {
        Some(value) => Some(value),
        None => before,
    }
}

/// The reset time read from seconds since the epoch, or the one known before
/// when the text is no such number, or one outside the range of moments.
pub open spec fn reset_or(text: Seq<char>, before: Option<Moment>) -> Option<Moment> {
    match decimal::signed_value(text) {
        Some(secs) => match moment::moment_at(secs) {
            Some(moment) => Some(moment),
            None => before,
        },
        None => before,
    }
}

/// What is known after one more header.
pub open spec fn with_header(before: HeadersView, name: Seq<char>, value: Seq<char>) -> HeadersView {
    if name == "x-ratelimit-limit"@ {
        HeadersView { limit: read_or(value, u32::MAX as nat, before.limit), ..before }
    } else if name == "x-ratelimit-remaining"@ {
        HeadersView { remaining: read_or(value, u32::MAX as nat, before.remaining), ..before }
    } else if name == "x-ratelimit-used"@ {
        HeadersView { used: read_or(value, u32::MAX as nat, before.used), ..before }
    } else if name == "x-ratelimit-reset"@ {
        HeadersView { reset_at: reset_or(value, before.reset_at), ..before }
    } else if name == "x-ratelimit-resource"@ {
        HeadersView { resource: Some(value), ..before }
    } else if name == "retry-after"@ {
        HeadersView {
            retry_after_secs: read_or(value, u64::MAX as nat, before.retry_after_secs),
            ..before
        }
    } else {
        before
    }
}

/// What a list of header names and values says, read in order.
pub open spec fn headers_say(headers: Seq<(&str, &str)>) -> HeadersView
    decreases headers.len(),
{
    if headers.len() == 0 {
        no_headers()
    } else {
        with_header(
            headers_say(headers.drop_last()),
            headers.last().0@,
            headers.last().1@,
        )
    }
}

fn narrow_or(value: &str, before: Option<u32>) -> (out: Option<u32>)
    ensures
        natural(out) == read_or(value@, u32::MAX as nat, natural(before)),
{
    match decimal::parse_u32(value) {
        Some(number) => Some(number),
        None => before,
    }
}

fn wide_or(value: &str, before: Option<u64>) -> (out: Option<u64>)
    ensures
        wide_natural(out) == read_or(value@, u64::MAX as nat, wide_natural(before)),
{
    match decimal::parse_u64(value) {
        Some(number) => Some(number),
        None => before,
    }
}

fn moment_or(value: &str, before: Option<Moment>) -> (out: Option<Moment>)
    ensures
        out == reset_or(value@, before),
{
    match decimal::parse_i64(value) {
        Some(secs) => match moment::from_timestamp(secs) {
            Some(moment) => Some(moment),
            None => before,
        },
        None => before,
    }
}

impl RateLimitHeaders {
    /// The reset time, where there is one, is a representable moment.
    pub open spec fn wf(self) -> bool {
        match self.reset_at {
            Some(reset) => reset.wf(),
            None => true,
        }
    }

    /// Headers of a response that carries none.
    pub fn none() -> (out: Self)
        ensures
            out@ == no_headers(),
            out.wf(),
    {
        RateLimitHeaders {
            limit: None,
            remaining: None,
            used: None,
            reset_at: None,
            resource: None,
            retry_after_secs: None,
            is_secondary_rate_limit: false,
        }
    }

    fn read(&mut self, name: &str, value: &str)
        requires
            old(self).wf(),
        ensures
            final(self)@ == with_header(old(self)@, name@, value@),
            final(self).wf(),
    {
        if same(name, "x-ratelimit-limit") {
            self.limit = narrow_or(value, self.limit);
        } else if same(name, "x-ratelimit-remaining") {
            self.remaining = narrow_or(value, self.remaining);
        } else if same(name, "x-ratelimit-used") {
            self.used = narrow_or(value, self.used);
        } else if same(name, "x-ratelimit-reset") {
            self.reset_at = moment_or(value, self.reset_at);
        } else if same(name, "x-ratelimit-resource") {
            self.resource = Some(value.to_owned());
        } else if same(name, "retry-after") {
            self.retry_after_secs = wide_or(value, self.retry_after_secs);
        }
    }

    /// The headers a list of lowercase names and values says. Unrecognised or
    /// malformed headers are ignored.
    pub fn parse(headers: &[(&str, &str)]) -> (out: Self)
        ensures
            out@ == headers_say(headers@),
            out.wf(),
    {
        let mut out = Self::none();
        let mut i: usize = 0;
        while i < headers.len()
            invariant
                i <= headers@.len(),
                out@ == headers_say(headers@.take(i as int)),
                out.wf(),
            decreases headers@.len() - i,
        {
            let (name, value) = headers[i];
            out.read(name, value);
            assert(headers@.take(i + 1).drop_last() =~= headers@.take(i as int));
            i = i + 1;
        }
        assert(headers@.take(i as int) =~= headers@);
        out
    }
}

/// A list in which no header is a rate-limit header says nothing.
pub proof fn unrecognised_headers_are_ignored(headers: Seq<(&str, &str)>)
    requires
        forall|i: int| 0 <= i < headers.len() ==> !#[trigger] is_rate_limit_header(headers[i].0@),
    ensures
        headers_say(headers) == no_headers(),
    decreases headers.len(),
{
    if headers.len() > 0 {
        let rest = headers.drop_last();
        assert forall|i: int| 0 <= i < rest.len() implies !#[trigger] is_rate_limit_header(
            rest[i].0@,
        ) by {
            assert(rest[i] == headers[i]);
        }
        unrecognised_headers_are_ignored(rest);
        assert(!is_rate_limit_header(headers[headers.len() - 1].0@));
    }
}

/// A count that is no number leaves what earlier headers said.
pub proof fn malformed_counts_are_ignored(before: HeadersView, name: Seq<char>, value: Seq<char>)
    requires
        decimal::unsigned_value(value, u64::MAX as nat) is None,
        name != "x-ratelimit-resource"@,
        name != "x-ratelimit-reset"@,
    ensures
        with_header(before, name, value) == before,
{
}

pub open spec fn is_rate_limit_header(name: Seq<char>) -> bool {
    ||| name == "x-ratelimit-limit"@
    ||| name == "x-ratelimit-remaining"@
    ||| name == "x-ratelimit-used"@
    ||| name == "x-ratelimit-reset"@
    ||| name == "x-ratelimit-resource"@
    ||| name == "retry-after"@
}

} // verus!
