//! What the rate-limit budget is after each response, and what it opens.

use crate::decimal;
use crate::moment;
use crate::moment::{Moment, Span};
use crate::rate_limit::controller;
use crate::rate_limit::controller::{
    QuotaDecision, RateLimitController, LIMIT_DEFAULT, SOFT_CAP_DEFAULT,
};
use crate::rate_limit::headers;
use crate::rate_limit::headers::{HeadersView, RateLimitHeaders};
use crate::rate_limit::probe::AuthoritativeQuota;
use crate::rate_limit::registry;
use crate::text;
use vstd::prelude::*;
use vstd::string::*;

verus! {

/// The letters of the pool's name, whatever their case.
pub open spec fn spells_core(resource: Seq<char>) -> bool {
    &&& resource.len() == 4
    &&& resource[0] == 'c' || resource[0] == 'C'
    &&& resource[1] == 'o' || resource[1] == 'O'
    &&& resource[2] == 'r' || resource[2] == 'R'
    &&& resource[3] == 'e' || resource[3] == 'E'
}

/// A response speaks of the core pool when it names it in any case, or names no
/// pool.
pub proof fn core_is_named_in_any_case_or_not_at_all(headers: RateLimitHeaders)
    ensures
        controller::speaks_of_core(headers) <==> headers.resource is None || spells_core(
            headers.resource->0@,
        ),
{
    reveal_strlit("core");
    if headers.resource is Some {
        let named = headers.resource->0@;
        let core = "core"@;
        if text::same_but_for_case(named, core) {
            assert(text::lower_case(named[0]) == text::lower_case(core[0]));
            assert(text::lower_case(named[1]) == text::lower_case(core[1]));
            assert(text::lower_case(named[2]) == text::lower_case(core[2]));
            assert(text::lower_case(named[3]) == text::lower_case(core[3]));
        }
    }
}

/// After a response of the core pool, or one that names no pool, each figure of
/// the budget is the one of its header, where there is one, and what it was
/// before, where there is none. Any other pool leaves all three alone.
pub proof fn budget_is_what_the_headers_say(
    before: RateLimitController,
    headers: RateLimitHeaders,
    http_status: u16,
    max_cap: u32,
    now: Moment,
)
    ensures
        ({
            let after = before.observed(headers, http_status, max_cap, now);
            let core = headers.resource is None || spells_core(headers.resource->0@);
            &&& core && headers.limit is Some ==> after.limit == headers.limit->0
            &&& core && headers.remaining is Some ==> after.remaining == headers.remaining->0
            &&& core && headers.reset_at is Some ==> after.reset_at == headers.reset_at
            &&& !core || headers.limit is None ==> after.limit == before.limit
            &&& !core || headers.remaining is None ==> after.remaining == before.remaining
            &&& !core || headers.reset_at is None ==> after.reset_at == before.reset_at
        }),
{
    core_is_named_in_any_case_or_not_at_all(headers);
}

/// A response touches neither the authoritative quota nor the count of requests
/// in flight.
pub proof fn responses_leave_the_rest_alone(
    before: RateLimitController,
    headers: RateLimitHeaders,
    http_status: u16,
    max_cap: u32,
    now: Moment,
)
    ensures
        ({
            let after = before.observed(headers, http_status, max_cap, now);
            &&& after.authoritative == before.authoritative
            &&& after.authoritative_at == before.authoritative_at
            &&& after.in_flight == before.in_flight
        }),
{
}

/// A 429, or any response with a `retry-after`, halves the cap, and a cap of one
/// stays. With a `retry-after` of so many seconds, callers wait that long from
/// now, or to the last moment there is; without one they wait as they did.
pub proof fn slow_down_halves_the_cap_and_parks_callers(
    before: RateLimitController,
    headers: RateLimitHeaders,
    http_status: u16,
    max_cap: u32,
    now: Moment,
)
    requires
        now.wf(),
        http_status == 429 || headers.retry_after_secs is Some,
    ensures
        ({
            let after = before.observed(headers, http_status, max_cap, now);
            &&& before.soft_cap >= 2 ==> after.soft_cap == before.soft_cap / 2
            &&& before.soft_cap < 2 ==> after.soft_cap == 1
            &&& headers.retry_after_secs is None ==> after.backoff_until == before.backoff_until
            &&& headers.retry_after_secs is Some ==> after.backoff_until is Some
            &&& headers.retry_after_secs is Some && now.secs + headers.retry_after_secs->0
                <= 8_210_266_876_799 ==> after.backoff_until->0.instant() == now.instant()
                + headers.retry_after_secs->0 * 1_000_000_000
            &&& headers.retry_after_secs is Some && now.secs + headers.retry_after_secs->0
                > 8_210_266_876_799 ==> after.backoff_until->0.instant() == 8_210_266_876_799
                * 1_000_000_000 + 999_999_999
        }),
{
}

/// Any other response ends the backoff. The cap grows by one when the status is
/// in the 200s, more than a tenth of the quota is left, and the maximum is not
/// reached; otherwise it stays.
pub proof fn calm_response_lets_the_cap_grow_by_one(
    before: RateLimitController,
    headers: RateLimitHeaders,
    http_status: u16,
    max_cap: u32,
    now: Moment,
)
    requires
        http_status != 429,
        headers.retry_after_secs is None,
    ensures
        ({
            let after = before.observed(headers, http_status, max_cap, now);
            let grows = 200 <= http_status <= 299 && after.remaining > after.limit / 10
                && before.soft_cap < max_cap;
            &&& after.backoff_until is None
            &&& grows ==> after.soft_cap == before.soft_cap + 1
            &&& !grows ==> after.soft_cap == before.soft_cap
        }),
{
}

/// The reserve is a tenth of the hourly quota, rounded down, or fifty when that
/// is less.
pub proof fn reserve_is_a_tenth_or_fifty(limit: u32)
    ensures
        limit < 510 ==> 10 * controller::reserve_of(limit) <= limit < 10 * controller::reserve_of(
            limit,
        ) + 10,
        limit >= 510 ==> controller::reserve_of(limit) == 50,
{
}

/// Admission goes by the figures of the controller, and by the reserve of its quota.
pub proof fn admission_goes_by_the_figures(before: RateLimitController)
    ensures
        before.spec_gate().soft_cap == before.soft_cap,
        before.spec_gate().backoff_until == before.backoff_until,
        before.spec_gate().remaining == before.remaining,
        before.spec_gate().reset_at == before.reset_at,
        before.limit >= 510 ==> before.spec_gate().reserve == 50,
        before.limit < 510 ==> before.spec_gate().reserve == before.limit as int / 10,
{
}

/// Quota is open only above the reserve, and a backoff holds strictly before its
/// deadline.
pub proof fn admission_opens_past_its_bounds(
    remaining: u32,
    reserve: u32,
    until: Moment,
    now: Moment,
)
    ensures
        controller::quota_open(remaining, reserve) <==> remaining >= reserve + 1,
        controller::backing_off(Some(until), now) <==> until.instant() > now.instant(),
        !controller::backing_off(None, now),
{
}

/// A controller that has seen no response holds everyone to ten requests at
/// once and takes five thousand an hour for granted; nothing is in flight, and
/// no window is known.
pub proof fn fresh_controller_lets_ten_through()
    ensures
        ({
            let fresh = RateLimitController::fresh(SOFT_CAP_DEFAULT, LIMIT_DEFAULT);
            &&& fresh.soft_cap == 10
            &&& fresh.limit == 5000
            &&& fresh.remaining == 0xffff_ffff
            &&& fresh.in_flight == 0
            &&& fresh.reset_at is None
            &&& fresh.backoff_until is None
            &&& fresh.authoritative is None
            &&& fresh.authoritative_at is None
        }),
{
}

/// A controller begins with the cap and the quota it was given.
pub proof fn fresh_controller_has_the_given_limits(soft_cap: u32, limit: u32)
    ensures
        RateLimitController::fresh(soft_cap, limit).soft_cap == soft_cap,
        RateLimitController::fresh(soft_cap, limit).limit == limit,
        RateLimitController::fresh(soft_cap, limit).remaining == 0xffff_ffff,
        RateLimitController::fresh(soft_cap, limit).in_flight == 0,
        controller::SOFT_CAP_MIN == 1,
{
}

/// Admission counts one more request in flight and changes nothing else; a
/// release counts one fewer.
pub proof fn slots_are_counted_one_by_one(before: RateLimitController)
    ensures
        before.in_flight < 0xffff_ffff ==> before.admitted().in_flight == before.in_flight + 1,
        before.in_flight > 0 ==> before.released().in_flight == before.in_flight - 1,
        (RateLimitController { in_flight: before.in_flight, ..before.admitted() }) == before,
        (RateLimitController { in_flight: before.in_flight, ..before.released() }) == before,
{
}

/// Adopting an authoritative quota takes over what it says is left and allowed,
/// and its reset where it names one; nothing else changes.
pub proof fn adopted_figures_are_the_authoritative_ones(
    before: RateLimitController,
    quota: AuthoritativeQuota,
)
    ensures
        ({
            let after = before.adopting(quota);
            &&& after.remaining == quota.remaining
            &&& after.limit == quota.limit
            &&& quota.reset_at is Some ==> after.reset_at == quota.reset_at
            &&& quota.reset_at is None ==> after.reset_at == before.reset_at
            &&& after.soft_cap == before.soft_cap
            &&& after.backoff_until == before.backoff_until
            &&& after.in_flight == before.in_flight
            &&& after.authoritative == before.authoritative
            &&& after.authoritative_at == before.authoritative_at
        }),
{
}

/// Reconciliation proceeds when the authoritative quota is above the reserve,
/// and only then. Otherwise it pauses until the reset of that quota, or, where
/// it names none or is unknown, until the reset known before.
pub proof fn reconciliation_goes_by_the_authoritative_quota(
    quota: AuthoritativeQuota,
    reset_at: Option<Moment>,
    reserve: u32,
)
    ensures
        quota.remaining > reserve <==> controller::decision(Some(quota), reset_at, reserve)
            == QuotaDecision::Proceed,
        quota.remaining <= reserve && quota.reset_at is Some ==> controller::decision(
            Some(quota),
            reset_at,
            reserve,
        ) == QuotaDecision::Pause(quota.reset_at),
        quota.remaining <= reserve && quota.reset_at is None ==> controller::decision(
            Some(quota),
            reset_at,
            reserve,
        ) == QuotaDecision::Pause(reset_at),
        controller::decision(None, reset_at, reserve) == QuotaDecision::Pause(reset_at),
{
}

/// A fetched quota is fresh for five seconds of the monotonic clock, and no
/// quota is fresh that was never fetched.
pub proof fn quota_is_fresh_for_five_seconds(before: RateLimitController, clock: u64)
    ensures
        before.authoritative is Some && before.authoritative_at is Some && clock
            < before.authoritative_at->0 + 5_000_000_000 ==> controller::fresh_quota(before, clock)
            == before.authoritative,
        before.authoritative_at is Some && clock >= before.authoritative_at->0 + 5_000_000_000
            ==> controller::fresh_quota(before, clock) is None,
        before.authoritative is None || before.authoritative_at is None
            ==> controller::fresh_quota(before, clock) is None,
{
}

// ---------------------------------------------------------------------------
// Headers
// ---------------------------------------------------------------------------

proof fn lemma_names_differ()
    ensures
        "x-ratelimit-limit"@ != "x-ratelimit-remaining"@,
        "x-ratelimit-limit"@ != "x-ratelimit-used"@,
        "x-ratelimit-limit"@ != "x-ratelimit-reset"@,
        "x-ratelimit-limit"@ != "x-ratelimit-resource"@,
        "x-ratelimit-limit"@ != "retry-after"@,
        "x-ratelimit-remaining"@ != "x-ratelimit-used"@,
        "x-ratelimit-remaining"@ != "x-ratelimit-reset"@,
        "x-ratelimit-remaining"@ != "x-ratelimit-resource"@,
        "x-ratelimit-remaining"@ != "retry-after"@,
        "x-ratelimit-used"@ != "x-ratelimit-reset"@,
        "x-ratelimit-used"@ != "x-ratelimit-resource"@,
        "x-ratelimit-used"@ != "retry-after"@,
        "x-ratelimit-reset"@ != "x-ratelimit-resource"@,
        "x-ratelimit-reset"@ != "retry-after"@,
        "x-ratelimit-resource"@ != "retry-after"@,
{
    reveal_strlit("x-ratelimit-limit");
    reveal_strlit("x-ratelimit-remaining");
    reveal_strlit("x-ratelimit-used");
    reveal_strlit("x-ratelimit-reset");
    reveal_strlit("x-ratelimit-resource");
    reveal_strlit("retry-after");
    assert("x-ratelimit-limit"@.len() == 17);
    assert("x-ratelimit-remaining"@.len() == 21);
    assert("x-ratelimit-used"@.len() == 16);
    assert("x-ratelimit-reset"@.len() == 17);
    assert("x-ratelimit-resource"@.len() == 20);
    assert("retry-after"@.len() == 11);
    assert("x-ratelimit-limit"@[12] == 'l');
    assert("x-ratelimit-reset"@[12] == 'r');
}

/// A count in digits is read from its own header and changes nothing else.
pub proof fn counts_are_read_from_their_headers(before: HeadersView, count: nat)
    requires
        count <= u32::MAX,
    ensures
        headers::with_header(before, "x-ratelimit-limit"@, decimal::natural_text(count)) == (
        HeadersView { limit: Some(count), ..before }),
        headers::with_header(before, "x-ratelimit-remaining"@, decimal::natural_text(count)) == (
        HeadersView { remaining: Some(count), ..before }),
        headers::with_header(before, "x-ratelimit-used"@, decimal::natural_text(count)) == (
        HeadersView { used: Some(count), ..before }),
{
    lemma_names_differ();
    decimal::natural_text_reads_back(count, u32::MAX as nat);
}

/// The seconds to wait, the reset and the pool are read from their own headers
/// and change nothing else.
pub proof fn waits_and_resets_are_read_from_their_headers(
    before: HeadersView,
    wait: nat,
    reset: int,
    pool: Seq<char>,
)
    requires
        wait <= u64::MAX,
        -8_334_601_228_800 <= reset <= 8_210_266_876_799,
    ensures
        headers::with_header(before, "retry-after"@, decimal::natural_text(wait)) == (
        HeadersView { retry_after_secs: Some(wait), ..before }),
        headers::with_header(before, "x-ratelimit-reset"@, decimal::integer_text(reset)) == (
        HeadersView { reset_at: Some(Moment { secs: reset as i64, nanos: 0 }), ..before }),
        headers::with_header(before, "x-ratelimit-resource"@, pool) == (HeadersView {
            resource: Some(pool),
            ..before
        }),
{
    lemma_names_differ();
    decimal::natural_text_reads_back(wait, u64::MAX as nat);
    decimal::integer_text_reads_back(reset);
}

/// A header that is none of the six says nothing, nor does a count or a reset
/// that cannot be read.
pub proof fn what_cannot_be_read_says_nothing(
    before: HeadersView,
    name: Seq<char>,
    value: Seq<char>,
)
    ensures
        ({
            &&& name != "x-ratelimit-limit"@
            &&& name != "x-ratelimit-remaining"@
            &&& name != "x-ratelimit-used"@
            &&& name != "x-ratelimit-reset"@
            &&& name != "x-ratelimit-resource"@
            &&& name != "retry-after"@
        }) ==> headers::with_header(before, name, value) == before,
        decimal::unsigned_value(value, u32::MAX as nat) is None ==> headers::with_header(
            before,
            "x-ratelimit-limit"@,
            value,
        ) == before && headers::with_header(before, "x-ratelimit-remaining"@, value) == before
            && headers::with_header(before, "x-ratelimit-used"@, value) == before,
        decimal::unsigned_value(value, u64::MAX as nat) is None ==> headers::with_header(
            before,
            "retry-after"@,
            value,
        ) == before,
        decimal::signed_value(value) is None ==> headers::with_header(
            before,
            "x-ratelimit-reset"@,
            value,
        ) == before,
{
    lemma_names_differ();
}

/// A list of headers is read from its first to its last, from nothing on.
pub proof fn headers_are_read_in_order(list: Seq<(&str, &str)>, name: &str, value: &str)
    ensures
        headers::headers_say(Seq::<(&str, &str)>::empty()) == (HeadersView {
            limit: None,
            remaining: None,
            used: None,
            reset_at: None,
            resource: None,
            retry_after_secs: None,
            is_secondary_rate_limit: false,
        }),
        headers::headers_say(list.push((name, value))) == headers::with_header(
            headers::headers_say(list),
            name@,
            value@,
        ),
{
    assert(list.push((name, value)).drop_last() =~= list);
}

/// What the headers show is what their fields hold.
pub proof fn headers_show_their_fields(headers: RateLimitHeaders)
    ensures
        headers.limit is Some ==> headers@.limit == Some(headers.limit->0 as nat),
        headers.limit is None ==> headers@.limit is None,
        headers.remaining is Some ==> headers@.remaining == Some(headers.remaining->0 as nat),
        headers.remaining is None ==> headers@.remaining is None,
        headers.used is Some ==> headers@.used == Some(headers.used->0 as nat),
        headers.used is None ==> headers@.used is None,
        headers@.reset_at == headers.reset_at,
        headers.resource is Some ==> headers@.resource == Some(headers.resource->0@),
        headers.resource is None ==> headers@.resource is None,
        headers.retry_after_secs is Some ==> headers@.retry_after_secs == Some(
            headers.retry_after_secs->0 as nat,
        ),
        headers.retry_after_secs is None ==> headers@.retry_after_secs is None,
        headers@.is_secondary_rate_limit == headers.is_secondary_rate_limit,
{
}

// ---------------------------------------------------------------------------
// Moments
// ---------------------------------------------------------------------------

/// A moment lies so many nanoseconds from the epoch, and a span lasts so many.
pub proof fn moments_and_spans_are_counted_in_nanoseconds(at: Moment, span: Span)
    ensures
        at.instant() == at.secs * 1_000_000_000 + at.nanos,
        span.length() == span.secs * 1_000_000_000 + span.nanos,
        at.wf() <==> -8_334_601_228_800 <= at.secs <= 8_210_266_876_799 && at.nanos
            < 1_000_000_000,
        span.wf() <==> 0 <= span.length() <= 9_223_372_036_854_775_807_000_000 && span.nanos
            < 1_000_000_000,
{
}

/// Whole seconds after a moment are added to it while there is such a moment.
pub proof fn seconds_are_added_to_a_moment(at: Moment, secs: nat)
    requires
        at.wf(),
    ensures
        at.spec_after_secs(secs).wf(),
        at.secs + secs <= 8_210_266_876_799 ==> at.spec_after_secs(secs).instant() == at.instant()
            + secs * 1_000_000_000,
        at.secs + secs > 8_210_266_876_799 ==> forall|other: Moment|
            #![trigger other.wf()]
            other.wf() ==> other.instant() <= at.spec_after_secs(secs).instant(),
        moment::moment_at(at.secs as int) == Some(Moment { secs: at.secs, nanos: 0 }),
{
}

/// There is no moment before the first second, nor after the last.
pub proof fn moments_have_bounds(secs: int)
    ensures
        secs < -8_334_601_228_800 || secs > 8_210_266_876_799 ==> moment::moment_at(secs) is None,
        moment::moment_at(secs) is Some ==> moment::moment_at(secs)->0.instant() == secs
            * 1_000_000_000,
{
}

// ---------------------------------------------------------------------------
// Fingerprints
// ---------------------------------------------------------------------------

/// A fingerprint writes the digest of a token's UTF-8 bytes, two digits a byte:
/// the sixteens first, then the ones.
pub proof fn fingerprint_writes_the_digest(token: Seq<char>, i: int)
    requires
        0 <= i < registry::sha256(vstd::utf8::encode_utf8(token)).len(),
    ensures
        ({
            let byte = registry::sha256(vstd::utf8::encode_utf8(token))[i];
            let digits = registry::fingerprint_of(token);
            &&& 2 * i + 1 < digits.len()
            &&& digits[2 * i] == "0123456789abcdef"@[byte as int / 16]
            &&& digits[2 * i + 1] == "0123456789abcdef"@[byte as int % 16]
        }),
{
    reveal_strlit("0123456789abcdef");
    let byte = registry::sha256(vstd::utf8::encode_utf8(token))[i];
    let digits = registry::fingerprint_of(token);
    assert((2 * i) / 2 == i && (2 * i) % 2 == 0);
    assert((2 * i + 1) / 2 == i && (2 * i + 1) % 2 == 1);
    assert(0 <= byte as int / 16 < 16);
    assert(0 <= byte as int % 16 < 16);
}

/// A fingerprint has two digits for every byte of the digest, and none besides.
pub proof fn fingerprint_has_two_digits_a_byte(token: Seq<char>)
    ensures
        registry::fingerprint_of(token).len() == 2 * registry::sha256(
            vstd::utf8::encode_utf8(token),
        ).len(),
{
}

/// A fingerprint has a slot where it is entered, and nowhere else.
pub proof fn slots_are_found_by_fingerprint(
    entries: Seq<(Seq<char>, RateLimitController)>,
    fingerprint: Seq<char>,
    slot: int,
)
    requires
        0 <= slot < entries.len(),
    ensures
        registry::slot_of(entries, fingerprint, slot) <==> entries[slot].0 == fingerprint,
        entries[slot].0 == fingerprint ==> registry::has_slot(entries, fingerprint),
        (forall|i: int|
            0 <= i < entries.len() ==> (#[trigger] entries[i]).0 != fingerprint)
            ==> !registry::has_slot(entries, fingerprint),
{
    if entries[slot].0 == fingerprint {
        assert(registry::slot_of(entries, fingerprint, slot));
    }
}

} // verus!
