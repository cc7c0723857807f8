use github_mirror::moment::{Moment, Span, FIRST_SECOND, LAST_SECOND};
use github_mirror::rate_limit::controller::{
    honour_backoff, AdmitStep, ProbeStep, RateLimitController, RESERVE_MAX,
};
use github_mirror::rate_limit::headers::RateLimitHeaders;
use github_mirror::rate_limit::probe::AuthoritativeQuota;
use github_mirror::rate_limit::registry::{ControllerRegistry, TokenFingerprint};
use github_mirror::rate_limit::RateLimitError;

fn at(secs: i64) -> Moment {
    Moment { secs, nanos: 0 }
}

const NOW: Moment = Moment { secs: 1_780_000_000, nanos: 0 };

fn in_half_an_hour() -> Moment {
    at(NOW.secs + 1800)
}

// --- headers ---------------------------------------------------------------

#[test]
fn parse_standard_headers() {
    let hdrs = [
        ("x-ratelimit-limit", "5000"),
        ("x-ratelimit-remaining", "4800"),
        ("x-ratelimit-used", "200"),
        ("x-ratelimit-reset", "1700000000"),
        ("x-ratelimit-resource", "core"),
    ];
    let r = RateLimitHeaders::parse(&hdrs);
    assert_eq!(r.limit, Some(5000));
    assert_eq!(r.remaining, Some(4800));
    assert_eq!(r.used, Some(200));
    assert_eq!(r.resource.as_deref(), Some("core"));
    assert!(r.reset_at.is_some());
    assert_eq!(r.reset_at, Some(at(1_700_000_000)));
    assert!(!r.is_secondary_rate_limit);
}

#[test]
fn parse_retry_after() {
    let hdrs = [("retry-after", "60")];
    let r = RateLimitHeaders::parse(&hdrs);
    assert_eq!(r.retry_after_secs, Some(60));
}

#[test]
fn parse_ignores_unknown_headers() {
    let hdrs = [("x-github-request-id", "abc123")];
    let r = RateLimitHeaders::parse(&hdrs);
    assert_eq!(r.remaining, None);
    assert_eq!(r.limit, None);
    assert_eq!(r.resource, None);
}

#[test]
fn parse_ignores_malformed_headers() {
    let r = RateLimitHeaders::parse(&[
        ("x-ratelimit-limit", "5000"),
        ("x-ratelimit-limit", "many"),
        ("x-ratelimit-remaining", "-1"),
        ("x-ratelimit-used", "4294967296"),
        ("x-ratelimit-reset", "soon"),
        ("retry-after", ""),
    ]);
    assert_eq!(r.limit, Some(5000));
    assert_eq!(r.remaining, None);
    assert_eq!(r.used, None);
    assert_eq!(r.reset_at, None);
    assert_eq!(r.retry_after_secs, None);
}

#[test]
fn parse_reads_bounds_and_signs() {
    let r = RateLimitHeaders::parse(&[
        ("x-ratelimit-limit", "4294967295"),
        ("x-ratelimit-remaining", "+007"),
        ("x-ratelimit-reset", "-5"),
        ("retry-after", "18446744073709551615"),
    ]);
    assert_eq!(r.limit, Some(u32::MAX));
    assert_eq!(r.remaining, Some(7));
    assert_eq!(r.reset_at, Some(at(-5)));
    assert_eq!(r.retry_after_secs, Some(u64::MAX));
}

#[test]
fn the_last_of_equal_headers_wins() {
    let r = RateLimitHeaders::parse(&[
        ("x-ratelimit-resource", "core"),
        ("x-ratelimit-resource", "search"),
    ]);
    assert_eq!(r.resource.as_deref(), Some("search"));
}

#[test]
fn reset_times_end_where_dates_end() {
    let last = LAST_SECOND.to_string();
    let beyond = (LAST_SECOND + 1).to_string();
    let first = FIRST_SECOND.to_string();
    let before = (FIRST_SECOND - 1).to_string();
    let read = |value: &str| RateLimitHeaders::parse(&[("x-ratelimit-reset", value)]).reset_at;
    assert_eq!(read(&last), Some(at(LAST_SECOND)));
    assert_eq!(read(&beyond), None);
    assert_eq!(read(&first), Some(at(FIRST_SECOND)));
    assert_eq!(read(&before), None);
    assert_eq!(chrono::DateTime::<chrono::Utc>::MAX_UTC.timestamp(), LAST_SECOND);
    assert_eq!(chrono::DateTime::<chrono::Utc>::MIN_UTC.timestamp(), FIRST_SECOND);
}

// --- moments ---------------------------------------------------------------

#[test]
fn moments_are_compared_and_subtracted_to_the_nanosecond() {
    let early = Moment { secs: 10, nanos: 900_000_000 };
    let late = Moment { secs: 12, nanos: 100_000_000 };
    assert!(early.precedes(&late));
    assert!(!late.precedes(&early));
    assert!(!early.precedes(&early));
    assert_eq!(early.until(&late), Span { secs: 1, nanos: 200_000_000 });
    assert_eq!(late.until(&early), Span { secs: 0, nanos: 0 });
}

#[test]
fn adding_seconds_stops_at_the_last_moment() {
    let from = Moment { secs: 100, nanos: 5 };
    assert_eq!(from.after_secs(60), Moment { secs: 160, nanos: 5 });
    assert_eq!(from.after_secs(0), from);
    assert_eq!(from.after_secs(u64::MAX), Moment::last());
    assert_eq!(from.after_secs(i64::MAX as u64), Moment::last());
    assert_eq!(from.after_secs(9_223_372_036_854_775), Moment::last());
    let near = Moment { secs: LAST_SECOND - 1, nanos: 7 };
    assert_eq!(near.after_secs(1), Moment { secs: LAST_SECOND, nanos: 7 });
    assert_eq!(near.after_secs(2), Moment::last());
}

// --- controller ------------------------------------------------------------

#[test]
fn admit_and_release_increments_decrement_in_flight() {
    let mut ctrl = RateLimitController::new();
    assert_eq!(ctrl.admit_attempt(NOW), AdmitStep::Admit);
    assert_eq!(ctrl.in_flight, 1);
    ctrl.release();
    assert_eq!(ctrl.in_flight, 0);
}

#[test]
fn observe_429_halves_soft_cap() {
    let mut ctrl = RateLimitController::with_limits(10, 5000);
    let hdrs = RateLimitHeaders { retry_after_secs: Some(1), ..RateLimitHeaders::none() };
    ctrl.observe(&hdrs, 429, 20, NOW);
    let snap = ctrl.snapshot();
    assert_eq!(snap.soft_cap, 5);
    assert!(snap.backoff_until.is_some());
    assert_eq!(snap.backoff_until, Some(at(NOW.secs + 1)));
}

#[test]
fn observe_success_increases_soft_cap() {
    let mut ctrl = RateLimitController::with_limits(5, 5000);
    let hdrs = RateLimitHeaders {
        limit: Some(5000),
        remaining: Some(4000),
        ..RateLimitHeaders::none()
    };
    ctrl.observe(&hdrs, 200, 20, NOW);
    let snap = ctrl.snapshot();
    assert_eq!(snap.soft_cap, 6);
}

#[test]
fn observe_success_does_not_exceed_max_cap() {
    let mut ctrl = RateLimitController::with_limits(20, 5000);
    let hdrs = RateLimitHeaders {
        limit: Some(5000),
        remaining: Some(4000),
        ..RateLimitHeaders::none()
    };
    ctrl.observe(&hdrs, 200, 20, NOW);
    let snap = ctrl.snapshot();
    assert_eq!(snap.soft_cap, 20);
}

#[test]
fn reserve_is_capped_so_admission_continues_on_large_quota() {
    let mut ctrl = RateLimitController::with_limits(10, 5000);
    ctrl.observe(
        &RateLimitHeaders {
            limit: Some(5000),
            remaining: Some(461),
            reset_at: Some(in_half_an_hour()),
            resource: Some("core".to_owned()),
            ..RateLimitHeaders::none()
        },
        200,
        20,
        NOW,
    );
    let snap = ctrl.gate_snapshot();
    assert_eq!(snap.reserve, RESERVE_MAX, "reserve capped at RESERVE_MAX");
    assert!(
        snap.remaining.saturating_sub(snap.reserve) > 0,
        "461 calls remain above the capped reserve, so admission proceeds"
    );
    assert_eq!(ctrl.admit_attempt(NOW), AdmitStep::Admit);
}

#[test]
fn a_small_quota_keeps_a_tenth_in_reserve() {
    let ctrl = RateLimitController::with_limits(10, 60);
    assert_eq!(ctrl.gate_snapshot().reserve, 6);
    assert_eq!(RateLimitController::with_limits(10, 0).gate_snapshot().reserve, 0);
}

#[test]
fn snapshot_reflects_state() {
    let ctrl = RateLimitController::new();
    let snap = ctrl.snapshot();
    assert_eq!(snap.in_flight, 0);
    assert!(snap.backoff_until.is_none());
    assert_eq!(snap.soft_cap, 10);
    assert_eq!(snap.remaining, u32::MAX);
}

#[test]
fn observe_ignores_non_core_budget_headers() {
    let mut ctrl = RateLimitController::with_limits(10, 5000);
    ctrl.observe(
        &RateLimitHeaders {
            limit: Some(5000),
            remaining: Some(4000),
            reset_at: Some(at(1_780_728_587)),
            resource: Some("core".to_owned()),
            ..RateLimitHeaders::none()
        },
        200,
        20,
        NOW,
    );
    let before = ctrl.snapshot();

    ctrl.observe(
        &RateLimitHeaders {
            limit: Some(30),
            remaining: Some(3),
            reset_at: Some(at(1_780_725_000)),
            resource: Some("search".to_owned()),
            ..RateLimitHeaders::none()
        },
        200,
        20,
        NOW,
    );
    let after = ctrl.snapshot();

    assert_eq!(after.remaining, before.remaining, "core remaining preserved");
    assert_eq!(after.reset_at, before.reset_at, "core reset window preserved");
}

#[test]
fn the_core_pool_is_named_in_any_case() {
    let mut ctrl = RateLimitController::with_limits(10, 5000);
    let hdrs = RateLimitHeaders {
        remaining: Some(77),
        resource: Some("CoRe".to_owned()),
        ..RateLimitHeaders::none()
    };
    ctrl.observe(&hdrs, 200, 20, NOW);
    assert_eq!(ctrl.snapshot().remaining, 77);
}

fn seed_inline_exhausted(remaining: u32) -> RateLimitHeaders {
    RateLimitHeaders {
        limit: Some(5000),
        remaining: Some(remaining),
        reset_at: Some(in_half_an_hour()),
        resource: Some("core".to_owned()),
        ..RateLimitHeaders::none()
    }
}

const PLENTY: AuthoritativeQuota = AuthoritativeQuota {
    remaining: 2000,
    limit: 5000,
    reset_at: Some(Moment { secs: NOW.secs + 1800, nanos: 0 }),
};

/// Runs admission to its end without sleeping; the number of fetches it took.
fn run_admission(ctrl: &mut RateLimitController, clock: u64, quota: Option<AuthoritativeQuota>) -> u32 {
    let mut fetches = 0;
    loop {
        match ctrl.admit_attempt(NOW) {
            AdmitStep::Admit => return fetches,
            AdmitStep::Reconcile(gate) => {
                let known = match ctrl.probe_step(clock, true, true) {
                    ProbeStep::Use(known) => known,
                    ProbeStep::Fetch => {
                        fetches += 1;
                        ctrl.authoritative_quota(quota, clock)
                    }
                };
                assert_eq!(ctrl.await_quota(&gate, known, NOW), Ok(None));
            }
            other => panic!("{other:?}"),
        }
    }
}

#[test]
fn reconcile_proceeds_when_authoritative_reports_quota() {
    let mut ctrl = RateLimitController::with_limits(10, 5000);
    ctrl.observe(&seed_inline_exhausted(10), 200, 20, NOW);
    let fetches = run_admission(&mut ctrl, 0, Some(PLENTY));
    ctrl.release();

    assert_eq!(ctrl.snapshot().remaining, 2000);
    assert_eq!(fetches, 1);
}

#[test]
fn reconcile_uses_cached_authoritative_within_cooldown() {
    let mut ctrl = RateLimitController::with_limits(10, 5000);

    ctrl.observe(&seed_inline_exhausted(10), 200, 20, NOW);
    let first = run_admission(&mut ctrl, 1_000, Some(PLENTY));
    ctrl.release();

    ctrl.observe(&seed_inline_exhausted(8), 200, 20, NOW);
    let second = run_admission(&mut ctrl, 5_000_000_999, Some(PLENTY));
    ctrl.release();
    assert_eq!(first + second, 1);

    ctrl.observe(&seed_inline_exhausted(8), 200, 20, NOW);
    assert_eq!(run_admission(&mut ctrl, 5_000_001_000, Some(PLENTY)), 1);
}

#[test]
fn without_a_probe_inline_figures_decide() {
    let mut ctrl = RateLimitController::with_limits(10, 5000);
    assert_eq!(ctrl.probe_step(0, false, true), ProbeStep::Use(None));
    ctrl.authoritative_quota(Some(PLENTY), 0);
    assert_eq!(ctrl.probe_step(1, false, false), ProbeStep::Use(Some(PLENTY)));
    assert_eq!(ctrl.probe_step(6_000_000_000, false, true), ProbeStep::Use(None));
    assert_eq!(ctrl.probe_step(6_000_000_000, true, false), ProbeStep::Use(Some(PLENTY)));
    assert_eq!(ctrl.probe_step(6_000_000_000, true, true), ProbeStep::Fetch);
    assert_eq!(ctrl.authoritative_quota(None, 9_000_000_000), Some(PLENTY));
}

#[test]
fn a_spent_quota_pauses_until_its_reset_and_refills() {
    let mut ctrl = RateLimitController::with_limits(10, 5000);
    ctrl.observe(&seed_inline_exhausted(50), 200, 20, NOW);
    let gate = match ctrl.admit_attempt(NOW) {
        AdmitStep::Reconcile(gate) => gate,
        other => panic!("{other:?}"),
    };
    assert_eq!(ctrl.await_quota(&gate, None, NOW), Ok(Some(Span { secs: 1800, nanos: 0 })));
    ctrl.refill_after_reset();
    assert_eq!(ctrl.snapshot().remaining, 5000);
    assert_eq!(ctrl.admit_attempt(NOW), AdmitStep::Admit);
}

#[test]
fn a_spent_quota_without_a_reset_ahead_is_refused() {
    let mut ctrl = RateLimitController::with_limits(10, 5000);
    ctrl.remaining = 0;
    let gate = ctrl.gate_snapshot();
    assert_eq!(ctrl.await_quota(&gate, None, NOW), Err(RateLimitError::BudgetExhausted));
    let spent = AuthoritativeQuota { remaining: 50, limit: 5000, reset_at: Some(NOW) };
    assert_eq!(ctrl.await_quota(&gate, Some(spent), NOW), Err(RateLimitError::BudgetExhausted));
    let ahead = AuthoritativeQuota { reset_at: Some(at(NOW.secs + 3)), ..spent };
    assert_eq!(ctrl.await_quota(&gate, Some(ahead), NOW), Ok(Some(Span { secs: 3, nanos: 0 })));
    assert_eq!(
        RateLimitError::BudgetExhausted.message(),
        "rate-limit budget exhausted; no reset window to wait for"
    );
}

#[test]
fn observe_honours_secondary_limit_regardless_of_resource() {
    let mut ctrl = RateLimitController::with_limits(10, 5000);
    ctrl.observe(
        &RateLimitHeaders {
            resource: Some("search".to_owned()),
            retry_after_secs: Some(1),
            ..RateLimitHeaders::none()
        },
        429,
        20,
        NOW,
    );
    let snap = ctrl.snapshot();
    assert_eq!(snap.soft_cap, 5);
    assert!(snap.backoff_until.is_some());
}

#[test]
fn the_cap_never_falls_below_one() {
    let mut ctrl = RateLimitController::with_limits(0, 5000);
    assert_eq!(ctrl.snapshot().soft_cap, 1);
    ctrl.observe(&RateLimitHeaders::none(), 429, 20, NOW);
    assert_eq!(ctrl.snapshot().soft_cap, 1);
    assert_eq!(ctrl.snapshot().backoff_until, None);
}

#[test]
fn a_backoff_parks_callers_until_it_is_over() {
    let mut ctrl = RateLimitController::new();
    let hdrs = RateLimitHeaders { retry_after_secs: Some(30), ..RateLimitHeaders::none() };
    ctrl.observe(&hdrs, 403, 20, NOW);
    assert_eq!(ctrl.admit_attempt(NOW), AdmitStep::Backoff(Span { secs: 30, nanos: 0 }));
    assert_eq!(ctrl.admit_attempt(at(NOW.secs + 30)), AdmitStep::Admit);
    ctrl.observe(&RateLimitHeaders::none(), 200, 20, NOW);
    assert_eq!(ctrl.snapshot().backoff_until, None);
    assert_eq!(honour_backoff(None, NOW), None);
}

#[test]
fn a_full_cap_waits_for_a_slot() {
    let mut ctrl = RateLimitController::with_limits(1, 5000);
    assert_eq!(ctrl.admit_attempt(NOW), AdmitStep::Admit);
    assert_eq!(ctrl.admit_attempt(NOW), AdmitStep::AwaitSlot);
    ctrl.release();
    assert_eq!(ctrl.admit_attempt(NOW), AdmitStep::Admit);
}

#[test]
fn the_default_controller_is_a_new_one() {
    let ctrl = RateLimitController::default();
    assert_eq!(ctrl.limit, 5000);
    assert_eq!(ctrl.snapshot(), RateLimitController::new().snapshot());
}

#[test]
fn releasing_what_was_not_admitted_wraps() {
    let mut ctrl = RateLimitController::new();
    ctrl.release();
    assert_eq!(ctrl.in_flight, u32::MAX);
}

// --- registry --------------------------------------------------------------

fn fp(b: u8) -> TokenFingerprint {
    TokenFingerprint::of(&format!("token-{b}"))
}

#[test]
fn get_or_insert_returns_same_arc() {
    let mut reg = ControllerRegistry::new();
    let a = reg.get_or_insert(fp(1));
    let b = reg.get_or_insert(fp(1));
    assert_eq!(a, b, "same fingerprint must return same slot");
    assert_eq!(reg.len(), 1);
}

#[test]
fn different_fingerprints_get_different_controllers() {
    let mut reg = ControllerRegistry::new();
    let a = reg.get_or_insert(fp(1));
    let b = reg.get_or_insert(fp(2));
    assert_ne!(a, b);
    reg.controller_mut(a).release();
    assert_eq!(reg.controller(a).in_flight, u32::MAX);
    assert_eq!(reg.controller(b).in_flight, 0);
}

#[test]
fn len_and_is_empty() {
    let mut reg = ControllerRegistry::new();
    assert!(reg.is_empty());
    let _controller = reg.get_or_insert(fp(3));
    assert_eq!(reg.len(), 1);
    assert!(!reg.is_empty());
}

#[test]
fn get_returns_none_for_unknown_fingerprint() {
    let mut reg = ControllerRegistry::new();
    assert!(reg.get(&fp(99)).is_none());
    let slot = reg.get_or_insert(fp(99));
    assert_eq!(reg.get(&fp(99)), Some(slot));
}

#[test]
fn fingerprint_hides_the_token() {
    let fp = TokenFingerprint::of("ghp_secret");
    assert!(!fp.digits().contains("ghp_secret"));
    assert_eq!(fp.digits().len(), 64);
    assert!(fp.same_as(&TokenFingerprint::of("ghp_secret")));
    assert!(!fp.same_as(&TokenFingerprint::of("ghp_other")));
}

#[test]
fn a_fingerprint_is_the_hexadecimal_sha256() {
    assert_eq!(
        TokenFingerprint::of("abc").digits(),
        "ba7816bf8f01cfea414140de5dae2223b00361a396177a9cb410ff61f20015ad"
    );
    assert_eq!(
        TokenFingerprint::of("").digits(),
        "e3b0c44298fc1c149afbf4c8996fb92427ae41e4649b934ca495991b7852b855"
    );
}

#[test]
fn only_a_success_raises_the_cap() {
    let healthy = RateLimitHeaders {
        limit: Some(5000),
        remaining: Some(4000),
        ..RateLimitHeaders::none()
    };
    for status in [199, 300, 304, 404, 500, 503] {
        let mut ctrl = RateLimitController::with_limits(5, 5000);
        ctrl.observe(&healthy, status, 20, NOW);
        assert_eq!(ctrl.snapshot().soft_cap, 5);
        assert_eq!(ctrl.snapshot().remaining, 4000);
    }
    for status in [200, 204, 299] {
        let mut ctrl = RateLimitController::with_limits(5, 5000);
        ctrl.observe(&healthy, status, 20, NOW);
        assert_eq!(ctrl.snapshot().soft_cap, 6);
    }
    let mut ctrl = RateLimitController::with_limits(5, 5000);
    let spent = RateLimitHeaders { remaining: Some(500), ..healthy };
    ctrl.observe(&spent, 200, 20, NOW);
    assert_eq!(ctrl.snapshot().soft_cap, 5);
}
