use github_mirror::error::DomainError;
use github_mirror::scheduler::queue::TaskQueue;
use github_mirror::scheduler::report::{RunReport, TaskFailure, TaskOutcome};
use github_mirror::scheduler::runner::{
    ramp, retry_delay, DrainStep, RepoPhaseRunner, Stage, DISCOVERY_SPAN, LISTING_BASE,
    LISTING_SPAN, REFINE_BASE, REFINE_SPAN, TRANSIENT_RETRIES, TRANSIENT_RETRY_DELAY_MILLIS,
    VERIFY_BASE,
};
use github_mirror::scheduler::task::{
    Entity, ExtractionTask, Family, NewTask, RunIdentity, TaskKind, TaskPhase, TaskPriority,
};

const RUN: RunIdentity = RunIdentity { session_id: 5, tenant_id: 6 };

fn runner() -> RepoPhaseRunner {
    RepoPhaseRunner::new(RUN, 1)
}

fn new_task(kind: TaskKind, entity_id: &str, priority: TaskPriority) -> NewTask {
    NewTask { run: RUN, kind, entity_id: Some(entity_id.to_owned()), priority, attempt: 0 }
}

fn seed(runner: &mut RepoPhaseRunner, kind: TaskKind, entity_id: &str) {
    runner.queue.enqueue_task(new_task(kind, entity_id, TaskPriority::Normal));
}

fn finish_one(runner: &mut RepoPhaseRunner, phase: TaskPhase) {
    let task = runner
        .queue
        .claim_next_task_in(RUN.session_id, &[phase])
        .expect("a task of that phase must be pending");
    runner.queue.complete_task(task.id);
}

#[test]
fn ramp_credits_the_finished_share_and_nothing_for_an_empty_phase() {
    assert_eq!(ramp(REFINE_SPAN, 0, 0), 0);
    assert_eq!(ramp(REFINE_SPAN, 4, 4), 0);
    assert_eq!(ramp(REFINE_SPAN, 4, 1), 600);
    assert_eq!(ramp(REFINE_SPAN, 4, 0), REFINE_SPAN);
    assert_eq!(ramp(u64::MAX, u64::MAX, 1), u64::MAX - 1);
    assert_eq!(ramp(10, 3, 5), 0);
}

#[test]
fn the_estimate_walks_the_bands_in_order_and_never_goes_back() {
    let mut runner = runner();
    let mut seen = vec![runner.estimate_permille()];
    let mut expect = |runner: &RepoPhaseRunner, value: u64| {
        seen.push(runner.estimate_permille());
        assert_eq!(*seen.last().unwrap(), value, "after step {}", seen.len());
    };

    seed(&mut runner, TaskKind::Discover, "acme/widget");
    expect(&runner, 0);
    finish_one(&mut runner, TaskPhase::Discovery);
    expect(&runner, DISCOVERY_SPAN);

    seed(&mut runner, TaskKind::Index(Family::Issues), "issues");
    seed(&mut runner, TaskKind::Index(Family::PullRequests), "pulls");
    expect(&runner, LISTING_BASE);
    finish_one(&mut runner, TaskPhase::Indexing);
    for number in 1..=4 {
        seed(&mut runner, TaskKind::Refine(Entity::Issue), &number.to_string());
    }
    expect(&runner, LISTING_BASE + LISTING_SPAN.div_euclid(2));
    finish_one(&mut runner, TaskPhase::Indexing);
    expect(&runner, REFINE_BASE);

    finish_one(&mut runner, TaskPhase::Refinement);
    expect(&runner, REFINE_BASE + REFINE_SPAN.div_euclid(4));
    for _ in 0..3 {
        finish_one(&mut runner, TaskPhase::Refinement);
    }
    expect(&runner, VERIFY_BASE);

    seed(&mut runner, TaskKind::Verify(Entity::Issue), "1");
    expect(&runner, VERIFY_BASE);
    finish_one(&mut runner, TaskPhase::Verification);
    expect(&runner, 1000);

    assert!(
        seen.windows(2).all(|pair| pair[0] <= pair[1]),
        "the estimate must never go back: {seen:?}"
    );
}

fn locked() -> DomainError {
    DomainError::Database("database is locked (code: 5)".to_owned())
}

/// Runs one Discovery task the way the host does: a transient error is tried
/// again after its delay. The attempts made and the milliseconds waited.
fn run_flaky(
    runner: &mut RepoPhaseRunner,
    transient_failures: u32,
    then_permanent: bool,
    cancel_on_first_call: bool,
) -> (Vec<u32>, u64) {
    let mut attempts = Vec::new();
    let mut waited = 0;
    let mut cancelled = false;
    runner.seed_discovery();
    loop {
        match runner.drain(cancelled) {
            DrainStep::Spawn(task) => {
                let mut attempt = task.attempt;
                let error = loop {
                    attempts.push(attempt);
                    cancelled = cancelled || cancel_on_first_call;
                    let error = if attempt < transient_failures {
                        locked()
                    } else if then_permanent {
                        DomainError::internal("GitHub answered 500")
                    } else {
                        break None;
                    };
                    match retry_delay(&error, attempt, cancelled) {
                        Some(millis) => {
                            waited += millis;
                            attempt += 1;
                        }
                        None => break Some(error),
                    }
                };
                runner.finish_task(task, error);
            }
            DrainStep::Join => panic!("nothing runs"),
            DrainStep::NextStage => {}
            DrainStep::Finished => return (attempts, waited),
        }
    }
}

#[test]
fn a_transient_error_is_retried_with_a_growing_delay_until_it_succeeds() {
    let mut runner = runner();
    let (attempts, waited) = run_flaky(&mut runner, 2, false, false);
    assert_eq!(attempts, [0, 1, 2]);
    assert_eq!(runner.report.tasks_done, 1);
    assert!(runner.report.failures.is_empty(), "{:?}", runner.report.failures);
    assert_eq!(
        waited,
        TRANSIENT_RETRY_DELAY_MILLIS + TRANSIENT_RETRY_DELAY_MILLIS * 2,
        "the wait grows with the attempt number"
    );
}

#[test]
fn retries_stop_at_the_bound_and_the_task_fails() {
    let mut runner = runner();
    let (attempts, waited) = run_flaky(&mut runner, u32::MAX, false, false);
    let expected_attempts: Vec<u32> = (0..=TRANSIENT_RETRIES).collect();
    assert_eq!(attempts, expected_attempts);
    assert_eq!(runner.report.tasks_done, 0);
    assert_eq!(runner.report.failures.len(), 1);
    assert_eq!(runner.report.failures[0].kind, Some(TaskKind::Discover));
    assert!(runner.report.failures[0].error.is_transient());
    let expected: u64 =
        (1..=TRANSIENT_RETRIES).map(|attempt| TRANSIENT_RETRY_DELAY_MILLIS * u64::from(attempt)).sum();
    assert_eq!(waited, expected);
}

#[test]
fn a_permanent_error_is_not_retried() {
    let mut runner = runner();
    let (attempts, _) = run_flaky(&mut runner, 0, true, false);
    assert_eq!(attempts, [0]);
    assert_eq!(runner.report.failures.len(), 1);
    assert!(!runner.report.failures[0].error.is_transient());
}

#[test]
fn a_cancelled_run_does_not_retry_a_transient_error() {
    let mut runner = runner();
    let (attempts, _) = run_flaky(&mut runner, u32::MAX, false, true);
    assert_eq!(attempts, [0], "no retry once the run is cancelled");
    assert_eq!(runner.report.failures.len(), 1);
    assert!(runner.report.cancelled);
}

#[test]
fn the_queue_claims_the_most_urgent_and_then_the_oldest() {
    let mut queue = TaskQueue::new();
    let refine = TaskKind::Refine(Entity::Issue);
    queue.enqueue_task(new_task(refine, "closed", TaskPriority::ClosedIssue));
    queue.enqueue_task(new_task(refine, "first", TaskPriority::OpenIssue));
    queue.enqueue_task(new_task(refine, "second", TaskPriority::OpenIssue));
    queue.enqueue_task(new_task(TaskKind::Index(Family::Metadata), "meta", TaskPriority::OpenPr));
    assert_eq!(queue.pending_count(RUN.session_id), 4);
    assert_eq!(queue.pending_count(77), 0);
    let mut claimed = Vec::new();
    while let Some(task) = queue.claim_next_task_in(RUN.session_id, &[TaskPhase::Refinement]) {
        claimed.push(task.entity_id.unwrap());
    }
    assert_eq!(claimed, ["first", "second", "closed"]);
    assert_eq!(queue.pending_count(RUN.session_id), 1);
    assert!(queue.claim_next_task_in(77, &[TaskPhase::Indexing]).is_none());
    let count = queue.phase_count(TaskPhase::Refinement);
    assert_eq!((count.total, count.unfinished), (3, 3));
    queue.complete_task(1);
    queue.fail_task(2);
    assert_eq!(queue.phase_count(TaskPhase::Refinement).unfinished, 1);
}

fn spawned(runner: &mut RepoPhaseRunner) -> ExtractionTask {
    match runner.drain(false) {
        DrainStep::Spawn(task) => task,
        other => panic!("{other:?}"),
    }
}

#[test]
fn stages_drain_in_order_and_indexing_seeds_while_it_runs() {
    let mut runner = RepoPhaseRunner::new(RUN, 2);
    runner.seed_discovery();
    let discovery = spawned(&mut runner);
    assert_eq!(discovery.kind, TaskKind::Discover);
    assert!(matches!(runner.drain(false), DrainStep::Join), "discovery runs alone");
    seed(&mut runner, TaskKind::Index(Family::Issues), "issues");
    runner.finish_task(discovery, None);
    assert!(matches!(runner.drain(false), DrainStep::NextStage));
    assert_eq!(runner.stage, Stage::Streamed);

    let index = spawned(&mut runner);
    assert!(matches!(runner.drain(false), DrainStep::Join), "it may still seed more");
    seed(&mut runner, TaskKind::Refine(Entity::Issue), "1");
    let refine = spawned(&mut runner);
    assert_eq!(refine.kind, TaskKind::Refine(Entity::Issue));
    seed(&mut runner, TaskKind::Refine(Entity::Issue), "2");
    assert!(matches!(runner.drain(false), DrainStep::Join), "two run at most");
    runner.finish_task(index, None);
    runner.lose_task("panicked".to_owned());
    let last = spawned(&mut runner);
    runner.finish_task(last, Some(DomainError::NotFound));
    assert!(matches!(runner.drain(false), DrainStep::NextStage));
    assert_eq!(runner.stage, Stage::Verification);
    assert!(matches!(runner.drain(false), DrainStep::NextStage));
    assert!(matches!(runner.drain(false), DrainStep::Finished));
    assert_eq!(runner.report.tasks_done, 2);
    assert_eq!(runner.report.tasks_failed(), 2);
    assert_eq!(
        runner.report.failures[0].message(),
        "refinement task: sync task did not finish cleanly: panicked"
    );
    assert_eq!(runner.report.failures[1].message(), "refinement issue 2: not found");
}

#[test]
fn a_failed_discovery_ends_the_run() {
    let mut runner = runner();
    runner.seed_discovery();
    let task = spawned(&mut runner);
    runner.finish_task(task, Some(DomainError::internal("boom")));
    assert!(matches!(runner.drain(false), DrainStep::NextStage));
    assert_eq!(runner.stage, Stage::Over);
    assert_eq!(runner.report.failures[0].message(), "discovery repository: boom");
}

#[test]
fn a_cancelled_run_waits_for_what_runs() {
    let mut runner = runner();
    runner.seed_discovery();
    let task = spawned(&mut runner);
    assert!(matches!(runner.drain(true), DrainStep::Join));
    runner.finish_task(task, None);
    assert!(matches!(runner.drain(true), DrainStep::NextStage));
    assert_eq!(runner.stage, Stage::Over);
    assert!(runner.report.cancelled);
}

#[test]
fn many_waiting_tasks_hold_claims_back_while_one_runs() {
    let mut runner = RepoPhaseRunner::new(RUN, 8);
    runner.stage = Stage::Streamed;
    for number in 0..10_001 {
        seed(&mut runner, TaskKind::Refine(Entity::Issue), &number.to_string());
    }
    let first = spawned(&mut runner);
    assert!(matches!(runner.drain(false), DrainStep::Join));
    let second = runner.queue.claim_next_task_in(RUN.session_id, &[TaskPhase::Refinement]);
    assert!(second.is_some());
    assert!(matches!(runner.drain(false), DrainStep::Spawn(_)));
    assert_eq!(first.id, 0);
}

#[test]
fn no_concurrency_is_read_as_one_task_at_a_time() {
    assert_eq!(RepoPhaseRunner::new(RUN, 0).max_concurrent_tasks, 1);
}

#[test]
fn a_report_counts_outcomes() {
    let mut report = RunReport::new();
    report.account(TaskOutcome::Done);
    report.account(TaskOutcome::Done);
    assert_eq!((report.tasks_done, report.tasks_failed()), (2, 0));
    let failure = TaskFailure {
        kind: Some(TaskKind::Index(Family::Issues)),
        entity_id: None,
        error: DomainError::Validation { field: "a".to_owned(), message: "b".to_owned() },
    };
    assert_eq!(failure.message(), "indexing issues: a: b");
    assert_eq!(failure.phase(), TaskPhase::Indexing);
    assert_eq!(failure.entity_type(), "issues");
}

#[test]
fn open_tiers_are_the_open_priorities() {
    assert!(TaskPriority::OpenPr.is_open_tier());
    assert!(TaskPriority::OpenIssue.is_open_tier());
    assert!(!TaskPriority::Normal.is_open_tier());
    assert!(!TaskPriority::ClosedIssue.is_open_tier());
    assert!(!TaskPriority::Global.is_open_tier());
}
