use github_mirror::config::default_scope;
use github_mirror::context::SecurityContext;
use github_mirror::sync::pool::{Listening, PoolEvent, PoolStep, SyncPoolRunner, SYNC_BACKLOG_LIMIT};
use github_mirror::sync::queue::SyncQueue;
use github_mirror::sync::SyncJob;

fn job(tenant: u128, session_id: u128) -> SyncJob {
    SyncJob {
        session_id,
        ctx: SecurityContext { subject_id: 1, subject_tenant_id: tenant },
        owner: "acme".to_owned(),
        name: "widget".to_owned(),
        scope: default_scope(),
        force: false,
    }
}

fn ids(jobs: &[SyncJob]) -> Vec<u128> {
    jobs.iter().map(|job| job.session_id).collect()
}

fn drain(queue: &mut SyncQueue) -> Vec<u128> {
    let mut out = Vec::new();
    while let Some(job) = queue.claim_next() {
        out.push(job.session_id);
    }
    out
}

#[test]
fn one_tenant_is_served_first_in_first_out() {
    let mut queue = SyncQueue::new();
    for id in 1..=4 {
        queue.enqueue(job(9, id));
    }
    assert_eq!(queue.len(), 4);
    assert_eq!(drain(&mut queue), [1, 2, 3, 4]);
    assert_eq!(queue.len(), 0);
    assert!(queue.claim_next().is_none());
}

#[test]
fn tenants_take_turns_whatever_they_queued() {
    let mut queue = SyncQueue::new();
    for id in 1..=4 {
        queue.enqueue(job(1, id));
    }
    queue.enqueue(job(2, 20));
    queue.enqueue(job(3, 30));
    queue.enqueue(job(2, 21));
    assert_eq!(queue.len(), 7);
    assert_eq!(drain(&mut queue), [1, 20, 30, 2, 21, 3, 4]);
}

#[test]
fn a_tenant_that_joins_late_is_served_after_one_turn_of_the_others() {
    let mut queue = SyncQueue::new();
    for id in 1..=50 {
        queue.enqueue(job(1, id));
    }
    assert_eq!(queue.claim_next().map(|job| job.session_id), Some(1));
    queue.enqueue(job(2, 200));
    assert_eq!(queue.claim_next().map(|job| job.session_id), Some(2));
    assert_eq!(queue.claim_next().map(|job| job.session_id), Some(200));
    assert_eq!(queue.len(), 48);
}

fn start(step: PoolStep) -> (Vec<u128>, Listening) {
    match step {
        PoolStep::Run { start, listening } => (ids(&start), listening),
        PoolStep::Stop => panic!("the pool stopped"),
    }
}

#[test]
fn the_pool_runs_up_to_its_maximum() {
    let mut pool = SyncPoolRunner::new(2);
    let (started, listening) = start(pool.run());
    assert!(started.is_empty());
    assert_eq!(listening, Listening { cancellation: true, jobs: true, finished: false });
    for id in 1..=3 {
        pool.handle_event(PoolEvent::Queued(job(1, id)));
    }
    let (started, listening) = start(pool.run());
    assert_eq!(started, [1, 2]);
    assert!(listening.finished);
    pool.handle_event(PoolEvent::Finished);
    assert_eq!(start(pool.run()).0, [3]);
    pool.handle_event(PoolEvent::Finished);
    assert!(start(pool.run()).0.is_empty());
}

#[test]
fn a_full_backlog_stops_reading_jobs() {
    let mut pool = SyncPoolRunner::new(0);
    for id in 0..SYNC_BACKLOG_LIMIT {
        assert!(pool.next_event().jobs);
        pool.handle_event(PoolEvent::Queued(job(1, id as u128)));
    }
    assert!(!pool.next_event().jobs);
    assert!(start(pool.run()).0.is_empty());
}

#[test]
fn a_stopping_pool_lets_running_syncs_finish_and_starts_no_more() {
    let mut pool = SyncPoolRunner::new(1);
    pool.handle_event(PoolEvent::Queued(job(1, 1)));
    pool.handle_event(PoolEvent::Queued(job(1, 2)));
    assert_eq!(start(pool.run()).0, [1]);
    pool.handle_event(PoolEvent::Cancelled);
    let (started, listening) = start(pool.run());
    assert!(started.is_empty());
    assert_eq!(listening, Listening { cancellation: false, jobs: false, finished: true });
    pool.handle_event(PoolEvent::Finished);
    assert!(matches!(pool.run(), PoolStep::Stop));
}

#[test]
fn a_closed_queue_ends_the_pool() {
    let mut pool = SyncPoolRunner::new(1);
    pool.handle_event(PoolEvent::QueueClosed);
    assert!(matches!(pool.run(), PoolStep::Stop));
}
