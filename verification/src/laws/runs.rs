//! Who gets a worker, and what one sync asks for, writes and reports.

use crate::service::access::{Action, Resource};
use crate::service::store;
use crate::service::syncing;
use crate::service::syncing::{SyncAction, SyncEvent, SyncRepository, SyncStage};
use crate::sync::pool;
use crate::sync::pool::{PoolEvent, PoolView};
use crate::sync::queue;
use crate::sync::queue::Line;
use crate::sync::SyncJob;
use vstd::prelude::*;

verus! {

// ---------------------------------------------------------------------------
// The line
// ---------------------------------------------------------------------------

/// A tenant that stands in line keeps its place when another of its jobs joins,
/// and the job goes behind its others.
pub proof fn job_joins_behind_the_tenants_own(line: Line, job: SyncJob, place: int)
    requires
        queue::in_order(line),
        0 <= place < line.len(),
        line[place].0 == job.ctx.subject_tenant_id,
    ensures
        queue::joined_by(line, job).len() == line.len(),
        queue::joined_by(line, job)[place].0 == job.ctx.subject_tenant_id,
        queue::joined_by(line, job)[place].1 == line[place].1.push(job),
        forall|i: int|
            0 <= i < line.len() && i != place ==> queue::joined_by(line, job)[i]
                == #[trigger] line[i],
{
    let tenant = job.ctx.subject_tenant_id;
    assert(queue::stands_at(line, tenant, place));
    let chosen = choose|at: int| queue::stands_at(line, tenant, at);
    assert(queue::stands_at(line, tenant, chosen));
    assert(chosen == place);
}

/// A tenant that does not stand in line joins at its end, with the one job.
pub proof fn new_tenant_joins_at_the_end(line: Line, job: SyncJob)
    requires
        forall|i: int|
            0 <= i < line.len() ==> (#[trigger] line[i]).0 != job.ctx.subject_tenant_id,
    ensures
        queue::joined_by(line, job) == line.push((job.ctx.subject_tenant_id, seq![job])),
{
    let tenant = job.ctx.subject_tenant_id;
    assert forall|at: int| !queue::stands_at(line, tenant, at) by {
        if queue::stands_at(line, tenant, at) {
            assert(line[at].0 == tenant);
        }
    }
}

/// After its turn a tenant goes to the end of the line with the jobs it has
/// left, or leaves when it has none.
pub proof fn tenant_goes_to_the_end_after_its_turn(line: Line, tenant: u128, jobs: Seq<SyncJob>)
    requires
        line.len() > 0,
        line[0] == (tenant, jobs),
    ensures
        jobs.len() == 1 ==> queue::after_turn(line) == line.skip(1),
        jobs.len() > 1 ==> queue::after_turn(line).len() == line.len(),
        jobs.len() > 1 ==> queue::after_turn(line)[line.len() - 1] == (tenant, jobs.skip(1)),
        jobs.len() > 1 ==> forall|i: int|
            1 <= i < line.len() ==> queue::after_turn(line)[i - 1] == #[trigger] line[i],
{
}

/// Turns are taken one after the other, each by the tenant in front, which gives
/// its oldest job.
pub proof fn turns_are_taken_one_by_one(line: Line, turns: nat)
    ensures
        queue::after_turns(line, 0) == line,
        queue::taken_by_turns(line, 0).len() == 0,
        line.len() == 0 ==> queue::after_turns(line, turns) == line && queue::taken_by_turns(
            line,
            turns,
        ).len() == 0,
        line.len() > 0 ==> queue::after_turns(line, turns + 1) == queue::after_turns(
            queue::after_turn(line),
            turns,
        ),
        line.len() > 0 ==> queue::taken_by_turns(line, turns + 1)[0] == line[0].1[0],
        line.len() > 0 ==> queue::taken_by_turns(line, turns + 1).skip(1)
            == queue::taken_by_turns(queue::after_turn(line), turns),
{
    if line.len() > 0 {
        let rest = queue::taken_by_turns(queue::after_turn(line), turns);
        let whole = queue::taken_by_turns(line, turns + 1);
        assert(whole == seq![line[0].1[0]] + rest);
        assert(whole.skip(1) =~= rest);
    }
}

/// The jobs that wait are those of every tenant in line.
pub proof fn jobs_wait_tenant_by_tenant(line: Line, tenant: u128, jobs: Seq<SyncJob>)
    ensures
        queue::waiting(Seq::empty()) == 0,
        queue::waiting(line.push((tenant, jobs))) == queue::waiting(line) + jobs.len(),
{
    assert(line.push((tenant, jobs)).drop_last() =~= line);
}

/// A line in order has every tenant once, with jobs of its own alone.
pub proof fn line_in_order_has_each_tenant_once(line: Line, i: int, j: int, k: int)
    requires
        queue::in_order(line),
        0 <= i < line.len(),
        0 <= j < line.len(),
    ensures
        line[i].0 == line[j].0 ==> i == j,
        line[i].1.len() > 0,
        0 <= k < line[i].1.len() ==> line[i].1[k].ctx.subject_tenant_id == line[i].0,
{
    if i < j {
        assert(line[i].0 != line[j].0);
    }
    if j < i {
        assert(line[j].0 != line[i].0);
    }
}

// ---------------------------------------------------------------------------
// The pool
// ---------------------------------------------------------------------------

/// A pool starts what waits while it has workers free, and nothing once it takes
/// no more work.
pub proof fn pool_starts_what_its_workers_can_take(pool: PoolView)
    ensures
        pool.draining ==> pool::started_by(pool) == 0,
        pool.in_flight >= pool.max_concurrent ==> pool::started_by(pool) == 0,
        !pool.draining && pool.in_flight < pool.max_concurrent && queue::waiting(pool.line)
            <= pool.max_concurrent - pool.in_flight ==> pool::started_by(pool) == queue::waiting(
            pool.line,
        ),
        !pool.draining && pool.in_flight < pool.max_concurrent && queue::waiting(pool.line)
            > pool.max_concurrent - pool.in_flight ==> pool::started_by(pool)
            == pool.max_concurrent - pool.in_flight,
        pool.draining || pool.in_flight >= pool.max_concurrent ==> pool::free_workers(pool) == 0,
        !pool.draining && pool.in_flight < pool.max_concurrent ==> pool::free_workers(pool)
            == pool.max_concurrent - pool.in_flight,
{
}

/// A filled pool runs what it started beside what ran, and has it off its line.
pub proof fn filled_pool_runs_what_it_started(pool: PoolView)
    ensures
        ({
            let filled = pool::after_filling(pool);
            &&& filled.in_flight == pool.in_flight + pool::started_by(pool)
            &&& filled.line == queue::after_turns(pool.line, pool::started_by(pool))
            &&& filled.max_concurrent == pool.max_concurrent
            &&& filled.draining == pool.draining
        }),
{
}

/// A pool listens for its cancellation until it drains, for jobs while fewer
/// than 64 wait, and for the end of a sync while one runs.
pub proof fn pool_listens_while_it_has_room(pool: PoolView)
    ensures
        pool::listening_of(pool).cancellation <==> !pool.draining,
        pool::listening_of(pool).jobs <==> !pool.draining && queue::waiting(pool.line) < 64,
        pool::listening_of(pool).finished <==> pool.in_flight >= 1,
{
}

/// A queued job joins the line, a finished sync frees its worker, and a
/// cancellation or the end of the queue drains the pool. Each changes nothing
/// else.
pub proof fn pool_takes_each_event_for_what_it_is(pool: PoolView, job: SyncJob)
    ensures
        pool::after_event(pool, PoolEvent::Queued(job)) == (PoolView {
            line: queue::joined_by(pool.line, job),
            in_flight: pool.in_flight,
            max_concurrent: pool.max_concurrent,
            draining: pool.draining,
        }),
        pool::after_event(pool, PoolEvent::Cancelled) == (PoolView {
            line: pool.line,
            in_flight: pool.in_flight,
            max_concurrent: pool.max_concurrent,
            draining: true,
        }),
        pool::after_event(pool, PoolEvent::QueueClosed) == pool::after_event(
            pool,
            PoolEvent::Cancelled,
        ),
        pool.in_flight > 0 ==> pool::after_event(pool, PoolEvent::Finished) == (PoolView {
            line: pool.line,
            in_flight: (pool.in_flight - 1) as nat,
            max_concurrent: pool.max_concurrent,
            draining: pool.draining,
        }),
        pool.in_flight == 0 ==> pool::after_event(pool, PoolEvent::Finished) == pool,
{
}

// ---------------------------------------------------------------------------
// One sync
// ---------------------------------------------------------------------------

/// A sync asks for leave to sync in the caller's tenant, then fetches the
/// repository that was named with the options that were given, then writes the
/// repository as fetched.
pub proof fn sync_asks_fetches_and_writes(
    sync: SyncRepository,
    event: SyncEvent,
    out: SyncAction,
    next: SyncRepository,
)
    requires
        sync.asks(event, out, next),
    ensures
        next.ctx == sync.ctx,
        next.owner == sync.owner,
        next.name == sync.name,
        next.options == sync.options,
        event is Refused ==> out == SyncAction::Return(Err(event->Refused_0)) && next.stage
            == SyncStage::Over,
        sync.stage == SyncStage::New && !(event is Refused) ==> {
            &&& next.stage == SyncStage::Authorising
            &&& out is Authorise
            &&& out->Authorise_0.resource == Resource::Sync
            &&& out->Authorise_0.action == Action::Sync
            &&& out->Authorise_0.owner_tenant_id == sync.ctx.subject_tenant_id
        },
        sync.stage == SyncStage::Authorising && !(event is Refused) ==> {
            &&& next.stage == SyncStage::Fetching
            &&& out is Fetch
            &&& out->Fetch_0 == sync.owner
            &&& out->Fetch_1 == sync.name
            &&& out->Fetch_2 == sync.options
        },
        sync.stage == SyncStage::Fetching && event is Fetched ==> {
            &&& next.stage == SyncStage::SavingRepository
            &&& out is SaveRepository
            &&& out->SaveRepository_0.resource == Resource::Sync
            &&& out->SaveRepository_0.action == Action::Sync
            &&& out->SaveRepository_0.owner_tenant_id == sync.ctx.subject_tenant_id
            &&& out->SaveRepository_1 == sync.ctx.subject_tenant_id
            &&& out->SaveRepository_2 == event->Fetched_0.repository
            &&& next.remaining@ == store::writes_of(event->Fetched_0)
            &&& next.counts == store::counts_of(event->Fetched_0)
        },
{
}

/// Once the repository is stored its rows are written one by one, the first of
/// those that remain each time, in the caller's tenant. After the last the sync
/// answers, under the name that was stored.
pub proof fn sync_writes_row_by_row(
    sync: SyncRepository,
    event: SyncEvent,
    out: SyncAction,
    next: SyncRepository,
)
    requires
        sync.asks(event, out, next),
        sync.stage == SyncStage::SavingRepository && event is Stored || sync.stage
            == SyncStage::SavingRows && event is Written,
    ensures
        next.counts == sync.counts,
        sync.remaining@.len() > 0 ==> {
            &&& next.stage == SyncStage::SavingRows
            &&& next.remaining@ == sync.remaining@.skip(1)
            &&& out is SaveRow
            &&& out->SaveRow_0.resource == Resource::Sync
            &&& out->SaveRow_0.action == Action::Sync
            &&& out->SaveRow_0.owner_tenant_id == sync.ctx.subject_tenant_id
            &&& out->SaveRow_1 == sync.ctx.subject_tenant_id
            &&& out->SaveRow_2 == sync.remaining@[0]
            &&& next.full_name is Some
            &&& event is Stored ==> next.full_name->0@ == event->Stored_0.full_name@
            &&& event is Written ==> next.full_name->0@ == sync.full_name->0@
        },
        sync.remaining@.len() == 0 ==> {
            &&& next.stage == SyncStage::Over
            &&& out is Return
            &&& out->Return_0 is Ok
            &&& event is Stored ==> out->Return_0->Ok_0.repository == event->Stored_0.full_name
            &&& event is Written ==> out->Return_0->Ok_0.repository == sync.full_name->0
            &&& out->Return_0->Ok_0.issues_synced == sync.counts.issues
            &&& out->Return_0->Ok_0.pull_requests_synced == sync.counts.pull_requests
            &&& out->Return_0->Ok_0.commits_synced == sync.counts.commits
            &&& out->Return_0->Ok_0.comments_synced == sync.counts.comments
            &&& out->Return_0->Ok_0.review_comments_synced == sync.counts.review_comments
            &&& out->Return_0->Ok_0.reviews_synced == sync.counts.reviews
            &&& out->Return_0->Ok_0.labels_synced == sync.counts.labels
            &&& out->Return_0->Ok_0.milestones_synced == sync.counts.milestones
            &&& out->Return_0->Ok_0.releases_synced == sync.counts.releases
            &&& out->Return_0->Ok_0.branches_synced == sync.counts.branches
            &&& out->Return_0->Ok_0.contributors_synced == sync.counts.contributors
            &&& out->Return_0->Ok_0.workflow_runs_synced == sync.counts.workflow_runs
            &&& out->Return_0->Ok_0.pull_request_files_synced == sync.counts.pull_request_files
            &&& out->Return_0->Ok_0.tags_synced == sync.counts.tags
            &&& out->Return_0->Ok_0.commit_files_synced == sync.counts.commit_files
            &&& out->Return_0->Ok_0.review_threads_synced == sync.counts.review_threads
            &&& out->Return_0->Ok_0.commit_comments_synced == sync.counts.commit_comments
            &&& out->Return_0->Ok_0.issue_events_synced == sync.counts.issue_events
            &&& out->Return_0->Ok_0.deployments_synced == sync.counts.deployments
            &&& out->Return_0->Ok_0.pull_request_commits_synced == sync.counts.pull_request_commits
            &&& out->Return_0->Ok_0.commit_statuses_synced == sync.counts.commit_statuses
            &&& out->Return_0->Ok_0.workflow_jobs_synced == sync.counts.workflow_jobs
            &&& out->Return_0->Ok_0.issue_reactions_synced == sync.counts.issue_reactions
            &&& out->Return_0->Ok_0.check_runs_synced == sync.counts.check_runs
            &&& out->Return_0->Ok_0.issue_timeline_synced == sync.counts.issue_timeline
        },
{
}

/// Each step of a sync is answered by how it went, or refused.
pub proof fn sync_takes_the_answers_it_asked_for(sync: SyncRepository, event: SyncEvent)
    ensures
        sync.stage == SyncStage::New ==> (sync.answers(event) <==> event is Begin),
        sync.stage == SyncStage::Authorising ==> (sync.answers(event) <==> event is Granted || event
            is Refused),
        sync.stage == SyncStage::Fetching ==> (sync.answers(event) <==> event is Fetched || event
            is Refused),
        sync.stage == SyncStage::SavingRepository ==> (sync.answers(event) <==> event is Stored
            || event is Refused),
        sync.stage == SyncStage::SavingRows ==> (sync.answers(event) <==> event is Written || event
            is Refused),
        sync.stage == SyncStage::Over ==> !sync.answers(event),
        sync.wf() && sync.stage == SyncStage::SavingRows ==> sync.full_name is Some,
{
}

/// Progress is 20 at least once everything is fetched, 95 at least once
/// everything is written, and unchanged in between.
pub proof fn progress_is_raised_twice(percent: u8, event: SyncEvent, out: SyncAction)
    ensures
        event is Fetched && percent < 20 ==> syncing::progress_after(percent, event, out) == 20,
        event is Fetched && percent >= 20 ==> syncing::progress_after(percent, event, out)
            == percent,
        !(event is Fetched) && out is Return && out->Return_0 is Ok && percent < 95
            ==> syncing::progress_after(percent, event, out) == 95,
        !(event is Fetched) && out is Return && out->Return_0 is Ok && percent >= 95
            ==> syncing::progress_after(percent, event, out) == percent,
        !(event is Fetched) && !(out is Return && out->Return_0 is Ok) ==> syncing::progress_after(
            percent,
            event,
            out,
        ) == percent,
{
}

} // verus!
