//! Drives one repository's sync through its phases.
//!
//! The runner knows nothing about what a task does. It keeps the phases in
//! order, bounds how many tasks run at once and tallies the outcomes.
//! Discovery runs alone; Indexing, change detection and Refinement drain
//! together, so that an entity can be refined while the rest of its family is
//! still being listed; Verification runs last.

use crate::error;
use crate::error::DomainError;
use crate::scheduler::queue;
use crate::scheduler::queue::{PhaseCount, TaskQueue, TaskState};
use crate::scheduler::report;
use crate::scheduler::report::{RunReport, TaskOutcome};
use crate::scheduler::task::{
    ExtractionTask, NewTask, RunIdentity, TaskKind, TaskPhase, TaskPriority,
};
use vstd::prelude::*;

verus! {

/// Waiting tasks above which no more are claimed until running ones finish:
/// bounds memory when listings seed faster than details are fetched.
pub const BACKPRESSURE_HIGH: u64 = 10_000;

/// How often a task that stopped on a transient error is tried again.
pub const TRANSIENT_RETRIES: u32 = 3;

/// Milliseconds before the first retry; the wait grows with the attempt.
pub const TRANSIENT_RETRY_DELAY_MILLIS: u64 = 500;

/// The bands of the progress estimate, in thousandths.
pub const DISCOVERY_SPAN: u64 = 20;

pub const LISTING_BASE: u64 = 20;

pub const LISTING_SPAN: u64 = 130;

pub const REFINE_BASE: u64 = 150;

pub const REFINE_SPAN: u64 = 800;

pub const VERIFY_BASE: u64 = 950;

pub const VERIFY_SPAN: u64 = 50;

// ---------------------------------------------------------------------------
// Progress
// ---------------------------------------------------------------------------

/// The finished share of a span; nothing for an empty phase.
pub open spec fn share(span: nat, total: nat, unfinished: nat) -> nat {
    if total == 0 || unfinished >= total {
        0
    } else {
        span * ((total - unfinished) as nat) / total
    }
}

/// The finished share of a span; nothing for an empty phase.
pub fn ramp(span: u64, total: u64, unfinished: u64) -> (out: u64)
    ensures
        out == share(span as nat, total as nat, unfinished as nat),
        out <= span,
{
    if total == 0 || unfinished >= total {
        return 0;
    }
    let done: u64 = total - unfinished;
    assert(0 <= span * done <= u64::MAX * u64::MAX) by (nonlinear_arith)
        requires
            0 <= span <= u64::MAX,
            0 <= done <= u64::MAX,
    ;
    let whole: u128 = (span as u128) * (done as u128) / (total as u128);
    proof {
        lemma_share_within(span as nat, done as nat, total as nat);
    }
    whole as u64
}

proof fn lemma_share_within(span: nat, done: nat, total: nat)
    requires
        done <= total,
        total > 0,
    ensures
        span * done / total <= span,
{
    assert(span * done <= span * total) by (nonlinear_arith)
        requires
            done <= total,
    ;
    assert(span * total / total == span) by (nonlinear_arith)
        requires
            total > 0,
    ;
    assert(span * done / total <= span * total / total) by (nonlinear_arith)
        requires
            span * done <= span * total,
            total > 0,
    ;
}

proof fn lemma_share_grows(span: nat, total: nat, before: nat, after: nat)
    requires
        after <= before,
    ensures
        share(span, total, before) <= share(span, total, after),
{
    if total > 0 && before < total {
        let less = (total - before) as nat;
        let more = (total - after) as nat;
        assert(span * less <= span * more) by (nonlinear_arith)
            requires
                less <= more,
        ;
        assert(span * less / total <= span * more / total) by (nonlinear_arith)
            requires
                span * less <= span * more,
                total > 0,
        ;
    }
}

proof fn lemma_share_bounded(span: nat, total: nat, unfinished: nat)
    ensures
        share(span, total, unfinished) <= span,
{
    if total > 0 && unfinished < total {
        lemma_share_within(span, (total - unfinished) as nat, total);
    }
}

/// How far each phase is.
#[derive(Debug, Clone, Copy, PartialEq, Eq, Structural)]
pub struct PhaseCounts {
    pub discovery: PhaseCount,
    pub indexing: PhaseCount,
    pub refinement: PhaseCount,
    pub verification: PhaseCount,
}

pub open spec fn share_of(span: u64, count: PhaseCount) -> nat {
    share(span as nat, count.total as nat, count.unfinished as nat)
}

/// Progress in thousandths: the share of the band of the phase the run is in.
/// While a family is still being listed nothing is credited for details, since
/// their number still grows.
pub open spec fn permille(counts: PhaseCounts) -> nat {
    if counts.indexing.unfinished > 0 || (counts.refinement.total == 0 && counts.verification.total
        == 0) {
        if counts.indexing.total > 0 {
            LISTING_BASE as nat + share_of(LISTING_SPAN, counts.indexing)
        } else {
            share_of(DISCOVERY_SPAN, counts.discovery)
        }
    } else if counts.refinement.unfinished > 0 || counts.verification.total == 0 {
        REFINE_BASE as nat + share_of(REFINE_SPAN, counts.refinement)
    } else {
        VERIFY_BASE as nat + share_of(VERIFY_SPAN, counts.verification)
    }
}

/// See [`permille`].
pub fn estimate(counts: PhaseCounts) -> (out: u64)
    ensures
        out == permille(counts),
        out <= 1000,
{
    let PhaseCounts { discovery, indexing, refinement, verification } = counts;
    if indexing.unfinished > 0 || (refinement.total == 0 && verification.total == 0) {
        if indexing.total > 0 {
            LISTING_BASE + ramp(LISTING_SPAN, indexing.total, indexing.unfinished)
        } else {
            ramp(DISCOVERY_SPAN, discovery.total, discovery.unfinished)
        }
    } else if refinement.unfinished > 0 || verification.total == 0 {
        REFINE_BASE + ramp(REFINE_SPAN, refinement.total, refinement.unfinished)
    } else {
        VERIFY_BASE + ramp(VERIFY_SPAN, verification.total, verification.unfinished)
    }
}

proof fn lemma_share_of_grows(span: u64, before: PhaseCount, after: PhaseCount)
    requires
        before.total == after.total,
        after.unfinished <= before.unfinished,
    ensures
        share_of(span, before) <= share_of(span, after),
{
    lemma_share_grows(
        span as nat,
        before.total as nat,
        before.unfinished as nat,
        after.unfinished as nat,
    );
}

proof fn lemma_share_of_bounded(span: u64, count: PhaseCount)
    ensures
        share_of(span, count) <= span,
{
    lemma_share_bounded(span as nat, count.total as nat, count.unfinished as nat);
}

proof fn lemma_counts_fit(entries: Seq<queue::TaskEntry>, phase: TaskPhase)
    requires
        entries.len() <= u64::MAX,
    ensures
        count_in(entries, phase).total == queue::total_in(entries, phase),
        count_in(entries, phase).unfinished == queue::unfinished_in(entries, phase),
        count_in(entries, phase).unfinished <= count_in(entries, phase).total,
{
    queue::lemma_counts_are_ordered(entries, phase);
}

/// The estimate is at a thousand at most.
pub proof fn estimate_is_bounded(counts: PhaseCounts)
    ensures
        permille(counts) <= 1000,
{
    lemma_share_of_bounded(DISCOVERY_SPAN, counts.discovery);
    lemma_share_of_bounded(LISTING_SPAN, counts.indexing);
    lemma_share_of_bounded(REFINE_SPAN, counts.refinement);
    lemma_share_of_bounded(VERIFY_SPAN, counts.verification);
}

/// What a task is moved to when it is claimed, or ends.
pub open spec fn moves_on(entry: queue::TaskEntry, state: TaskState) -> bool {
    match state {
        TaskState::Pending => false,
        TaskState::Claimed => entry.state == TaskState::Pending,
        TaskState::Completed => true,
        TaskState::Failed => true,
    }
}

/// The estimate never goes back when a task is claimed or ends, whatever else
/// is queued.
pub proof fn tasks_never_set_the_estimate_back(
    entries: Seq<queue::TaskEntry>,
    place: int,
    state: TaskState,
)
    requires
        entries.len() <= u64::MAX,
        0 <= place < entries.len(),
        moves_on(entries[place], state),
    ensures
        permille(counts_in(entries)) <= permille(
            counts_in(queue::with_state(entries, place, state)),
        ),
{
    let changed = queue::with_state(entries, place, state);
    assert forall|phase: TaskPhase|
        (#[trigger] count_in(entries, phase)).total == count_in(changed, phase).total && count_in(
            changed,
            phase,
        ).unfinished <= count_in(entries, phase).unfinished <= count_in(entries, phase).total by {
        queue::lemma_counts_with_state(entries, place, state, phase);
        lemma_counts_fit(entries, phase);
        lemma_counts_fit(changed, phase);
    }
    let before = counts_in(entries);
    let after = counts_in(changed);
    lemma_share_of_grows(DISCOVERY_SPAN, before.discovery, after.discovery);
    lemma_share_of_grows(LISTING_SPAN, before.indexing, after.indexing);
    lemma_share_of_grows(REFINE_SPAN, before.refinement, after.refinement);
    lemma_share_of_grows(VERIFY_SPAN, before.verification, after.verification);
    lemma_share_of_bounded(LISTING_SPAN, before.indexing);
    lemma_share_of_bounded(REFINE_SPAN, before.refinement);
}

pub open spec fn none_finished(count: PhaseCount) -> bool {
    count.unfinished >= count.total
}

/// A task of the phase can still be seeded: a phase is seeded before any of its
/// tasks ends, but for details, which are seeded while something is listed; and
/// what is verified is seeded once nothing is left to list or refine.
pub open spec fn seeds_in_order(counts: PhaseCounts, phase: TaskPhase) -> bool {
    match phase {
        TaskPhase::Discovery => none_finished(counts.discovery),
        TaskPhase::Indexing => none_finished(counts.indexing) && counts.refinement.total == 0
            && counts.verification.total == 0,
        TaskPhase::ChangeDetection => true,
        TaskPhase::Refinement => counts.indexing.unfinished > 0,
        TaskPhase::Verification => counts.indexing.unfinished == 0 && counts.refinement.unfinished
            == 0 && none_finished(counts.verification),
    }
}

/// The estimate never goes back when a task is seeded in the order of the
/// phases.
pub proof fn seeds_never_set_the_estimate_back(
    entries: Seq<queue::TaskEntry>,
    seed: queue::TaskEntry,
)
    requires
        entries.len() < u64::MAX,
        seed.state == TaskState::Pending,
        seeds_in_order(counts_in(entries), seed.task.kind.spec_phase()),
    ensures
        permille(counts_in(entries)) <= permille(counts_in(entries.push(seed))),
{
    let more = entries.push(seed);
    let of = seed.task.kind.spec_phase();
    assert(more.drop_last() =~= entries);
    assert forall|phase: TaskPhase|
        (#[trigger] count_in(more, phase)).total == count_in(entries, phase).total + if phase == of {
            1int
        } else {
            0
        } && count_in(more, phase).unfinished == count_in(entries, phase).unfinished + if phase
            == of {
            1int
        } else {
            0
        } && count_in(entries, phase).unfinished <= count_in(entries, phase).total by {
        lemma_counts_fit(entries, phase);
        lemma_counts_fit(more, phase);
    }
    let before = counts_in(entries);
    let after = counts_in(more);
    lemma_share_of_bounded(DISCOVERY_SPAN, before.discovery);
    lemma_share_of_bounded(LISTING_SPAN, before.indexing);
    lemma_share_of_bounded(REFINE_SPAN, before.refinement);
}

// ---------------------------------------------------------------------------
// Retries
// ---------------------------------------------------------------------------

/// A task that stopped on the error is tried again.
pub open spec fn retried(error: error::ErrorView, attempt: u32, cancelled: bool) -> bool {
    error::transient(error) && attempt < TRANSIENT_RETRIES && !cancelled
}

/// Milliseconds to wait before a task that stopped on an error is tried again;
/// `None` when it is not.
pub fn retry_delay(error: &DomainError, attempt: u32, cancelled: bool) -> (out: Option<u64>)
    ensures
        out is Some <==> retried(error@, attempt, cancelled),
        out is Some ==> out->0 == TRANSIENT_RETRY_DELAY_MILLIS * (attempt + 1),
{
    if cancelled || attempt >= TRANSIENT_RETRIES || !error.is_transient() {
        return None;
    }
    Some(TRANSIENT_RETRY_DELAY_MILLIS * (attempt as u64 + 1))
}

/// A task is attempted at most once more than it may be retried; a permanent
/// error, or one of a cancelled run, is final at once.
pub proof fn retries_are_bounded(error: error::ErrorView, attempt: u32, cancelled: bool)
    ensures
        attempt >= TRANSIENT_RETRIES ==> !retried(error, attempt, cancelled),
        !error::transient(error) ==> !retried(error, attempt, cancelled),
        cancelled ==> !retried(error, attempt, cancelled),
{
}

// ---------------------------------------------------------------------------
// Draining
// ---------------------------------------------------------------------------

/// The groups of phases that drain together, in order.
#[derive(Debug, Clone, Copy, PartialEq, Eq, Structural)]
pub enum Stage {
    Discovery,
    Streamed,
    Verification,
    Over,
}

pub open spec fn phases_of(stage: Stage) -> Seq<TaskPhase> {
    match stage {
        Stage::Discovery => seq![TaskPhase::Discovery],
        Stage::Streamed => seq![
            TaskPhase::Indexing,
            TaskPhase::ChangeDetection,
            TaskPhase::Refinement,
        ],
        Stage::Verification => seq![TaskPhase::Verification],
        Stage::Over => Seq::empty(),
    }
}

/// The stage after one that drained. Discovery is the one task everything else
/// hangs off, so that a run goes no further when it failed, nor when it was
/// cancelled.
pub open spec fn stage_after(stage: Stage, cancelled: bool, failures: nat) -> Stage {
    if cancelled {
        Stage::Over
    } else {
        match stage {
            Stage::Discovery => if failures > 0 {
                Stage::Over
            } else {
                Stage::Streamed
            },
            Stage::Streamed => Stage::Verification,
            Stage::Verification => Stage::Over,
            Stage::Over => Stage::Over,
        }
    }
}

/// No more tasks are claimed until one finishes.
pub open spec fn saturated(in_flight: nat, max: nat, pending: nat) -> bool {
    in_flight >= max || (pending >= BACKPRESSURE_HIGH && in_flight > 0)
}

/// What the runner's caller does next.
#[derive(Debug)]
pub enum DrainStep {
    /// Start the extraction.
    Spawn(ExtractionTask),
    /// Wait for a running task to end and report its outcome.
    Join,
    /// The stage has drained; ask again for the next one.
    NextStage,
    /// The run is over.
    Finished,
}

/// Phase driver of one repository sync.
#[derive(Debug)]
pub struct RepoPhaseRunner {
    pub queue: TaskQueue,
    pub run: RunIdentity,
    pub max_concurrent_tasks: usize,
    pub in_flight: usize,
    pub stage: Stage,
    pub report: RunReport,
}

/// The request for the one task every run starts with.
pub open spec fn is_discovery_task(task: ExtractionTask, run: RunIdentity) -> bool {
    &&& task.run == run
    &&& task.kind == TaskKind::Discover
    &&& task.entity_id is None
    &&& task.priority == TaskPriority::Normal
    &&& task.attempt == 0
}

impl RepoPhaseRunner {
    pub open spec fn wf(&self) -> bool {
        &&& self.queue.wf()
        &&& 1 <= self.max_concurrent_tasks
        &&& self.in_flight <= self.max_concurrent_tasks
    }

    /// A runner with nothing queued. Fewer than one task at a time is read as
    /// one.
    pub fn new(run: RunIdentity, max_concurrent_tasks: usize) -> (out: Self)
        ensures
            out.wf(),
            out.queue@.len() == 0,
            out.run == run,
            out.max_concurrent_tasks == if max_concurrent_tasks >= 1 {
                max_concurrent_tasks
            } else {
                1
            },
            out.in_flight == 0,
            out.stage == Stage::Discovery,
            out.report.tasks_done == 0,
            out.report.failures@.len() == 0,
            !out.report.cancelled,
    {
        RepoPhaseRunner {
            queue: TaskQueue::new(),
            run,
            max_concurrent_tasks: if max_concurrent_tasks >= 1 {
                max_concurrent_tasks
            } else {
                1
            },
            in_flight: 0,
            stage: Stage::Discovery,
            report: RunReport::new(),
        }
    }

    /// Queues the Discovery task.
    pub fn seed_discovery(&mut self)
        requires
            old(self).wf(),
            old(self).queue@.len() < u64::MAX,
        ensures
            final(self).wf(),
            final(self).queue@.len() == old(self).queue@.len() + 1,
            final(self).queue@.drop_last() == old(self).queue@,
            is_discovery_task(final(self).queue@.last().task, old(self).run),
            final(self).queue@.last().state == TaskState::Pending,
            final(self).run == old(self).run,
            final(self).max_concurrent_tasks == old(self).max_concurrent_tasks,
            final(self).in_flight == old(self).in_flight,
            final(self).stage == old(self).stage,
            final(self).report == old(self).report,
    {
        let ghost before = self.queue@;
        self.queue.enqueue_task(
            NewTask {
                run: self.run,
                kind: TaskKind::Discover,
                entity_id: None,
                priority: TaskPriority::Normal,
                attempt: 0,
            },
        );
        assert(self.queue@.drop_last() =~= before);
    }

    fn claim(&mut self) -> (out: Option<ExtractionTask>)
        requires
            old(self).wf(),
        ensures
            final(self).wf(),
            final(self).run == old(self).run,
            final(self).max_concurrent_tasks == old(self).max_concurrent_tasks,
            final(self).in_flight == old(self).in_flight,
            final(self).stage == old(self).stage,
            final(self).report == old(self).report,
            match out {
                Some(task) => {
                    &&& queue::next_in_line(
                        old(self).queue@,
                        old(self).run.session_id,
                        phases_of(old(self).stage),
                        task.id as int,
                    )
                    &&& task == old(self).queue@[task.id as int].task
                    &&& final(self).queue@ == queue::with_state(
                        old(self).queue@,
                        task.id as int,
                        TaskState::Claimed,
                    )
                },
                None => {
                    &&& final(self).queue@ == old(self).queue@
                    &&& forall|i: int|
                        0 <= i < old(self).queue@.len() ==> !#[trigger] queue::claimable(
                            old(self).queue@[i],
                            old(self).run.session_id,
                            phases_of(old(self).stage),
                        )
                },
            },
    {
        let phases: Vec<TaskPhase> = match self.stage {
            Stage::Discovery => vec![TaskPhase::Discovery],
            Stage::Streamed => vec![
                TaskPhase::Indexing,
                TaskPhase::ChangeDetection,
                TaskPhase::Refinement,
            ],
            Stage::Verification => vec![TaskPhase::Verification],
            Stage::Over => Vec::new(),
        };
        assert(phases@ =~= phases_of(self.stage));
        self.queue.claim_next_task_in(self.run.session_id, phases.as_slice())
    }

    /// What to do next.
    ///
    /// A cancelled run claims nothing more and waits for what runs. Otherwise
    /// the next task of the stage is started unless the runner is saturated;
    /// when there is none, a running task may still seed more, so that the
    /// stage has drained only once nothing runs.
    pub fn drain(&mut self, cancelled: bool) -> (out: DrainStep)
        requires
            old(self).wf(),
        ensures
            final(self).wf(),
            final(self).run == old(self).run,
            final(self).max_concurrent_tasks == old(self).max_concurrent_tasks,
            final(self).report.tasks_done == old(self).report.tasks_done,
            final(self).report.failures == old(self).report.failures,
            final(self).report.cancelled == (old(self).report.cancelled || (cancelled && old(
                self).stage != Stage::Over)),
            match out {
                DrainStep::Finished => {
                    &&& old(self).stage == Stage::Over
                    &&& final(self).stage == Stage::Over
                    &&& final(self).queue@ == old(self).queue@
                    &&& final(self).in_flight == old(self).in_flight
                },
                DrainStep::Join => {
                    &&& old(self).stage != Stage::Over
                    &&& old(self).in_flight > 0
                    &&& cancelled || saturated(
                        old(self).in_flight as nat,
                        old(self).max_concurrent_tasks as nat,
                        queue::pending_in(old(self).queue@, old(self).run.session_id),
                    ) || nothing_claimable(*old(self))
                    &&& final(self).stage == old(self).stage
                    &&& final(self).queue@ == old(self).queue@
                    &&& final(self).in_flight == old(self).in_flight
                },
                DrainStep::Spawn(task) => {
                    &&& old(self).stage != Stage::Over
                    &&& !cancelled
                    &&& !saturated(
                        old(self).in_flight as nat,
                        old(self).max_concurrent_tasks as nat,
                        queue::pending_in(old(self).queue@, old(self).run.session_id),
                    )
                    &&& queue::next_in_line(
                        old(self).queue@,
                        old(self).run.session_id,
                        phases_of(old(self).stage),
                        task.id as int,
                    )
                    &&& task == old(self).queue@[task.id as int].task
                    &&& final(self).queue@ == queue::with_state(
                        old(self).queue@,
                        task.id as int,
                        TaskState::Claimed,
                    )
                    &&& final(self).stage == old(self).stage
                    &&& final(self).in_flight == old(self).in_flight + 1
                },
                DrainStep::NextStage => {
                    &&& old(self).stage != Stage::Over
                    &&& old(self).in_flight == 0
                    &&& cancelled || nothing_claimable(*old(self))
                    &&& final(self).stage == stage_after(
                        old(self).stage,
                        final(self).report.cancelled,
                        old(self).report.failures@.len(),
                    )
                    &&& final(self).queue@ == old(self).queue@
                    &&& final(self).in_flight == old(self).in_flight
                },
            },
    {
        if self.stage == Stage::Over {
            return DrainStep::Finished;
        }
        if cancelled {
            self.report.cancelled = true;
            if self.in_flight > 0 {
                return DrainStep::Join;
            }
            self.advance();
            return DrainStep::NextStage;
        }
        let held_back = self.in_flight >= self.max_concurrent_tasks || (
        self.queue.pending_count(self.run.session_id) >= BACKPRESSURE_HIGH && self.in_flight > 0);
        if held_back {
            return DrainStep::Join;
        }
        match self.claim() {
            Some(task) => {
                self.in_flight = self.in_flight + 1;
                DrainStep::Spawn(task)
            },
            None => {
                if self.in_flight > 0 {
                    return DrainStep::Join;
                }
                self.advance();
                DrainStep::NextStage
            },
        }
    }

    fn advance(&mut self)
        requires
            old(self).wf(),
        ensures
            final(self).wf(),
            final(self).queue == old(self).queue,
            final(self).run == old(self).run,
            final(self).max_concurrent_tasks == old(self).max_concurrent_tasks,
            final(self).in_flight == old(self).in_flight,
            final(self).report == old(self).report,
            final(self).stage == stage_after(
                old(self).stage,
                old(self).report.cancelled,
                old(self).report.failures@.len(),
            ),
    {
        self.stage = if self.report.cancelled {
            Stage::Over
        } else {
            match self.stage {
                Stage::Discovery => {
                    if self.report.failures.len() > 0 {
                        Stage::Over
                    } else {
                        Stage::Streamed
                    }
                },
                Stage::Streamed => Stage::Verification,
                Stage::Verification => Stage::Over,
                Stage::Over => Stage::Over,
            }
        };
    }

    /// A spawned task ended: it succeeded, or stopped on an error for good.
    pub fn finish_task(&mut self, task: ExtractionTask, error: Option<DomainError>)
        requires
            old(self).wf(),
            old(self).in_flight > 0,
            task.id < old(self).queue@.len(),
            old(self).report.tasks_done < u64::MAX,
        ensures
            final(self).wf(),
            final(self).run == old(self).run,
            final(self).max_concurrent_tasks == old(self).max_concurrent_tasks,
            final(self).stage == old(self).stage,
            final(self).in_flight == old(self).in_flight - 1,
            final(self).report.cancelled == old(self).report.cancelled,
            match error {
                None => {
                    &&& final(self).queue@ == queue::with_state(
                        old(self).queue@,
                        task.id as int,
                        TaskState::Completed,
                    )
                    &&& final(self).report.tasks_done == old(self).report.tasks_done + 1
                    &&& final(self).report.failures == old(self).report.failures
                },
                Some(stopped_on) => {
                    &&& final(self).queue@ == queue::with_state(
                        old(self).queue@,
                        task.id as int,
                        TaskState::Failed,
                    )
                    &&& final(self).report.tasks_done == old(self).report.tasks_done
                    &&& final(self).report.failures@.drop_last() == old(self).report.failures@
                    &&& final(self).report.failures@.len() == old(self).report.failures@.len() + 1
                    &&& report::is_failure_of(
                        final(self).report.failures@.last(),
                        TaskOutcome::Stopped(task, stopped_on),
                    )
                },
            },
    {
        match error {
            None => {
                self.queue.complete_task(task.id);
                self.report.account(TaskOutcome::Done);
            },
            Some(stopped_on) => {
                self.queue.fail_task(task.id);
                self.report.account(TaskOutcome::Stopped(task, stopped_on));
            },
        }
        self.in_flight = self.in_flight - 1;
    }

    /// A spawned task vanished without an outcome.
    pub fn lose_task(&mut self, words: String)
        requires
            old(self).wf(),
            old(self).in_flight > 0,
            old(self).report.tasks_done < u64::MAX,
        ensures
            final(self).wf(),
            final(self).queue == old(self).queue,
            final(self).run == old(self).run,
            final(self).max_concurrent_tasks == old(self).max_concurrent_tasks,
            final(self).stage == old(self).stage,
            final(self).in_flight == old(self).in_flight - 1,
            final(self).report.cancelled == old(self).report.cancelled,
            final(self).report.tasks_done == old(self).report.tasks_done,
            final(self).report.failures@.drop_last() == old(self).report.failures@,
            final(self).report.failures@.len() == old(self).report.failures@.len() + 1,
            report::is_failure_of(
                final(self).report.failures@.last(),
                TaskOutcome::Vanished(words),
            ),
    {
        self.report.account(TaskOutcome::Vanished(words));
        self.in_flight = self.in_flight - 1;
    }

    /// How far each phase is.
    pub fn phase_counts(&self) -> (out: PhaseCounts)
        requires
            self.wf(),
        ensures
            out == counts_in(self.queue@),
    {
        PhaseCounts {
            discovery: self.queue.phase_count(TaskPhase::Discovery),
            indexing: self.queue.phase_count(TaskPhase::Indexing),
            refinement: self.queue.phase_count(TaskPhase::Refinement),
            verification: self.queue.phase_count(TaskPhase::Verification),
        }
    }

    /// Progress in thousandths.
    pub fn estimate_permille(&self) -> (out: u64)
        requires
            self.wf(),
        ensures
            out == permille(counts_in(self.queue@)),
            out <= 1000,
    {
        let counts = self.phase_counts();
        estimate(counts)
    }
}

/// No task of the stage can be claimed.
pub open spec fn nothing_claimable(runner: RepoPhaseRunner) -> bool {
    forall|i: int|
        0 <= i < runner.queue@.len() ==> !#[trigger] queue::claimable(
            runner.queue@[i],
            runner.run.session_id,
            phases_of(runner.stage),
        )
}

pub open spec fn count_in(entries: Seq<queue::TaskEntry>, phase: TaskPhase) -> PhaseCount {
    PhaseCount {
        total: queue::total_in(entries, phase) as u64,
        unfinished: queue::unfinished_in(entries, phase) as u64,
    }
}

/// How far each phase is, counted over the tasks.
pub open spec fn counts_in(entries: Seq<queue::TaskEntry>) -> PhaseCounts {
    PhaseCounts {
        discovery: count_in(entries, TaskPhase::Discovery),
        indexing: count_in(entries, TaskPhase::Indexing),
        refinement: count_in(entries, TaskPhase::Refinement),
        verification: count_in(entries, TaskPhase::Verification),
    }
}

/// A run whose Discovery failed, or that was cancelled, goes no further; any
/// other goes through every stage in order.
pub proof fn stages_run_in_order(cancelled: bool, failures: nat)
    ensures
        stage_after(Stage::Discovery, true, failures) == Stage::Over,
        failures > 0 ==> stage_after(Stage::Discovery, cancelled, failures) == Stage::Over,
        stage_after(Stage::Discovery, false, 0) == Stage::Streamed,
        stage_after(Stage::Streamed, false, failures) == Stage::Verification,
        stage_after(Stage::Verification, cancelled, failures) == Stage::Over,
{
}

/// A run that was seeded has its Discovery task to claim first.
pub proof fn seeded_run_begins_with_discovery(entries: Seq<queue::TaskEntry>, run: RunIdentity)
    requires
        entries.len() == 1,
        is_discovery_task(entries[0].task, run),
        entries[0].state == TaskState::Pending,
    ensures
        queue::next_in_line(entries, run.session_id, phases_of(Stage::Discovery), 0),
{
    assert(phases_of(Stage::Discovery)[0] == TaskPhase::Discovery);
    assert(queue::claimable(entries[0], run.session_id, phases_of(Stage::Discovery)));
}

} // verus!
