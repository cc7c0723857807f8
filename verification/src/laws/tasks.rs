//! What the tasks of a run are, in which order they go, and how they are
//! reported.

use crate::decimal;
use crate::error;
use crate::error::{DomainError, ErrorView};
use crate::json;
use crate::records::{CommitRecord, IssueRecord, PullRequestRecord, WorkflowRunRecord};
use crate::scheduler::queue;
use crate::scheduler::queue::{TaskEntry, TaskQueue, TaskState};
use crate::scheduler::report;
use crate::scheduler::report::{TaskFailure, TaskOutcome};
use crate::scheduler::runner;
use crate::scheduler::runner::{PhaseCounts, RepoPhaseRunner, Stage};
use crate::scheduler::task::{
    Entity, ExtractionTask, Family, NewTask, RunIdentity, TaskKind, TaskPhase, TaskPriority,
};
use crate::scheduler::worker;
use crate::scope::{CollectionMode, CollectionScope, ObjectScope};
use vstd::prelude::*;
use vstd::string::*;

verus! {

// ---------------------------------------------------------------------------
// Names
// ---------------------------------------------------------------------------

/// The phases, the families and the entities are called this.
pub proof fn tasks_are_named_in_these_words()
    ensures
        TaskPhase::Discovery.spec_name() == "discovery"@,
        TaskPhase::Indexing.spec_name() == "indexing"@,
        TaskPhase::ChangeDetection.spec_name() == "change_detection"@,
        TaskPhase::Refinement.spec_name() == "refinement"@,
        TaskPhase::Verification.spec_name() == "verification"@,
        Family::Issues.spec_name() == "issues"@,
        Family::PullRequests.spec_name() == "pull_requests"@,
        Family::Commits.spec_name() == "commits"@,
        Family::Metadata.spec_name() == "metadata"@,
        Family::Actions.spec_name() == "actions"@,
        Entity::Issue.spec_name() == "issue"@,
        Entity::PullRequest.spec_name() == "pull_request"@,
        Entity::Commit.spec_name() == "commit"@,
        Entity::WorkflowRun.spec_name() == "workflow_run"@,
        TaskKind::Discover.spec_entity_type() == "repository"@,
{
}

/// A task belongs to the phase of what it does, and is about what it names.
pub proof fn tasks_belong_to_their_phase(family: Family, entity: Entity)
    ensures
        TaskKind::Discover.spec_phase() == TaskPhase::Discovery,
        TaskKind::Index(family).spec_phase() == TaskPhase::Indexing,
        TaskKind::Refine(entity).spec_phase() == TaskPhase::Refinement,
        TaskKind::Verify(entity).spec_phase() == TaskPhase::Verification,
        TaskKind::Index(family).spec_entity_type() == family.spec_name(),
        TaskKind::Refine(entity).spec_entity_type() == entity.spec_name(),
        TaskKind::Verify(entity).spec_entity_type() == entity.spec_name(),
{
}

/// Open pull requests go before open issues, these before what has no state,
/// then closed pull requests, then closed issues; the repository's own last.
pub proof fn open_goes_before_closed()
    ensures
        TaskPriority::OpenPr.spec_rank() < TaskPriority::OpenIssue.spec_rank(),
        TaskPriority::OpenIssue.spec_rank() < TaskPriority::Normal.spec_rank(),
        TaskPriority::Normal.spec_rank() < TaskPriority::ClosedPr.spec_rank(),
        TaskPriority::ClosedPr.spec_rank() < TaskPriority::ClosedIssue.spec_rank(),
        TaskPriority::ClosedIssue.spec_rank() < TaskPriority::Global.spec_rank(),
        TaskPriority::OpenPr.spec_rank() == 0,
        TaskPriority::Global.spec_rank() == 5,
{
}

// ---------------------------------------------------------------------------
// Queue
// ---------------------------------------------------------------------------

/// A queued task is the one that was asked for, under its id.
pub proof fn queued_task_is_the_one_asked_for(new: NewTask, id: u64)
    ensures
        ({
            let task = queue::task_of(new, id);
            &&& task.id == id
            &&& task.run == new.run
            &&& task.kind == new.kind
            &&& task.entity_id == new.entity_id
            &&& task.priority == new.priority
            &&& task.attempt == new.attempt
        }),
{
}

/// The task to claim next waits, belongs to the session and to one of the
/// phases; no other such task is more urgent, nor as urgent and older.
pub proof fn most_urgent_then_oldest_is_claimed(
    entries: Seq<TaskEntry>,
    session_id: u128,
    phases: Seq<TaskPhase>,
    place: int,
    other: int,
)
    requires
        queue::next_in_line(entries, session_id, phases, place),
    ensures
        0 <= place < entries.len(),
        entries[place].state == TaskState::Pending,
        entries[place].task.run.session_id == session_id,
        phases.contains(entries[place].task.kind.spec_phase()),
        0 <= other < entries.len() && entries[other].state == TaskState::Pending
            && entries[other].task.run.session_id == session_id && phases.contains(
            entries[other].task.kind.spec_phase(),
        ) ==> {
            let rank = entries[place].task.priority.spec_rank();
            let other_rank = entries[other].task.priority.spec_rank();
            rank <= other_rank && (rank == other_rank ==> place <= other)
        },
{
    if 0 <= other < entries.len() && queue::claimable(entries[other], session_id, phases) {
        assert(queue::goes_first(entries, place, other));
    }
}

/// Where some task waits, there is a task to claim next.
pub proof fn waiting_task_is_claimed_some_time(
    entries: Seq<TaskEntry>,
    session_id: u128,
    phases: Seq<TaskPhase>,
    waits: int,
) -> (place: int)
    requires
        0 <= waits < entries.len(),
        queue::claimable(entries[waits], session_id, phases),
    ensures
        queue::next_in_line(entries, session_id, phases, place),
    decreases entries.len(),
{
    let rest = entries.drop_last();
    let last = entries.len() - 1;
    if waits < last {
        assert(rest[waits] == entries[waits]);
        let best = waiting_task_is_claimed_some_time(rest, session_id, phases, waits);
        let rank = entries[best].task.priority.spec_rank();
        let last_rank = entries[last].task.priority.spec_rank();
        assert(rest[best] == entries[best]);
        if queue::claimable(entries[last], session_id, phases) && last_rank < rank {
            assert forall|i: int|
                0 <= i < entries.len() && #[trigger] queue::claimable(
                    entries[i],
                    session_id,
                    phases,
                ) implies queue::goes_first(entries, last, i) by {
                if i < last {
                    assert(rest[i] == entries[i]);
                    assert(queue::claimable(rest[i], session_id, phases));
                    assert(queue::goes_first(rest, best, i));
                }
            }
            last
        } else {
            assert forall|i: int|
                0 <= i < entries.len() && #[trigger] queue::claimable(
                    entries[i],
                    session_id,
                    phases,
                ) implies queue::goes_first(entries, best, i) by {
                if i < last {
                    assert(rest[i] == entries[i]);
                    assert(queue::claimable(rest[i], session_id, phases));
                    assert(queue::goes_first(rest, best, i));
                }
            }
            best
        }
    } else if exists|i: int|
        0 <= i < last && #[trigger] queue::claimable(entries[i], session_id, phases) {
        let i = choose|i: int|
            0 <= i < last && #[trigger] queue::claimable(entries[i], session_id, phases);
        assert(rest[i] == entries[i]);
        let best = waiting_task_is_claimed_some_time(rest, session_id, phases, i);
        let rank = entries[best].task.priority.spec_rank();
        let last_rank = entries[last].task.priority.spec_rank();
        assert(rest[best] == entries[best]);
        let place = if last_rank < rank {
            last
        } else {
            best
        };
        assert forall|k: int|
            0 <= k < entries.len() && #[trigger] queue::claimable(
                entries[k],
                session_id,
                phases,
            ) implies queue::goes_first(entries, place, k) by {
            if k < last {
                assert(rest[k] == entries[k]);
                assert(queue::claimable(rest[k], session_id, phases));
                assert(queue::goes_first(rest, best, k));
            }
        }
        place
    } else {
        last
    }
}

/// A change of state is one of that task alone, and leaves the task as it is.
pub proof fn state_of_one_task_changes(
    entries: Seq<TaskEntry>,
    place: int,
    state: TaskState,
    other: int,
)
    requires
        0 <= place < entries.len(),
        0 <= other < entries.len(),
    ensures
        queue::with_state(entries, place, state).len() == entries.len(),
        queue::with_state(entries, place, state)[place].state == state,
        queue::with_state(entries, place, state)[place].task == entries[place].task,
        other != place ==> queue::with_state(entries, place, state)[other] == entries[other],
{
}

/// A task is counted once in its own phase, as unfinished while it waits or
/// runs, and among those that wait for its session while it waits.
pub proof fn tasks_are_counted_one_by_one(
    entries: Seq<TaskEntry>,
    entry: TaskEntry,
    phase: TaskPhase,
    session_id: u128,
)
    ensures
        queue::total_in(Seq::empty(), phase) == 0,
        queue::unfinished_in(Seq::empty(), phase) == 0,
        queue::pending_in(Seq::empty(), session_id) == 0,
        entry.task.kind.spec_phase() == phase ==> queue::total_in(entries.push(entry), phase)
            == queue::total_in(entries, phase) + 1,
        entry.task.kind.spec_phase() != phase ==> queue::total_in(entries.push(entry), phase)
            == queue::total_in(entries, phase),
        entry.task.kind.spec_phase() == phase && (entry.state == TaskState::Pending || entry.state
            == TaskState::Claimed) ==> queue::unfinished_in(entries.push(entry), phase)
            == queue::unfinished_in(entries, phase) + 1,
        entry.task.kind.spec_phase() != phase || entry.state == TaskState::Completed || entry.state
            == TaskState::Failed ==> queue::unfinished_in(entries.push(entry), phase)
            == queue::unfinished_in(entries, phase),
        entry.state == TaskState::Pending && entry.task.run.session_id == session_id
            ==> queue::pending_in(entries.push(entry), session_id) == queue::pending_in(
            entries,
            session_id,
        ) + 1,
        entry.state != TaskState::Pending || entry.task.run.session_id != session_id
            ==> queue::pending_in(entries.push(entry), session_id) == queue::pending_in(
            entries,
            session_id,
        ),
{
    assert(entries.push(entry).drop_last() =~= entries);
}

/// The phases are counted over all tasks of the queue.
pub proof fn phases_are_counted_over_the_queue(entries: Seq<TaskEntry>)
    requires
        entries.len() <= u64::MAX,
    ensures
        ({
            let counts = runner::counts_in(entries);
            &&& counts.discovery.total == queue::total_in(entries, TaskPhase::Discovery)
            &&& counts.discovery.unfinished == queue::unfinished_in(entries, TaskPhase::Discovery)
            &&& counts.indexing.total == queue::total_in(entries, TaskPhase::Indexing)
            &&& counts.indexing.unfinished == queue::unfinished_in(entries, TaskPhase::Indexing)
            &&& counts.refinement.total == queue::total_in(entries, TaskPhase::Refinement)
            &&& counts.refinement.unfinished == queue::unfinished_in(
                entries,
                TaskPhase::Refinement,
            )
            &&& counts.verification.total == queue::total_in(entries, TaskPhase::Verification)
            &&& counts.verification.unfinished == queue::unfinished_in(
                entries,
                TaskPhase::Verification,
            )
        }),
{
    queue::lemma_counts_are_ordered(entries, TaskPhase::Discovery);
    queue::lemma_counts_are_ordered(entries, TaskPhase::Indexing);
    queue::lemma_counts_are_ordered(entries, TaskPhase::Refinement);
    queue::lemma_counts_are_ordered(entries, TaskPhase::Verification);
}

/// In a queue every task is found under its id.
pub proof fn tasks_are_found_under_their_ids(tasks: TaskQueue, i: int)
    requires
        tasks.wf(),
        0 <= i < tasks@.len(),
    ensures
        tasks@[i].task.id == i,
{
}

// ---------------------------------------------------------------------------
// Runner
// ---------------------------------------------------------------------------

/// The share of a span is what is done of the whole, rounded down: all of it
/// when nothing is left, none of it when nothing is done or there is nothing.
pub proof fn share_is_in_proportion(span: nat, total: nat, left: nat)
    ensures
        total > 0 ==> runner::share(span, total, 0) == span,
        total > 0 ==> runner::share(span, total, total) == 0,
        runner::share(span, 0, left) == 0,
        left >= total ==> runner::share(span, total, left) == 0,
        left < total ==> runner::share(span, total, left) * total <= span * (total - left)
            < runner::share(span, total, left) * total + total,
{
    if total > 0 {
        assert(span * total / total == span) by (nonlinear_arith)
            requires
                total > 0,
        ;
        if left < total {
            let done = (total - left) as nat;
            let part = span * done;
            assert(part / total * total <= part < part / total * total + total)
                by (nonlinear_arith)
                requires
                    total > 0,
            ;
        }
    }
}

/// Progress in thousandths: up to 20 while the repository is looked at, from 20
/// to 150 while its families are listed, from 150 to 950 while entities are
/// refined, and from 950 to 1000 while they are verified.
pub proof fn progress_goes_through_its_bands(counts: PhaseCounts)
    ensures
        counts.indexing.total == 0 && counts.indexing.unfinished == 0 && counts.refinement.total
            == 0 && counts.verification.total == 0 ==> runner::permille(counts) == runner::share(
            20,
            counts.discovery.total as nat,
            counts.discovery.unfinished as nat,
        ),
        counts.indexing.total > 0 && counts.indexing.unfinished > 0 ==> runner::permille(counts)
            == 20 + runner::share(
            130,
            counts.indexing.total as nat,
            counts.indexing.unfinished as nat,
        ),
        counts.indexing.total > 0 && counts.refinement.total == 0 && counts.verification.total
            == 0 ==> runner::permille(counts) == 20 + runner::share(
            130,
            counts.indexing.total as nat,
            counts.indexing.unfinished as nat,
        ),
        counts.indexing.unfinished == 0 && counts.refinement.total > 0 && (
        counts.refinement.unfinished > 0 || counts.verification.total == 0) ==> runner::permille(
            counts,
        ) == 150 + runner::share(
            800,
            counts.refinement.total as nat,
            counts.refinement.unfinished as nat,
        ),
        counts.indexing.unfinished == 0 && counts.refinement.unfinished == 0
            && counts.verification.total > 0 ==> runner::permille(counts) == 950 + runner::share(
            50,
            counts.verification.total as nat,
            counts.verification.unfinished as nat,
        ),
{
}

/// A task is tried again, three times at most, when the database was locked and
/// the run goes on.
pub proof fn locked_database_is_tried_three_times(
    stopped: ErrorView,
    message: Seq<char>,
    attempt: u32,
)
    ensures
        runner::retried(ErrorView::Database("database is locked"@), attempt, false) <==> attempt
            < 3,
        !runner::retried(stopped, attempt, true),
        !runner::retried(ErrorView::NotFound, attempt, false),
        !runner::retried(ErrorView::Internal(message), attempt, false),
        !runner::retried(ErrorView::Forbidden(message), attempt, false),
        runner::retried(stopped, attempt, false) ==> attempt < 3 && error::transient(stopped),
        error::transient(stopped) && attempt < 3 ==> runner::retried(stopped, attempt, false),
        runner::TRANSIENT_RETRIES == 3,
        runner::TRANSIENT_RETRY_DELAY_MILLIS == 500,
{
    let needle = "database is locked"@;
    assert(needle.subrange(0, needle.len() as int) =~= needle);
    assert(crate::text::occurs_at(needle, needle, 0));
}

/// Discovery drains alone; listing, change detection and refinement drain
/// together; verification drains last; then nothing is claimed any more.
pub proof fn phases_drain_in_these_groups(phase: TaskPhase)
    ensures
        runner::phases_of(Stage::Discovery).contains(phase) <==> phase == TaskPhase::Discovery,
        runner::phases_of(Stage::Streamed).contains(phase) <==> phase == TaskPhase::Indexing
            || phase == TaskPhase::ChangeDetection || phase == TaskPhase::Refinement,
        runner::phases_of(Stage::Verification).contains(phase) <==> phase
            == TaskPhase::Verification,
        !runner::phases_of(Stage::Over).contains(phase),
{
    let alone = runner::phases_of(Stage::Discovery);
    let streamed = runner::phases_of(Stage::Streamed);
    let last = runner::phases_of(Stage::Verification);
    assert(alone[0] == TaskPhase::Discovery);
    assert(streamed[0] == TaskPhase::Indexing);
    assert(streamed[1] == TaskPhase::ChangeDetection);
    assert(streamed[2] == TaskPhase::Refinement);
    assert(last[0] == TaskPhase::Verification);
}

/// A cancelled run is over whatever it was at, and so is one whose discovery
/// failed. Any other goes on from discovery to listing and refining, and from
/// there to verification, whatever failed there.
pub proof fn stages_follow_each_other(stage: Stage, failures: nat)
    ensures
        runner::stage_after(stage, true, failures) == Stage::Over,
        failures > 0 ==> runner::stage_after(Stage::Discovery, false, failures) == Stage::Over,
        runner::stage_after(Stage::Discovery, false, 0) == Stage::Streamed,
        runner::stage_after(Stage::Streamed, false, failures) == Stage::Verification,
        runner::stage_after(Stage::Verification, false, failures) == Stage::Over,
        runner::stage_after(Stage::Over, false, failures) == Stage::Over,
{
}

/// No more tasks start while as many run as may, nor while ten thousand wait and
/// any runs. A run in which nothing runs is never held back.
pub proof fn runs_are_held_back_by_their_load(in_flight: nat, max: nat, pending: nat)
    ensures
        in_flight >= max ==> runner::saturated(in_flight, max, pending),
        in_flight < max && pending < 10_000 ==> !runner::saturated(in_flight, max, pending),
        0 < in_flight < max && pending >= 10_000 ==> runner::saturated(in_flight, max, pending),
        max > 0 ==> !runner::saturated(0, max, pending),
{
}

/// A run starts with one task: to look at the repository, at the usual urgency,
/// for the first time.
pub proof fn run_starts_by_looking_at_the_repository(task: ExtractionTask, run: RunIdentity)
    requires
        runner::is_discovery_task(task, run),
    ensures
        task.run == run,
        task.kind == TaskKind::Discover,
        task.entity_id is None,
        task.priority == TaskPriority::Normal,
        task.attempt == 0,
{
}

/// A stage has drained once none of its tasks waits.
pub proof fn drained_stage_has_no_task_waiting(run: RepoPhaseRunner, i: int)
    requires
        runner::nothing_claimable(run),
        0 <= i < run.queue@.len(),
        run.queue@[i].state == TaskState::Pending,
        run.queue@[i].task.run.session_id == run.run.session_id,
    ensures
        !runner::phases_of(run.stage).contains(run.queue@[i].task.kind.spec_phase()),
{
    assert(!queue::claimable(run.queue@[i], run.run.session_id, runner::phases_of(run.stage)));
}

/// A runner runs at least one task at once, and no more than it may.
pub proof fn runner_stays_within_its_bound(run: RepoPhaseRunner)
    requires
        run.wf(),
    ensures
        1 <= run.max_concurrent_tasks,
        run.in_flight <= run.max_concurrent_tasks,
        run.queue.wf(),
{
}

// ---------------------------------------------------------------------------
// Report
// ---------------------------------------------------------------------------

/// A failure reads: phase, entity type, the entity where there is one, a colon,
/// and the error.
pub proof fn failure_reads_phase_type_entity_and_error(failure: TaskFailure, kind: TaskKind)
    ensures
        failure.kind == Some(kind) && failure.entity_id is Some ==> report::failure_text(failure)
            == kind.spec_phase().spec_name() + " "@ + kind.spec_entity_type() + " "@
            + failure.entity_id->0@ + ": "@ + error::error_text(failure.error@),
        failure.kind == Some(kind) && failure.entity_id is None ==> report::failure_text(failure)
            == kind.spec_phase().spec_name() + " "@ + kind.spec_entity_type() + ": "@
            + error::error_text(failure.error@),
        failure.kind is None && failure.entity_id is None ==> report::failure_text(failure)
            == "refinement"@ + " "@ + "task"@ + ": "@ + error::error_text(failure.error@),
        report::reported_phase(Some(kind)) == kind.spec_phase(),
        report::reported_phase(None) == TaskPhase::Refinement,
        report::reported_type(Some(kind)) == kind.spec_entity_type(),
        report::reported_type(None) == "task"@,
{
}

/// A task that stopped is reported with its error; one that vanished, with the
/// words of how it ended.
pub proof fn failures_are_reported_as_they_happened(
    failure: TaskFailure,
    task: ExtractionTask,
    stopped: DomainError,
    words: String,
)
    ensures
        report::is_failure_of(failure, TaskOutcome::Stopped(task, stopped)) <==> failure.kind
            == Some(task.kind) && failure.entity_id == task.entity_id && failure.error == stopped,
        report::is_failure_of(failure, TaskOutcome::Vanished(words)) ==> failure.kind is None
            && failure.entity_id is None && failure.error@ == ErrorView::Internal(
            "sync task did not finish cleanly: "@ + words@,
        ),
        !report::is_failure_of(failure, TaskOutcome::Done),
{
}

// ---------------------------------------------------------------------------
// Seeds
// ---------------------------------------------------------------------------

/// A family that the scope switches on is seeded once, at its own urgency.
pub proof fn families_are_seeded_in_this_order(objects: ObjectScope)
    ensures
        ({
            let seeds = worker::enabled_families(objects);
            let pulls: int = if objects.pull_requests { 1 } else { 0 };
            let issues: int = if objects.issues { 1 } else { 0 };
            let commits: int = if objects.commits { 1 } else { 0 };
            let metadata: int = if objects.labels || objects.milestones || objects.releases
                || objects.branches { 1 } else { 0 };
            let actions: int = if objects.github_actions { 1 } else { 0 };
            &&& seeds.len() == pulls + issues + commits + metadata + actions
            &&& objects.pull_requests ==> seeds[0] == (
                Family::PullRequests,
                TaskPriority::OpenPr,
            )
            &&& objects.issues ==> seeds[pulls] == (Family::Issues, TaskPriority::OpenIssue)
            &&& objects.commits ==> seeds[pulls + issues] == (
                Family::Commits,
                TaskPriority::OpenPr,
            )
            &&& metadata == 1 ==> seeds[pulls + issues + commits] == (
                Family::Metadata,
                TaskPriority::Global,
            )
            &&& objects.github_actions ==> seeds[pulls + issues + commits + metadata] == (
                Family::Actions,
                TaskPriority::Global,
            )
        }),
{
}

/// The task of a family lists it, for the first time, at the seed's urgency.
pub proof fn index_task_lists_its_family(
    run: RunIdentity,
    family: Family,
    priority: TaskPriority,
)
    ensures
        ({
            let task = worker::index_task(run, (family, priority));
            &&& task.run == run
            &&& task.kind == TaskKind::Index(family)
            &&& task.entity_id is None
            &&& task.priority == priority
            &&& task.attempt == 0
        }),
{
}

/// The task of an issue refines it by its number, before others when it is open.
pub proof fn issue_task_refines_it_by_number(task: NewTask, run: RunIdentity, issue: IssueRecord)
    requires
        worker::is_issue_task(task, run, issue),
    ensures
        task.run == run,
        task.kind == TaskKind::Refine(Entity::Issue),
        task.entity_id is Some,
        task.entity_id->0@ == decimal::integer_text(issue.number as int),
        issue.state@ == "open"@ ==> task.priority == TaskPriority::OpenIssue,
        issue.state@ != "open"@ ==> task.priority == TaskPriority::ClosedIssue,
        task.attempt == 0,
{
}

/// The task of a pull request refines it by its number, before others when it is
/// open.
pub proof fn pull_task_refines_it_by_number(
    task: NewTask,
    run: RunIdentity,
    pull: PullRequestRecord,
)
    requires
        worker::is_pull_task(task, run, pull),
    ensures
        task.run == run,
        task.kind == TaskKind::Refine(Entity::PullRequest),
        task.entity_id is Some,
        task.entity_id->0@ == decimal::integer_text(pull.number as int),
        pull.state@ == "open"@ ==> task.priority == TaskPriority::OpenPr,
        pull.state@ != "open"@ ==> task.priority == TaskPriority::ClosedPr,
        task.attempt == 0,
{
}

/// The task of a commit refines it by its SHA, and that of a workflow run by its
/// id.
pub proof fn commit_and_run_tasks_refine_them(
    one: NewTask,
    other: NewTask,
    run: RunIdentity,
    commit: CommitRecord,
    workflow_run: WorkflowRunRecord,
)
    requires
        worker::is_commit_task(one, run, commit),
        worker::is_run_task(other, run, workflow_run),
    ensures
        one.run == run,
        one.kind == TaskKind::Refine(Entity::Commit),
        one.entity_id is Some,
        one.entity_id->0@ == commit.sha@,
        one.priority == TaskPriority::Normal,
        one.attempt == 0,
        other.run == run,
        other.kind == TaskKind::Refine(Entity::WorkflowRun),
        other.entity_id is Some,
        other.entity_id->0@ == decimal::integer_text(workflow_run.id as int),
        other.priority == TaskPriority::Normal,
        other.attempt == 0,
{
}

/// An issue is refined when its reactions or its timeline are collected for its
/// state, behind those refined before it.
pub proof fn issues_with_details_are_refined_in_order(
    collection: CollectionScope,
    issues: Seq<IssueRecord>,
    issue: IssueRecord,
)
    ensures
        worker::refined_issues(collection, Seq::empty()).len() == 0,
        collection.reactions == CollectionMode::All || collection.timeline == CollectionMode::All
            || (issue.state@ == "open"@ && (collection.reactions == CollectionMode::Open
            || collection.timeline == CollectionMode::Open)) ==> worker::refined_issues(
            collection,
            issues.push(issue),
        ) == worker::refined_issues(collection, issues).push(issue),
        collection.reactions == CollectionMode::Off && collection.timeline == CollectionMode::Off
            || (issue.state@ != "open"@ && collection.reactions != CollectionMode::All
            && collection.timeline != CollectionMode::All) ==> worker::refined_issues(
            collection,
            issues.push(issue),
        ) == worker::refined_issues(collection, issues),
{
    assert(issues.push(issue).drop_last() =~= issues);
}

/// There is one task for each issue that is refined, in order.
pub proof fn issue_tasks_follow_the_issues(
    tasks: Seq<NewTask>,
    run: RunIdentity,
    collection: CollectionScope,
    issues: Seq<IssueRecord>,
    i: int,
)
    requires
        worker::are_issue_tasks(tasks, run, collection, issues),
        0 <= i < tasks.len(),
    ensures
        tasks.len() == worker::refined_issues(collection, issues).len(),
        tasks[i].run == run,
        tasks[i].kind == TaskKind::Refine(Entity::Issue),
        tasks[i].entity_id is Some,
        tasks[i].entity_id->0@ == decimal::integer_text(
            worker::refined_issues(collection, issues)[i].number as int,
        ),
{
    assert(worker::is_issue_task(
        tasks[i],
        run,
        worker::refined_issues(collection, issues)[i],
    ));
}

/// What is fetched for an issue is what its urgency calls for: of an open one
/// what is collected for open ones, of any other what is collected for all.
pub proof fn details_of_an_issue_go_by_its_urgency(
    collection: CollectionScope,
    priority: TaskPriority,
)
    ensures
        ({
            let wants = worker::wants_of(collection, priority);
            let open = priority == TaskPriority::OpenIssue || priority == TaskPriority::OpenPr;
            &&& wants.reactions <==> collection.reactions == CollectionMode::All || (open
                && collection.reactions == CollectionMode::Open)
            &&& wants.timeline <==> collection.timeline == CollectionMode::All || (open
                && collection.timeline == CollectionMode::Open)
        }),
{
}

/// The number of a task is what its entity id says, where that is a number.
pub proof fn number_of_a_task_is_read_from_its_id(task: ExtractionTask, number: int)
    requires
        i64::MIN <= number <= i64::MAX,
    ensures
        task.entity_id is None ==> worker::numeric_id(task) is None,
        task.entity_id is Some && task.entity_id->0@ == decimal::integer_text(number)
            ==> worker::numeric_id(task) == Some(number),
        task.entity_id is Some && decimal::signed_value(task.entity_id->0@) is None
            ==> worker::numeric_id(task) is None,
{
    decimal::integer_text_reads_back(number);
}

/// A task that cannot be refined says why: the repository was not discovered, or
/// its entity id is not a number.
pub proof fn unrefinable_task_says_why(repo_id: i64, task: ExtractionTask, shown: Seq<char>)
    ensures
        worker::not_discovered() == ErrorView::Internal(
            "repository was not discovered before indexing"@,
        ),
        worker::refine_fault(None, task) == ErrorView::Internal(
            "repository was not discovered before indexing"@,
        ),
        worker::refine_fault(Some(repo_id), task) == ErrorView::Internal(
            task.kind.spec_entity_type() + " task without a numeric entity id: "@
                + worker::debug_text(json::text_of(task.entity_id)),
        ),
        worker::not_numeric(task.kind, shown) == ErrorView::Internal(
            task.kind.spec_entity_type() + " task without a numeric entity id: "@ + shown,
        ),
{
}

proof fn lemma_task_names_differ()
    ensures
        "issues"@ != "pull_requests"@,
        "issues"@ != "commits"@,
        "issues"@ != "metadata"@,
        "issues"@ != "actions"@,
        "pull_requests"@ != "commits"@,
        "pull_requests"@ != "metadata"@,
        "pull_requests"@ != "actions"@,
        "commits"@ != "metadata"@,
        "commits"@ != "actions"@,
        "metadata"@ != "actions"@,
        "issue"@ != "pull_request"@,
        "issue"@ != "commit"@,
        "issue"@ != "workflow_run"@,
        "pull_request"@ != "commit"@,
        "pull_request"@ != "workflow_run"@,
        "commit"@ != "workflow_run"@,
{
    reveal_strlit("issues");
    reveal_strlit("pull_requests");
    reveal_strlit("commits");
    reveal_strlit("metadata");
    reveal_strlit("actions");
    reveal_strlit("issue");
    reveal_strlit("pull_request");
    reveal_strlit("commit");
    reveal_strlit("workflow_run");
    assert("issues"@.len() == 6);
    assert("pull_requests"@.len() == 13);
    assert("commits"@.len() == 7);
    assert("metadata"@.len() == 8);
    assert("actions"@.len() == 7);
    assert("issue"@.len() == 5);
    assert("pull_request"@.len() == 12);
    assert("commit"@.len() == 6);
    assert("workflow_run"@.len() == 12);
    assert("commits"@[0] == 'c');
    assert("actions"@[0] == 'a');
    assert("pull_request"@[0] == 'p');
    assert("workflow_run"@[0] == 'w');
}

/// A task is dispatched by its phase and the name of what it is about.
pub proof fn tasks_are_dispatched_by_name()
    ensures
        worker::dispatched(TaskPhase::Indexing, "issues"@) == Some(TaskKind::Index(Family::Issues)),
        worker::dispatched(TaskPhase::Indexing, "pull_requests"@) == Some(
            TaskKind::Index(Family::PullRequests),
        ),
        worker::dispatched(TaskPhase::Indexing, "commits"@) == Some(
            TaskKind::Index(Family::Commits),
        ),
        worker::dispatched(TaskPhase::Indexing, "metadata"@) == Some(
            TaskKind::Index(Family::Metadata),
        ),
        worker::dispatched(TaskPhase::Indexing, "actions"@) == Some(
            TaskKind::Index(Family::Actions),
        ),
        worker::dispatched(TaskPhase::Refinement, "issue"@) == Some(
            TaskKind::Refine(Entity::Issue),
        ),
        worker::dispatched(TaskPhase::Refinement, "pull_request"@) == Some(
            TaskKind::Refine(Entity::PullRequest),
        ),
        worker::dispatched(TaskPhase::Refinement, "commit"@) == Some(
            TaskKind::Refine(Entity::Commit),
        ),
        worker::dispatched(TaskPhase::Refinement, "workflow_run"@) == Some(
            TaskKind::Refine(Entity::WorkflowRun),
        ),
{
    lemma_task_names_differ();
}

/// Discovery is about the repository, whatever it is called. No other name is
/// dispatched, and nothing in change detection or verification is.
pub proof fn other_tasks_are_not_dispatched(name: Seq<char>)
    ensures
        worker::dispatched(TaskPhase::Discovery, name) == Some(TaskKind::Discover),
        worker::dispatched(TaskPhase::ChangeDetection, name) is None,
        worker::dispatched(TaskPhase::Verification, name) is None,
        name != "issues"@ && name != "pull_requests"@ && name != "commits"@ && name != "metadata"@
            && name != "actions"@ ==> worker::dispatched(TaskPhase::Indexing, name) is None
            && !worker::handled(TaskPhase::Indexing, name),
        name != "issue"@ && name != "pull_request"@ && name != "commit"@ && name
            != "workflow_run"@ ==> worker::dispatched(TaskPhase::Refinement, name) is None
            && !worker::handled(TaskPhase::Refinement, name),
        worker::handled(TaskPhase::Discovery, name) <==> name == "repository"@,
        !worker::handled(TaskPhase::ChangeDetection, name),
        !worker::handled(TaskPhase::Verification, name),
        worker::handled(TaskPhase::Indexing, name) <==> worker::dispatched(
            TaskPhase::Indexing,
            name,
        ) is Some,
        worker::handled(TaskPhase::Refinement, name) <==> worker::dispatched(
            TaskPhase::Refinement,
            name,
        ) is Some,
{
}

} // verus!
