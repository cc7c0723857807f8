//! One sync of a repository, from leave to summary: what is asked for, fetched
//! and written, in which order, and what ends it.

use crate::context::SecurityContext;
use crate::error::DomainError;
use crate::ports::{FetchOptions, FetchedRepository};
use crate::records::RepoRecord;
use crate::service::access;
use crate::service::access::{ask, AccessCheck, Action, Resource};
use crate::service::progress;
use crate::service::progress::{SyncProgress, PROGRESS_FETCHED, PROGRESS_STORED};
use crate::service::queries::Service;
use crate::service::store;
use crate::service::store::{plan_of, report, MirrorWrite};
use crate::summary;
use crate::summary::{RowCounts, SyncSummary};
use std::collections::VecDeque;
use vstd::prelude::*;
use vstd::string::*;

verus! {

/// What the caller of a sync has to do next. A write is done with the leave
/// that was given for the check it names.
pub enum SyncAction {
    /// Ask the policy.
    Authorise(AccessCheck),
    /// Fetch a repository, given by its owner and name.
    Fetch(String, String, FetchOptions),
    /// Write the repository in a tenant.
    SaveRepository(AccessCheck, u128, RepoRecord),
    /// Write a row in a tenant.
    SaveRow(AccessCheck, u128, MirrorWrite),
    /// Nothing more: this is the answer.
    Return(Result<SyncSummary, DomainError>),
}

/// How what was to be done went.
pub enum SyncEvent {
    /// Nothing was to be done yet.
    Begin,
    /// It failed, or was denied.
    Refused(DomainError),
    /// Leave was given.
    Granted,
    /// What was fetched.
    Fetched(FetchedRepository),
    /// The repository as it was stored.
    Stored(RepoRecord),
    /// The row was written.
    Written,
}

/// Where a sync stands.
#[derive(Debug, Clone, Copy, PartialEq, Eq, Structural)]
pub enum SyncStage {
    New,
    Authorising,
    Fetching,
    SavingRepository,
    SavingRows,
    Over,
}

/// A sync of one repository: asks for leave, fetches everything, writes the
/// repository and then its rows one by one. The first thing that fails ends it.
pub struct SyncRepository {
    pub ctx: SecurityContext,
    pub owner: String,
    pub name: String,
    pub options: FetchOptions,
    pub stage: SyncStage,
    /// The name the repository was stored under.
    pub full_name: Option<String>,
    /// The rows that are still to be written, in order.
    pub remaining: VecDeque<MirrorWrite>,
    /// How many rows each table gets.
    pub counts: RowCounts,
}

/// Progress after a step: raised once everything is fetched, and again once
/// everything is written.
pub open spec fn progress_after(percent: u8, event: SyncEvent, out: SyncAction) -> u8 {
    if event is Fetched {
        progress::raised(percent, PROGRESS_FETCHED)
    } else if out is Return && out->Return_0 is Ok {
        progress::raised(percent, PROGRESS_STORED)
    } else {
        percent
    }
}

fn queued(writes: Vec<MirrorWrite>) -> (out: VecDeque<MirrorWrite>)
    ensures
        out@ == writes@,
{
    let mut out: VecDeque<MirrorWrite> = VecDeque::new();
    for write in it: writes
        invariant
            it.seq() == writes@,
            out@ == writes@.take(it.index() as int),
    {
        out.push_back(write);
    }
    assert(writes@.take(writes@.len() as int) =~= writes@);
    out
}

impl SyncRepository {
    /// A sync that nothing has been done for.
    pub fn new(ctx: &SecurityContext, owner: &str, name: &str, options: &FetchOptions) -> (out: Self)
        ensures
            out.wf(),
            out.ctx == *ctx,
            out.owner@ == owner@,
            out.name@ == name@,
            out.options == *options,
            out.stage == SyncStage::New,
    {
        SyncRepository {
            ctx: *ctx,
            owner: owner.to_owned(),
            name: name.to_owned(),
            options: *options,
            stage: SyncStage::New,
            full_name: None,
            remaining: VecDeque::new(),
            counts: RowCounts::none(),
        }
    }

    /// The stored name is known while rows are written.
    pub open spec fn wf(&self) -> bool {
        self.stage == SyncStage::SavingRows ==> self.full_name is Some
    }

    /// The event answers the action that was asked for last.
    pub open spec fn answers(&self, event: SyncEvent) -> bool {
        match self.stage {
            SyncStage::New => event is Begin,
            SyncStage::Authorising => event is Granted || event is Refused,
            SyncStage::Fetching => event is Fetched || event is Refused,
            SyncStage::SavingRepository => event is Stored || event is Refused,
            SyncStage::SavingRows => event is Written || event is Refused,
            SyncStage::Over => false,
        }
    }

    /// The leave that the sync writes with.
    pub open spec fn check(&self) -> AccessCheck {
        access::access(self.ctx, Resource::Sync, Action::Sync)
    }

    /// The two differ in how far they are and in nothing else.
    pub open spec fn is_same_sync(&self, other: SyncRepository) -> bool {
        &&& self.ctx == other.ctx
        &&& self.owner == other.owner
        &&& self.name == other.name
        &&& self.options == other.options
    }

    /// The next row is to be written, or everything has been: then the sync
    /// succeeds with its counts, under the stored name.
    pub open spec fn goes_on(&self, full_name: String, out: SyncAction, next: SyncRepository) -> bool {
        &&& next.counts == self.counts
        &&& if self.remaining@.len() > 0 {
            &&& out == SyncAction::SaveRow(
                self.check(),
                self.ctx.subject_tenant_id,
                self.remaining@[0],
            )
            &&& next.stage == SyncStage::SavingRows
            &&& next.remaining@ == self.remaining@.skip(1)
            &&& next.full_name is Some
            &&& next.full_name->0@ == full_name@
        } else {
            &&& out is Return
            &&& out->Return_0 is Ok
            &&& out->Return_0->Ok_0 == summary::summary_of(full_name, self.counts)
            &&& next.stage == SyncStage::Over
        }
    }

    /// The next action is the right one for where the sync stood.
    pub open spec fn asks(&self, event: SyncEvent, out: SyncAction, next: SyncRepository) -> bool {
        &&& next.is_same_sync(*self)
        &&& match (self.stage, event) {
            (_, SyncEvent::Refused(error)) => {
                &&& out == SyncAction::Return(Err(error))
                &&& next.stage == SyncStage::Over
            },
            (SyncStage::New, _) => {
                &&& out == SyncAction::Authorise(self.check())
                &&& next.stage == SyncStage::Authorising
            },
            (SyncStage::Authorising, _) => {
                &&& out == SyncAction::Fetch(self.owner, self.name, self.options)
                &&& next.stage == SyncStage::Fetching
            },
            (SyncStage::Fetching, SyncEvent::Fetched(fetched)) => {
                &&& out == SyncAction::SaveRepository(
                    self.check(),
                    self.ctx.subject_tenant_id,
                    fetched.repository,
                )
                &&& next.stage == SyncStage::SavingRepository
                &&& next.remaining@ == store::writes_of(fetched)
                &&& next.counts == store::counts_of(fetched)
            },
            (SyncStage::SavingRepository, SyncEvent::Stored(stored)) => self.goes_on(
                stored.full_name,
                out,
                next,
            ),
            (SyncStage::SavingRows, SyncEvent::Written) => self.goes_on(
                self.full_name->0,
                out,
                next,
            ),
            _ => false,
        }
    }

    /// What to do next, given how the last thing went.
    pub fn step(&mut self, event: SyncEvent, progress: &mut SyncProgress) -> (out: SyncAction)
        requires
            old(self).wf(),
            old(self).answers(event),
        ensures
            final(self).wf(),
            old(self).asks(event, out, *final(self)),
            event is Refused ==> out == SyncAction::Return(Err(event->Refused_0))
                && final(progress)@ == old(progress)@,
            event is Fetched ==> final(progress)@ == progress::raised(
                old(progress)@,
                PROGRESS_FETCHED,
            ),
            out is Return && out->Return_0 is Ok ==> final(progress)@ == progress::raised(
                old(progress)@,
                PROGRESS_STORED,
            ),
            final(progress)@ == progress_after(old(progress)@, event, out),
            final(progress).counter() == old(progress).counter(),
    {
        match event {
            SyncEvent::Refused(error) => {
                self.stage = SyncStage::Over;
                SyncAction::Return(Err(error))
            },
            SyncEvent::Begin => {
                self.stage = SyncStage::Authorising;
                SyncAction::Authorise(ask(&self.ctx, Resource::Sync, Action::Sync))
            },
            SyncEvent::Granted => {
                self.stage = SyncStage::Fetching;
                SyncAction::Fetch(self.owner.clone(), self.name.clone(), self.options)
            },
            SyncEvent::Fetched(fetched) => {
                progress.fetched();
                let plan = plan_of(fetched);
                self.stage = SyncStage::SavingRepository;
                self.remaining = queued(plan.writes);
                self.counts = plan.counts;
                SyncAction::SaveRepository(
                    ask(&self.ctx, Resource::Sync, Action::Sync),
                    self.ctx.subject_tenant_id,
                    plan.repository,
                )
            },
            SyncEvent::Stored(stored) => self.write_next(stored.full_name, progress),
            SyncEvent::Written => {
                let mut full_name: Option<String> = None;
                std::mem::swap(&mut full_name, &mut self.full_name);
                match full_name {
                    Some(full_name) => self.write_next(full_name, progress),
                    None => SyncAction::Return(Err(DomainError::NotFound)),
                }
            },
        }
    }

    fn write_next(&mut self, full_name: String, progress: &mut SyncProgress) -> (out: SyncAction)
        ensures
            final(self).wf(),
            final(self).is_same_sync(*old(self)),
            old(self).goes_on(full_name, out, *final(self)),
            final(progress)@ == if old(self).remaining@.len() > 0 {
                old(progress)@
            } else {
                progress::raised(old(progress)@, PROGRESS_STORED)
            },
            final(progress).counter() == old(progress).counter(),
    {
        let ghost before = self.remaining@;
        match self.remaining.pop_front() {
            Some(write) => {
                assert(self.remaining@ =~= before.skip(1));
                self.stage = SyncStage::SavingRows;
                self.full_name = Some(full_name);
                SyncAction::SaveRow(
                    ask(&self.ctx, Resource::Sync, Action::Sync),
                    self.ctx.subject_tenant_id,
                    write,
                )
            },
            None => {
                progress.stored();
                self.stage = SyncStage::Over;
                SyncAction::Return(Ok(report(full_name, self.counts)))
            },
        }
    }
}

impl Service {
    /// A sync of a repository for a caller.
    pub fn sync_repository(
        &self,
        ctx: &SecurityContext,
        owner: &str,
        name: &str,
        options: &FetchOptions,
    ) -> (out: SyncRepository)
        ensures
            out.wf(),
            out.ctx == *ctx,
            out.owner@ == owner@,
            out.name@ == name@,
            out.options == *options,
            out.stage == SyncStage::New,
    {
        SyncRepository::new(ctx, owner, name, options)
    }
}

// ---------------------------------------------------------------------------
// Whole runs
// ---------------------------------------------------------------------------

/// A sync as far as it went: after event `i` it asked for action `i` and stood
/// as in state `i + 1`, with progress `i + 1`.
pub struct SyncRun {
    pub states: Seq<SyncRepository>,
    pub progress: Seq<u8>,
    pub events: Seq<SyncEvent>,
    pub actions: Seq<SyncAction>,
}

/// Step `i` of a run is one of the machine's.
pub open spec fn is_step(run: SyncRun, i: int) -> bool {
    &&& run.states[i].wf()
    &&& run.states[i].answers(run.events[i])
    &&& run.states[i].asks(run.events[i], run.actions[i], run.states[i + 1])
    &&& run.progress[i + 1] == progress_after(run.progress[i], run.events[i], run.actions[i])
}

/// A run from the beginning.
pub open spec fn is_run(run: SyncRun) -> bool {
    &&& run.actions.len() == run.events.len()
    &&& run.states.len() == run.events.len() + 1
    &&& run.progress.len() == run.events.len() + 1
    &&& run.states[0].stage == SyncStage::New
    &&& forall|i: int| 0 <= i < run.events.len() ==> #[trigger] is_step(run, i)
}

/// The stages come in order, and nothing at all is asked for after the answer.
proof fn lemma_stages(run: SyncRun, i: int)
    requires
        is_run(run),
        0 <= i < run.events.len(),
    ensures
        i == 0 <==> run.states[i].stage == SyncStage::New,
        i == 1 <==> run.states[i].stage == SyncStage::Authorising,
        i == 2 <==> run.states[i].stage == SyncStage::Fetching,
        i == 3 <==> run.states[i].stage == SyncStage::SavingRepository,
        i > 3 <==> run.states[i].stage == SyncStage::SavingRows,
        i > 0 ==> !(run.actions[i - 1] is Return) && !(run.events[i - 1] is Refused),
    decreases i,
{
    assert(is_step(run, i));
    if i > 0 {
        lemma_stages(run, i - 1);
        assert(is_step(run, i - 1));
    }
}

/// Progress is short of "stored" as long as the run goes on.
proof fn lemma_progress_so_far(run: SyncRun, i: int)
    requires
        is_run(run),
        run.progress[0] < PROGRESS_STORED,
        0 <= i < run.events.len(),
    ensures
        run.progress[i] < PROGRESS_STORED,
    decreases i,
{
    if i > 0 {
        lemma_progress_so_far(run, i - 1);
        lemma_stages(run, i);
        assert(is_step(run, i - 1));
    }
}

/// The run has given its answer.
pub open spec fn is_over(run: SyncRun) -> bool {
    run.events.len() > 0 && run.actions.last() is Return
}

/// A sync that began short of "stored" ends there exactly when it succeeded.
pub proof fn stored_means_success(run: SyncRun)
    requires
        is_run(run),
        is_over(run),
        run.progress[0] < PROGRESS_STORED,
    ensures
        run.progress.last() == PROGRESS_STORED <==> run.actions.last()->Return_0 is Ok,
        run.actions.last()->Return_0 is Err ==> run.progress.last() < PROGRESS_STORED,
{
    let last = run.events.len() - 1;
    assert(is_step(run, last));
    lemma_progress_so_far(run, last);
}

/// The first thing that fails ends the sync with its error, and leaves progress
/// where it was. Nothing is asked for after it.
pub proof fn first_failure_ends_the_sync(run: SyncRun, i: int)
    requires
        is_run(run),
        0 <= i < run.events.len(),
        run.events[i] is Refused,
    ensures
        i == run.events.len() - 1,
        run.actions[i] == SyncAction::Return(Err(run.events[i]->Refused_0)),
        run.progress[i + 1] == run.progress[i],
{
    assert(is_step(run, i));
    if i + 1 < run.events.len() {
        lemma_stages(run, i + 1);
    }
}

/// A denied sync fetches nothing and writes nothing, and one whose fetch failed
/// writes nothing. Both leave progress as it was.
pub proof fn nothing_is_written_before_the_fetch(run: SyncRun, i: int)
    requires
        is_run(run),
        0 <= i < run.events.len(),
        i < 3,
        run.events[i] is Refused,
    ensures
        run.progress.last() == run.progress[0],
        forall|j: int|
            0 <= j < run.actions.len() ==> !(#[trigger] run.actions[j] is SaveRepository)
                && !(run.actions[j] is SaveRow),
        i < 2 ==> forall|j: int|
            0 <= j < run.actions.len() ==> !(#[trigger] run.actions[j] is Fetch),
{
    first_failure_ends_the_sync(run, i);
    assert forall|j: int| 0 <= j < run.actions.len() implies !(#[trigger] run.actions[j]
        is SaveRepository) && !(run.actions[j] is SaveRow) && (i < 2 ==> !(run.actions[j]
        is Fetch)) by {
        assert(is_step(run, j));
        lemma_stages(run, j);
    }
    assert(is_step(run, 0));
    if i >= 1 {
        assert(is_step(run, 1));
    }
    if i >= 2 {
        assert(is_step(run, 2));
        lemma_stages(run, 1);
        lemma_stages(run, 2);
    }
}

proof fn lemma_rows_so_far(run: SyncRun, i: int)
    requires
        is_run(run),
        3 <= i < run.events.len(),
    ensures
        run.events[2] is Fetched,
        run.states[i].counts == store::counts_of(run.events[2]->Fetched_0),
        i - 3 <= store::writes_of(run.events[2]->Fetched_0).len(),
        run.states[i].remaining@ == store::writes_of(run.events[2]->Fetched_0).skip(i - 3),
        i > 3 ==> run.events[3] is Stored && run.states[i].full_name is Some
            && run.states[i].full_name->0@ == run.events[3]->Stored_0.full_name@,
    decreases i,
{
    let writes = store::writes_of(run.events[2]->Fetched_0);
    lemma_stages(run, i);
    lemma_stages(run, i - 1);
    assert(is_step(run, i - 1));
    if i == 3 {
        assert(writes.skip(0) =~= writes);
    } else {
        lemma_rows_so_far(run, i - 1);
        assert(writes.skip(i - 4).skip(1) =~= writes.skip(i - 3));
    }
}

/// A sync writes the repository it fetched and then its rows, one by one and in
/// order. It succeeds only once every row was written, and then reports as many
/// rows as were fetched, under the name the repository was stored with.
pub proof fn rows_are_written_in_order(run: SyncRun, i: int)
    requires
        is_run(run),
        0 <= i < run.events.len(),
    ensures
        run.actions[i] is SaveRepository ==> i == 2 && run.events[2] is Fetched
            && run.actions[i]->SaveRepository_2 == run.events[2]->Fetched_0.repository,
        run.actions[i] is SaveRow ==> i >= 3 && i - 3 < store::writes_of(
            run.events[2]->Fetched_0,
        ).len() && run.actions[i]->SaveRow_2 == store::writes_of(run.events[2]->Fetched_0)[i - 3],
        run.actions[i] is Return && run.actions[i]->Return_0 is Ok ==> {
            &&& i == store::writes_of(run.events[2]->Fetched_0).len() + 3
            &&& run.events[3] is Stored
            &&& run.actions[i]->Return_0->Ok_0.repository@ == run.events[3]->Stored_0.full_name@
            &&& run.actions[i]->Return_0->Ok_0 == summary::summary_of(
                run.actions[i]->Return_0->Ok_0.repository,
                store::counts_of(run.events[2]->Fetched_0),
            )
        },
{
    assert(is_step(run, i));
    lemma_stages(run, i);
    if i >= 3 {
        lemma_rows_so_far(run, i);
    }
}

/// A sync that succeeded has written every row it fetched: the row at any place of
/// what is to be written was asked for once the rows before it were.
pub proof fn successful_sync_has_written_every_row(run: SyncRun, place: int)
    requires
        is_run(run),
        is_over(run),
        run.actions.last()->Return_0 is Ok,
        0 <= place < store::writes_of(run.events[2]->Fetched_0).len(),
    ensures
        place + 3 < run.actions.len(),
        run.actions[place + 3] is SaveRow,
        run.actions[place + 3]->SaveRow_2 == store::writes_of(run.events[2]->Fetched_0)[place],
{
    let last = run.events.len() - 1;
    rows_are_written_in_order(run, last);
    rows_are_written_in_order(run, place + 3);
    lemma_stages(run, place + 3);
    lemma_stages(run, place + 4);
    assert(is_step(run, place + 3));
}

} // verus!
