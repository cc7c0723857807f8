//! The tasks of one run, and how far each of them is.

use crate::scheduler::task::{ExtractionTask, NewTask, TaskPhase};
use vstd::prelude::*;

verus! {

/// How far a task is.
#[derive(Debug, Clone, Copy, PartialEq, Eq, Structural)]
pub enum TaskState {
    Pending,
    Claimed,
    Completed,
    Failed,
}

/// A queued task and how far it is.
#[derive(Debug)]
pub struct TaskEntry {
    pub task: ExtractionTask,
    pub state: TaskState,
}

/// Tasks of one phase, and those of them that are not finished.
#[derive(Debug, Clone, Copy, PartialEq, Eq, Structural)]
pub struct PhaseCount {
    pub total: u64,
    pub unfinished: u64,
}

/// The tasks of one run, in the order they were queued. A task's id is its
/// place.
#[derive(Debug)]
pub struct TaskQueue {
    entries: Vec<TaskEntry>,
}

impl View for TaskQueue {
    type V = Seq<TaskEntry>;

    closed spec fn view(&self) -> Seq<TaskEntry> {
        self.entries@
    }
}

/// The task that a request becomes.
pub open spec fn task_of(new: NewTask, id: u64) -> ExtractionTask {
    ExtractionTask {
        id,
        run: new.run,
        kind: new.kind,
        entity_id: new.entity_id,
        priority: new.priority,
        attempt: new.attempt,
    }
}

/// The task can be claimed for a session and some phases.
pub open spec fn claimable(entry: TaskEntry, session_id: u128, phases: Seq<TaskPhase>) -> bool {
    &&& entry.state == TaskState::Pending
    &&& entry.task.run.session_id == session_id
    &&& phases.contains(entry.task.kind.spec_phase())
}

/// Between two claimable tasks the more urgent goes first, and the older of
/// two equally urgent ones.
pub open spec fn goes_first(entries: Seq<TaskEntry>, one: int, other: int) -> bool {
    let rank = entries[one].task.priority.spec_rank();
    let other_rank = entries[other].task.priority.spec_rank();
    rank < other_rank || (rank == other_rank && one <= other)
}

/// The place holds the task to claim next.
pub open spec fn next_in_line(
    entries: Seq<TaskEntry>,
    session_id: u128,
    phases: Seq<TaskPhase>,
    place: int,
) -> bool {
    &&& 0 <= place < entries.len()
    &&& claimable(entries[place], session_id, phases)
    &&& forall|i: int|
        0 <= i < entries.len() && #[trigger] claimable(entries[i], session_id, phases)
            ==> goes_first(entries, place, i)
}

/// The entries with the state of one changed.
pub open spec fn with_state(entries: Seq<TaskEntry>, place: int, state: TaskState) -> Seq<
    TaskEntry,
> {
    entries.update(place, TaskEntry { task: entries[place].task, state })
}

pub open spec fn unfinished(entry: TaskEntry) -> bool {
    entry.state == TaskState::Pending || entry.state == TaskState::Claimed
}

/// How many tasks of a session wait to be claimed.
pub open spec fn pending_in(entries: Seq<TaskEntry>, session_id: u128) -> nat
    decreases entries.len(),
{
    if entries.len() == 0 {
        0
    } else {
        let last = entries.last();
        pending_in(entries.drop_last(), session_id) + if last.state == TaskState::Pending
            && last.task.run.session_id == session_id {
            1nat
        } else {
            0nat
        }
    }
}

/// How many tasks of a phase there are.
pub open spec fn total_in(entries: Seq<TaskEntry>, phase: TaskPhase) -> nat
    decreases entries.len(),
{
    if entries.len() == 0 {
        0
    } else {
        total_in(entries.drop_last(), phase) + if entries.last().task.kind.spec_phase() == phase {
            1nat
        } else {
            0nat
        }
    }
}

/// How many tasks of a phase are not finished.
pub open spec fn unfinished_in(entries: Seq<TaskEntry>, phase: TaskPhase) -> nat
    decreases entries.len(),
{
    if entries.len() == 0 {
        0
    } else {
        unfinished_in(entries.drop_last(), phase) + if entries.last().task.kind.spec_phase()
            == phase && unfinished(entries.last()) {
            1nat
        } else {
            0nat
        }
    }
}

fn among(phases: &[TaskPhase], phase: TaskPhase) -> (out: bool)
    ensures
        out == phases@.contains(phase),
{
    let mut i: usize = 0;
    while i < phases.len()
        invariant
            i <= phases@.len(),
            forall|j: int| 0 <= j < i ==> phases@[j] != phase,
        decreases phases@.len() - i,
    {
        if phases[i] == phase {
            assert(phases@[i as int] == phase);
            return true;
        }
        i = i + 1;
    }
    false
}

impl TaskQueue {
    /// Every task's id is its place.
    pub open spec fn wf(&self) -> bool {
        &&& self@.len() <= u64::MAX
        &&& forall|i: int| 0 <= i < self@.len() ==> (#[trigger] self@[i]).task.id == i
    }

    /// No tasks.
    pub fn new() -> (out: Self)
        ensures
            out.wf(),
            out@.len() == 0,
    {
        TaskQueue { entries: Vec::new() }
    }

    /// Whether no further task has an id left.
    pub fn is_full(&self) -> (out: bool)
        ensures
            out == (self@.len() >= u64::MAX),
    {
        self.entries.len() as u64 >= u64::MAX
    }

    /// Queues a task; its id.
    pub fn enqueue_task(&mut self, new: NewTask) -> (out: u64)
        requires
            old(self).wf(),
            old(self)@.len() < u64::MAX,
        ensures
            final(self).wf(),
            out == old(self)@.len(),
            final(self)@ == old(self)@.push(
                TaskEntry { task: task_of(new, out), state: TaskState::Pending },
            ),
    {
        let id: u64 = self.entries.len() as u64;
        self.entries.push(
            TaskEntry {
                task: ExtractionTask {
                    id,
                    run: new.run,
                    kind: new.kind,
                    entity_id: new.entity_id,
                    priority: new.priority,
                    attempt: new.attempt,
                },
                state: TaskState::Pending,
            },
        );
        id
    }

    fn set_state(&mut self, place: usize, state: TaskState)
        requires
            old(self).wf(),
            place < old(self)@.len(),
        ensures
            final(self).wf(),
            final(self)@ == with_state(old(self)@, place as int, state),
    {
        let task = self.entries[place].task.copied();
        self.entries.set(place, TaskEntry { task, state });
    }

    /// Claims the next task of a session in one of the phases.
    pub fn claim_next_task_in(&mut self, session_id: u128, phases: &[TaskPhase]) -> (out: Option<
        ExtractionTask,
    >)
        requires
            old(self).wf(),
        ensures
            final(self).wf(),
            match out {
                Some(task) => {
                    &&& next_in_line(old(self)@, session_id, phases@, task.id as int)
                    &&& task == old(self)@[task.id as int].task
                    &&& final(self)@ == with_state(old(self)@, task.id as int, TaskState::Claimed)
                },
                None => {
                    &&& forall|i: int|
                        0 <= i < old(self)@.len() ==> !#[trigger] claimable(
                            old(self)@[i],
                            session_id,
                            phases@,
                        )
                    &&& final(self)@ == old(self)@
                },
            },
    {
        let mut best: Option<usize> = None;
        let mut i: usize = 0;
        while i < self.entries.len()
            invariant
                i <= self@.len(),
                match best {
                    Some(place) => {
                        &&& place < i
                        &&& claimable(self@[place as int], session_id, phases@)
                        &&& forall|j: int|
                            0 <= j < i && #[trigger] claimable(self@[j], session_id, phases@)
                                ==> goes_first(self@, place as int, j)
                    },
                    None => forall|j: int|
                        0 <= j < i ==> !#[trigger] claimable(self@[j], session_id, phases@),
                },
            decreases self@.len() - i,
        {
            let entry = &self.entries[i];
            if entry.state == TaskState::Pending && entry.task.run.session_id == session_id
                && among(phases, entry.task.kind.phase()) {
                assert(claimable(self@[i as int], session_id, phases@));
                match best {
                    Some(place) => {
                        if entry.task.priority.rank() < self.entries[place].task.priority.rank() {
                            best = Some(i);
                        }
                    },
                    None => {
                        best = Some(i);
                    },
                }
            } else {
                assert(!claimable(self@[i as int], session_id, phases@));
            }
            i = i + 1;
        }
        match best {
            Some(place) => {
                let task = self.entries[place].task.copied();
                assert(self@[place as int].task.id == place);
                self.set_state(place, TaskState::Claimed);
                Some(task)
            },
            None => None,
        }
    }

    /// The task succeeded.
    pub fn complete_task(&mut self, id: u64)
        requires
            old(self).wf(),
            id < old(self)@.len(),
        ensures
            final(self).wf(),
            final(self)@ == with_state(old(self)@, id as int, TaskState::Completed),
    {
        let queued: usize = self.entries.len();
        assert(id < queued);
        self.set_state(id as usize, TaskState::Completed);
    }

    /// The task failed for good.
    pub fn fail_task(&mut self, id: u64)
        requires
            old(self).wf(),
            id < old(self)@.len(),
        ensures
            final(self).wf(),
            final(self)@ == with_state(old(self)@, id as int, TaskState::Failed),
    {
        let queued: usize = self.entries.len();
        assert(id < queued);
        self.set_state(id as usize, TaskState::Failed);
    }

    /// How many tasks of a session wait to be claimed.
    pub fn pending_count(&self, session_id: u128) -> (out: u64)
        requires
            self.wf(),
        ensures
            out == pending_in(self@, session_id),
    {
        let mut count: u64 = 0;
        let mut i: usize = 0;
        while i < self.entries.len()
            invariant
                self.wf(),
                i <= self@.len(),
                count <= i,
                count == pending_in(self@.take(i as int), session_id),
            decreases self@.len() - i,
        {
            assert(self@.take(i + 1).drop_last() =~= self@.take(i as int));
            let entry = &self.entries[i];
            if entry.state == TaskState::Pending && entry.task.run.session_id == session_id {
                count = count + 1;
            }
            i = i + 1;
        }
        assert(self@.take(i as int) =~= self@);
        count
    }

    /// How many tasks of a phase there are, and how many are not finished.
    pub fn phase_count(&self, phase: TaskPhase) -> (out: PhaseCount)
        requires
            self.wf(),
        ensures
            out.total == total_in(self@, phase),
            out.unfinished == unfinished_in(self@, phase),
            out.unfinished <= out.total,
    {
        let mut total: u64 = 0;
        let mut left: u64 = 0;
        let mut i: usize = 0;
        while i < self.entries.len()
            invariant
                self.wf(),
                i <= self@.len(),
                left <= total <= i,
                total == total_in(self@.take(i as int), phase),
                left == unfinished_in(self@.take(i as int), phase),
            decreases self@.len() - i,
        {
            assert(self@.take(i + 1).drop_last() =~= self@.take(i as int));
            let entry = &self.entries[i];
            if entry.task.kind.phase() == phase {
                total = total + 1;
                if entry.state == TaskState::Pending || entry.state == TaskState::Claimed {
                    left = left + 1;
                }
            }
            i = i + 1;
        }
        assert(self@.take(i as int) =~= self@);
        PhaseCount { total, unfinished: left }
    }
}

/// Changing how far a task is changes no total, and the unfinished ones of its
/// phase only.
pub proof fn lemma_counts_with_state(
    entries: Seq<TaskEntry>,
    place: int,
    state: TaskState,
    phase: TaskPhase,
)
    requires
        0 <= place < entries.len(),
    ensures
        total_in(with_state(entries, place, state), phase) == total_in(entries, phase),
        entries[place].task.kind.spec_phase() != phase ==> unfinished_in(
            with_state(entries, place, state),
            phase,
        ) == unfinished_in(entries, phase),
        state == TaskState::Completed || state == TaskState::Failed ==> unfinished_in(
            with_state(entries, place, state),
            phase,
        ) <= unfinished_in(entries, phase),
        unfinished(entries[place]) && state == TaskState::Claimed ==> unfinished_in(
            with_state(entries, place, state),
            phase,
        ) == unfinished_in(entries, phase),
    decreases entries.len(),
{
    let changed = with_state(entries, place, state);
    if place < entries.len() - 1 {
        lemma_counts_with_state(entries.drop_last(), place, state, phase);
        assert(changed.drop_last() =~= with_state(entries.drop_last(), place, state));
    } else {
        assert(changed.drop_last() =~= entries.drop_last());
    }
}

/// A phase has no more unfinished tasks than it has tasks, and a queue no fewer
/// tasks than one of its phases.
pub proof fn lemma_counts_are_ordered(entries: Seq<TaskEntry>, phase: TaskPhase)
    ensures
        unfinished_in(entries, phase) <= total_in(entries, phase) <= entries.len(),
    decreases entries.len(),
{
    if entries.len() > 0 {
        lemma_counts_are_ordered(entries.drop_last(), phase);
    }
}

/// There is one task to claim next at most.
pub proof fn next_in_line_is_one(
    entries: Seq<TaskEntry>,
    session_id: u128,
    phases: Seq<TaskPhase>,
    one: int,
    other: int,
)
    requires
        next_in_line(entries, session_id, phases, one),
        next_in_line(entries, session_id, phases, other),
    ensures
        one == other,
{
    assert(claimable(entries[one], session_id, phases));
    assert(claimable(entries[other], session_id, phases));
}

/// A claimed task is not claimed again.
pub proof fn claims_are_not_repeated(
    entries: Seq<TaskEntry>,
    session_id: u128,
    phases: Seq<TaskPhase>,
    place: int,
)
    requires
        0 <= place < entries.len(),
    ensures
        !next_in_line(with_state(entries, place, TaskState::Claimed), session_id, phases, place),
{
}

} // verus!
