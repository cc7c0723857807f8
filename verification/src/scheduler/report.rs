//! How a run went, in tasks.

use crate::error;
use crate::error::DomainError;
use crate::scheduler::task::{ExtractionTask, TaskKind, TaskPhase};
use crate::text::joined;
use vstd::prelude::*;
use vstd::string::*;

verus! {

/// One task that did not finish, with the error it stopped on. A task that
/// vanished without an outcome has no kind.
#[derive(Debug)]
pub struct TaskFailure {
    pub kind: Option<TaskKind>,
    pub entity_id: Option<String>,
    pub error: DomainError,
}

/// How one run went, in tasks.
#[derive(Debug)]
pub struct RunReport {
    pub tasks_done: u64,
    pub failures: Vec<TaskFailure>,
    pub cancelled: bool,
}

/// How a spawned task ended.
#[derive(Debug)]
pub enum TaskOutcome {
    /// It succeeded.
    Done,
    /// It stopped on an error.
    Stopped(ExtractionTask, DomainError),
    /// It ended without an outcome; the words say how.
    Vanished(String),
}

/// The phase and entity type a failure is reported under.
pub open spec fn reported_phase(kind: Option<TaskKind>) -> TaskPhase {
    match kind {
        Some(kind) => kind.spec_phase(),
        None => TaskPhase::Refinement,
    }
}

pub open spec fn reported_type(kind: Option<TaskKind>) -> Seq<char> {
    match kind {
        Some(kind) => kind.spec_entity_type(),
        None => "task"@,
    }
}

/// The words of a failure: phase, entity type, entity id if there is one, and
/// the error.
pub open spec fn failure_text(failure: TaskFailure) -> Seq<char> {
    let head = reported_phase(failure.kind).spec_name() + " "@ + reported_type(failure.kind);
    let about = match failure.entity_id {
        Some(id) => head + " "@ + id@,
        None => head,
    };
    about + ": "@ + error::error_text(failure.error@)
}

impl TaskFailure {
    /// The phase the failure is reported under.
    pub fn phase(&self) -> (out: TaskPhase)
        ensures
            out == reported_phase(self.kind),
    {
        match self.kind {
            Some(kind) => kind.phase(),
            None => TaskPhase::Refinement,
        }
    }

    /// The entity type the failure is reported under.
    pub fn entity_type(&self) -> (out: &'static str)
        ensures
            out@ == reported_type(self.kind),
    {
        match self.kind {
            Some(kind) => kind.entity_type(),
            None => "task",
        }
    }

    /// The words of the failure.
    pub fn message(&self) -> (out: String)
        ensures
            out@ == failure_text(*self),
    {
        let mut out = joined(joined(self.phase().name(), " ").as_str(), self.entity_type());
        match &self.entity_id {
            Some(id) => {
                out.append(" ");
                out.append(id.as_str());
            },
            None => {},
        }
        out.append(": ");
        let words = self.error.message();
        out.append(words.as_str());
        out
    }
}

/// The failure an outcome is.
pub open spec fn is_failure_of(failure: TaskFailure, outcome: TaskOutcome) -> bool {
    match outcome {
        TaskOutcome::Done => false,
        TaskOutcome::Stopped(task, error) => {
            &&& failure.kind == Some(task.kind)
            &&& failure.entity_id == task.entity_id
            &&& failure.error == error
        },
        TaskOutcome::Vanished(words) => {
            &&& failure.kind is None
            &&& failure.entity_id is None
            &&& failure.error@ == error::ErrorView::Internal(
                "sync task did not finish cleanly: "@ + words@,
            )
        },
    }
}

impl RunReport {
    /// Nothing done yet.
    pub fn new() -> (out: Self)
        ensures
            out.tasks_done == 0,
            out.failures@.len() == 0,
            !out.cancelled,
    {
        RunReport { tasks_done: 0, failures: Vec::new(), cancelled: false }
    }

    /// How many tasks failed.
    pub fn tasks_failed(&self) -> (out: u64)
        ensures
            out == self.failures@.len(),
    {
        self.failures.len() as u64
    }

    /// Takes one outcome into account.
    pub fn account(&mut self, outcome: TaskOutcome)
        requires
            old(self).tasks_done < u64::MAX,
        ensures
            final(self).cancelled == old(self).cancelled,
            outcome is Done ==> final(self).tasks_done == old(self).tasks_done + 1
                && final(self).failures == old(self).failures,
            !(outcome is Done) ==> {
                &&& final(self).tasks_done == old(self).tasks_done
                &&& final(self).failures@.len() == old(self).failures@.len() + 1
                &&& final(self).failures@.drop_last() == old(self).failures@
                &&& is_failure_of(final(self).failures@.last(), outcome)
            },
    {
        let ghost before = self.failures@;
        match outcome {
            TaskOutcome::Done => {
                self.tasks_done = self.tasks_done + 1;
            },
            TaskOutcome::Stopped(task, error) => {
                self.failures.push(
                    TaskFailure { kind: Some(task.kind), entity_id: task.entity_id, error },
                );
                assert(self.failures@.drop_last() =~= before);
            },
            TaskOutcome::Vanished(words) => {
                self.failures.push(
                    TaskFailure {
                        kind: None,
                        entity_id: None,
                        error: DomainError::Internal(
                            joined("sync task did not finish cleanly: ", words.as_str()),
                        ),
                    },
                );
                assert(self.failures@.drop_last() =~= before);
            },
        }
    }
}

} // verus!
