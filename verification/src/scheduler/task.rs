//! Tasks of a repository sync.

use vstd::prelude::*;
use vstd::string::*;

verus! {

/// The phases of a sync, in order.
#[derive(Debug, Clone, Copy, PartialEq, Eq, Structural)]
pub enum TaskPhase {
    Discovery,
    Indexing,
    ChangeDetection,
    Refinement,
    Verification,
}

/// The families of objects that are listed, one Indexing task each.
#[derive(Debug, Clone, Copy, PartialEq, Eq, Structural)]
pub enum Family {
    Issues,
    PullRequests,
    Commits,
    Metadata,
    Actions,
}

/// The entities that have details of their own.
#[derive(Debug, Clone, Copy, PartialEq, Eq, Structural)]
pub enum Entity {
    Issue,
    PullRequest,
    Commit,
    WorkflowRun,
}

/// What a task does.
#[derive(Debug, Clone, Copy, PartialEq, Eq, Structural)]
pub enum TaskKind {
    /// Fetch the repository and seed the rest.
    Discover,
    /// Walk the listings of a family.
    Index(Family),
    /// Fetch the details of one entity.
    Refine(Entity),
    /// Check one entity.
    Verify(Entity),
}

/// Who a run belongs to.
#[derive(Debug, Clone, Copy, PartialEq, Eq, Structural)]
pub struct RunIdentity {
    pub session_id: u128,
    pub tenant_id: u128,
}

/// How urgent a task is. What is open comes before what is closed, and what
/// belongs to the repository as a whole comes last.
#[derive(Debug, Clone, Copy, PartialEq, Eq, Structural)]
pub enum TaskPriority {
    OpenPr,
    OpenIssue,
    Normal,
    ClosedPr,
    ClosedIssue,
    Global,
}

/// A task to be queued.
#[derive(Debug)]
pub struct NewTask {
    pub run: RunIdentity,
    pub kind: TaskKind,
    /// Number, SHA or id of the entity, for tasks about one.
    pub entity_id: Option<String>,
    pub priority: TaskPriority,
    /// How often the task was tried before.
    pub attempt: u32,
}

/// A queued task.
#[derive(Debug)]
pub struct ExtractionTask {
    pub id: u64,
    pub run: RunIdentity,
    pub kind: TaskKind,
    pub entity_id: Option<String>,
    pub priority: TaskPriority,
    pub attempt: u32,
}

impl TaskPhase {
    pub open spec fn spec_name(self) -> Seq<char> {
        match self {
            TaskPhase::Discovery => "discovery"@,
            TaskPhase::Indexing => "indexing"@,
            TaskPhase::ChangeDetection => "change_detection"@,
            TaskPhase::Refinement => "refinement"@,
            TaskPhase::Verification => "verification"@,
        }
    }

    /// The phase's name.
    pub fn name(self) -> (out: &'static str)
        ensures
            out@ == self.spec_name(),
    {
        match self {
            TaskPhase::Discovery => "discovery",
            TaskPhase::Indexing => "indexing",
            TaskPhase::ChangeDetection => "change_detection",
            TaskPhase::Refinement => "refinement",
            TaskPhase::Verification => "verification",
        }
    }
}

impl Family {
    pub open spec fn spec_name(self) -> Seq<char> {
        match self {
            Family::Issues => "issues"@,
            Family::PullRequests => "pull_requests"@,
            Family::Commits => "commits"@,
            Family::Metadata => "metadata"@,
            Family::Actions => "actions"@,
        }
    }

    /// The family's name.
    pub fn name(self) -> (out: &'static str)
        ensures
            out@ == self.spec_name(),
    {
        match self {
            Family::Issues => "issues",
            Family::PullRequests => "pull_requests",
            Family::Commits => "commits",
            Family::Metadata => "metadata",
            Family::Actions => "actions",
        }
    }
}

impl Entity {
    pub open spec fn spec_name(self) -> Seq<char> {
        match self {
            Entity::Issue => "issue"@,
            Entity::PullRequest => "pull_request"@,
            Entity::Commit => "commit"@,
            Entity::WorkflowRun => "workflow_run"@,
        }
    }

    /// The entity type's name.
    pub fn name(self) -> (out: &'static str)
        ensures
            out@ == self.spec_name(),
    {
        match self {
            Entity::Issue => "issue",
            Entity::PullRequest => "pull_request",
            Entity::Commit => "commit",
            Entity::WorkflowRun => "workflow_run",
        }
    }
}

impl TaskKind {
    pub open spec fn spec_phase(self) -> TaskPhase {
        match self {
            TaskKind::Discover => TaskPhase::Discovery,
            TaskKind::Index(_) => TaskPhase::Indexing,
            TaskKind::Refine(_) => TaskPhase::Refinement,
            TaskKind::Verify(_) => TaskPhase::Verification,
        }
    }

    /// The phase a task of this kind belongs to.
    pub fn phase(self) -> (out: TaskPhase)
        ensures
            out == self.spec_phase(),
    {
        match self {
            TaskKind::Discover => TaskPhase::Discovery,
            TaskKind::Index(_) => TaskPhase::Indexing,
            TaskKind::Refine(_) => TaskPhase::Refinement,
            TaskKind::Verify(_) => TaskPhase::Verification,
        }
    }

    pub open spec fn spec_entity_type(self) -> Seq<char> {
        match self {
            TaskKind::Discover => "repository"@,
            TaskKind::Index(family) => family.spec_name(),
            TaskKind::Refine(entity) => entity.spec_name(),
            TaskKind::Verify(entity) => entity.spec_name(),
        }
    }

    /// The name of what a task of this kind is about.
    pub fn entity_type(self) -> (out: &'static str)
        ensures
            out@ == self.spec_entity_type(),
    {
        match self {
            TaskKind::Discover => "repository",
            TaskKind::Index(family) => family.name(),
            TaskKind::Refine(entity) => entity.name(),
            TaskKind::Verify(entity) => entity.name(),
        }
    }
}

impl TaskPriority {
    /// Smaller comes first.
    pub open spec fn spec_rank(self) -> u8 {
        match self {
            TaskPriority::OpenPr => 0,
            TaskPriority::OpenIssue => 1,
            TaskPriority::Normal => 2,
            TaskPriority::ClosedPr => 3,
            TaskPriority::ClosedIssue => 4,
            TaskPriority::Global => 5,
        }
    }

    /// Smaller comes first.
    pub fn rank(self) -> (out: u8)
        ensures
            out == self.spec_rank(),
    {
        match self {
            TaskPriority::OpenPr => 0,
            TaskPriority::OpenIssue => 1,
            TaskPriority::Normal => 2,
            TaskPriority::ClosedPr => 3,
            TaskPriority::ClosedIssue => 4,
            TaskPriority::Global => 5,
        }
    }

    /// Whether the task is about an open issue or pull request.
    pub fn is_open_tier(self) -> (out: bool)
        ensures
            out == (self is OpenPr || self is OpenIssue),
    {
        match self {
            TaskPriority::OpenPr => true,
            TaskPriority::OpenIssue => true,
            _ => false,
        }
    }
}

pub(crate) fn same_id(id: &Option<String>) -> (out: Option<String>)
    ensures
        out == *id,
{
    match id {
        Some(id) => Some(id.clone()),
        None => None,
    }
}

impl ExtractionTask {
    /// The same task again.
    pub fn copied(&self) -> (out: Self)
        ensures
            out == *self,
    {
        ExtractionTask {
            id: self.id,
            run: self.run,
            kind: self.kind,
            entity_id: same_id(&self.entity_id),
            priority: self.priority,
            attempt: self.attempt,
        }
    }
}

} // verus!
