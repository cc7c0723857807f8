//! What a caller asks leave for.

use crate::context::SecurityContext;
use vstd::prelude::*;
use vstd::string::*;

verus! {

/// Resource types that access is granted on. All but the last are tables of
/// the mirror.
#[derive(Debug, Clone, Copy, PartialEq, Eq, Structural)]
pub enum Resource {
    Repo,
    Issue,
    PullRequest,
    Commit,
    Comment,
    ReviewComment,
    Review,
    Label,
    Milestone,
    Release,
    Branch,
    Contributor,
    WorkflowRun,
    PullRequestFile,
    Tag,
    CommitFile,
    ReviewThread,
    CommitComment,
    IssueEvent,
    Deployment,
    PullRequestCommit,
    CommitStatus,
    WorkflowJob,
    IssueReaction,
    CheckRun,
    IssueTimeline,
    RepoSyncStatus,
    SyncSession,
    Sync,
}

impl Resource {
    pub open spec fn spec_name(self) -> Seq<char> {
        match self {
            Resource::Repo => "github_mirror.repo"@,
            Resource::Issue => "github_mirror.issue"@,
            Resource::PullRequest => "github_mirror.pull_request"@,
            Resource::Commit => "github_mirror.commit"@,
            Resource::Comment => "github_mirror.comment"@,
            Resource::ReviewComment => "github_mirror.review_comment"@,
            Resource::Review => "github_mirror.review"@,
            Resource::Label => "github_mirror.label"@,
            Resource::Milestone => "github_mirror.milestone"@,
            Resource::Release => "github_mirror.release"@,
            Resource::Branch => "github_mirror.branch"@,
            Resource::Contributor => "github_mirror.contributor"@,
            Resource::WorkflowRun => "github_mirror.workflow_run"@,
            Resource::PullRequestFile => "github_mirror.pull_request_file"@,
            Resource::Tag => "github_mirror.tag"@,
            Resource::CommitFile => "github_mirror.commit_file"@,
            Resource::ReviewThread => "github_mirror.review_thread"@,
            Resource::CommitComment => "github_mirror.commit_comment"@,
            Resource::IssueEvent => "github_mirror.issue_event"@,
            Resource::Deployment => "github_mirror.deployment"@,
            Resource::PullRequestCommit => "github_mirror.pull_request_commit"@,
            Resource::CommitStatus => "github_mirror.commit_status"@,
            Resource::WorkflowJob => "github_mirror.workflow_job"@,
            Resource::IssueReaction => "github_mirror.issue_reaction"@,
            Resource::CheckRun => "github_mirror.check_run"@,
            Resource::IssueTimeline => "github_mirror.issue_timeline"@,
            Resource::RepoSyncStatus => "github_mirror.repo_sync_status"@,
            Resource::SyncSession => "github_mirror.sync_session"@,
            Resource::Sync => "github_mirror.sync"@,
        }
    }

    /// The name of the resource type.
    pub fn name(self) -> (out: &'static str)
        ensures
            out@ == self.spec_name(),
    {
        match self {
            Resource::Repo => "github_mirror.repo",
            Resource::Issue => "github_mirror.issue",
            Resource::PullRequest => "github_mirror.pull_request",
            Resource::Commit => "github_mirror.commit",
            Resource::Comment => "github_mirror.comment",
            Resource::ReviewComment => "github_mirror.review_comment",
            Resource::Review => "github_mirror.review",
            Resource::Label => "github_mirror.label",
            Resource::Milestone => "github_mirror.milestone",
            Resource::Release => "github_mirror.release",
            Resource::Branch => "github_mirror.branch",
            Resource::Contributor => "github_mirror.contributor",
            Resource::WorkflowRun => "github_mirror.workflow_run",
            Resource::PullRequestFile => "github_mirror.pull_request_file",
            Resource::Tag => "github_mirror.tag",
            Resource::CommitFile => "github_mirror.commit_file",
            Resource::ReviewThread => "github_mirror.review_thread",
            Resource::CommitComment => "github_mirror.commit_comment",
            Resource::IssueEvent => "github_mirror.issue_event",
            Resource::Deployment => "github_mirror.deployment",
            Resource::PullRequestCommit => "github_mirror.pull_request_commit",
            Resource::CommitStatus => "github_mirror.commit_status",
            Resource::WorkflowJob => "github_mirror.workflow_job",
            Resource::IssueReaction => "github_mirror.issue_reaction",
            Resource::CheckRun => "github_mirror.check_run",
            Resource::IssueTimeline => "github_mirror.issue_timeline",
            Resource::RepoSyncStatus => "github_mirror.repo_sync_status",
            Resource::SyncSession => "github_mirror.sync_session",
            Resource::Sync => "github_mirror.sync",
        }
    }

    /// Whether access to the type can be granted resource by resource, and not
    /// only by tenant.
    pub fn has_resource_ids(self) -> (out: bool)
        ensures
            out == !(self is Sync),
    {
        match self {
            Resource::Sync => false,
            _ => true,
        }
    }
}

/// What is to be done to a resource.
#[derive(Debug, Clone, Copy, PartialEq, Eq, Structural)]
pub enum Action {
    List,
    Upsert,
    Sync,
    Get,
}

impl Action {
    pub open spec fn spec_name(self) -> Seq<char> {
        match self {
            Action::List => "list"@,
            Action::Upsert => "upsert"@,
            Action::Sync => "sync"@,
            Action::Get => "get"@,
        }
    }

    /// The action's name.
    pub fn name(self) -> (out: &'static str)
        ensures
            out@ == self.spec_name(),
    {
        match self {
            Action::List => "list",
            Action::Upsert => "upsert",
            Action::Sync => "sync",
            Action::Get => "get",
        }
    }
}

/// A question to the policy: may the caller do this to resources of its own
/// tenant?
#[derive(Debug, Clone, Copy, PartialEq, Eq, Structural)]
pub struct AccessCheck {
    pub resource: Resource,
    pub action: Action,
    pub owner_tenant_id: u128,
}

pub open spec fn access(ctx: SecurityContext, resource: Resource, action: Action) -> AccessCheck {
    AccessCheck { resource, action, owner_tenant_id: ctx.subject_tenant_id }
}

/// The question for a caller.
pub fn ask(ctx: &SecurityContext, resource: Resource, action: Action) -> (out: AccessCheck)
    ensures
        out == access(*ctx, resource, action),
{
    AccessCheck { resource, action, owner_tenant_id: ctx.subject_tenant_id }
}

/// Leave is asked for in the caller's own tenant, so that callers of different
/// tenants never ask for the same.
pub proof fn tenants_ask_apart(
    one: SecurityContext,
    other: SecurityContext,
    resource: Resource,
    action: Action,
)
    ensures
        access(one, resource, action).owner_tenant_id == one.subject_tenant_id,
        access(one, resource, action) == access(other, resource, action) <==> one.subject_tenant_id
            == other.subject_tenant_id,
{
}

/// No two resource types have the same name.
pub proof fn resource_names_are_distinct(one: Resource, other: Resource)
    requires
        one != other,
    ensures
        one.spec_name() != other.spec_name(),
{
    reveal_strlit("github_mirror.repo");
    reveal_strlit("github_mirror.issue");
    reveal_strlit("github_mirror.pull_request");
    reveal_strlit("github_mirror.commit");
    reveal_strlit("github_mirror.comment");
    reveal_strlit("github_mirror.review_comment");
    reveal_strlit("github_mirror.review");
    reveal_strlit("github_mirror.label");
    reveal_strlit("github_mirror.milestone");
    reveal_strlit("github_mirror.release");
    reveal_strlit("github_mirror.branch");
    reveal_strlit("github_mirror.contributor");
    reveal_strlit("github_mirror.workflow_run");
    reveal_strlit("github_mirror.pull_request_file");
    reveal_strlit("github_mirror.tag");
    reveal_strlit("github_mirror.commit_file");
    reveal_strlit("github_mirror.review_thread");
    reveal_strlit("github_mirror.commit_comment");
    reveal_strlit("github_mirror.issue_event");
    reveal_strlit("github_mirror.deployment");
    reveal_strlit("github_mirror.pull_request_commit");
    reveal_strlit("github_mirror.commit_status");
    reveal_strlit("github_mirror.workflow_job");
    reveal_strlit("github_mirror.issue_reaction");
    reveal_strlit("github_mirror.check_run");
    reveal_strlit("github_mirror.issue_timeline");
    reveal_strlit("github_mirror.repo_sync_status");
    reveal_strlit("github_mirror.sync_session");
    reveal_strlit("github_mirror.sync");
    assert("github_mirror.repo"@.len() == 18);
    assert("github_mirror.issue"@.len() == 19);
    assert("github_mirror.pull_request"@.len() == 26);
    assert("github_mirror.commit"@.len() == 20);
    assert("github_mirror.comment"@.len() == 21);
    assert("github_mirror.review_comment"@.len() == 28);
    assert("github_mirror.review"@.len() == 20);
    assert("github_mirror.label"@.len() == 19);
    assert("github_mirror.milestone"@.len() == 23);
    assert("github_mirror.release"@.len() == 21);
    assert("github_mirror.branch"@.len() == 20);
    assert("github_mirror.contributor"@.len() == 25);
    assert("github_mirror.workflow_run"@.len() == 26);
    assert("github_mirror.pull_request_file"@.len() == 31);
    assert("github_mirror.tag"@.len() == 17);
    assert("github_mirror.commit_file"@.len() == 25);
    assert("github_mirror.review_thread"@.len() == 27);
    assert("github_mirror.commit_comment"@.len() == 28);
    assert("github_mirror.issue_event"@.len() == 25);
    assert("github_mirror.deployment"@.len() == 24);
    assert("github_mirror.pull_request_commit"@.len() == 33);
    assert("github_mirror.commit_status"@.len() == 27);
    assert("github_mirror.workflow_job"@.len() == 26);
    assert("github_mirror.issue_reaction"@.len() == 28);
    assert("github_mirror.check_run"@.len() == 23);
    assert("github_mirror.issue_timeline"@.len() == 28);
    assert("github_mirror.repo_sync_status"@.len() == 30);
    assert("github_mirror.sync_session"@.len() == 26);
    assert("github_mirror.sync"@.len() == 18);
    assert("github_mirror.repo"@[14] != "github_mirror.sync"@[14]);
    assert("github_mirror.issue"@[14] != "github_mirror.label"@[14]);
    assert("github_mirror.pull_request"@[14] != "github_mirror.workflow_run"@[14]);
    assert("github_mirror.pull_request"@[14] != "github_mirror.workflow_job"@[14]);
    assert("github_mirror.pull_request"@[14] != "github_mirror.sync_session"@[14]);
    assert("github_mirror.commit"@[14] != "github_mirror.review"@[14]);
    assert("github_mirror.commit"@[14] != "github_mirror.branch"@[14]);
    assert("github_mirror.comment"@[14] != "github_mirror.release"@[14]);
    assert("github_mirror.review_comment"@[14] != "github_mirror.commit_comment"@[14]);
    assert("github_mirror.review_comment"@[14] != "github_mirror.issue_reaction"@[14]);
    assert("github_mirror.review_comment"@[14] != "github_mirror.issue_timeline"@[14]);
    assert("github_mirror.review"@[14] != "github_mirror.branch"@[14]);
    assert("github_mirror.milestone"@[14] != "github_mirror.check_run"@[14]);
    assert("github_mirror.contributor"@[16] != "github_mirror.commit_file"@[16]);
    assert("github_mirror.contributor"@[14] != "github_mirror.issue_event"@[14]);
    assert("github_mirror.workflow_run"@[23] != "github_mirror.workflow_job"@[23]);
    assert("github_mirror.workflow_run"@[14] != "github_mirror.sync_session"@[14]);
    assert("github_mirror.commit_file"@[14] != "github_mirror.issue_event"@[14]);
    assert("github_mirror.review_thread"@[14] != "github_mirror.commit_status"@[14]);
    assert("github_mirror.commit_comment"@[14] != "github_mirror.issue_reaction"@[14]);
    assert("github_mirror.commit_comment"@[14] != "github_mirror.issue_timeline"@[14]);
    assert("github_mirror.workflow_job"@[14] != "github_mirror.sync_session"@[14]);
    assert("github_mirror.issue_reaction"@[20] != "github_mirror.issue_timeline"@[20]);
}

} // verus!
