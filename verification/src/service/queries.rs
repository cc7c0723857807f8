//! The mirror's read and write operations, as far as they decide anything: what
//! leave is asked for, which rows are looked up, and what the answer is.
//!
//! An operation is a plan. Its caller asks the policy for the plan's access,
//! looks the repository up, and hands back what it found.

use crate::cache;
use crate::cache::cache_prefix;
use crate::context::SecurityContext;
use crate::error::{DomainError, ErrorView};
use crate::records::{
    BranchRecord, CheckRunRecord, CommentRecord, CommitCommentRecord, CommitFileRecord,
    CommitRecord, CommitStatusRecord, ContributorRecord, DeploymentRecord, IssueEventRecord,
    IssueReactionRecord, IssueRecord, IssueTimelineEventRecord, LabelRecord, MilestoneRecord,
    PullRequestCommitRecord, PullRequestFileRecord, PullRequestRecord, ReleaseRecord, RepoRecord,
    RepoRow,
    ReviewCommentRecord, ReviewRecord, ReviewThreadRecord, TagRecord, WorkflowJobRecord,
    WorkflowRunRecord,
};
use crate::scope::ScopeConfig;
use crate::service::access;
use crate::service::access::{ask, AccessCheck, Action, Resource};
use crate::text;
use crate::text::joined;
use vstd::prelude::*;
use vstd::string::*;

verus! {

/// The name of the gear.
pub const GEAR_NAME: &'static str = "github-mirror";

/// Rows listed when the query does not say how many.
pub const DEFAULT_LIST_LIMIT: u64 = 50;

/// What a caller asks of a listing.
#[derive(Debug, Clone, Copy, PartialEq, Eq, Structural)]
pub struct ODataQuery {
    pub limit: Option<u64>,
}

/// Where a page stands in its listing. Listings are served as one page.
#[derive(Debug)]
pub struct PageInfo {
    pub next_cursor: Option<String>,
    pub prev_cursor: Option<String>,
    pub limit: u64,
}

/// One page of a listing.
#[derive(Debug)]
pub struct Page<T> {
    pub items: Vec<T>,
    pub page_info: PageInfo,
}

/// Which rows of a repository a listing is about.
#[derive(Debug)]
pub enum Selector {
    WholeRepository,
    OfIssue(i64),
    OfPull(i64),
    OfCommit(String),
    OfRun(i64),
}

#[verifier::ext_equal]
pub enum SelectorView {
    WholeRepository,
    OfIssue(i64),
    OfPull(i64),
    OfCommit(Seq<char>),
    OfRun(i64),
}

impl View for Selector {
    type V = SelectorView;

    open spec fn view(&self) -> SelectorView {
        match self {
            Selector::WholeRepository => SelectorView::WholeRepository,
            Selector::OfIssue(number) => SelectorView::OfIssue(*number),
            Selector::OfPull(number) => SelectorView::OfPull(*number),
            Selector::OfCommit(sha) => SelectorView::OfCommit(sha@),
            Selector::OfRun(id) => SelectorView::OfRun(*id),
        }
    }
}

/// The name of a repository, with its owner's.
pub open spec fn full_name_of(owner: Seq<char>, name: Seq<char>) -> Seq<char> {
    owner + "/"@ + name
}

/// See [`full_name_of`].
pub fn full_name(owner: &str, name: &str) -> (out: String)
    ensures
        out@ == full_name_of(owner@, name@),
        out@ == owner@ + "/"@ + name@,
{
    joined(joined(owner, "/").as_str(), name)
}

pub open spec fn limit_of(query: ODataQuery) -> u64 {
    match query.limit {
        Some(limit) => limit,
        None => DEFAULT_LIST_LIMIT,
    }
}

fn limit(query: &ODataQuery) -> (out: u64)
    ensures
        out == limit_of(*query),
{
    match query.limit {
        Some(limit) => limit,
        None => DEFAULT_LIST_LIMIT,
    }
}

/// A page of what was found.
pub fn page<T>(items: Vec<T>, limit: u64) -> (out: Page<T>)
    ensures
        out.items == items,
        out.page_info.limit == limit,
        out.page_info.next_cursor is None,
        out.page_info.prev_cursor is None,
{
    Page { items, page_info: PageInfo { next_cursor: None, prev_cursor: None, limit } }
}

/// What was found, or that it is not there.
pub fn found<T>(row: Option<T>) -> (out: Result<T, DomainError>)
    ensures
        match out {
            Ok(value) => row == Some(value),
            Err(error) => row is None && error@ == ErrorView::NotFound,
        },
{
    match row {
        Some(value) => Ok(value),
        None => Err(DomainError::NotFound),
    }
}

// ---------------------------------------------------------------------------
// Plans
// ---------------------------------------------------------------------------

/// A listing of rows of one repository. Access is asked for first; then the
/// repository is looked up by its full name; then its rows are listed.
#[derive(Debug)]
pub struct ListPlan {
    pub access: AccessCheck,
    pub full_name: String,
    pub selector: Selector,
    pub limit: u64,
}

#[verifier::ext_equal]
pub struct ListPlanView {
    pub access: AccessCheck,
    pub full_name: Seq<char>,
    pub selector: SelectorView,
    pub limit: u64,
}

impl View for ListPlan {
    type V = ListPlanView;

    open spec fn view(&self) -> ListPlanView {
        ListPlanView {
            access: self.access,
            full_name: self.full_name@,
            selector: self.selector@,
            limit: self.limit,
        }
    }
}

/// The plan of a listing, always in the caller's own tenant.
pub open spec fn list_plan(
    ctx: SecurityContext,
    resource: Resource,
    owner: Seq<char>,
    name: Seq<char>,
    selector: SelectorView,
    query: ODataQuery,
) -> ListPlanView {
    ListPlanView {
        access: access::access(ctx, resource, Action::List),
        full_name: full_name_of(owner, name),
        selector,
        limit: limit_of(query),
    }
}

fn plan_list(
    ctx: &SecurityContext,
    resource: Resource,
    owner: &str,
    name: &str,
    selector: Selector,
    query: &ODataQuery,
) -> (out: ListPlan)
    ensures
        out@ == list_plan(*ctx, resource, owner@, name@, selector@, *query),
{
    ListPlan {
        access: ask(ctx, resource, Action::List),
        full_name: full_name(owner, name),
        selector,
        limit: limit(query),
    }
}

/// An upsert of a row of one repository.
#[derive(Debug)]
pub struct UpsertPlan<T> {
    pub access: AccessCheck,
    pub full_name: String,
    pub tenant_id: u128,
    pub record: T,
}

/// The upsert is the caller's, in its own tenant.
pub open spec fn is_upsert_plan<T>(
    ctx: SecurityContext,
    resource: Resource,
    owner: Seq<char>,
    name: Seq<char>,
    record: T,
    out: UpsertPlan<T>,
) -> bool {
    &&& out.access == access::access(ctx, resource, Action::Upsert)
    &&& out.full_name@ == full_name_of(owner, name)
    &&& out.tenant_id == ctx.subject_tenant_id
    &&& out.record == record
}

fn plan_upsert<T>(ctx: &SecurityContext, resource: Resource, owner: &str, name: &str, record: T) -> (out:
    UpsertPlan<T>)
    ensures
        is_upsert_plan(*ctx, resource, owner@, name@, record, out),
{
    UpsertPlan {
        access: ask(ctx, resource, Action::Upsert),
        full_name: full_name(owner, name),
        tenant_id: ctx.subject_tenant_id,
        record,
    }
}

impl<T: RepoRow> UpsertPlan<T> {
    /// The row to write, given the id of the repository that was looked up.
    /// Without the repository there is nothing to write, so that no row can be
    /// left without one.
    pub fn bind(self, repository: Option<i64>) -> (out: Result<T, DomainError>)
        ensures
            match out {
                Ok(row) => {
                    &&& repository is Some
                    &&& row == self.record.moved_to(repository->0)
                    &&& row.repo() == repository->0
                },
                Err(error) => repository is None && error@ == ErrorView::NotFound,
            },
    {
        match repository {
            Some(id) => Ok(self.record.in_repo(id)),
            None => Err(DomainError::NotFound),
        }
    }
}

/// A look-up of one row of a repository.
#[derive(Debug)]
pub struct GetPlan {
    pub access: AccessCheck,
    pub full_name: String,
    pub selector: Selector,
}

pub open spec fn is_get_plan(
    ctx: SecurityContext,
    resource: Resource,
    owner: Seq<char>,
    name: Seq<char>,
    selector: SelectorView,
    out: GetPlan,
) -> bool {
    &&& out.access == access::access(ctx, resource, Action::List)
    &&& out.full_name@ == full_name_of(owner, name)
    &&& out.selector@ == selector
}

// ---------------------------------------------------------------------------
// Service
// ---------------------------------------------------------------------------

/// Configuration of the service.
#[derive(Debug)]
pub struct ServiceConfig {
    pub api_base_url: String,
    /// What a sync collects when the request does not say.
    pub scope: ScopeConfig,
}

/// Identity of the running mirror.
#[derive(Debug)]
pub struct MirrorStatus {
    pub gear: String,
    pub version: String,
    pub api_base_url: String,
}

/// The mirror's operations.
#[derive(Debug)]
pub struct Service {
    pub config: ServiceConfig,
}

impl Service {
    /// A service with the configuration.
    pub fn new(config: ServiceConfig) -> (out: Self)
        ensures
            out.config == config,
    {
        Service { config }
    }

    /// Identity of the running mirror.
    pub fn status(&self, version: &str) -> (out: MirrorStatus)
        ensures
            out.gear@ == GEAR_NAME@,
            out.version@ == version@,
            out.api_base_url == self.config.api_base_url,
    {
        MirrorStatus {
            gear: GEAR_NAME.to_owned(),
            version: version.to_owned(),
            api_base_url: self.config.api_base_url.clone(),
        }
    }

    /// What a sync collects when the request does not narrow it.
    pub fn default_scope(&self) -> (out: ScopeConfig)
        ensures
            out == self.config.scope,
    {
        self.config.scope
    }

    /// The mirrored repositories: what leave to ask for, and how many rows to
    /// list.
    pub fn list_repos(&self, ctx: &SecurityContext, query: &ODataQuery) -> (out: (AccessCheck, u64))
        ensures
            out.0 == access::access(*ctx, Resource::Repo, Action::List),
            out.1 == limit_of(*query),
    {
        (ask(ctx, Resource::Repo, Action::List), limit(query))
    }

    /// Inserts or updates a repository: what leave to ask for, in which tenant
    /// to write, and the row.
    pub fn upsert_repo(&self, ctx: &SecurityContext, record: RepoRecord) -> (out: (
        AccessCheck,
        u128,
        RepoRecord,
    ))
        ensures
            out.0 == access::access(*ctx, Resource::Repo, Action::Upsert),
            out.1 == ctx.subject_tenant_id,
            out.2 == record,
    {
        (ask(ctx, Resource::Repo, Action::Upsert), ctx.subject_tenant_id, record)
    }

    /// One mirrored repository.
    pub fn get_repo(&self, ctx: &SecurityContext, owner: &str, name: &str) -> (out: GetPlan)
        ensures
            is_get_plan(
                *ctx,
                Resource::Repo,
                owner@,
                name@,
                SelectorView::WholeRepository,
                out,
            ),
            out.full_name@ == owner@ + "/"@ + name@,
    {
        GetPlan {
            access: ask(ctx, Resource::Repo, Action::List),
            full_name: full_name(owner, name),
            selector: Selector::WholeRepository,
        }
    }

    /// One mirrored issue.
    pub fn get_issue(&self, ctx: &SecurityContext, owner: &str, name: &str, number: i64) -> (out:
        GetPlan)
        ensures
            is_get_plan(
                *ctx,
                Resource::Issue,
                owner@,
                name@,
                SelectorView::OfIssue(number),
                out,
            ),
            out.full_name@ == owner@ + "/"@ + name@,
    {
        GetPlan {
            access: ask(ctx, Resource::Issue, Action::List),
            full_name: full_name(owner, name),
            selector: Selector::OfIssue(number),
        }
    }

    /// One mirrored pull request.
    pub fn get_pull_request(&self, ctx: &SecurityContext, owner: &str, name: &str, number: i64) -> (out:
        GetPlan)
        ensures
            is_get_plan(
                *ctx,
                Resource::PullRequest,
                owner@,
                name@,
                SelectorView::OfPull(number),
                out,
            ),
            out.full_name@ == owner@ + "/"@ + name@,
    {
        GetPlan {
            access: ask(ctx, Resource::PullRequest, Action::List),
            full_name: full_name(owner, name),
            selector: Selector::OfPull(number),
        }
    }

    /// One mirrored commit.
    pub fn get_commit(&self, ctx: &SecurityContext, owner: &str, name: &str, sha: &str) -> (out:
        GetPlan)
        ensures
            is_get_plan(
                *ctx,
                Resource::Commit,
                owner@,
                name@,
                SelectorView::OfCommit(sha@),
                out,
            ),
            out.full_name@ == owner@ + "/"@ + name@,
    {
        GetPlan {
            access: ask(ctx, Resource::Commit, Action::List),
            full_name: full_name(owner, name),
            selector: Selector::OfCommit(sha.to_owned()),
        }
    }

    /// Drops the cached responses of an owner, or of one of its repositories:
    /// what leave to ask for, in whose cache, and below which URL. Clearing a
    /// tenant's own cache changes nothing anyone can read, only what the next
    /// sync fetches again, so it takes leave to sync.
    pub fn clear_cache(&self, ctx: &SecurityContext, owner: &str, name: Option<&str>) -> (out: (
        AccessCheck,
        u128,
        String,
    ))
        ensures
            out.0 == access::access(*ctx, Resource::Sync, Action::Sync),
            out.1 == ctx.subject_tenant_id,
            out.2@ == match name {
                Some(name) => cache::owner_stem(self.config.api_base_url@, owner@) + name@,
                None => text::without_trailing_slashes(self.config.api_base_url@) + ("/repos/"@
                    + owner@),
            },
    {
        let prefix = cache_prefix(self.config.api_base_url.as_str(), owner, name);
        (ask(ctx, Resource::Sync, Action::Sync), ctx.subject_tenant_id, prefix)
    }

    /// The mirrored issues of a repository.
    pub fn list_issues(
        &self,
        ctx: &SecurityContext,
        owner: &str,
        name: &str,
        query: &ODataQuery,
    ) -> (out: ListPlan)
        ensures
            out@ == list_plan(*ctx, Resource::Issue, owner@, name@, SelectorView::WholeRepository, *query),
    {
        plan_list(ctx, Resource::Issue, owner, name, Selector::WholeRepository, query)
    }

    /// The mirrored pull requests of a repository.
    pub fn list_pull_requests(
        &self,
        ctx: &SecurityContext,
        owner: &str,
        name: &str,
        query: &ODataQuery,
    ) -> (out: ListPlan)
        ensures
            out@ == list_plan(*ctx, Resource::PullRequest, owner@, name@, SelectorView::WholeRepository, *query),
    {
        plan_list(ctx, Resource::PullRequest, owner, name, Selector::WholeRepository, query)
    }

    /// The mirrored commits of a repository.
    pub fn list_commits(
        &self,
        ctx: &SecurityContext,
        owner: &str,
        name: &str,
        query: &ODataQuery,
    ) -> (out: ListPlan)
        ensures
            out@ == list_plan(*ctx, Resource::Commit, owner@, name@, SelectorView::WholeRepository, *query),
    {
        plan_list(ctx, Resource::Commit, owner, name, Selector::WholeRepository, query)
    }

    /// The mirrored comments of an issue.
    pub fn list_comments(
        &self,
        ctx: &SecurityContext,
        owner: &str,
        name: &str,
        issue_number: i64,
        query: &ODataQuery,
    ) -> (out: ListPlan)
        ensures
            out@ == list_plan(*ctx, Resource::Comment, owner@, name@, SelectorView::OfIssue(issue_number), *query),
    {
        plan_list(ctx, Resource::Comment, owner, name, Selector::OfIssue(issue_number), query)
    }

    /// The mirrored review comments of a pull request.
    pub fn list_review_comments(
        &self,
        ctx: &SecurityContext,
        owner: &str,
        name: &str,
        pull_number: i64,
        query: &ODataQuery,
    ) -> (out: ListPlan)
        ensures
            out@ == list_plan(*ctx, Resource::ReviewComment, owner@, name@, SelectorView::OfPull(pull_number), *query),
    {
        plan_list(ctx, Resource::ReviewComment, owner, name, Selector::OfPull(pull_number), query)
    }

    /// The mirrored reviews of a pull request.
    pub fn list_reviews(
        &self,
        ctx: &SecurityContext,
        owner: &str,
        name: &str,
        pull_number: i64,
        query: &ODataQuery,
    ) -> (out: ListPlan)
        ensures
            out@ == list_plan(*ctx, Resource::Review, owner@, name@, SelectorView::OfPull(pull_number), *query),
    {
        plan_list(ctx, Resource::Review, owner, name, Selector::OfPull(pull_number), query)
    }

    /// The mirrored labels of a repository.
    pub fn list_labels(
        &self,
        ctx: &SecurityContext,
        owner: &str,
        name: &str,
        query: &ODataQuery,
    ) -> (out: ListPlan)
        ensures
            out@ == list_plan(*ctx, Resource::Label, owner@, name@, SelectorView::WholeRepository, *query),
    {
        plan_list(ctx, Resource::Label, owner, name, Selector::WholeRepository, query)
    }

    /// The mirrored milestones of a repository.
    pub fn list_milestones(
        &self,
        ctx: &SecurityContext,
        owner: &str,
        name: &str,
        query: &ODataQuery,
    ) -> (out: ListPlan)
        ensures
            out@ == list_plan(*ctx, Resource::Milestone, owner@, name@, SelectorView::WholeRepository, *query),
    {
        plan_list(ctx, Resource::Milestone, owner, name, Selector::WholeRepository, query)
    }

    /// The mirrored releases of a repository.
    pub fn list_releases(
        &self,
        ctx: &SecurityContext,
        owner: &str,
        name: &str,
        query: &ODataQuery,
    ) -> (out: ListPlan)
        ensures
            out@ == list_plan(*ctx, Resource::Release, owner@, name@, SelectorView::WholeRepository, *query),
    {
        plan_list(ctx, Resource::Release, owner, name, Selector::WholeRepository, query)
    }

    /// The mirrored branches of a repository.
    pub fn list_branches(
        &self,
        ctx: &SecurityContext,
        owner: &str,
        name: &str,
        query: &ODataQuery,
    ) -> (out: ListPlan)
        ensures
            out@ == list_plan(*ctx, Resource::Branch, owner@, name@, SelectorView::WholeRepository, *query),
    {
        plan_list(ctx, Resource::Branch, owner, name, Selector::WholeRepository, query)
    }

    /// The mirrored contributors of a repository.
    pub fn list_contributors(
        &self,
        ctx: &SecurityContext,
        owner: &str,
        name: &str,
        query: &ODataQuery,
    ) -> (out: ListPlan)
        ensures
            out@ == list_plan(*ctx, Resource::Contributor, owner@, name@, SelectorView::WholeRepository, *query),
    {
        plan_list(ctx, Resource::Contributor, owner, name, Selector::WholeRepository, query)
    }

    /// The mirrored workflow runs of a repository.
    pub fn list_workflow_runs(
        &self,
        ctx: &SecurityContext,
        owner: &str,
        name: &str,
        query: &ODataQuery,
    ) -> (out: ListPlan)
        ensures
            out@ == list_plan(*ctx, Resource::WorkflowRun, owner@, name@, SelectorView::WholeRepository, *query),
    {
        plan_list(ctx, Resource::WorkflowRun, owner, name, Selector::WholeRepository, query)
    }

    /// The mirrored files of a pull request.
    pub fn list_pull_request_files(
        &self,
        ctx: &SecurityContext,
        owner: &str,
        name: &str,
        pull_number: i64,
        query: &ODataQuery,
    ) -> (out: ListPlan)
        ensures
            out@ == list_plan(*ctx, Resource::PullRequestFile, owner@, name@, SelectorView::OfPull(pull_number), *query),
    {
        plan_list(ctx, Resource::PullRequestFile, owner, name, Selector::OfPull(pull_number), query)
    }

    /// The mirrored tags of a repository.
    pub fn list_tags(
        &self,
        ctx: &SecurityContext,
        owner: &str,
        name: &str,
        query: &ODataQuery,
    ) -> (out: ListPlan)
        ensures
            out@ == list_plan(*ctx, Resource::Tag, owner@, name@, SelectorView::WholeRepository, *query),
    {
        plan_list(ctx, Resource::Tag, owner, name, Selector::WholeRepository, query)
    }

    /// The mirrored files of a commit.
    pub fn list_commit_files(
        &self,
        ctx: &SecurityContext,
        owner: &str,
        name: &str,
        commit_sha: &str,
        query: &ODataQuery,
    ) -> (out: ListPlan)
        ensures
            out@ == list_plan(*ctx, Resource::CommitFile, owner@, name@, SelectorView::OfCommit(commit_sha@), *query),
    {
        plan_list(ctx, Resource::CommitFile, owner, name, Selector::OfCommit(commit_sha.to_owned()), query)
    }

    /// The mirrored review threads of a pull request.
    pub fn list_review_threads(
        &self,
        ctx: &SecurityContext,
        owner: &str,
        name: &str,
        pull_number: i64,
        query: &ODataQuery,
    ) -> (out: ListPlan)
        ensures
            out@ == list_plan(*ctx, Resource::ReviewThread, owner@, name@, SelectorView::OfPull(pull_number), *query),
    {
        plan_list(ctx, Resource::ReviewThread, owner, name, Selector::OfPull(pull_number), query)
    }

    /// The mirrored comments of a commit.
    pub fn list_commit_comments(
        &self,
        ctx: &SecurityContext,
        owner: &str,
        name: &str,
        commit_sha: &str,
        query: &ODataQuery,
    ) -> (out: ListPlan)
        ensures
            out@ == list_plan(*ctx, Resource::CommitComment, owner@, name@, SelectorView::OfCommit(commit_sha@), *query),
    {
        plan_list(ctx, Resource::CommitComment, owner, name, Selector::OfCommit(commit_sha.to_owned()), query)
    }

    /// The mirrored events of an issue.
    pub fn list_issue_events(
        &self,
        ctx: &SecurityContext,
        owner: &str,
        name: &str,
        issue_number: i64,
        query: &ODataQuery,
    ) -> (out: ListPlan)
        ensures
            out@ == list_plan(*ctx, Resource::IssueEvent, owner@, name@, SelectorView::OfIssue(issue_number), *query),
    {
        plan_list(ctx, Resource::IssueEvent, owner, name, Selector::OfIssue(issue_number), query)
    }

    /// The mirrored deployments of a repository.
    pub fn list_deployments(
        &self,
        ctx: &SecurityContext,
        owner: &str,
        name: &str,
        query: &ODataQuery,
    ) -> (out: ListPlan)
        ensures
            out@ == list_plan(*ctx, Resource::Deployment, owner@, name@, SelectorView::WholeRepository, *query),
    {
        plan_list(ctx, Resource::Deployment, owner, name, Selector::WholeRepository, query)
    }

    /// The mirrored commits of a pull request.
    pub fn list_pull_request_commits(
        &self,
        ctx: &SecurityContext,
        owner: &str,
        name: &str,
        pull_number: i64,
        query: &ODataQuery,
    ) -> (out: ListPlan)
        ensures
            out@ == list_plan(*ctx, Resource::PullRequestCommit, owner@, name@, SelectorView::OfPull(pull_number), *query),
    {
        plan_list(ctx, Resource::PullRequestCommit, owner, name, Selector::OfPull(pull_number), query)
    }

    /// The mirrored statuses of a commit.
    pub fn list_commit_statuses(
        &self,
        ctx: &SecurityContext,
        owner: &str,
        name: &str,
        commit_sha: &str,
        query: &ODataQuery,
    ) -> (out: ListPlan)
        ensures
            out@ == list_plan(*ctx, Resource::CommitStatus, owner@, name@, SelectorView::OfCommit(commit_sha@), *query),
    {
        plan_list(ctx, Resource::CommitStatus, owner, name, Selector::OfCommit(commit_sha.to_owned()), query)
    }

    /// The mirrored jobs of a workflow run.
    pub fn list_workflow_jobs(
        &self,
        ctx: &SecurityContext,
        owner: &str,
        name: &str,
        run_id: i64,
        query: &ODataQuery,
    ) -> (out: ListPlan)
        ensures
            out@ == list_plan(*ctx, Resource::WorkflowJob, owner@, name@, SelectorView::OfRun(run_id), *query),
    {
        plan_list(ctx, Resource::WorkflowJob, owner, name, Selector::OfRun(run_id), query)
    }

    /// The mirrored reactions of an issue.
    pub fn list_issue_reactions(
        &self,
        ctx: &SecurityContext,
        owner: &str,
        name: &str,
        issue_number: i64,
        query: &ODataQuery,
    ) -> (out: ListPlan)
        ensures
            out@ == list_plan(*ctx, Resource::IssueReaction, owner@, name@, SelectorView::OfIssue(issue_number), *query),
    {
        plan_list(ctx, Resource::IssueReaction, owner, name, Selector::OfIssue(issue_number), query)
    }

    /// The mirrored check runs of a commit.
    pub fn list_check_runs(
        &self,
        ctx: &SecurityContext,
        owner: &str,
        name: &str,
        head_sha: &str,
        query: &ODataQuery,
    ) -> (out: ListPlan)
        ensures
            out@ == list_plan(*ctx, Resource::CheckRun, owner@, name@, SelectorView::OfCommit(head_sha@), *query),
    {
        plan_list(ctx, Resource::CheckRun, owner, name, Selector::OfCommit(head_sha.to_owned()), query)
    }

    /// The mirrored timeline entries of an issue.
    pub fn list_issue_timeline(
        &self,
        ctx: &SecurityContext,
        owner: &str,
        name: &str,
        issue_number: i64,
        query: &ODataQuery,
    ) -> (out: ListPlan)
        ensures
            out@ == list_plan(*ctx, Resource::IssueTimeline, owner@, name@, SelectorView::OfIssue(issue_number), *query),
    {
        plan_list(ctx, Resource::IssueTimeline, owner, name, Selector::OfIssue(issue_number), query)
    }

    /// Inserts or updates an issue of a mirrored repository.
    pub fn upsert_issue(&self, ctx: &SecurityContext, owner: &str, name: &str, record: IssueRecord) -> (out:
        UpsertPlan<IssueRecord>)
        ensures
            is_upsert_plan(*ctx, Resource::Issue, owner@, name@, record, out),
    {
        plan_upsert(ctx, Resource::Issue, owner, name, record)
    }

    /// Inserts or updates a pull request of a mirrored repository.
    pub fn upsert_pull_request(&self, ctx: &SecurityContext, owner: &str, name: &str, record: PullRequestRecord) -> (out:
        UpsertPlan<PullRequestRecord>)
        ensures
            is_upsert_plan(*ctx, Resource::PullRequest, owner@, name@, record, out),
    {
        plan_upsert(ctx, Resource::PullRequest, owner, name, record)
    }

    /// Inserts or updates a commit of a mirrored repository.
    pub fn upsert_commit(&self, ctx: &SecurityContext, owner: &str, name: &str, record: CommitRecord) -> (out:
        UpsertPlan<CommitRecord>)
        ensures
            is_upsert_plan(*ctx, Resource::Commit, owner@, name@, record, out),
    {
        plan_upsert(ctx, Resource::Commit, owner, name, record)
    }

    /// Inserts or updates a comment of a mirrored repository.
    pub fn upsert_comment(&self, ctx: &SecurityContext, owner: &str, name: &str, record: CommentRecord) -> (out:
        UpsertPlan<CommentRecord>)
        ensures
            is_upsert_plan(*ctx, Resource::Comment, owner@, name@, record, out),
    {
        plan_upsert(ctx, Resource::Comment, owner, name, record)
    }

    /// Inserts or updates a review comment of a mirrored repository.
    pub fn upsert_review_comment(&self, ctx: &SecurityContext, owner: &str, name: &str, record: ReviewCommentRecord) -> (out:
        UpsertPlan<ReviewCommentRecord>)
        ensures
            is_upsert_plan(*ctx, Resource::ReviewComment, owner@, name@, record, out),
    {
        plan_upsert(ctx, Resource::ReviewComment, owner, name, record)
    }

    /// Inserts or updates a review of a mirrored repository.
    pub fn upsert_review(&self, ctx: &SecurityContext, owner: &str, name: &str, record: ReviewRecord) -> (out:
        UpsertPlan<ReviewRecord>)
        ensures
            is_upsert_plan(*ctx, Resource::Review, owner@, name@, record, out),
    {
        plan_upsert(ctx, Resource::Review, owner, name, record)
    }

    /// Inserts or updates a label of a mirrored repository.
    pub fn upsert_label(&self, ctx: &SecurityContext, owner: &str, name: &str, record: LabelRecord) -> (out:
        UpsertPlan<LabelRecord>)
        ensures
            is_upsert_plan(*ctx, Resource::Label, owner@, name@, record, out),
    {
        plan_upsert(ctx, Resource::Label, owner, name, record)
    }

    /// Inserts or updates a milestone of a mirrored repository.
    pub fn upsert_milestone(&self, ctx: &SecurityContext, owner: &str, name: &str, record: MilestoneRecord) -> (out:
        UpsertPlan<MilestoneRecord>)
        ensures
            is_upsert_plan(*ctx, Resource::Milestone, owner@, name@, record, out),
    {
        plan_upsert(ctx, Resource::Milestone, owner, name, record)
    }

    /// Inserts or updates a release of a mirrored repository.
    pub fn upsert_release(&self, ctx: &SecurityContext, owner: &str, name: &str, record: ReleaseRecord) -> (out:
        UpsertPlan<ReleaseRecord>)
        ensures
            is_upsert_plan(*ctx, Resource::Release, owner@, name@, record, out),
    {
        plan_upsert(ctx, Resource::Release, owner, name, record)
    }

    /// Inserts or updates a branch of a mirrored repository.
    pub fn upsert_branch(&self, ctx: &SecurityContext, owner: &str, name: &str, record: BranchRecord) -> (out:
        UpsertPlan<BranchRecord>)
        ensures
            is_upsert_plan(*ctx, Resource::Branch, owner@, name@, record, out),
    {
        plan_upsert(ctx, Resource::Branch, owner, name, record)
    }

    /// Inserts or updates a contributor of a mirrored repository.
    pub fn upsert_contributor(&self, ctx: &SecurityContext, owner: &str, name: &str, record: ContributorRecord) -> (out:
        UpsertPlan<ContributorRecord>)
        ensures
            is_upsert_plan(*ctx, Resource::Contributor, owner@, name@, record, out),
    {
        plan_upsert(ctx, Resource::Contributor, owner, name, record)
    }

    /// Inserts or updates a workflow run of a mirrored repository.
    pub fn upsert_workflow_run(&self, ctx: &SecurityContext, owner: &str, name: &str, record: WorkflowRunRecord) -> (out:
        UpsertPlan<WorkflowRunRecord>)
        ensures
            is_upsert_plan(*ctx, Resource::WorkflowRun, owner@, name@, record, out),
    {
        plan_upsert(ctx, Resource::WorkflowRun, owner, name, record)
    }

    /// Inserts or updates a pull request file of a mirrored repository.
    pub fn upsert_pull_request_file(&self, ctx: &SecurityContext, owner: &str, name: &str, record: PullRequestFileRecord) -> (out:
        UpsertPlan<PullRequestFileRecord>)
        ensures
            is_upsert_plan(*ctx, Resource::PullRequestFile, owner@, name@, record, out),
    {
        plan_upsert(ctx, Resource::PullRequestFile, owner, name, record)
    }

    /// Inserts or updates a tag of a mirrored repository.
    pub fn upsert_tag(&self, ctx: &SecurityContext, owner: &str, name: &str, record: TagRecord) -> (out:
        UpsertPlan<TagRecord>)
        ensures
            is_upsert_plan(*ctx, Resource::Tag, owner@, name@, record, out),
    {
        plan_upsert(ctx, Resource::Tag, owner, name, record)
    }

    /// Inserts or updates a commit file of a mirrored repository.
    pub fn upsert_commit_file(&self, ctx: &SecurityContext, owner: &str, name: &str, record: CommitFileRecord) -> (out:
        UpsertPlan<CommitFileRecord>)
        ensures
            is_upsert_plan(*ctx, Resource::CommitFile, owner@, name@, record, out),
    {
        plan_upsert(ctx, Resource::CommitFile, owner, name, record)
    }

    /// Inserts or updates a review thread of a mirrored repository.
    pub fn upsert_review_thread(&self, ctx: &SecurityContext, owner: &str, name: &str, record: ReviewThreadRecord) -> (out:
        UpsertPlan<ReviewThreadRecord>)
        ensures
            is_upsert_plan(*ctx, Resource::ReviewThread, owner@, name@, record, out),
    {
        plan_upsert(ctx, Resource::ReviewThread, owner, name, record)
    }

    /// Inserts or updates a commit comment of a mirrored repository.
    pub fn upsert_commit_comment(&self, ctx: &SecurityContext, owner: &str, name: &str, record: CommitCommentRecord) -> (out:
        UpsertPlan<CommitCommentRecord>)
        ensures
            is_upsert_plan(*ctx, Resource::CommitComment, owner@, name@, record, out),
    {
        plan_upsert(ctx, Resource::CommitComment, owner, name, record)
    }

    /// Inserts or updates an issue event of a mirrored repository.
    pub fn upsert_issue_event(&self, ctx: &SecurityContext, owner: &str, name: &str, record: IssueEventRecord) -> (out:
        UpsertPlan<IssueEventRecord>)
        ensures
            is_upsert_plan(*ctx, Resource::IssueEvent, owner@, name@, record, out),
    {
        plan_upsert(ctx, Resource::IssueEvent, owner, name, record)
    }

    /// Inserts or updates a deployment of a mirrored repository.
    pub fn upsert_deployment(&self, ctx: &SecurityContext, owner: &str, name: &str, record: DeploymentRecord) -> (out:
        UpsertPlan<DeploymentRecord>)
        ensures
            is_upsert_plan(*ctx, Resource::Deployment, owner@, name@, record, out),
    {
        plan_upsert(ctx, Resource::Deployment, owner, name, record)
    }

    /// Inserts or updates a pull request commit of a mirrored repository.
    pub fn upsert_pull_request_commit(&self, ctx: &SecurityContext, owner: &str, name: &str, record: PullRequestCommitRecord) -> (out:
        UpsertPlan<PullRequestCommitRecord>)
        ensures
            is_upsert_plan(*ctx, Resource::PullRequestCommit, owner@, name@, record, out),
    {
        plan_upsert(ctx, Resource::PullRequestCommit, owner, name, record)
    }

    /// Inserts or updates a commit status of a mirrored repository.
    pub fn upsert_commit_status(&self, ctx: &SecurityContext, owner: &str, name: &str, record: CommitStatusRecord) -> (out:
        UpsertPlan<CommitStatusRecord>)
        ensures
            is_upsert_plan(*ctx, Resource::CommitStatus, owner@, name@, record, out),
    {
        plan_upsert(ctx, Resource::CommitStatus, owner, name, record)
    }

    /// Inserts or updates a workflow job of a mirrored repository.
    pub fn upsert_workflow_job(&self, ctx: &SecurityContext, owner: &str, name: &str, record: WorkflowJobRecord) -> (out:
        UpsertPlan<WorkflowJobRecord>)
        ensures
            is_upsert_plan(*ctx, Resource::WorkflowJob, owner@, name@, record, out),
    {
        plan_upsert(ctx, Resource::WorkflowJob, owner, name, record)
    }

    /// Inserts or updates an issue reaction of a mirrored repository.
    pub fn upsert_issue_reaction(&self, ctx: &SecurityContext, owner: &str, name: &str, record: IssueReactionRecord) -> (out:
        UpsertPlan<IssueReactionRecord>)
        ensures
            is_upsert_plan(*ctx, Resource::IssueReaction, owner@, name@, record, out),
    {
        plan_upsert(ctx, Resource::IssueReaction, owner, name, record)
    }

    /// Inserts or updates a check run of a mirrored repository.
    pub fn upsert_check_run(&self, ctx: &SecurityContext, owner: &str, name: &str, record: CheckRunRecord) -> (out:
        UpsertPlan<CheckRunRecord>)
        ensures
            is_upsert_plan(*ctx, Resource::CheckRun, owner@, name@, record, out),
    {
        plan_upsert(ctx, Resource::CheckRun, owner, name, record)
    }

    /// Inserts or updates an issue timeline event of a mirrored repository.
    pub fn upsert_issue_timeline_event(&self, ctx: &SecurityContext, owner: &str, name: &str, record: IssueTimelineEventRecord) -> (out:
        UpsertPlan<IssueTimelineEventRecord>)
        ensures
            is_upsert_plan(*ctx, Resource::IssueTimeline, owner@, name@, record, out),
    {
        plan_upsert(ctx, Resource::IssueTimeline, owner, name, record)
    }
}

} // verus!
