//! The endpoints that serve the mirror at the paths of the API it mirrors, so
//! that a client only swaps its base URL.

use crate::context::SecurityContext;
use crate::service::access::Resource;
use crate::service::queries;
use crate::service::queries::{GetPlan, ListPlan, ODataQuery, SelectorView, Service};
use vstd::prelude::*;

verus! {

pub const API_TAG: &'static str = "GitHub Mirror";

pub const PAGE_DOC: &'static str = "Page number of the results to fetch (GitHub-style)";

pub const PER_PAGE_DOC: &'static str = "The number of results per page (max 100)";

/// Rows of a page at most.
pub const MAX_PER_PAGE: u64 = 100;

/// Rows of a page when the request does not say.
pub const DEFAULT_PER_PAGE: u64 = 50;

/// Which rows of a listing a page holds: so many, after so many others.
#[derive(Debug, Clone, Copy, PartialEq, Eq, Structural)]
pub struct Window {
    pub skip: u64,
    pub take: u64,
}

/// Pages count from one.
pub open spec fn page_asked(page: Option<u64>) -> nat {
    match page {
        Some(page) => if page >= 1 {
            page as nat
        } else {
            1
        },
        None => 1,
    }
}

pub open spec fn rows_asked(per_page: Option<u64>) -> nat {
    match per_page {
        Some(rows) => if rows < 1 {
            1
        } else if rows <= MAX_PER_PAGE {
            rows as nat
        } else {
            MAX_PER_PAGE as nat
        },
        None => DEFAULT_PER_PAGE as nat,
    }
}

/// What precedes a page.
pub open spec fn rows_before(page: nat, rows: nat) -> nat {
    ((page - 1) * rows) as nat
}

/// The rows of the page that is asked for.
pub fn window(page: Option<u64>, per_page: Option<u64>) -> (out: Window)
    ensures
        out.take == rows_asked(per_page),
        out.skip == if rows_before(page_asked(page), rows_asked(per_page)) <= u64::MAX {
            rows_before(page_asked(page), rows_asked(per_page))
        } else {
            u64::MAX as nat
        },
{
    let page: u64 = match page {
        Some(page) => if page >= 1 {
            page
        } else {
            1
        },
        None => 1,
    };
    let take: u64 = match per_page {
        Some(rows) => if rows < 1 {
            1
        } else if rows <= MAX_PER_PAGE {
            rows
        } else {
            MAX_PER_PAGE
        },
        None => DEFAULT_PER_PAGE,
    };
    assert((page - 1) * take >= 0) by (nonlinear_arith)
        requires
            page >= 1,
            take >= 1,
    ;
    let skip: u64 = match (page - 1).checked_mul(take) {
        Some(skip) => skip,
        None => u64::MAX,
    };
    Window { skip, take }
}

/// Where a listing of that length is cut by a bound.
pub open spec fn cut_at(length: nat, bound: int) -> int {
    if bound <= length {
        bound
    } else {
        length as int
    }
}

/// The rows of a listing that a page holds.
pub open spec fn rows_within<T>(rows: Seq<T>, window: Window) -> Seq<T> {
    rows.subrange(
        cut_at(rows.len(), window.skip as int),
        cut_at(rows.len(), window.skip + window.take),
    )
}

/// See [`rows_within`].
pub fn page_rows<T>(rows: Vec<T>, window: Window) -> (out: Vec<T>)
    ensures
        out@ == rows_within(rows@, window),
{
    let length: usize = rows.len();
    let mut out: Vec<T> = Vec::new();
    let mut seen: u64 = 0;
    assert(rows_within(rows@.take(0), window) =~= Seq::<T>::empty());
    for row in it: rows
        invariant
            it.seq() == rows@,
            seen == it.index(),
            length == rows@.len(),
            out@ == rows_within(rows@.take(seen as int), window),
    {
        let ghost before = out@;
        if seen >= window.skip && seen - window.skip < window.take {
            out.push(row);
            assert(out@ =~= rows_within(rows@.take(seen + 1), window));
        } else {
            assert(before =~= rows_within(rows@.take(seen + 1), window));
        }
        seen = seen + 1;
    }
    assert(rows@.take(seen as int) =~= rows@);
    out
}

/// A page begins where the one before it ends, and the first begins at the
/// beginning. So the pages of a listing hold each of its rows once.
pub proof fn pages_follow_each_other(page: nat, rows: nat)
    requires
        page >= 1,
    ensures
        rows_before(1, rows) == 0,
        rows_before(page + 1, rows) == rows_before(page, rows) + rows,
{
    assert(page * rows == (page - 1) * rows + rows) by (nonlinear_arith);
    assert((page - 1) * rows >= 0) by (nonlinear_arith)
        requires
            page >= 1,
    ;
}

/// The endpoints.
#[derive(Debug, Clone, Copy, PartialEq, Eq, Structural)]
pub enum Endpoint {
    GetAuthenticatedUser,
    ListUserRepos,
    ListIssues,
    ListComments,
    ListBranches,
    ListContributors,
    ListIssueEvents,
    ListIssueReactions,
    ListIssueTimeline,
    ListDeployments,
    ListCommits,
    ListCommitComments,
    ListCheckRuns,
    ListCommitStatuses,
    GetRepo,
    GetIssue,
    GetPullRequest,
    GetCommit,
    ListPullRequests,
    ListReviews,
    ListReviewComments,
    ListPullRequestFiles,
    ListPullRequestCommits,
    ListTags,
    ListReleases,
    ListMilestones,
    ListLabels,
    ListWorkflowRuns,
    ListWorkflowJobs,
}

/// How an endpoint answers.
#[derive(Debug, Clone, Copy)]
pub struct EndpointResponse {
    /// An array of the schema, or the schema itself.
    pub array: bool,
    pub schema: &'static str,
    pub description: &'static str,
}

/// What stands in the path of a request.
#[derive(Debug)]
pub struct PathNames {
    pub owner: String,
    pub name: String,
    pub number: i64,
    pub sha: String,
    pub run_id: i64,
}

/// What an endpoint asks of the mirror.
#[derive(Debug)]
pub enum EndpointQuery {
    /// Who the mirror is.
    Identity,
    /// The mirrored repositories.
    Repositories,
    /// One repository.
    Repository(GetPlan),
    /// One row of a repository.
    Row(GetPlan),
    /// Rows of a repository.
    Rows(ListPlan),
}

/// An endpoint as it is registered.
#[derive(Debug)]
pub struct Operation {
    pub method: &'static str,
    pub path: &'static str,
    pub operation_id: &'static str,
    pub summary: &'static str,
    pub tag: &'static str,
    pub authenticated: bool,
    pub path_params: Vec<(&'static str, &'static str)>,
    pub query_params: Vec<(&'static str, &'static str)>,
    pub response: EndpointResponse,
    pub errors: Vec<u16>,
}

impl Endpoint {
    /// The method that the endpoint answers.
    pub fn method(self) -> (out: &'static str)
        ensures
            out@ == "GET"@,
    {
        "GET"
    }

    /// Whether a caller has to be authenticated.
    pub fn authenticated(self) -> (out: bool)
        ensures
            out,
    {
        true
    }

    pub open spec fn spec_path(self) -> Seq<char> {
        match self {
            Endpoint::GetAuthenticatedUser => "/user"@,
            Endpoint::ListUserRepos => "/user/repos"@,
            Endpoint::ListIssues => "/repos/{owner}/{name}/issues"@,
            Endpoint::ListComments => "/repos/{owner}/{name}/issues/{number}/comments"@,
            Endpoint::ListBranches => "/repos/{owner}/{name}/branches"@,
            Endpoint::ListContributors => "/repos/{owner}/{name}/contributors"@,
            Endpoint::ListIssueEvents => "/repos/{owner}/{name}/issues/{number}/events"@,
            Endpoint::ListIssueReactions => "/repos/{owner}/{name}/issues/{number}/reactions"@,
            Endpoint::ListIssueTimeline => "/repos/{owner}/{name}/issues/{number}/timeline"@,
            Endpoint::ListDeployments => "/repos/{owner}/{name}/deployments"@,
            Endpoint::ListCommits => "/repos/{owner}/{name}/commits"@,
            Endpoint::ListCommitComments => "/repos/{owner}/{name}/commits/{sha}/comments"@,
            Endpoint::ListCheckRuns => "/repos/{owner}/{name}/commits/{sha}/check-runs"@,
            Endpoint::ListCommitStatuses => "/repos/{owner}/{name}/commits/{sha}/statuses"@,
            Endpoint::GetRepo => "/repos/{owner}/{name}"@,
            Endpoint::GetIssue => "/repos/{owner}/{name}/issues/{number}"@,
            Endpoint::GetPullRequest => "/repos/{owner}/{name}/pulls/{number}"@,
            Endpoint::GetCommit => "/repos/{owner}/{name}/commits/{sha}"@,
            Endpoint::ListPullRequests => "/repos/{owner}/{name}/pulls"@,
            Endpoint::ListReviews => "/repos/{owner}/{name}/pulls/{number}/reviews"@,
            Endpoint::ListReviewComments => "/repos/{owner}/{name}/pulls/{number}/comments"@,
            Endpoint::ListPullRequestFiles => "/repos/{owner}/{name}/pulls/{number}/files"@,
            Endpoint::ListPullRequestCommits => "/repos/{owner}/{name}/pulls/{number}/commits"@,
            Endpoint::ListTags => "/repos/{owner}/{name}/tags"@,
            Endpoint::ListReleases => "/repos/{owner}/{name}/releases"@,
            Endpoint::ListMilestones => "/repos/{owner}/{name}/milestones"@,
            Endpoint::ListLabels => "/repos/{owner}/{name}/labels"@,
            Endpoint::ListWorkflowRuns => "/repos/{owner}/{name}/actions/runs"@,
            Endpoint::ListWorkflowJobs => "/repos/{owner}/{name}/actions/runs/{run_id}/jobs"@,
        }
    }

    /// Where the endpoint is.
    pub fn path(self) -> (out: &'static str)
        ensures
            out@ == self.spec_path(),
    {
        match self {
            Endpoint::GetAuthenticatedUser => "/user",
            Endpoint::ListUserRepos => "/user/repos",
            Endpoint::ListIssues => "/repos/{owner}/{name}/issues",
            Endpoint::ListComments => "/repos/{owner}/{name}/issues/{number}/comments",
            Endpoint::ListBranches => "/repos/{owner}/{name}/branches",
            Endpoint::ListContributors => "/repos/{owner}/{name}/contributors",
            Endpoint::ListIssueEvents => "/repos/{owner}/{name}/issues/{number}/events",
            Endpoint::ListIssueReactions => "/repos/{owner}/{name}/issues/{number}/reactions",
            Endpoint::ListIssueTimeline => "/repos/{owner}/{name}/issues/{number}/timeline",
            Endpoint::ListDeployments => "/repos/{owner}/{name}/deployments",
            Endpoint::ListCommits => "/repos/{owner}/{name}/commits",
            Endpoint::ListCommitComments => "/repos/{owner}/{name}/commits/{sha}/comments",
            Endpoint::ListCheckRuns => "/repos/{owner}/{name}/commits/{sha}/check-runs",
            Endpoint::ListCommitStatuses => "/repos/{owner}/{name}/commits/{sha}/statuses",
            Endpoint::GetRepo => "/repos/{owner}/{name}",
            Endpoint::GetIssue => "/repos/{owner}/{name}/issues/{number}",
            Endpoint::GetPullRequest => "/repos/{owner}/{name}/pulls/{number}",
            Endpoint::GetCommit => "/repos/{owner}/{name}/commits/{sha}",
            Endpoint::ListPullRequests => "/repos/{owner}/{name}/pulls",
            Endpoint::ListReviews => "/repos/{owner}/{name}/pulls/{number}/reviews",
            Endpoint::ListReviewComments => "/repos/{owner}/{name}/pulls/{number}/comments",
            Endpoint::ListPullRequestFiles => "/repos/{owner}/{name}/pulls/{number}/files",
            Endpoint::ListPullRequestCommits => "/repos/{owner}/{name}/pulls/{number}/commits",
            Endpoint::ListTags => "/repos/{owner}/{name}/tags",
            Endpoint::ListReleases => "/repos/{owner}/{name}/releases",
            Endpoint::ListMilestones => "/repos/{owner}/{name}/milestones",
            Endpoint::ListLabels => "/repos/{owner}/{name}/labels",
            Endpoint::ListWorkflowRuns => "/repos/{owner}/{name}/actions/runs",
            Endpoint::ListWorkflowJobs => "/repos/{owner}/{name}/actions/runs/{run_id}/jobs",
        }
    }

    pub open spec fn spec_operation_id(self) -> Seq<char> {
        match self {
            Endpoint::GetAuthenticatedUser => "github_mirror.get_authenticated_user"@,
            Endpoint::ListUserRepos => "github_mirror.list_user_repos"@,
            Endpoint::ListIssues => "github_mirror.list_issues"@,
            Endpoint::ListComments => "github_mirror.list_comments"@,
            Endpoint::ListBranches => "github_mirror.list_branches"@,
            Endpoint::ListContributors => "github_mirror.list_contributors"@,
            Endpoint::ListIssueEvents => "github_mirror.list_issue_events"@,
            Endpoint::ListIssueReactions => "github_mirror.list_issue_reactions"@,
            Endpoint::ListIssueTimeline => "github_mirror.list_issue_timeline"@,
            Endpoint::ListDeployments => "github_mirror.list_deployments"@,
            Endpoint::ListCommits => "github_mirror.list_commits"@,
            Endpoint::ListCommitComments => "github_mirror.list_commit_comments"@,
            Endpoint::ListCheckRuns => "github_mirror.list_check_runs"@,
            Endpoint::ListCommitStatuses => "github_mirror.list_commit_statuses"@,
            Endpoint::GetRepo => "github_mirror.get_repo"@,
            Endpoint::GetIssue => "github_mirror.get_issue"@,
            Endpoint::GetPullRequest => "github_mirror.get_pull_request"@,
            Endpoint::GetCommit => "github_mirror.get_commit"@,
            Endpoint::ListPullRequests => "github_mirror.list_pull_requests"@,
            Endpoint::ListReviews => "github_mirror.list_reviews"@,
            Endpoint::ListReviewComments => "github_mirror.list_review_comments"@,
            Endpoint::ListPullRequestFiles => "github_mirror.list_pull_request_files"@,
            Endpoint::ListPullRequestCommits => "github_mirror.list_pull_request_commits"@,
            Endpoint::ListTags => "github_mirror.list_tags"@,
            Endpoint::ListReleases => "github_mirror.list_releases"@,
            Endpoint::ListMilestones => "github_mirror.list_milestones"@,
            Endpoint::ListLabels => "github_mirror.list_labels"@,
            Endpoint::ListWorkflowRuns => "github_mirror.list_workflow_runs"@,
            Endpoint::ListWorkflowJobs => "github_mirror.list_workflow_jobs"@,
        }
    }

    /// The id of its operation.
    pub fn operation_id(self) -> (out: &'static str)
        ensures
            out@ == self.spec_operation_id(),
    {
        match self {
            Endpoint::GetAuthenticatedUser => "github_mirror.get_authenticated_user",
            Endpoint::ListUserRepos => "github_mirror.list_user_repos",
            Endpoint::ListIssues => "github_mirror.list_issues",
            Endpoint::ListComments => "github_mirror.list_comments",
            Endpoint::ListBranches => "github_mirror.list_branches",
            Endpoint::ListContributors => "github_mirror.list_contributors",
            Endpoint::ListIssueEvents => "github_mirror.list_issue_events",
            Endpoint::ListIssueReactions => "github_mirror.list_issue_reactions",
            Endpoint::ListIssueTimeline => "github_mirror.list_issue_timeline",
            Endpoint::ListDeployments => "github_mirror.list_deployments",
            Endpoint::ListCommits => "github_mirror.list_commits",
            Endpoint::ListCommitComments => "github_mirror.list_commit_comments",
            Endpoint::ListCheckRuns => "github_mirror.list_check_runs",
            Endpoint::ListCommitStatuses => "github_mirror.list_commit_statuses",
            Endpoint::GetRepo => "github_mirror.get_repo",
            Endpoint::GetIssue => "github_mirror.get_issue",
            Endpoint::GetPullRequest => "github_mirror.get_pull_request",
            Endpoint::GetCommit => "github_mirror.get_commit",
            Endpoint::ListPullRequests => "github_mirror.list_pull_requests",
            Endpoint::ListReviews => "github_mirror.list_reviews",
            Endpoint::ListReviewComments => "github_mirror.list_review_comments",
            Endpoint::ListPullRequestFiles => "github_mirror.list_pull_request_files",
            Endpoint::ListPullRequestCommits => "github_mirror.list_pull_request_commits",
            Endpoint::ListTags => "github_mirror.list_tags",
            Endpoint::ListReleases => "github_mirror.list_releases",
            Endpoint::ListMilestones => "github_mirror.list_milestones",
            Endpoint::ListLabels => "github_mirror.list_labels",
            Endpoint::ListWorkflowRuns => "github_mirror.list_workflow_runs",
            Endpoint::ListWorkflowJobs => "github_mirror.list_workflow_jobs",
        }
    }

    pub open spec fn spec_summary(self) -> Seq<char> {
        match self {
            Endpoint::GetAuthenticatedUser => "Get the authenticated user (GitHub-compatible)"@,
            Endpoint::ListUserRepos => "List the caller's repositories (GitHub-compatible)"@,
            Endpoint::ListIssues => "List issues (GitHub-compatible)"@,
            Endpoint::ListComments => "List issue comments (GitHub-compatible)"@,
            Endpoint::ListBranches => "List branches (GitHub-compatible)"@,
            Endpoint::ListContributors => "List contributors (GitHub-compatible)"@,
            Endpoint::ListIssueEvents => "List issue events (GitHub-compatible)"@,
            Endpoint::ListIssueReactions => "List issue reactions (GitHub-compatible)"@,
            Endpoint::ListIssueTimeline => "List issue timeline (GitHub-compatible)"@,
            Endpoint::ListDeployments => "List deployments (GitHub-compatible)"@,
            Endpoint::ListCommits => "List commits (GitHub-compatible)"@,
            Endpoint::ListCommitComments => "List commit comments (GitHub-compatible)"@,
            Endpoint::ListCheckRuns => "List commit check runs (GitHub-compatible)"@,
            Endpoint::ListCommitStatuses => "List commit statuses (GitHub-compatible)"@,
            Endpoint::GetRepo => "Get a repository (GitHub-compatible)"@,
            Endpoint::GetIssue => "Get an issue (GitHub-compatible)"@,
            Endpoint::GetPullRequest => "Get a pull request (GitHub-compatible)"@,
            Endpoint::GetCommit => "Get a commit (GitHub-compatible)"@,
            Endpoint::ListPullRequests => "List pull requests (GitHub-compatible)"@,
            Endpoint::ListReviews => "List pull request reviews (GitHub-compatible)"@,
            Endpoint::ListReviewComments => "List pull request review comments (GitHub-compatible)"@,
            Endpoint::ListPullRequestFiles => "List pull request files (GitHub-compatible)"@,
            Endpoint::ListPullRequestCommits => "List pull request commits (GitHub-compatible)"@,
            Endpoint::ListTags => "List tags (GitHub-compatible)"@,
            Endpoint::ListReleases => "List releases (GitHub-compatible)"@,
            Endpoint::ListMilestones => "List milestones (GitHub-compatible)"@,
            Endpoint::ListLabels => "List labels (GitHub-compatible)"@,
            Endpoint::ListWorkflowRuns => "List workflow runs (GitHub-compatible)"@,
            Endpoint::ListWorkflowJobs => "List workflow run jobs (GitHub-compatible)"@,
        }
    }

    /// What it does.
    pub fn summary(self) -> (out: &'static str)
        ensures
            out@ == self.spec_summary(),
    {
        match self {
            Endpoint::GetAuthenticatedUser => "Get the authenticated user (GitHub-compatible)",
            Endpoint::ListUserRepos => "List the caller's repositories (GitHub-compatible)",
            Endpoint::ListIssues => "List issues (GitHub-compatible)",
            Endpoint::ListComments => "List issue comments (GitHub-compatible)",
            Endpoint::ListBranches => "List branches (GitHub-compatible)",
            Endpoint::ListContributors => "List contributors (GitHub-compatible)",
            Endpoint::ListIssueEvents => "List issue events (GitHub-compatible)",
            Endpoint::ListIssueReactions => "List issue reactions (GitHub-compatible)",
            Endpoint::ListIssueTimeline => "List issue timeline (GitHub-compatible)",
            Endpoint::ListDeployments => "List deployments (GitHub-compatible)",
            Endpoint::ListCommits => "List commits (GitHub-compatible)",
            Endpoint::ListCommitComments => "List commit comments (GitHub-compatible)",
            Endpoint::ListCheckRuns => "List commit check runs (GitHub-compatible)",
            Endpoint::ListCommitStatuses => "List commit statuses (GitHub-compatible)",
            Endpoint::GetRepo => "Get a repository (GitHub-compatible)",
            Endpoint::GetIssue => "Get an issue (GitHub-compatible)",
            Endpoint::GetPullRequest => "Get a pull request (GitHub-compatible)",
            Endpoint::GetCommit => "Get a commit (GitHub-compatible)",
            Endpoint::ListPullRequests => "List pull requests (GitHub-compatible)",
            Endpoint::ListReviews => "List pull request reviews (GitHub-compatible)",
            Endpoint::ListReviewComments => "List pull request review comments (GitHub-compatible)",
            Endpoint::ListPullRequestFiles => "List pull request files (GitHub-compatible)",
            Endpoint::ListPullRequestCommits => "List pull request commits (GitHub-compatible)",
            Endpoint::ListTags => "List tags (GitHub-compatible)",
            Endpoint::ListReleases => "List releases (GitHub-compatible)",
            Endpoint::ListMilestones => "List milestones (GitHub-compatible)",
            Endpoint::ListLabels => "List labels (GitHub-compatible)",
            Endpoint::ListWorkflowRuns => "List workflow runs (GitHub-compatible)",
            Endpoint::ListWorkflowJobs => "List workflow run jobs (GitHub-compatible)",
        }
    }

    pub open spec fn spec_schema(self) -> Seq<char> {
        match self {
            Endpoint::GetAuthenticatedUser => "AuthenticatedUserDto"@,
            Endpoint::ListUserRepos => "RepoDto"@,
            Endpoint::ListIssues => "IssueDto"@,
            Endpoint::ListComments => "CommentDto"@,
            Endpoint::ListBranches => "BranchDto"@,
            Endpoint::ListContributors => "ContributorDto"@,
            Endpoint::ListIssueEvents => "IssueEventDto"@,
            Endpoint::ListIssueReactions => "IssueReactionDto"@,
            Endpoint::ListIssueTimeline => "IssueTimelineEventDto"@,
            Endpoint::ListDeployments => "DeploymentDto"@,
            Endpoint::ListCommits => "CommitDto"@,
            Endpoint::ListCommitComments => "CommitCommentDto"@,
            Endpoint::ListCheckRuns => "CheckRunsPageDto"@,
            Endpoint::ListCommitStatuses => "CommitStatusDto"@,
            Endpoint::GetRepo => "RepoDto"@,
            Endpoint::GetIssue => "IssueDto"@,
            Endpoint::GetPullRequest => "PullRequestDto"@,
            Endpoint::GetCommit => "CommitDto"@,
            Endpoint::ListPullRequests => "PullRequestDto"@,
            Endpoint::ListReviews => "ReviewDto"@,
            Endpoint::ListReviewComments => "ReviewCommentDto"@,
            Endpoint::ListPullRequestFiles => "PullRequestFileDto"@,
            Endpoint::ListPullRequestCommits => "CommitDto"@,
            Endpoint::ListTags => "TagDto"@,
            Endpoint::ListReleases => "ReleaseDto"@,
            Endpoint::ListMilestones => "MilestoneDto"@,
            Endpoint::ListLabels => "LabelDto"@,
            Endpoint::ListWorkflowRuns => "WorkflowRunsPageDto"@,
            Endpoint::ListWorkflowJobs => "WorkflowJobsPageDto"@,
        }
    }

    /// The schema of what it answers.
    pub fn schema(self) -> (out: &'static str)
        ensures
            out@ == self.spec_schema(),
    {
        match self {
            Endpoint::GetAuthenticatedUser => "AuthenticatedUserDto",
            Endpoint::ListUserRepos => "RepoDto",
            Endpoint::ListIssues => "IssueDto",
            Endpoint::ListComments => "CommentDto",
            Endpoint::ListBranches => "BranchDto",
            Endpoint::ListContributors => "ContributorDto",
            Endpoint::ListIssueEvents => "IssueEventDto",
            Endpoint::ListIssueReactions => "IssueReactionDto",
            Endpoint::ListIssueTimeline => "IssueTimelineEventDto",
            Endpoint::ListDeployments => "DeploymentDto",
            Endpoint::ListCommits => "CommitDto",
            Endpoint::ListCommitComments => "CommitCommentDto",
            Endpoint::ListCheckRuns => "CheckRunsPageDto",
            Endpoint::ListCommitStatuses => "CommitStatusDto",
            Endpoint::GetRepo => "RepoDto",
            Endpoint::GetIssue => "IssueDto",
            Endpoint::GetPullRequest => "PullRequestDto",
            Endpoint::GetCommit => "CommitDto",
            Endpoint::ListPullRequests => "PullRequestDto",
            Endpoint::ListReviews => "ReviewDto",
            Endpoint::ListReviewComments => "ReviewCommentDto",
            Endpoint::ListPullRequestFiles => "PullRequestFileDto",
            Endpoint::ListPullRequestCommits => "CommitDto",
            Endpoint::ListTags => "TagDto",
            Endpoint::ListReleases => "ReleaseDto",
            Endpoint::ListMilestones => "MilestoneDto",
            Endpoint::ListLabels => "LabelDto",
            Endpoint::ListWorkflowRuns => "WorkflowRunsPageDto",
            Endpoint::ListWorkflowJobs => "WorkflowJobsPageDto",
        }
    }

    pub open spec fn spec_description(self) -> Seq<char> {
        match self {
            Endpoint::GetAuthenticatedUser => "The mirror's own identity, GitHub-shaped"@,
            Endpoint::ListUserRepos => "GitHub-shaped list of the tenant's mirrored repositories"@,
            Endpoint::ListIssues => "GitHub-shaped list of issues"@,
            Endpoint::ListComments => "GitHub-shaped list of issue comments"@,
            Endpoint::ListBranches => "GitHub-shaped list of branches"@,
            Endpoint::ListContributors => "GitHub-shaped list of contributors"@,
            Endpoint::ListIssueEvents => "GitHub-shaped list of issue events"@,
            Endpoint::ListIssueReactions => "GitHub-shaped list of issue reactions"@,
            Endpoint::ListIssueTimeline => "GitHub-shaped issue timeline, newest entry last"@,
            Endpoint::ListDeployments => "GitHub-shaped list of deployments"@,
            Endpoint::ListCommits => "GitHub-shaped list of commits"@,
            Endpoint::ListCommitComments => "GitHub-shaped list of commit comments"@,
            Endpoint::ListCheckRuns => "GitHub-shaped check runs page"@,
            Endpoint::ListCommitStatuses => "GitHub-shaped list of commit statuses"@,
            Endpoint::GetRepo => "GitHub-shaped repository"@,
            Endpoint::GetIssue => "GitHub-shaped issue"@,
            Endpoint::GetPullRequest => "GitHub-shaped pull request"@,
            Endpoint::GetCommit => "GitHub-shaped commit with stats and files"@,
            Endpoint::ListPullRequests => "GitHub-shaped list of pull requests"@,
            Endpoint::ListReviews => "GitHub-shaped list of reviews"@,
            Endpoint::ListReviewComments => "GitHub-shaped list of review comments"@,
            Endpoint::ListPullRequestFiles => "GitHub-shaped list of pull request files"@,
            Endpoint::ListPullRequestCommits => "GitHub-shaped list of pull request commits"@,
            Endpoint::ListTags => "GitHub-shaped list of tags"@,
            Endpoint::ListReleases => "GitHub-shaped list of releases"@,
            Endpoint::ListMilestones => "GitHub-shaped list of milestones"@,
            Endpoint::ListLabels => "GitHub-shaped list of labels"@,
            Endpoint::ListWorkflowRuns => "GitHub-shaped workflow runs page"@,
            Endpoint::ListWorkflowJobs => "GitHub-shaped workflow jobs page"@,
        }
    }

    /// What it answers.
    pub fn description(self) -> (out: &'static str)
        ensures
            out@ == self.spec_description(),
    {
        match self {
            Endpoint::GetAuthenticatedUser => "The mirror's own identity, GitHub-shaped",
            Endpoint::ListUserRepos => "GitHub-shaped list of the tenant's mirrored repositories",
            Endpoint::ListIssues => "GitHub-shaped list of issues",
            Endpoint::ListComments => "GitHub-shaped list of issue comments",
            Endpoint::ListBranches => "GitHub-shaped list of branches",
            Endpoint::ListContributors => "GitHub-shaped list of contributors",
            Endpoint::ListIssueEvents => "GitHub-shaped list of issue events",
            Endpoint::ListIssueReactions => "GitHub-shaped list of issue reactions",
            Endpoint::ListIssueTimeline => "GitHub-shaped issue timeline, newest entry last",
            Endpoint::ListDeployments => "GitHub-shaped list of deployments",
            Endpoint::ListCommits => "GitHub-shaped list of commits",
            Endpoint::ListCommitComments => "GitHub-shaped list of commit comments",
            Endpoint::ListCheckRuns => "GitHub-shaped check runs page",
            Endpoint::ListCommitStatuses => "GitHub-shaped list of commit statuses",
            Endpoint::GetRepo => "GitHub-shaped repository",
            Endpoint::GetIssue => "GitHub-shaped issue",
            Endpoint::GetPullRequest => "GitHub-shaped pull request",
            Endpoint::GetCommit => "GitHub-shaped commit with stats and files",
            Endpoint::ListPullRequests => "GitHub-shaped list of pull requests",
            Endpoint::ListReviews => "GitHub-shaped list of reviews",
            Endpoint::ListReviewComments => "GitHub-shaped list of review comments",
            Endpoint::ListPullRequestFiles => "GitHub-shaped list of pull request files",
            Endpoint::ListPullRequestCommits => "GitHub-shaped list of pull request commits",
            Endpoint::ListTags => "GitHub-shaped list of tags",
            Endpoint::ListReleases => "GitHub-shaped list of releases",
            Endpoint::ListMilestones => "GitHub-shaped list of milestones",
            Endpoint::ListLabels => "GitHub-shaped list of labels",
            Endpoint::ListWorkflowRuns => "GitHub-shaped workflow runs page",
            Endpoint::ListWorkflowJobs => "GitHub-shaped workflow jobs page",
        }
    }

    /// Whether it answers a bare array.
    pub open spec fn spec_is_array(self) -> bool {
        match self {
            Endpoint::GetAuthenticatedUser => false,
            Endpoint::ListCheckRuns => false,
            Endpoint::GetRepo => false,
            Endpoint::GetIssue => false,
            Endpoint::GetPullRequest => false,
            Endpoint::GetCommit => false,
            Endpoint::ListWorkflowRuns => false,
            Endpoint::ListWorkflowJobs => false,
            _ => true,
        }
    }

    /// How the endpoint answers.
    pub fn response(self) -> (out: EndpointResponse)
        ensures
            out.array == self.spec_is_array(),
            out.schema@ == self.spec_schema(),
            out.description@ == self.spec_description(),
    {
        let array = match self {
            Endpoint::GetAuthenticatedUser => false,
            Endpoint::ListCheckRuns => false,
            Endpoint::GetRepo => false,
            Endpoint::GetIssue => false,
            Endpoint::GetPullRequest => false,
            Endpoint::GetCommit => false,
            Endpoint::ListWorkflowRuns => false,
            Endpoint::ListWorkflowJobs => false,
            _ => true,
        };
        EndpointResponse { array, schema: self.schema(), description: self.description() }
    }

    /// Whether its answer is a page of a listing.
    pub open spec fn spec_is_paged(self) -> bool {
        match self {
            Endpoint::GetAuthenticatedUser => false,
            Endpoint::GetRepo => false,
            Endpoint::GetIssue => false,
            Endpoint::GetPullRequest => false,
            Endpoint::GetCommit => false,
            _ => true,
        }
    }

    /// The parameters are the optional ones of the query, each with its meaning.
    pub open spec fn takes_query(self, params: Seq<(&'static str, &'static str)>) -> bool {
        if self.spec_is_paged() {
            &&& params.len() == 2
            &&& params[0].0@ == "page"@ && params[0].1@ == PAGE_DOC@
            &&& params[1].0@ == "per_page"@ && params[1].1@ == PER_PAGE_DOC@
        } else {
            params.len() == 0
        }
    }

    /// The optional query parameters, each with its meaning.
    pub fn query_params(self) -> (out: Vec<(&'static str, &'static str)>)
        ensures
            self.takes_query(out@),
    {
        match self {
            Endpoint::GetAuthenticatedUser => Vec::new(),
            Endpoint::GetRepo => Vec::new(),
            Endpoint::GetIssue => Vec::new(),
            Endpoint::GetPullRequest => Vec::new(),
            Endpoint::GetCommit => Vec::new(),
            _ => vec![("page", PAGE_DOC), ("per_page", PER_PAGE_DOC)],
        }
    }

    /// Whether it is about one repository.
    pub open spec fn spec_in_repository(self) -> bool {
        !(self is GetAuthenticatedUser) && !(self is ListUserRepos)
    }

    /// The path parameter besides the repository's, with its meaning.
    pub open spec fn spec_item_param(self) -> Option<(Seq<char>, Seq<char>)> {
        match self {
            Endpoint::GetAuthenticatedUser => None,
            Endpoint::ListUserRepos => None,
            Endpoint::ListIssues => None,
            Endpoint::ListComments => Some(("number"@, "Issue or pull request number"@)),
            Endpoint::ListBranches => None,
            Endpoint::ListContributors => None,
            Endpoint::ListIssueEvents => Some(("number"@, "Issue or pull request number"@)),
            Endpoint::ListIssueReactions => Some(("number"@, "Issue or pull request number"@)),
            Endpoint::ListIssueTimeline => Some(("number"@, "Issue or pull request number"@)),
            Endpoint::ListDeployments => None,
            Endpoint::ListCommits => None,
            Endpoint::ListCommitComments => Some(("sha"@, "Commit SHA"@)),
            Endpoint::ListCheckRuns => Some(("sha"@, "Commit SHA"@)),
            Endpoint::ListCommitStatuses => Some(("sha"@, "Commit SHA"@)),
            Endpoint::GetRepo => None,
            Endpoint::GetIssue => Some(("number"@, "Issue number"@)),
            Endpoint::GetPullRequest => Some(("number"@, "Pull request number"@)),
            Endpoint::GetCommit => Some(("sha"@, "Commit SHA"@)),
            Endpoint::ListPullRequests => None,
            Endpoint::ListReviews => Some(("number"@, "Pull request number"@)),
            Endpoint::ListReviewComments => Some(("number"@, "Pull request number"@)),
            Endpoint::ListPullRequestFiles => Some(("number"@, "Pull request number"@)),
            Endpoint::ListPullRequestCommits => Some(("number"@, "Pull request number"@)),
            Endpoint::ListTags => None,
            Endpoint::ListReleases => None,
            Endpoint::ListMilestones => None,
            Endpoint::ListLabels => None,
            Endpoint::ListWorkflowRuns => None,
            Endpoint::ListWorkflowJobs => Some(("run_id"@, "Workflow run id"@)),
        }
    }

    fn item_param(self) -> (out: Option<(&'static str, &'static str)>)
        ensures
            match out {
                Some((name, meaning)) => self.spec_item_param() == Some((name@, meaning@)),
                None => self.spec_item_param() is None,
            },
    {
        match self {
            Endpoint::GetAuthenticatedUser => None,
            Endpoint::ListUserRepos => None,
            Endpoint::ListIssues => None,
            Endpoint::ListComments => Some(("number", "Issue or pull request number")),
            Endpoint::ListBranches => None,
            Endpoint::ListContributors => None,
            Endpoint::ListIssueEvents => Some(("number", "Issue or pull request number")),
            Endpoint::ListIssueReactions => Some(("number", "Issue or pull request number")),
            Endpoint::ListIssueTimeline => Some(("number", "Issue or pull request number")),
            Endpoint::ListDeployments => None,
            Endpoint::ListCommits => None,
            Endpoint::ListCommitComments => Some(("sha", "Commit SHA")),
            Endpoint::ListCheckRuns => Some(("sha", "Commit SHA")),
            Endpoint::ListCommitStatuses => Some(("sha", "Commit SHA")),
            Endpoint::GetRepo => None,
            Endpoint::GetIssue => Some(("number", "Issue number")),
            Endpoint::GetPullRequest => Some(("number", "Pull request number")),
            Endpoint::GetCommit => Some(("sha", "Commit SHA")),
            Endpoint::ListPullRequests => None,
            Endpoint::ListReviews => Some(("number", "Pull request number")),
            Endpoint::ListReviewComments => Some(("number", "Pull request number")),
            Endpoint::ListPullRequestFiles => Some(("number", "Pull request number")),
            Endpoint::ListPullRequestCommits => Some(("number", "Pull request number")),
            Endpoint::ListTags => None,
            Endpoint::ListReleases => None,
            Endpoint::ListMilestones => None,
            Endpoint::ListLabels => None,
            Endpoint::ListWorkflowRuns => None,
            Endpoint::ListWorkflowJobs => Some(("run_id", "Workflow run id")),
        }
    }

    /// The parameters are those of the path, each with its meaning.
    pub open spec fn takes_path(self, params: Seq<(&'static str, &'static str)>) -> bool {
        if self.spec_in_repository() {
            &&& self.spec_item_param() is Some ==> params.len() == 3
            &&& self.spec_item_param() is None ==> params.len() == 2
            &&& params[0].0@ == "owner"@
            &&& params[1].0@ == "name"@
            &&& params[0].1@ == if self is ListCommitComments {
                "Repository owner login"@
            } else {
                "Repo owner login"@
            }
            &&& params[1].1@ == if self is ListCommitComments {
                "Repository name"@
            } else {
                "Repo name"@
            }
            &&& self.spec_item_param() is Some ==> (params[2].0@, params[2].1@)
                == self.spec_item_param()->0
        } else {
            params.len() == 0
        }
    }

    /// The path parameters, each with its meaning.
    pub fn path_params(self) -> (out: Vec<(&'static str, &'static str)>)
        ensures
            self.takes_path(out@),
    {
        let mut out: Vec<(&'static str, &'static str)> = match self {
            Endpoint::GetAuthenticatedUser => return Vec::new(),
            Endpoint::ListUserRepos => return Vec::new(),
            Endpoint::ListCommitComments => vec![
                ("owner", "Repository owner login"),
                ("name", "Repository name"),
            ],
            _ => vec![("owner", "Repo owner login"), ("name", "Repo name")],
        };
        match self.item_param() {
            Some(param) => {
                out.push(param);
            },
            None => {},
        }
        out
    }

    /// The statuses of its refusals: a bad request wherever something is asked
    /// with it, and an unknown resource wherever it is about a repository.
    pub open spec fn spec_errors(self) -> Seq<u16> {
        if self is GetAuthenticatedUser {
            seq![401, 403, 500]
        } else if self is ListUserRepos {
            seq![400, 401, 403, 500]
        } else {
            seq![400, 401, 403, 404, 500]
        }
    }

    /// See [`Endpoint::spec_errors`].
    pub fn errors(self) -> (out: Vec<u16>)
        ensures
            out@ == self.spec_errors(),
    {
        let out: Vec<u16> = match self {
            Endpoint::GetAuthenticatedUser => vec![401, 403, 500],
            Endpoint::ListUserRepos => vec![400, 401, 403, 500],
            _ => vec![400, 401, 403, 404, 500],
        };
        assert(out@ =~= self.spec_errors());
        out
    }

    /// The endpoint as it is registered.
    pub fn operation(self) -> (out: Operation)
        ensures
            out.method@ == "GET"@,
            out.path@ == self.spec_path(),
            out.operation_id@ == self.spec_operation_id(),
            out.summary@ == self.spec_summary(),
            out.tag@ == API_TAG@,
            out.authenticated,
            self.takes_path(out.path_params@),
            self.takes_query(out.query_params@),
            out.response.array == self.spec_is_array(),
            out.response.schema@ == self.spec_schema(),
            out.response.description@ == self.spec_description(),
            out.errors@ == self.spec_errors(),
    {
        Operation {
            method: self.method(),
            path: self.path(),
            operation_id: self.operation_id(),
            summary: self.summary(),
            tag: API_TAG,
            authenticated: self.authenticated(),
            path_params: self.path_params(),
            query_params: self.query_params(),
            response: self.response(),
            errors: self.errors(),
        }
    }

    /// The one row that the endpoint looks up, for those that look one up.
    pub open spec fn spec_looked_up(self, at: PathNames) -> Option<(Resource, SelectorView)> {
        match self {
            Endpoint::GetIssue => Some((Resource::Issue, SelectorView::OfIssue(at.number))),
            Endpoint::GetPullRequest => Some(
                (Resource::PullRequest, SelectorView::OfPull(at.number)),
            ),
            Endpoint::GetCommit => Some((Resource::Commit, SelectorView::OfCommit(at.sha@))),
            _ => None,
        }
    }

    /// The rows that the endpoint lists, for those that list rows of a
    /// repository.
    pub open spec fn spec_listed(self, at: PathNames) -> Option<(Resource, SelectorView)> {
        let whole = SelectorView::WholeRepository;
        let of_issue = SelectorView::OfIssue(at.number);
        let of_pull = SelectorView::OfPull(at.number);
        let of_commit = SelectorView::OfCommit(at.sha@);
        match self {
            Endpoint::ListIssues => Some((Resource::Issue, whole)),
            Endpoint::ListComments => Some((Resource::Comment, of_issue)),
            Endpoint::ListBranches => Some((Resource::Branch, whole)),
            Endpoint::ListContributors => Some((Resource::Contributor, whole)),
            Endpoint::ListIssueEvents => Some((Resource::IssueEvent, of_issue)),
            Endpoint::ListIssueReactions => Some((Resource::IssueReaction, of_issue)),
            Endpoint::ListIssueTimeline => Some((Resource::IssueTimeline, of_issue)),
            Endpoint::ListDeployments => Some((Resource::Deployment, whole)),
            Endpoint::ListCommits => Some((Resource::Commit, whole)),
            Endpoint::ListCommitComments => Some((Resource::CommitComment, of_commit)),
            Endpoint::ListCheckRuns => Some((Resource::CheckRun, of_commit)),
            Endpoint::ListCommitStatuses => Some((Resource::CommitStatus, of_commit)),
            Endpoint::ListPullRequests => Some((Resource::PullRequest, whole)),
            Endpoint::ListReviews => Some((Resource::Review, of_pull)),
            Endpoint::ListReviewComments => Some((Resource::ReviewComment, of_pull)),
            Endpoint::ListPullRequestFiles => Some((Resource::PullRequestFile, of_pull)),
            Endpoint::ListPullRequestCommits => Some((Resource::PullRequestCommit, of_pull)),
            Endpoint::ListTags => Some((Resource::Tag, whole)),
            Endpoint::ListReleases => Some((Resource::Release, whole)),
            Endpoint::ListMilestones => Some((Resource::Milestone, whole)),
            Endpoint::ListLabels => Some((Resource::Label, whole)),
            Endpoint::ListWorkflowRuns => Some((Resource::WorkflowRun, whole)),
            Endpoint::ListWorkflowJobs => Some(
                (Resource::WorkflowJob, SelectorView::OfRun(at.run_id)),
            ),
            _ => None,
        }
    }

    /// What a request to the endpoint asks of the mirror.
    pub fn query(
        self,
        service: &Service,
        ctx: &SecurityContext,
        at: &PathNames,
        query: &ODataQuery,
    ) -> (out: EndpointQuery)
        ensures
            match out {
                EndpointQuery::Identity => self is GetAuthenticatedUser,
                EndpointQuery::Repositories => self is ListUserRepos,
                EndpointQuery::Repository(plan) => self is GetRepo && queries::is_get_plan(
                    *ctx,
                    Resource::Repo,
                    at.owner@,
                    at.name@,
                    SelectorView::WholeRepository,
                    plan,
                ),
                EndpointQuery::Row(plan) => match self.spec_looked_up(*at) {
                    Some((resource, selector)) => queries::is_get_plan(
                        *ctx,
                        resource,
                        at.owner@,
                        at.name@,
                        selector,
                        plan,
                    ),
                    None => false,
                },
                EndpointQuery::Rows(plan) => match self.spec_listed(*at) {
                    Some((resource, selector)) => plan@ == queries::list_plan(
                        *ctx,
                        resource,
                        at.owner@,
                        at.name@,
                        selector,
                        *query,
                    ),
                    None => false,
                },
            },
    {
        let owner = at.owner.as_str();
        let name = at.name.as_str();
        let sha = at.sha.as_str();
        let number: i64 = at.number;
        let rows = match self {
            Endpoint::GetAuthenticatedUser => return EndpointQuery::Identity,
            Endpoint::ListUserRepos => return EndpointQuery::Repositories,
            Endpoint::GetRepo => return EndpointQuery::Repository(
                service.get_repo(ctx, owner, name),
            ),
            Endpoint::GetIssue => return EndpointQuery::Row(
                service.get_issue(ctx, owner, name, number),
            ),
            Endpoint::GetPullRequest => return EndpointQuery::Row(
                service.get_pull_request(ctx, owner, name, number),
            ),
            Endpoint::GetCommit => return EndpointQuery::Row(
                service.get_commit(ctx, owner, name, sha),
            ),
            Endpoint::ListIssues => service.list_issues(ctx, owner, name, query),
            Endpoint::ListComments => service.list_comments(ctx, owner, name, number, query),
            Endpoint::ListBranches => service.list_branches(ctx, owner, name, query),
            Endpoint::ListContributors => service.list_contributors(ctx, owner, name, query),
            Endpoint::ListIssueEvents => service.list_issue_events(ctx, owner, name, number, query),
            Endpoint::ListIssueReactions => service.list_issue_reactions(
                ctx,
                owner,
                name,
                number,
                query,
            ),
            Endpoint::ListIssueTimeline => service.list_issue_timeline(
                ctx,
                owner,
                name,
                number,
                query,
            ),
            Endpoint::ListDeployments => service.list_deployments(ctx, owner, name, query),
            Endpoint::ListCommits => service.list_commits(ctx, owner, name, query),
            Endpoint::ListCommitComments => service.list_commit_comments(
                ctx,
                owner,
                name,
                sha,
                query,
            ),
            Endpoint::ListCheckRuns => service.list_check_runs(ctx, owner, name, sha, query),
            Endpoint::ListCommitStatuses => service.list_commit_statuses(
                ctx,
                owner,
                name,
                sha,
                query,
            ),
            Endpoint::ListPullRequests => service.list_pull_requests(ctx, owner, name, query),
            Endpoint::ListReviews => service.list_reviews(ctx, owner, name, number, query),
            Endpoint::ListReviewComments => service.list_review_comments(
                ctx,
                owner,
                name,
                number,
                query,
            ),
            Endpoint::ListPullRequestFiles => service.list_pull_request_files(
                ctx,
                owner,
                name,
                number,
                query,
            ),
            Endpoint::ListPullRequestCommits => service.list_pull_request_commits(
                ctx,
                owner,
                name,
                number,
                query,
            ),
            Endpoint::ListTags => service.list_tags(ctx, owner, name, query),
            Endpoint::ListReleases => service.list_releases(ctx, owner, name, query),
            Endpoint::ListMilestones => service.list_milestones(ctx, owner, name, query),
            Endpoint::ListLabels => service.list_labels(ctx, owner, name, query),
            Endpoint::ListWorkflowRuns => service.list_workflow_runs(ctx, owner, name, query),
            Endpoint::ListWorkflowJobs => service.list_workflow_jobs(
                ctx,
                owner,
                name,
                at.run_id,
                query,
            ),
        };
        EndpointQuery::Rows(rows)
    }
}

/// The endpoints about the caller.
pub open spec fn user_routes() -> Seq<Endpoint> {
    seq![
        Endpoint::GetAuthenticatedUser,
        Endpoint::ListUserRepos,
    ]
}

/// The endpoints about the caller.
pub fn register_user_routes() -> (out: Vec<Endpoint>)
    ensures
        out@ == user_routes(),
{
    let out = vec![
        Endpoint::GetAuthenticatedUser,
        Endpoint::ListUserRepos,
    ];
    assert(out@ =~= user_routes());
    out
}

/// The endpoints about issues and what belongs to a repository as a whole.
pub open spec fn repo_routes() -> Seq<Endpoint> {
    seq![
        Endpoint::ListIssues,
        Endpoint::ListComments,
        Endpoint::ListBranches,
        Endpoint::ListContributors,
        Endpoint::ListIssueEvents,
        Endpoint::ListIssueReactions,
        Endpoint::ListIssueTimeline,
        Endpoint::ListDeployments,
    ]
}

/// The endpoints about issues and what belongs to a repository as a whole.
pub fn register_repo_routes() -> (out: Vec<Endpoint>)
    ensures
        out@ == repo_routes(),
{
    let out = vec![
        Endpoint::ListIssues,
        Endpoint::ListComments,
        Endpoint::ListBranches,
        Endpoint::ListContributors,
        Endpoint::ListIssueEvents,
        Endpoint::ListIssueReactions,
        Endpoint::ListIssueTimeline,
        Endpoint::ListDeployments,
    ];
    assert(out@ =~= repo_routes());
    out
}

/// The endpoints about commits.
pub open spec fn commit_routes() -> Seq<Endpoint> {
    seq![
        Endpoint::ListCommits,
        Endpoint::ListCommitComments,
        Endpoint::ListCheckRuns,
        Endpoint::ListCommitStatuses,
    ]
}

/// The endpoints about commits.
pub fn register_commit_routes() -> (out: Vec<Endpoint>)
    ensures
        out@ == commit_routes(),
{
    let out = vec![
        Endpoint::ListCommits,
        Endpoint::ListCommitComments,
        Endpoint::ListCheckRuns,
        Endpoint::ListCommitStatuses,
    ];
    assert(out@ =~= commit_routes());
    out
}

/// The endpoints about single items.
pub open spec fn item_routes() -> Seq<Endpoint> {
    seq![
        Endpoint::GetRepo,
        Endpoint::GetIssue,
        Endpoint::GetPullRequest,
        Endpoint::GetCommit,
    ]
}

/// The endpoints about single items.
pub fn register_item_routes() -> (out: Vec<Endpoint>)
    ensures
        out@ == item_routes(),
{
    let out = vec![
        Endpoint::GetRepo,
        Endpoint::GetIssue,
        Endpoint::GetPullRequest,
        Endpoint::GetCommit,
    ];
    assert(out@ =~= item_routes());
    out
}

/// The endpoints about pull requests.
pub open spec fn pull_routes() -> Seq<Endpoint> {
    seq![
        Endpoint::ListPullRequests,
        Endpoint::ListReviews,
        Endpoint::ListReviewComments,
        Endpoint::ListPullRequestFiles,
        Endpoint::ListPullRequestCommits,
    ]
}

/// The endpoints about pull requests.
pub fn register_pull_routes() -> (out: Vec<Endpoint>)
    ensures
        out@ == pull_routes(),
{
    let out = vec![
        Endpoint::ListPullRequests,
        Endpoint::ListReviews,
        Endpoint::ListReviewComments,
        Endpoint::ListPullRequestFiles,
        Endpoint::ListPullRequestCommits,
    ];
    assert(out@ =~= pull_routes());
    out
}

/// The endpoints about metadata and workflow runs.
pub open spec fn metadata_routes() -> Seq<Endpoint> {
    seq![
        Endpoint::ListTags,
        Endpoint::ListReleases,
        Endpoint::ListMilestones,
        Endpoint::ListLabels,
        Endpoint::ListWorkflowRuns,
        Endpoint::ListWorkflowJobs,
    ]
}

/// The endpoints about metadata and workflow runs.
pub fn register_metadata_routes() -> (out: Vec<Endpoint>)
    ensures
        out@ == metadata_routes(),
{
    let out = vec![
        Endpoint::ListTags,
        Endpoint::ListReleases,
        Endpoint::ListMilestones,
        Endpoint::ListLabels,
        Endpoint::ListWorkflowRuns,
        Endpoint::ListWorkflowJobs,
    ];
    assert(out@ =~= metadata_routes());
    out
}

/// Every endpoint, in the order they are registered.
pub open spec fn all_routes() -> Seq<Endpoint> {
    user_routes()
        + repo_routes()
        + commit_routes()
        + item_routes()
        + pull_routes()
        + metadata_routes()
}

/// Every endpoint, in the order they are registered.
pub fn register_routes() -> (out: Vec<Endpoint>)
    ensures
        out@ == all_routes(),
{
    let mut out = register_user_routes();
    let mut more = register_repo_routes();
    out.append(&mut more);
    let mut more = register_commit_routes();
    out.append(&mut more);
    let mut more = register_item_routes();
    out.append(&mut more);
    let mut more = register_pull_routes();
    out.append(&mut more);
    let mut more = register_metadata_routes();
    out.append(&mut more);
    out
}

/// No two endpoints have the same operation id.
pub proof fn operation_ids_are_distinct(one: Endpoint, other: Endpoint)
    requires
        one != other,
    ensures
        one.spec_operation_id() != other.spec_operation_id(),
{
    reveal_strlit("github_mirror.get_authenticated_user");
    reveal_strlit("github_mirror.list_user_repos");
    reveal_strlit("github_mirror.list_issues");
    reveal_strlit("github_mirror.list_comments");
    reveal_strlit("github_mirror.list_branches");
    reveal_strlit("github_mirror.list_contributors");
    reveal_strlit("github_mirror.list_issue_events");
    reveal_strlit("github_mirror.list_issue_reactions");
    reveal_strlit("github_mirror.list_issue_timeline");
    reveal_strlit("github_mirror.list_deployments");
    reveal_strlit("github_mirror.list_commits");
    reveal_strlit("github_mirror.list_commit_comments");
    reveal_strlit("github_mirror.list_check_runs");
    reveal_strlit("github_mirror.list_commit_statuses");
    reveal_strlit("github_mirror.get_repo");
    reveal_strlit("github_mirror.get_issue");
    reveal_strlit("github_mirror.get_pull_request");
    reveal_strlit("github_mirror.get_commit");
    reveal_strlit("github_mirror.list_pull_requests");
    reveal_strlit("github_mirror.list_reviews");
    reveal_strlit("github_mirror.list_review_comments");
    reveal_strlit("github_mirror.list_pull_request_files");
    reveal_strlit("github_mirror.list_pull_request_commits");
    reveal_strlit("github_mirror.list_tags");
    reveal_strlit("github_mirror.list_releases");
    reveal_strlit("github_mirror.list_milestones");
    reveal_strlit("github_mirror.list_labels");
    reveal_strlit("github_mirror.list_workflow_runs");
    reveal_strlit("github_mirror.list_workflow_jobs");
    assert("github_mirror.get_authenticated_user"@.len() == 36);
    assert("github_mirror.list_user_repos"@.len() == 29);
    assert("github_mirror.list_issues"@.len() == 25);
    assert("github_mirror.list_comments"@.len() == 27);
    assert("github_mirror.list_branches"@.len() == 27);
    assert("github_mirror.list_contributors"@.len() == 31);
    assert("github_mirror.list_issue_events"@.len() == 31);
    assert("github_mirror.list_issue_reactions"@.len() == 34);
    assert("github_mirror.list_issue_timeline"@.len() == 33);
    assert("github_mirror.list_deployments"@.len() == 30);
    assert("github_mirror.list_commits"@.len() == 26);
    assert("github_mirror.list_commit_comments"@.len() == 34);
    assert("github_mirror.list_check_runs"@.len() == 29);
    assert("github_mirror.list_commit_statuses"@.len() == 34);
    assert("github_mirror.get_repo"@.len() == 22);
    assert("github_mirror.get_issue"@.len() == 23);
    assert("github_mirror.get_pull_request"@.len() == 30);
    assert("github_mirror.get_commit"@.len() == 24);
    assert("github_mirror.list_pull_requests"@.len() == 32);
    assert("github_mirror.list_reviews"@.len() == 26);
    assert("github_mirror.list_review_comments"@.len() == 34);
    assert("github_mirror.list_pull_request_files"@.len() == 37);
    assert("github_mirror.list_pull_request_commits"@.len() == 39);
    assert("github_mirror.list_tags"@.len() == 23);
    assert("github_mirror.list_releases"@.len() == 27);
    assert("github_mirror.list_milestones"@.len() == 29);
    assert("github_mirror.list_labels"@.len() == 25);
    assert("github_mirror.list_workflow_runs"@.len() == 32);
    assert("github_mirror.list_workflow_jobs"@.len() == 32);
    assert("github_mirror.list_user_repos"@[19] != "github_mirror.list_check_runs"@[19]);
    assert("github_mirror.list_user_repos"@[19] != "github_mirror.list_milestones"@[19]);
    assert("github_mirror.list_issues"@[19] != "github_mirror.list_labels"@[19]);
    assert("github_mirror.list_comments"@[19] != "github_mirror.list_branches"@[19]);
    assert("github_mirror.list_comments"@[19] != "github_mirror.list_releases"@[19]);
    assert("github_mirror.list_branches"@[19] != "github_mirror.list_releases"@[19]);
    assert("github_mirror.list_contributors"@[19] != "github_mirror.list_issue_events"@[19]);
    assert("github_mirror.list_issue_reactions"@[19] != "github_mirror.list_commit_comments"@[19]);
    assert("github_mirror.list_issue_reactions"@[19] != "github_mirror.list_commit_statuses"@[19]);
    assert("github_mirror.list_issue_reactions"@[19] != "github_mirror.list_review_comments"@[19]);
    assert("github_mirror.list_deployments"@[14] != "github_mirror.get_pull_request"@[14]);
    assert("github_mirror.list_commits"@[19] != "github_mirror.list_reviews"@[19]);
    assert("github_mirror.list_commit_comments"@[26] != "github_mirror.list_commit_statuses"@[26]);
    assert("github_mirror.list_commit_comments"@[19] != "github_mirror.list_review_comments"@[19]);
    assert("github_mirror.list_check_runs"@[19] != "github_mirror.list_milestones"@[19]);
    assert("github_mirror.list_commit_statuses"@[19] != "github_mirror.list_review_comments"@[19]);
    assert("github_mirror.get_issue"@[14] != "github_mirror.list_tags"@[14]);
    assert("github_mirror.list_pull_requests"@[19] != "github_mirror.list_workflow_runs"@[19]);
    assert("github_mirror.list_pull_requests"@[19] != "github_mirror.list_workflow_jobs"@[19]);
    assert("github_mirror.list_workflow_runs"@[28] != "github_mirror.list_workflow_jobs"@[28]);
}

/// No two endpoints are at the same path.
pub proof fn paths_are_distinct(one: Endpoint, other: Endpoint)
    requires
        one != other,
    ensures
        one.spec_path() != other.spec_path(),
{
    reveal_strlit("/user");
    reveal_strlit("/user/repos");
    reveal_strlit("/repos/{owner}/{name}/issues");
    reveal_strlit("/repos/{owner}/{name}/issues/{number}/comments");
    reveal_strlit("/repos/{owner}/{name}/branches");
    reveal_strlit("/repos/{owner}/{name}/contributors");
    reveal_strlit("/repos/{owner}/{name}/issues/{number}/events");
    reveal_strlit("/repos/{owner}/{name}/issues/{number}/reactions");
    reveal_strlit("/repos/{owner}/{name}/issues/{number}/timeline");
    reveal_strlit("/repos/{owner}/{name}/deployments");
    reveal_strlit("/repos/{owner}/{name}/commits");
    reveal_strlit("/repos/{owner}/{name}/commits/{sha}/comments");
    reveal_strlit("/repos/{owner}/{name}/commits/{sha}/check-runs");
    reveal_strlit("/repos/{owner}/{name}/commits/{sha}/statuses");
    reveal_strlit("/repos/{owner}/{name}");
    reveal_strlit("/repos/{owner}/{name}/issues/{number}");
    reveal_strlit("/repos/{owner}/{name}/pulls/{number}");
    reveal_strlit("/repos/{owner}/{name}/commits/{sha}");
    reveal_strlit("/repos/{owner}/{name}/pulls");
    reveal_strlit("/repos/{owner}/{name}/pulls/{number}/reviews");
    reveal_strlit("/repos/{owner}/{name}/pulls/{number}/comments");
    reveal_strlit("/repos/{owner}/{name}/pulls/{number}/files");
    reveal_strlit("/repos/{owner}/{name}/pulls/{number}/commits");
    reveal_strlit("/repos/{owner}/{name}/tags");
    reveal_strlit("/repos/{owner}/{name}/releases");
    reveal_strlit("/repos/{owner}/{name}/milestones");
    reveal_strlit("/repos/{owner}/{name}/labels");
    reveal_strlit("/repos/{owner}/{name}/actions/runs");
    reveal_strlit("/repos/{owner}/{name}/actions/runs/{run_id}/jobs");
    assert("/user"@.len() == 5);
    assert("/user/repos"@.len() == 11);
    assert("/repos/{owner}/{name}/issues"@.len() == 28);
    assert("/repos/{owner}/{name}/issues/{number}/comments"@.len() == 46);
    assert("/repos/{owner}/{name}/branches"@.len() == 30);
    assert("/repos/{owner}/{name}/contributors"@.len() == 34);
    assert("/repos/{owner}/{name}/issues/{number}/events"@.len() == 44);
    assert("/repos/{owner}/{name}/issues/{number}/reactions"@.len() == 47);
    assert("/repos/{owner}/{name}/issues/{number}/timeline"@.len() == 46);
    assert("/repos/{owner}/{name}/deployments"@.len() == 33);
    assert("/repos/{owner}/{name}/commits"@.len() == 29);
    assert("/repos/{owner}/{name}/commits/{sha}/comments"@.len() == 44);
    assert("/repos/{owner}/{name}/commits/{sha}/check-runs"@.len() == 46);
    assert("/repos/{owner}/{name}/commits/{sha}/statuses"@.len() == 44);
    assert("/repos/{owner}/{name}"@.len() == 21);
    assert("/repos/{owner}/{name}/issues/{number}"@.len() == 37);
    assert("/repos/{owner}/{name}/pulls/{number}"@.len() == 36);
    assert("/repos/{owner}/{name}/commits/{sha}"@.len() == 35);
    assert("/repos/{owner}/{name}/pulls"@.len() == 27);
    assert("/repos/{owner}/{name}/pulls/{number}/reviews"@.len() == 44);
    assert("/repos/{owner}/{name}/pulls/{number}/comments"@.len() == 45);
    assert("/repos/{owner}/{name}/pulls/{number}/files"@.len() == 42);
    assert("/repos/{owner}/{name}/pulls/{number}/commits"@.len() == 44);
    assert("/repos/{owner}/{name}/tags"@.len() == 26);
    assert("/repos/{owner}/{name}/releases"@.len() == 30);
    assert("/repos/{owner}/{name}/milestones"@.len() == 32);
    assert("/repos/{owner}/{name}/labels"@.len() == 28);
    assert("/repos/{owner}/{name}/actions/runs"@.len() == 34);
    assert("/repos/{owner}/{name}/actions/runs/{run_id}/jobs"@.len() == 48);
    assert("/repos/{owner}/{name}/issues"@[22] != "/repos/{owner}/{name}/labels"@[22]);
    assert("/repos/{owner}/{name}/issues/{number}/comments"@[38] != "/repos/{owner}/{name}/issues/{number}/timeline"@[38]);
    assert("/repos/{owner}/{name}/issues/{number}/comments"@[22] != "/repos/{owner}/{name}/commits/{sha}/check-runs"@[22]);
    assert("/repos/{owner}/{name}/branches"@[22] != "/repos/{owner}/{name}/releases"@[22]);
    assert("/repos/{owner}/{name}/contributors"@[22] != "/repos/{owner}/{name}/actions/runs"@[22]);
    assert("/repos/{owner}/{name}/issues/{number}/events"@[22] != "/repos/{owner}/{name}/commits/{sha}/comments"@[22]);
    assert("/repos/{owner}/{name}/issues/{number}/events"@[22] != "/repos/{owner}/{name}/commits/{sha}/statuses"@[22]);
    assert("/repos/{owner}/{name}/issues/{number}/events"@[22] != "/repos/{owner}/{name}/pulls/{number}/reviews"@[22]);
    assert("/repos/{owner}/{name}/issues/{number}/events"@[22] != "/repos/{owner}/{name}/pulls/{number}/commits"@[22]);
    assert("/repos/{owner}/{name}/issues/{number}/timeline"@[22] != "/repos/{owner}/{name}/commits/{sha}/check-runs"@[22]);
    assert("/repos/{owner}/{name}/commits/{sha}/comments"@[36] != "/repos/{owner}/{name}/commits/{sha}/statuses"@[36]);
    assert("/repos/{owner}/{name}/commits/{sha}/comments"@[22] != "/repos/{owner}/{name}/pulls/{number}/reviews"@[22]);
    assert("/repos/{owner}/{name}/commits/{sha}/comments"@[22] != "/repos/{owner}/{name}/pulls/{number}/commits"@[22]);
    assert("/repos/{owner}/{name}/commits/{sha}/statuses"@[22] != "/repos/{owner}/{name}/pulls/{number}/reviews"@[22]);
    assert("/repos/{owner}/{name}/commits/{sha}/statuses"@[22] != "/repos/{owner}/{name}/pulls/{number}/commits"@[22]);
    assert("/repos/{owner}/{name}/pulls/{number}/reviews"@[37] != "/repos/{owner}/{name}/pulls/{number}/commits"@[37]);
}

/// Every endpoint is registered.
pub proof fn every_endpoint_is_registered(endpoint: Endpoint)
    ensures
        all_routes().contains(endpoint),
{
    let routes = all_routes();
    assert(routes[0] == Endpoint::GetAuthenticatedUser);
    assert(routes[1] == Endpoint::ListUserRepos);
    assert(routes[2] == Endpoint::ListIssues);
    assert(routes[3] == Endpoint::ListComments);
    assert(routes[4] == Endpoint::ListBranches);
    assert(routes[5] == Endpoint::ListContributors);
    assert(routes[6] == Endpoint::ListIssueEvents);
    assert(routes[7] == Endpoint::ListIssueReactions);
    assert(routes[8] == Endpoint::ListIssueTimeline);
    assert(routes[9] == Endpoint::ListDeployments);
    assert(routes[10] == Endpoint::ListCommits);
    assert(routes[11] == Endpoint::ListCommitComments);
    assert(routes[12] == Endpoint::ListCheckRuns);
    assert(routes[13] == Endpoint::ListCommitStatuses);
    assert(routes[14] == Endpoint::GetRepo);
    assert(routes[15] == Endpoint::GetIssue);
    assert(routes[16] == Endpoint::GetPullRequest);
    assert(routes[17] == Endpoint::GetCommit);
    assert(routes[18] == Endpoint::ListPullRequests);
    assert(routes[19] == Endpoint::ListReviews);
    assert(routes[20] == Endpoint::ListReviewComments);
    assert(routes[21] == Endpoint::ListPullRequestFiles);
    assert(routes[22] == Endpoint::ListPullRequestCommits);
    assert(routes[23] == Endpoint::ListTags);
    assert(routes[24] == Endpoint::ListReleases);
    assert(routes[25] == Endpoint::ListMilestones);
    assert(routes[26] == Endpoint::ListLabels);
    assert(routes[27] == Endpoint::ListWorkflowRuns);
    assert(routes[28] == Endpoint::ListWorkflowJobs);
    match endpoint {
        Endpoint::GetAuthenticatedUser => {},
        Endpoint::ListUserRepos => {},
        Endpoint::ListIssues => {},
        Endpoint::ListComments => {},
        Endpoint::ListBranches => {},
        Endpoint::ListContributors => {},
        Endpoint::ListIssueEvents => {},
        Endpoint::ListIssueReactions => {},
        Endpoint::ListIssueTimeline => {},
        Endpoint::ListDeployments => {},
        Endpoint::ListCommits => {},
        Endpoint::ListCommitComments => {},
        Endpoint::ListCheckRuns => {},
        Endpoint::ListCommitStatuses => {},
        Endpoint::GetRepo => {},
        Endpoint::GetIssue => {},
        Endpoint::GetPullRequest => {},
        Endpoint::GetCommit => {},
        Endpoint::ListPullRequests => {},
        Endpoint::ListReviews => {},
        Endpoint::ListReviewComments => {},
        Endpoint::ListPullRequestFiles => {},
        Endpoint::ListPullRequestCommits => {},
        Endpoint::ListTags => {},
        Endpoint::ListReleases => {},
        Endpoint::ListMilestones => {},
        Endpoint::ListLabels => {},
        Endpoint::ListWorkflowRuns => {},
        Endpoint::ListWorkflowJobs => {},
    }
}

/// No endpoint is registered twice.
pub proof fn no_endpoint_is_registered_twice()
    ensures
        all_routes().no_duplicates(),
{
    assert(all_routes() =~= seq![
        Endpoint::GetAuthenticatedUser,
        Endpoint::ListUserRepos,
        Endpoint::ListIssues,
        Endpoint::ListComments,
        Endpoint::ListBranches,
        Endpoint::ListContributors,
        Endpoint::ListIssueEvents,
        Endpoint::ListIssueReactions,
        Endpoint::ListIssueTimeline,
        Endpoint::ListDeployments,
        Endpoint::ListCommits,
        Endpoint::ListCommitComments,
        Endpoint::ListCheckRuns,
        Endpoint::ListCommitStatuses,
        Endpoint::GetRepo,
        Endpoint::GetIssue,
        Endpoint::GetPullRequest,
        Endpoint::GetCommit,
        Endpoint::ListPullRequests,
        Endpoint::ListReviews,
        Endpoint::ListReviewComments,
        Endpoint::ListPullRequestFiles,
        Endpoint::ListPullRequestCommits,
        Endpoint::ListTags,
        Endpoint::ListReleases,
        Endpoint::ListMilestones,
        Endpoint::ListLabels,
        Endpoint::ListWorkflowRuns,
        Endpoint::ListWorkflowJobs,
    ]);
}

} // verus!
