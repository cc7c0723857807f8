//! Where the mirror's endpoints are, what they serve, and which rows a page holds.

use crate::endpoints;
use crate::endpoints::{Endpoint, PathNames, Window};
use crate::service::access::Resource;
use crate::service::queries::SelectorView;
use vstd::prelude::*;
use vstd::string::*;

verus! {

/// Every endpoint is served at the path that the API has it at.
pub proof fn endpoints_are_served_at_these_paths()
    ensures
        Endpoint::GetAuthenticatedUser.spec_path() == "/user"@,
        Endpoint::ListUserRepos.spec_path() == "/user/repos"@,
        Endpoint::ListIssues.spec_path() == "/repos/{owner}/{name}/issues"@,
        Endpoint::ListComments.spec_path() == "/repos/{owner}/{name}/issues/{number}/comments"@,
        Endpoint::ListBranches.spec_path() == "/repos/{owner}/{name}/branches"@,
        Endpoint::ListContributors.spec_path() == "/repos/{owner}/{name}/contributors"@,
        Endpoint::ListIssueEvents.spec_path() == "/repos/{owner}/{name}/issues/{number}/events"@,
        Endpoint::ListIssueReactions.spec_path()
            == "/repos/{owner}/{name}/issues/{number}/reactions"@,
        Endpoint::ListIssueTimeline.spec_path()
            == "/repos/{owner}/{name}/issues/{number}/timeline"@,
        Endpoint::ListDeployments.spec_path() == "/repos/{owner}/{name}/deployments"@,
        Endpoint::ListCommits.spec_path() == "/repos/{owner}/{name}/commits"@,
        Endpoint::ListCommitComments.spec_path() == "/repos/{owner}/{name}/commits/{sha}/comments"@,
        Endpoint::ListCheckRuns.spec_path() == "/repos/{owner}/{name}/commits/{sha}/check-runs"@,
        Endpoint::ListCommitStatuses.spec_path() == "/repos/{owner}/{name}/commits/{sha}/statuses"@,
        Endpoint::GetRepo.spec_path() == "/repos/{owner}/{name}"@,
        Endpoint::GetIssue.spec_path() == "/repos/{owner}/{name}/issues/{number}"@,
        Endpoint::GetPullRequest.spec_path() == "/repos/{owner}/{name}/pulls/{number}"@,
        Endpoint::GetCommit.spec_path() == "/repos/{owner}/{name}/commits/{sha}"@,
        Endpoint::ListPullRequests.spec_path() == "/repos/{owner}/{name}/pulls"@,
        Endpoint::ListReviews.spec_path() == "/repos/{owner}/{name}/pulls/{number}/reviews"@,
        Endpoint::ListReviewComments.spec_path()
            == "/repos/{owner}/{name}/pulls/{number}/comments"@,
        Endpoint::ListPullRequestFiles.spec_path() == "/repos/{owner}/{name}/pulls/{number}/files"@,
        Endpoint::ListPullRequestCommits.spec_path()
            == "/repos/{owner}/{name}/pulls/{number}/commits"@,
        Endpoint::ListTags.spec_path() == "/repos/{owner}/{name}/tags"@,
        Endpoint::ListReleases.spec_path() == "/repos/{owner}/{name}/releases"@,
        Endpoint::ListMilestones.spec_path() == "/repos/{owner}/{name}/milestones"@,
        Endpoint::ListLabels.spec_path() == "/repos/{owner}/{name}/labels"@,
        Endpoint::ListWorkflowRuns.spec_path() == "/repos/{owner}/{name}/actions/runs"@,
        Endpoint::ListWorkflowJobs.spec_path()
            == "/repos/{owner}/{name}/actions/runs/{run_id}/jobs"@,
{
}

/// Every endpoint is registered under this operation id.
pub proof fn endpoints_have_these_operation_ids()
    ensures
        Endpoint::GetAuthenticatedUser.spec_operation_id()
            == "github_mirror.get_authenticated_user"@,
        Endpoint::ListUserRepos.spec_operation_id() == "github_mirror.list_user_repos"@,
        Endpoint::ListIssues.spec_operation_id() == "github_mirror.list_issues"@,
        Endpoint::ListComments.spec_operation_id() == "github_mirror.list_comments"@,
        Endpoint::ListBranches.spec_operation_id() == "github_mirror.list_branches"@,
        Endpoint::ListContributors.spec_operation_id() == "github_mirror.list_contributors"@,
        Endpoint::ListIssueEvents.spec_operation_id() == "github_mirror.list_issue_events"@,
        Endpoint::ListIssueReactions.spec_operation_id() == "github_mirror.list_issue_reactions"@,
        Endpoint::ListIssueTimeline.spec_operation_id() == "github_mirror.list_issue_timeline"@,
        Endpoint::ListDeployments.spec_operation_id() == "github_mirror.list_deployments"@,
        Endpoint::ListCommits.spec_operation_id() == "github_mirror.list_commits"@,
        Endpoint::ListCommitComments.spec_operation_id() == "github_mirror.list_commit_comments"@,
        Endpoint::ListCheckRuns.spec_operation_id() == "github_mirror.list_check_runs"@,
        Endpoint::ListCommitStatuses.spec_operation_id() == "github_mirror.list_commit_statuses"@,
        Endpoint::GetRepo.spec_operation_id() == "github_mirror.get_repo"@,
        Endpoint::GetIssue.spec_operation_id() == "github_mirror.get_issue"@,
        Endpoint::GetPullRequest.spec_operation_id() == "github_mirror.get_pull_request"@,
        Endpoint::GetCommit.spec_operation_id() == "github_mirror.get_commit"@,
        Endpoint::ListPullRequests.spec_operation_id() == "github_mirror.list_pull_requests"@,
        Endpoint::ListReviews.spec_operation_id() == "github_mirror.list_reviews"@,
        Endpoint::ListReviewComments.spec_operation_id() == "github_mirror.list_review_comments"@,
        Endpoint::ListPullRequestFiles.spec_operation_id()
            == "github_mirror.list_pull_request_files"@,
        Endpoint::ListPullRequestCommits.spec_operation_id()
            == "github_mirror.list_pull_request_commits"@,
        Endpoint::ListTags.spec_operation_id() == "github_mirror.list_tags"@,
        Endpoint::ListReleases.spec_operation_id() == "github_mirror.list_releases"@,
        Endpoint::ListMilestones.spec_operation_id() == "github_mirror.list_milestones"@,
        Endpoint::ListLabels.spec_operation_id() == "github_mirror.list_labels"@,
        Endpoint::ListWorkflowRuns.spec_operation_id() == "github_mirror.list_workflow_runs"@,
        Endpoint::ListWorkflowJobs.spec_operation_id() == "github_mirror.list_workflow_jobs"@,
{
}

/// Every endpoint is summed up in these words.
pub proof fn endpoints_are_summed_up_in_these_words()
    ensures
        Endpoint::GetAuthenticatedUser.spec_summary()
            == "Get the authenticated user (GitHub-compatible)"@,
        Endpoint::ListUserRepos.spec_summary()
            == "List the caller's repositories (GitHub-compatible)"@,
        Endpoint::ListIssues.spec_summary() == "List issues (GitHub-compatible)"@,
        Endpoint::ListComments.spec_summary() == "List issue comments (GitHub-compatible)"@,
        Endpoint::ListBranches.spec_summary() == "List branches (GitHub-compatible)"@,
        Endpoint::ListContributors.spec_summary() == "List contributors (GitHub-compatible)"@,
        Endpoint::ListIssueEvents.spec_summary() == "List issue events (GitHub-compatible)"@,
        Endpoint::ListIssueReactions.spec_summary() == "List issue reactions (GitHub-compatible)"@,
        Endpoint::ListIssueTimeline.spec_summary() == "List issue timeline (GitHub-compatible)"@,
        Endpoint::ListDeployments.spec_summary() == "List deployments (GitHub-compatible)"@,
        Endpoint::ListCommits.spec_summary() == "List commits (GitHub-compatible)"@,
        Endpoint::ListCommitComments.spec_summary() == "List commit comments (GitHub-compatible)"@,
        Endpoint::ListCheckRuns.spec_summary() == "List commit check runs (GitHub-compatible)"@,
        Endpoint::ListCommitStatuses.spec_summary() == "List commit statuses (GitHub-compatible)"@,
        Endpoint::GetRepo.spec_summary() == "Get a repository (GitHub-compatible)"@,
        Endpoint::GetIssue.spec_summary() == "Get an issue (GitHub-compatible)"@,
        Endpoint::GetPullRequest.spec_summary() == "Get a pull request (GitHub-compatible)"@,
        Endpoint::GetCommit.spec_summary() == "Get a commit (GitHub-compatible)"@,
        Endpoint::ListPullRequests.spec_summary() == "List pull requests (GitHub-compatible)"@,
        Endpoint::ListReviews.spec_summary() == "List pull request reviews (GitHub-compatible)"@,
        Endpoint::ListReviewComments.spec_summary()
            == "List pull request review comments (GitHub-compatible)"@,
        Endpoint::ListPullRequestFiles.spec_summary()
            == "List pull request files (GitHub-compatible)"@,
        Endpoint::ListPullRequestCommits.spec_summary()
            == "List pull request commits (GitHub-compatible)"@,
        Endpoint::ListTags.spec_summary() == "List tags (GitHub-compatible)"@,
        Endpoint::ListReleases.spec_summary() == "List releases (GitHub-compatible)"@,
        Endpoint::ListMilestones.spec_summary() == "List milestones (GitHub-compatible)"@,
        Endpoint::ListLabels.spec_summary() == "List labels (GitHub-compatible)"@,
        Endpoint::ListWorkflowRuns.spec_summary() == "List workflow runs (GitHub-compatible)"@,
        Endpoint::ListWorkflowJobs.spec_summary() == "List workflow run jobs (GitHub-compatible)"@,
{
}

/// Every endpoint answers with this schema.
pub proof fn endpoints_answer_with_these_schemas()
    ensures
        Endpoint::GetAuthenticatedUser.spec_schema() == "AuthenticatedUserDto"@,
        Endpoint::ListUserRepos.spec_schema() == "RepoDto"@,
        Endpoint::ListIssues.spec_schema() == "IssueDto"@,
        Endpoint::ListComments.spec_schema() == "CommentDto"@,
        Endpoint::ListBranches.spec_schema() == "BranchDto"@,
        Endpoint::ListContributors.spec_schema() == "ContributorDto"@,
        Endpoint::ListIssueEvents.spec_schema() == "IssueEventDto"@,
        Endpoint::ListIssueReactions.spec_schema() == "IssueReactionDto"@,
        Endpoint::ListIssueTimeline.spec_schema() == "IssueTimelineEventDto"@,
        Endpoint::ListDeployments.spec_schema() == "DeploymentDto"@,
        Endpoint::ListCommits.spec_schema() == "CommitDto"@,
        Endpoint::ListCommitComments.spec_schema() == "CommitCommentDto"@,
        Endpoint::ListCheckRuns.spec_schema() == "CheckRunsPageDto"@,
        Endpoint::ListCommitStatuses.spec_schema() == "CommitStatusDto"@,
        Endpoint::GetRepo.spec_schema() == "RepoDto"@,
        Endpoint::GetIssue.spec_schema() == "IssueDto"@,
        Endpoint::GetPullRequest.spec_schema() == "PullRequestDto"@,
        Endpoint::GetCommit.spec_schema() == "CommitDto"@,
        Endpoint::ListPullRequests.spec_schema() == "PullRequestDto"@,
        Endpoint::ListReviews.spec_schema() == "ReviewDto"@,
        Endpoint::ListReviewComments.spec_schema() == "ReviewCommentDto"@,
        Endpoint::ListPullRequestFiles.spec_schema() == "PullRequestFileDto"@,
        Endpoint::ListPullRequestCommits.spec_schema() == "CommitDto"@,
        Endpoint::ListTags.spec_schema() == "TagDto"@,
        Endpoint::ListReleases.spec_schema() == "ReleaseDto"@,
        Endpoint::ListMilestones.spec_schema() == "MilestoneDto"@,
        Endpoint::ListLabels.spec_schema() == "LabelDto"@,
        Endpoint::ListWorkflowRuns.spec_schema() == "WorkflowRunsPageDto"@,
        Endpoint::ListWorkflowJobs.spec_schema() == "WorkflowJobsPageDto"@,
{
}

/// Every endpoint describes its answer in these words.
pub proof fn endpoints_describe_their_answers_in_these_words()
    ensures
        Endpoint::GetAuthenticatedUser.spec_description()
            == "The mirror's own identity, GitHub-shaped"@,
        Endpoint::ListUserRepos.spec_description()
            == "GitHub-shaped list of the tenant's mirrored repositories"@,
        Endpoint::ListIssues.spec_description() == "GitHub-shaped list of issues"@,
        Endpoint::ListComments.spec_description() == "GitHub-shaped list of issue comments"@,
        Endpoint::ListBranches.spec_description() == "GitHub-shaped list of branches"@,
        Endpoint::ListContributors.spec_description() == "GitHub-shaped list of contributors"@,
        Endpoint::ListIssueEvents.spec_description() == "GitHub-shaped list of issue events"@,
        Endpoint::ListIssueReactions.spec_description() == "GitHub-shaped list of issue reactions"@,
        Endpoint::ListIssueTimeline.spec_description()
            == "GitHub-shaped issue timeline, newest entry last"@,
        Endpoint::ListDeployments.spec_description() == "GitHub-shaped list of deployments"@,
        Endpoint::ListCommits.spec_description() == "GitHub-shaped list of commits"@,
        Endpoint::ListCommitComments.spec_description() == "GitHub-shaped list of commit comments"@,
        Endpoint::ListCheckRuns.spec_description() == "GitHub-shaped check runs page"@,
        Endpoint::ListCommitStatuses.spec_description() == "GitHub-shaped list of commit statuses"@,
        Endpoint::GetRepo.spec_description() == "GitHub-shaped repository"@,
        Endpoint::GetIssue.spec_description() == "GitHub-shaped issue"@,
        Endpoint::GetPullRequest.spec_description() == "GitHub-shaped pull request"@,
        Endpoint::GetCommit.spec_description() == "GitHub-shaped commit with stats and files"@,
        Endpoint::ListPullRequests.spec_description() == "GitHub-shaped list of pull requests"@,
        Endpoint::ListReviews.spec_description() == "GitHub-shaped list of reviews"@,
        Endpoint::ListReviewComments.spec_description() == "GitHub-shaped list of review comments"@,
        Endpoint::ListPullRequestFiles.spec_description()
            == "GitHub-shaped list of pull request files"@,
        Endpoint::ListPullRequestCommits.spec_description()
            == "GitHub-shaped list of pull request commits"@,
        Endpoint::ListTags.spec_description() == "GitHub-shaped list of tags"@,
        Endpoint::ListReleases.spec_description() == "GitHub-shaped list of releases"@,
        Endpoint::ListMilestones.spec_description() == "GitHub-shaped list of milestones"@,
        Endpoint::ListLabels.spec_description() == "GitHub-shaped list of labels"@,
        Endpoint::ListWorkflowRuns.spec_description() == "GitHub-shaped workflow runs page"@,
        Endpoint::ListWorkflowJobs.spec_description() == "GitHub-shaped workflow jobs page"@,
{
}

/// One row is answered as it is, and so are the listings that the API wraps in an
/// object; any other listing is answered as an array.
pub proof fn listings_are_answered_as_arrays(endpoint: Endpoint)
    ensures
        endpoint.spec_is_array() <==> !(endpoint is GetAuthenticatedUser || endpoint is GetRepo || endpoint is GetIssue || endpoint is GetPullRequest || endpoint is GetCommit || endpoint is ListCheckRuns || endpoint is ListWorkflowRuns || endpoint is ListWorkflowJobs),
{
}

/// Everything but one row is answered page by page, and takes the page and its
/// length in its query.
pub proof fn listings_are_answered_page_by_page(
    endpoint: Endpoint,
    params: Seq<(&'static str, &'static str)>,
)
    requires
        endpoint.takes_query(params),
    ensures
        endpoint.spec_is_paged() <==> !(endpoint is GetAuthenticatedUser || endpoint is GetRepo || endpoint is GetIssue || endpoint is GetPullRequest || endpoint is GetCommit),
        endpoint.spec_is_paged() ==> params.len() == 2 && params[0].0@ == "page"@ && params[1].0@
            == "per_page"@,
        endpoint.spec_is_paged() ==> params[0].1@
            == "Page number of the results to fetch (GitHub-style)"@ && params[1].1@
            == "The number of results per page (max 100)"@,
        !endpoint.spec_is_paged() ==> params.len() == 0,
        endpoints::API_TAG@ == "GitHub Mirror"@,
{
}

/// An endpoint takes in its path the owner and the name of the repository it is
/// about, and the number, SHA or id of what it is about in there.
pub proof fn endpoints_take_what_their_path_names(
    endpoint: Endpoint,
    params: Seq<(&'static str, &'static str)>,
)
    requires
        endpoint.takes_path(params),
    ensures
        endpoint is GetAuthenticatedUser || endpoint is ListUserRepos ==> params.len() == 0,
        !(endpoint is GetAuthenticatedUser || endpoint is ListUserRepos) ==> params.len() >= 2
            && params[0].0@ == "owner"@ && params[1].0@ == "name"@,
        !(endpoint is GetAuthenticatedUser || endpoint is ListUserRepos || endpoint
            is ListCommitComments) ==> params[0].1@ == "Repo owner login"@ && params[1].1@
            == "Repo name"@,
        endpoint is ListCommitComments ==> params[0].1@ == "Repository owner login"@
            && params[1].1@ == "Repository name"@,
        endpoint is ListIssues ==> params.len() == 2,
        endpoint is ListComments ==> params.len() == 3 && params[2].0@ == "number"@
            && params[2].1@ == "Issue or pull request number"@,
        endpoint is ListBranches ==> params.len() == 2,
        endpoint is ListContributors ==> params.len() == 2,
        endpoint is ListIssueEvents ==> params.len() == 3 && params[2].0@ == "number"@
            && params[2].1@ == "Issue or pull request number"@,
        endpoint is ListIssueReactions ==> params.len() == 3 && params[2].0@ == "number"@
            && params[2].1@ == "Issue or pull request number"@,
        endpoint is ListIssueTimeline ==> params.len() == 3 && params[2].0@ == "number"@
            && params[2].1@ == "Issue or pull request number"@,
        endpoint is ListDeployments ==> params.len() == 2,
        endpoint is ListCommits ==> params.len() == 2,
        endpoint is ListCommitComments ==> params.len() == 3 && params[2].0@ == "sha"@
            && params[2].1@ == "Commit SHA"@,
        endpoint is ListCheckRuns ==> params.len() == 3 && params[2].0@ == "sha"@
            && params[2].1@ == "Commit SHA"@,
        endpoint is ListCommitStatuses ==> params.len() == 3 && params[2].0@ == "sha"@
            && params[2].1@ == "Commit SHA"@,
        endpoint is GetRepo ==> params.len() == 2,
        endpoint is GetIssue ==> params.len() == 3 && params[2].0@ == "number"@
            && params[2].1@ == "Issue number"@,
        endpoint is GetPullRequest ==> params.len() == 3 && params[2].0@ == "number"@
            && params[2].1@ == "Pull request number"@,
        endpoint is GetCommit ==> params.len() == 3 && params[2].0@ == "sha"@
            && params[2].1@ == "Commit SHA"@,
        endpoint is ListPullRequests ==> params.len() == 2,
        endpoint is ListReviews ==> params.len() == 3 && params[2].0@ == "number"@
            && params[2].1@ == "Pull request number"@,
        endpoint is ListReviewComments ==> params.len() == 3 && params[2].0@ == "number"@
            && params[2].1@ == "Pull request number"@,
        endpoint is ListPullRequestFiles ==> params.len() == 3 && params[2].0@ == "number"@
            && params[2].1@ == "Pull request number"@,
        endpoint is ListPullRequestCommits ==> params.len() == 3 && params[2].0@ == "number"@
            && params[2].1@ == "Pull request number"@,
        endpoint is ListTags ==> params.len() == 2,
        endpoint is ListReleases ==> params.len() == 2,
        endpoint is ListMilestones ==> params.len() == 2,
        endpoint is ListLabels ==> params.len() == 2,
        endpoint is ListWorkflowRuns ==> params.len() == 2,
        endpoint is ListWorkflowJobs ==> params.len() == 3 && params[2].0@ == "run_id"@
            && params[2].1@ == "Workflow run id"@,
{
}

/// Endpoints refuse with these statuses: 404 only where they are about a
/// repository, and 400 only where something is asked with the request.
pub proof fn endpoints_refuse_with_these_statuses(endpoint: Endpoint)
    ensures
        endpoint.spec_errors().contains(401),
        endpoint.spec_errors().contains(403),
        endpoint.spec_errors().contains(500),
        endpoint.spec_errors().contains(400) <==> !(endpoint is GetAuthenticatedUser),
        endpoint.spec_errors().contains(404) <==> !(endpoint is GetAuthenticatedUser || endpoint
            is ListUserRepos),
        endpoint is GetAuthenticatedUser ==> endpoint.spec_errors() == seq![401u16, 403, 500],
        endpoint is ListUserRepos ==> endpoint.spec_errors() == seq![400u16, 401, 403, 500],
        !(endpoint is GetAuthenticatedUser || endpoint is ListUserRepos) ==> endpoint.spec_errors()
            == seq![400u16, 401, 403, 404, 500],
{
    let errors = endpoint.spec_errors();
    if endpoint is GetAuthenticatedUser {
        assert(errors[0] == 401 && errors[1] == 403 && errors[2] == 500);
    } else if endpoint is ListUserRepos {
        assert(errors[0] == 400 && errors[1] == 401 && errors[2] == 403 && errors[3] == 500);
    } else {
        assert(errors[0] == 400 && errors[1] == 401 && errors[2] == 403 && errors[3] == 404
            && errors[4] == 500);
    }
}

/// The endpoints that answer one row look up this row.
pub proof fn endpoints_look_up_the_row_they_name(endpoint: Endpoint, at: PathNames)
    ensures
        endpoint is GetIssue ==> endpoint.spec_looked_up(at) == Some(
            (Resource::Issue, SelectorView::OfIssue(at.number)),
        ),
        endpoint is GetPullRequest ==> endpoint.spec_looked_up(at) == Some(
            (Resource::PullRequest, SelectorView::OfPull(at.number)),
        ),
        endpoint is GetCommit ==> endpoint.spec_looked_up(at) == Some(
            (Resource::Commit, SelectorView::OfCommit(at.sha@)),
        ),
        !(endpoint is GetIssue || endpoint is GetPullRequest || endpoint is GetCommit)
            ==> endpoint.spec_looked_up(at) is None,
{
}

/// The endpoints that answer rows list these rows.
pub proof fn endpoints_list_the_rows_they_name(endpoint: Endpoint, at: PathNames)
    ensures
        endpoint is ListIssues ==> endpoint.spec_listed(at) == Some(
            (Resource::Issue, SelectorView::WholeRepository),
        ),
        endpoint is ListComments ==> endpoint.spec_listed(at) == Some(
            (Resource::Comment, SelectorView::OfIssue(at.number)),
        ),
        endpoint is ListBranches ==> endpoint.spec_listed(at) == Some(
            (Resource::Branch, SelectorView::WholeRepository),
        ),
        endpoint is ListContributors ==> endpoint.spec_listed(at) == Some(
            (Resource::Contributor, SelectorView::WholeRepository),
        ),
        endpoint is ListIssueEvents ==> endpoint.spec_listed(at) == Some(
            (Resource::IssueEvent, SelectorView::OfIssue(at.number)),
        ),
        endpoint is ListIssueReactions ==> endpoint.spec_listed(at) == Some(
            (Resource::IssueReaction, SelectorView::OfIssue(at.number)),
        ),
        endpoint is ListIssueTimeline ==> endpoint.spec_listed(at) == Some(
            (Resource::IssueTimeline, SelectorView::OfIssue(at.number)),
        ),
        endpoint is ListDeployments ==> endpoint.spec_listed(at) == Some(
            (Resource::Deployment, SelectorView::WholeRepository),
        ),
        endpoint is ListCommits ==> endpoint.spec_listed(at) == Some(
            (Resource::Commit, SelectorView::WholeRepository),
        ),
        endpoint is ListCommitComments ==> endpoint.spec_listed(at) == Some(
            (Resource::CommitComment, SelectorView::OfCommit(at.sha@)),
        ),
        endpoint is ListCheckRuns ==> endpoint.spec_listed(at) == Some(
            (Resource::CheckRun, SelectorView::OfCommit(at.sha@)),
        ),
        endpoint is ListCommitStatuses ==> endpoint.spec_listed(at) == Some(
            (Resource::CommitStatus, SelectorView::OfCommit(at.sha@)),
        ),
        endpoint is ListPullRequests ==> endpoint.spec_listed(at) == Some(
            (Resource::PullRequest, SelectorView::WholeRepository),
        ),
        endpoint is ListReviews ==> endpoint.spec_listed(at) == Some(
            (Resource::Review, SelectorView::OfPull(at.number)),
        ),
        endpoint is ListReviewComments ==> endpoint.spec_listed(at) == Some(
            (Resource::ReviewComment, SelectorView::OfPull(at.number)),
        ),
        endpoint is ListPullRequestFiles ==> endpoint.spec_listed(at) == Some(
            (Resource::PullRequestFile, SelectorView::OfPull(at.number)),
        ),
        endpoint is ListPullRequestCommits ==> endpoint.spec_listed(at) == Some(
            (Resource::PullRequestCommit, SelectorView::OfPull(at.number)),
        ),
        endpoint is ListTags ==> endpoint.spec_listed(at) == Some(
            (Resource::Tag, SelectorView::WholeRepository),
        ),
        endpoint is ListReleases ==> endpoint.spec_listed(at) == Some(
            (Resource::Release, SelectorView::WholeRepository),
        ),
        endpoint is ListMilestones ==> endpoint.spec_listed(at) == Some(
            (Resource::Milestone, SelectorView::WholeRepository),
        ),
        endpoint is ListLabels ==> endpoint.spec_listed(at) == Some(
            (Resource::Label, SelectorView::WholeRepository),
        ),
        endpoint is ListWorkflowRuns ==> endpoint.spec_listed(at) == Some(
            (Resource::WorkflowRun, SelectorView::WholeRepository),
        ),
        endpoint is ListWorkflowJobs ==> endpoint.spec_listed(at) == Some(
            (Resource::WorkflowJob, SelectorView::OfRun(at.run_id)),
        ),
        endpoint is GetAuthenticatedUser || endpoint is ListUserRepos || endpoint is GetRepo || endpoint is GetIssue || endpoint is GetPullRequest || endpoint is GetCommit ==> endpoint.spec_listed(at)
            is None,
{
}

/// The endpoints are registered in this order.
pub proof fn endpoints_are_registered_in_this_order()
    ensures
        endpoints::all_routes().len() == 29,
        endpoints::all_routes()[0] == Endpoint::GetAuthenticatedUser,
        endpoints::all_routes()[1] == Endpoint::ListUserRepos,
        endpoints::all_routes()[2] == Endpoint::ListIssues,
        endpoints::all_routes()[3] == Endpoint::ListComments,
        endpoints::all_routes()[4] == Endpoint::ListBranches,
        endpoints::all_routes()[5] == Endpoint::ListContributors,
        endpoints::all_routes()[6] == Endpoint::ListIssueEvents,
        endpoints::all_routes()[7] == Endpoint::ListIssueReactions,
        endpoints::all_routes()[8] == Endpoint::ListIssueTimeline,
        endpoints::all_routes()[9] == Endpoint::ListDeployments,
        endpoints::all_routes()[10] == Endpoint::ListCommits,
        endpoints::all_routes()[11] == Endpoint::ListCommitComments,
        endpoints::all_routes()[12] == Endpoint::ListCheckRuns,
        endpoints::all_routes()[13] == Endpoint::ListCommitStatuses,
        endpoints::all_routes()[14] == Endpoint::GetRepo,
        endpoints::all_routes()[15] == Endpoint::GetIssue,
        endpoints::all_routes()[16] == Endpoint::GetPullRequest,
        endpoints::all_routes()[17] == Endpoint::GetCommit,
        endpoints::all_routes()[18] == Endpoint::ListPullRequests,
        endpoints::all_routes()[19] == Endpoint::ListReviews,
        endpoints::all_routes()[20] == Endpoint::ListReviewComments,
        endpoints::all_routes()[21] == Endpoint::ListPullRequestFiles,
        endpoints::all_routes()[22] == Endpoint::ListPullRequestCommits,
        endpoints::all_routes()[23] == Endpoint::ListTags,
        endpoints::all_routes()[24] == Endpoint::ListReleases,
        endpoints::all_routes()[25] == Endpoint::ListMilestones,
        endpoints::all_routes()[26] == Endpoint::ListLabels,
        endpoints::all_routes()[27] == Endpoint::ListWorkflowRuns,
        endpoints::all_routes()[28] == Endpoint::ListWorkflowJobs,
        endpoints::user_routes().len() == 2,
        endpoints::repo_routes().len() == 8,
        endpoints::commit_routes().len() == 4,
        endpoints::item_routes().len() == 4,
        endpoints::pull_routes().len() == 5,
        endpoints::metadata_routes().len() == 6,
        endpoints::user_routes() == endpoints::all_routes().subrange(0, 2),
        endpoints::repo_routes() == endpoints::all_routes().subrange(2, 10),
        endpoints::commit_routes() == endpoints::all_routes().subrange(10, 14),
        endpoints::item_routes() == endpoints::all_routes().subrange(14, 18),
        endpoints::pull_routes() == endpoints::all_routes().subrange(18, 23),
        endpoints::metadata_routes() == endpoints::all_routes().subrange(23, 29),
{
    assert(endpoints::all_routes().subrange(0, 2) =~= endpoints::user_routes());
    assert(endpoints::all_routes().subrange(2, 10) =~= endpoints::repo_routes());
    assert(endpoints::all_routes().subrange(10, 14) =~= endpoints::commit_routes());
    assert(endpoints::all_routes().subrange(14, 18) =~= endpoints::item_routes());
    assert(endpoints::all_routes().subrange(18, 23) =~= endpoints::pull_routes());
    assert(endpoints::all_routes().subrange(23, 29) =~= endpoints::metadata_routes());
}

// ---------------------------------------------------------------------------
// Pages
// ---------------------------------------------------------------------------

/// Pages count from one, and one below that is the first. A page has as many
/// rows as are asked for, at least one and at most a hundred; fifty when nothing
/// is asked.
pub proof fn pages_count_from_one_and_hold_up_to_a_hundred(page: u64, rows: u64)
    ensures
        endpoints::page_asked(None) == 1,
        endpoints::page_asked(Some(0)) == 1,
        page >= 1 ==> endpoints::page_asked(Some(page)) == page,
        endpoints::rows_asked(None) == 50,
        endpoints::rows_asked(Some(0)) == 1,
        1 <= rows <= 100 ==> endpoints::rows_asked(Some(rows)) == rows,
        rows > 100 ==> endpoints::rows_asked(Some(rows)) == 100,
{
}

/// In front of a page stand the rows of every page before it.
pub proof fn earlier_pages_stand_in_front(page: nat, rows: nat)
    ensures
        endpoints::rows_before(1, rows) == 0,
        page >= 1 ==> endpoints::rows_before(page + 1, rows) == page * rows,
{
    assert(page * rows >= 0) by (nonlinear_arith);
}

/// A page holds the rows behind those it skips, in order: as many as it takes,
/// or as there are.
pub proof fn page_holds_its_rows_in_order<T>(rows: Seq<T>, window: Window, i: int)
    ensures
        window.skip >= rows.len() ==> endpoints::rows_within(rows, window).len() == 0,
        window.skip < rows.len() && window.skip + window.take <= rows.len()
            ==> endpoints::rows_within(rows, window).len() == window.take,
        window.skip < rows.len() && window.skip + window.take > rows.len()
            ==> endpoints::rows_within(rows, window).len() == rows.len() - window.skip,
        0 <= i < endpoints::rows_within(rows, window).len() ==> endpoints::rows_within(
            rows,
            window,
        )[i] == rows[window.skip + i],
{
}

} // verus!
