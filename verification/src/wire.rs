//! Responses of the API, as far as the mirror reads them.

use serde_json::Value;
use vstd::prelude::*;

verus! {

/// A user, by login.
#[derive(Debug)]
pub struct GhActor {
    pub login: String,
}

/// A repository.
#[derive(Debug)]
pub struct GhRepository {
    pub clone_url: Option<String>,
    pub id: i64,
    pub name: String,
    pub full_name: String,
    pub owner: GhActor,
    pub default_branch: String,
    pub private: bool,
    pub pushed_at: Option<String>,
    pub stargazers_count: i64,
    pub forks_count: i64,
    pub description: Option<String>,
}

/// An issue. A pull request is an issue with a `pull_request` member.
#[derive(Debug)]
pub struct GhIssue {
    pub id: i64,
    pub number: i64,
    pub title: String,
    pub body: Option<String>,
    pub state: String,
    pub pull_request: Option<()>,
    pub created_at: String,
    pub updated_at: String,
    pub closed_at: Option<String>,
    pub html_url: Option<String>,
}

/// A reaction.
#[derive(Debug)]
pub struct GhIssueReaction {
    pub id: i64,
    pub content: String,
    pub user: Option<GhActor>,
    pub created_at: String,
}

/// The app behind a check run.
#[derive(Debug)]
pub struct GhCheckApp {
    pub slug: Option<String>,
    pub name: Option<String>,
}

/// What a check run reports.
#[derive(Debug)]
pub struct GhCheckOutput {
    pub title: Option<String>,
    pub summary: Option<String>,
    pub annotations_count: i64,
}

/// A check run. `check_suite` is the id of its suite.
#[derive(Debug)]
pub struct GhCheckRun {
    pub id: i64,
    pub head_sha: String,
    pub name: String,
    pub status: Option<String>,
    pub conclusion: Option<String>,
    pub started_at: Option<String>,
    pub completed_at: Option<String>,
    pub html_url: Option<String>,
    pub details_url: Option<String>,
    pub check_suite: Option<i64>,
    pub app: Option<GhCheckApp>,
    pub output: Option<GhCheckOutput>,
}

/// One side of a pull request.
#[derive(Debug)]
pub struct GhRef {
    pub sha: Option<String>,
    pub ref_name: Option<String>,
}

/// A pull request.
#[derive(Debug)]
pub struct GhPullRequest {
    pub id: i64,
    pub number: i64,
    pub title: String,
    pub body: Option<String>,
    pub state: String,
    pub draft: Option<bool>,
    pub merged_at: Option<String>,
    pub head: Option<GhRef>,
    pub base: Option<GhRef>,
    pub created_at: String,
    pub updated_at: String,
    pub closed_at: Option<String>,
    pub html_url: Option<String>,
}

/// Author or committer as the commit names them.
#[derive(Debug)]
pub struct GhCommitPerson {
    pub date: Option<String>,
}

/// The commit proper.
#[derive(Debug)]
pub struct GhCommitDetails {
    pub message: String,
    pub author: Option<GhCommitPerson>,
    pub committer: Option<GhCommitPerson>,
}

/// A comment on an issue.
#[derive(Debug)]
pub struct GhComment {
    pub id: i64,
    pub user: Option<GhActor>,
    pub body: Option<String>,
    pub created_at: String,
    pub updated_at: String,
    pub html_url: Option<String>,
    pub issue_url: Option<String>,
}

/// A comment on the diff of a pull request.
#[derive(Debug)]
pub struct GhReviewComment {
    pub id: i64,
    pub user: Option<GhActor>,
    pub body: Option<String>,
    pub path: Option<String>,
    pub diff_hunk: Option<String>,
    pub in_reply_to_id: Option<i64>,
    pub commit_id: Option<String>,
    pub created_at: String,
    pub updated_at: String,
    pub html_url: Option<String>,
    pub pull_request_url: Option<String>,
}

/// A label.
#[derive(Debug)]
pub struct GhLabel {
    pub id: i64,
    pub name: String,
    pub color: String,
    pub is_default: bool,
    pub description: Option<String>,
}

/// A milestone.
#[derive(Debug)]
pub struct GhMilestone {
    pub id: i64,
    pub number: i64,
    pub title: String,
    pub state: String,
    pub description: Option<String>,
    pub open_issues: i64,
    pub closed_issues: i64,
    pub due_on: Option<String>,
    pub created_at: String,
    pub updated_at: String,
    pub closed_at: Option<String>,
    pub html_url: Option<String>,
}

/// A release.
#[derive(Debug)]
pub struct GhRelease {
    pub id: i64,
    pub tag_name: String,
    pub name: Option<String>,
    pub draft: bool,
    pub prerelease: bool,
    pub body: Option<String>,
    pub author: Option<GhActor>,
    pub created_at: String,
    pub published_at: Option<String>,
    pub html_url: Option<String>,
}

/// The commit a branch or tag points at.
#[derive(Debug)]
pub struct GhBranchCommit {
    pub sha: String,
}

/// A branch.
#[derive(Debug)]
pub struct GhBranch {
    pub name: String,
    pub commit: GhBranchCommit,
    pub protected: bool,
}

/// A contributor.
#[derive(Debug)]
pub struct GhContributor {
    pub id: i64,
    pub login: String,
    pub contributions: i64,
    pub user_type: String,
    pub avatar_url: Option<String>,
    pub html_url: Option<String>,
}

/// A workflow run.
#[derive(Debug)]
pub struct GhWorkflowRun {
    pub id: i64,
    pub workflow_id: i64,
    pub run_number: i64,
    pub run_attempt: Option<i64>,
    pub name: Option<String>,
    pub event: String,
    pub status: Option<String>,
    pub conclusion: Option<String>,
    pub head_branch: Option<String>,
    pub head_sha: String,
    pub actor: Option<GhActor>,
    pub created_at: String,
    pub updated_at: String,
    pub html_url: Option<String>,
}

/// A changed file.
#[derive(Debug)]
pub struct GhPullFile {
    pub filename: String,
    pub status: String,
    pub additions: i64,
    pub deletions: i64,
    pub changes: i64,
    pub previous_filename: Option<String>,
    pub sha: Option<String>,
}

/// A tag.
#[derive(Debug)]
pub struct GhTag {
    pub name: String,
    pub commit: GhBranchCommit,
}

/// Line counts of a commit.
#[derive(Debug)]
pub struct GhCommitStats {
    pub additions: i64,
    pub deletions: i64,
}

/// The details of a commit.
#[derive(Debug)]
pub struct GhCommitDetail {
    pub stats: Option<GhCommitStats>,
    pub files: Vec<GhPullFile>,
}

/// A comment on a commit.
#[derive(Debug)]
pub struct GhCommitComment {
    pub id: i64,
    pub user: Option<GhActor>,
    pub commit_id: String,
    pub path: Option<String>,
    pub position: Option<i64>,
    pub body: Option<String>,
    pub created_at: String,
    pub updated_at: String,
    pub html_url: Option<String>,
}

/// An event of an issue. Label, milestone and issue are given by name, title and
/// number.
#[derive(Debug)]
pub struct GhIssueEvent {
    pub id: i64,
    pub event: String,
    pub actor: Option<GhActor>,
    pub label: Option<String>,
    pub assignee: Option<GhActor>,
    pub milestone: Option<String>,
    pub commit_id: Option<String>,
    pub created_at: String,
    pub issue: Option<i64>,
}

/// A deployment.
#[derive(Debug)]
pub struct GhDeployment {
    pub id: i64,
    pub git_ref: String,
    pub sha: String,
    pub environment: String,
    pub task: String,
    pub description: Option<String>,
    pub creator: Option<GhActor>,
    pub created_at: String,
    pub updated_at: String,
}

/// A status of a commit.
#[derive(Debug)]
pub struct GhCommitStatus {
    pub id: i64,
    pub state: String,
    pub context: String,
    pub description: Option<String>,
    pub target_url: Option<String>,
    pub creator: Option<GhActor>,
    pub created_at: String,
    pub updated_at: String,
}

/// A job of a workflow run. The steps are kept as they came.
#[derive(Debug)]
pub struct GhWorkflowJob {
    pub id: i64,
    pub run_id: i64,
    pub run_attempt: Option<i64>,
    pub name: String,
    pub status: Option<String>,
    pub conclusion: Option<String>,
    pub head_sha: String,
    pub runner_name: Option<String>,
    pub started_at: Option<String>,
    pub completed_at: Option<String>,
    pub html_url: Option<String>,
    pub steps: Option<Value>,
}

/// A review.
#[derive(Debug)]
pub struct GhReview {
    pub id: i64,
    pub user: Option<GhActor>,
    pub state: String,
    pub body: Option<String>,
    pub commit_id: Option<String>,
    pub submitted_at: Option<String>,
    pub html_url: Option<String>,
}

/// A commit.
#[derive(Debug)]
pub struct GhCommit {
    pub sha: String,
    pub commit: GhCommitDetails,
    pub author: Option<GhActor>,
    pub committer: Option<GhActor>,
}

} // verus!
