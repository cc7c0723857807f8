//! Rows of the mirror.

use vstd::prelude::*;

verus! {

/// A row that belongs to a repository.
pub trait RepoRow: Sized {
    /// The repository the row belongs to.
    spec fn repo(self) -> i64;

    /// The same row in another repository.
    spec fn moved_to(self, repo_id: i64) -> Self;

    /// The same row in another repository.
    fn in_repo(self, repo_id: i64) -> (out: Self)
        ensures
            out == self.moved_to(repo_id),
            out.repo() == repo_id,
    ;
}

/// A mirrored repository.
#[derive(Debug)]
pub struct RepoRecord {
    pub id: i64,
    pub owner: String,
    pub name: String,
    pub full_name: String,
    pub default_branch: String,
    pub private: bool,
    pub pushed_at: Option<String>,
    pub stars: i64,
    pub forks: i64,
    pub description: Option<String>,
    pub clone_url: Option<String>,
}

/// A mirrored issue. Pull requests are listed among the issues, and marked.
#[derive(Debug)]
pub struct IssueRecord {
    pub id: i64,
    pub repo_id: i64,
    pub number: i64,
    pub title: String,
    pub body: Option<String>,
    pub state: String,
    pub is_pull_request: bool,
    pub created_at: String,
    pub updated_at: String,
    pub closed_at: Option<String>,
    pub html_url: Option<String>,
}

/// A mirrored pull request.
#[derive(Debug)]
pub struct PullRequestRecord {
    pub id: i64,
    pub repo_id: i64,
    pub number: i64,
    pub title: String,
    pub body: Option<String>,
    pub state: String,
    pub draft: bool,
    pub merged: bool,
    pub head_sha: Option<String>,
    pub base_sha: Option<String>,
    pub lines_added: i64,
    pub lines_removed: i64,
    pub created_at: String,
    pub updated_at: String,
    pub closed_at: Option<String>,
    pub merged_at: Option<String>,
    pub html_url: Option<String>,
    pub head_ref: Option<String>,
    pub base_ref: Option<String>,
}

/// A mirrored commit.
#[derive(Debug)]
pub struct CommitRecord {
    pub repo_id: i64,
    pub sha: String,
    pub message: String,
    pub author_login: Option<String>,
    pub committer_login: Option<String>,
    pub authored_at: Option<String>,
    pub committed_at: Option<String>,
    pub additions: i64,
    pub deletions: i64,
}

/// A mirrored comment on an issue.
#[derive(Debug)]
pub struct CommentRecord {
    pub id: i64,
    pub repo_id: i64,
    pub issue_number: i64,
    pub author_login: Option<String>,
    pub body: Option<String>,
    pub created_at: String,
    pub updated_at: String,
    pub html_url: Option<String>,
}

/// A mirrored comment on the diff of a pull request.
#[derive(Debug)]
pub struct ReviewCommentRecord {
    pub id: i64,
    pub repo_id: i64,
    pub pull_number: i64,
    pub author_login: Option<String>,
    pub body: Option<String>,
    pub path: Option<String>,
    pub diff_hunk: Option<String>,
    pub in_reply_to_id: Option<i64>,
    pub commit_id: Option<String>,
    pub created_at: String,
    pub updated_at: String,
    pub html_url: Option<String>,
}

/// A mirrored review of a pull request.
#[derive(Debug)]
pub struct ReviewRecord {
    pub id: i64,
    pub repo_id: i64,
    pub pull_number: i64,
    pub author_login: Option<String>,
    pub state: String,
    pub body: Option<String>,
    pub commit_id: Option<String>,
    pub submitted_at: Option<String>,
    pub html_url: Option<String>,
}

/// A mirrored label.
#[derive(Debug)]
pub struct LabelRecord {
    pub id: i64,
    pub repo_id: i64,
    pub name: String,
    pub color: String,
    pub is_default: bool,
    pub description: Option<String>,
}

/// A mirrored milestone.
#[derive(Debug)]
pub struct MilestoneRecord {
    pub id: i64,
    pub repo_id: i64,
    pub number: i64,
    pub title: String,
    pub state: String,
    pub description: Option<String>,
    pub open_issues: i64,
    pub closed_issues: i64,
    pub due_on: Option<String>,
    pub created_at: String,
    pub updated_at: String,
    pub closed_at: Option<String>,
    pub html_url: Option<String>,
}

/// A mirrored release.
#[derive(Debug)]
pub struct ReleaseRecord {
    pub id: i64,
    pub repo_id: i64,
    pub tag_name: String,
    pub name: Option<String>,
    pub draft: bool,
    pub prerelease: bool,
    pub body: Option<String>,
    pub author_login: Option<String>,
    pub created_at: String,
    pub published_at: Option<String>,
    pub html_url: Option<String>,
}

/// A mirrored branch.
#[derive(Debug)]
pub struct BranchRecord {
    pub repo_id: i64,
    pub name: String,
    pub commit_sha: String,
    pub protected: bool,
}

/// Someone who contributed to a mirrored repository.
#[derive(Debug)]
pub struct ContributorRecord {
    pub repo_id: i64,
    pub user_id: i64,
    pub login: String,
    pub contributions: i64,
    pub user_type: String,
    pub avatar_url: Option<String>,
    pub html_url: Option<String>,
}

/// A mirrored workflow run.
#[derive(Debug)]
pub struct WorkflowRunRecord {
    pub id: i64,
    pub repo_id: i64,
    pub workflow_id: i64,
    pub run_number: i64,
    pub run_attempt: i64,
    pub name: Option<String>,
    pub event: String,
    pub status: Option<String>,
    pub conclusion: Option<String>,
    pub head_branch: Option<String>,
    pub head_sha: String,
    pub created_at: String,
    pub updated_at: String,
    pub html_url: Option<String>,
    pub actor_login: Option<String>,
}

/// A file that a pull request changes.
#[derive(Debug)]
pub struct PullRequestFileRecord {
    pub repo_id: i64,
    pub pull_number: i64,
    pub filename: String,
    pub status: String,
    pub additions: i64,
    pub deletions: i64,
    pub changes: i64,
    pub previous_filename: Option<String>,
    pub sha: Option<String>,
}

/// A mirrored tag.
#[derive(Debug)]
pub struct TagRecord {
    pub repo_id: i64,
    pub name: String,
    pub commit_sha: String,
}

/// A file that a commit changes.
#[derive(Debug)]
pub struct CommitFileRecord {
    pub repo_id: i64,
    pub commit_sha: String,
    pub filename: String,
    pub status: String,
    pub additions: i64,
    pub deletions: i64,
    pub changes: i64,
    pub previous_filename: Option<String>,
    pub sha: Option<String>,
}

/// A review thread of a pull request.
#[derive(Debug)]
pub struct ReviewThreadRecord {
    pub id: String,
    pub repo_id: i64,
    pub pull_number: i64,
    pub is_resolved: bool,
    pub is_outdated: bool,
    pub path: Option<String>,
    pub line: Option<i64>,
    pub resolved_by: Option<String>,
    pub comments_count: i64,
}

/// A mirrored comment on a commit.
#[derive(Debug)]
pub struct CommitCommentRecord {
    pub id: i64,
    pub repo_id: i64,
    pub commit_sha: String,
    pub path: Option<String>,
    pub position: Option<i64>,
    pub author_login: Option<String>,
    pub body: Option<String>,
    pub created_at: String,
    pub updated_at: String,
    pub html_url: Option<String>,
}

/// A mirrored event of an issue.
#[derive(Debug)]
pub struct IssueEventRecord {
    pub id: i64,
    pub repo_id: i64,
    pub issue_number: i64,
    pub event: String,
    pub actor_login: Option<String>,
    pub label_name: Option<String>,
    pub assignee_login: Option<String>,
    pub milestone_title: Option<String>,
    pub commit_id: Option<String>,
    pub created_at: String,
}

/// A mirrored deployment.
#[derive(Debug)]
pub struct DeploymentRecord {
    pub id: i64,
    pub repo_id: i64,
    pub git_ref: String,
    pub sha: String,
    pub environment: String,
    pub task: String,
    pub description: Option<String>,
    pub creator_login: Option<String>,
    pub created_at: String,
    pub updated_at: String,
}

/// A commit of a pull request.
#[derive(Debug)]
pub struct PullRequestCommitRecord {
    pub repo_id: i64,
    pub pull_number: i64,
    pub sha: String,
    pub message: String,
    pub author_login: Option<String>,
    pub committer_login: Option<String>,
    pub authored_at: Option<String>,
    pub committed_at: Option<String>,
}

/// A status of a commit.
#[derive(Debug)]
pub struct CommitStatusRecord {
    pub id: i64,
    pub repo_id: i64,
    pub commit_sha: String,
    pub state: String,
    pub context: String,
    pub description: Option<String>,
    pub target_url: Option<String>,
    pub creator_login: Option<String>,
    pub created_at: String,
    pub updated_at: String,
}

/// A job of a workflow run.
#[derive(Debug)]
pub struct WorkflowJobRecord {
    pub id: i64,
    pub repo_id: i64,
    pub run_id: i64,
    pub run_attempt: i64,
    pub name: String,
    pub status: Option<String>,
    pub conclusion: Option<String>,
    pub head_sha: String,
    pub runner_name: Option<String>,
    pub started_at: Option<String>,
    pub completed_at: Option<String>,
    pub html_url: Option<String>,
    pub steps_json: Option<String>,
}

/// A reaction to an issue.
#[derive(Debug)]
pub struct IssueReactionRecord {
    pub id: i64,
    pub repo_id: i64,
    pub issue_number: i64,
    pub content: String,
    pub user_login: Option<String>,
    pub created_at: String,
}

/// A check run of a commit.
#[derive(Debug)]
pub struct CheckRunRecord {
    pub id: i64,
    pub repo_id: i64,
    pub head_sha: String,
    pub name: String,
    pub status: Option<String>,
    pub conclusion: Option<String>,
    pub started_at: Option<String>,
    pub completed_at: Option<String>,
    pub html_url: Option<String>,
    pub details_url: Option<String>,
    pub check_suite_id: Option<i64>,
    pub app_slug: Option<String>,
    pub app_name: Option<String>,
    pub output_title: Option<String>,
    pub output_summary: Option<String>,
    pub annotations_count: i64,
}

/// An entry of the timeline of an issue. Entries share no schema, so the whole
/// entry is kept as text.
#[derive(Debug)]
pub struct IssueTimelineEventRecord {
    pub repo_id: i64,
    pub issue_number: i64,
    pub position: i64,
    pub event: String,
    pub created_at: Option<String>,
    pub actor_login: Option<String>,
    pub payload_json: String,
}

impl RepoRow for IssueRecord {
    open spec fn repo(self) -> i64 {
        self.repo_id
    }

    open spec fn moved_to(self, repo_id: i64) -> Self {
        IssueRecord { repo_id, ..self }
    }

    fn in_repo(self, repo_id: i64) -> (out: Self) {
        IssueRecord { repo_id, ..self }
    }
}

impl RepoRow for PullRequestRecord {
    open spec fn repo(self) -> i64 {
        self.repo_id
    }

    open spec fn moved_to(self, repo_id: i64) -> Self {
        PullRequestRecord { repo_id, ..self }
    }

    fn in_repo(self, repo_id: i64) -> (out: Self) {
        PullRequestRecord { repo_id, ..self }
    }
}

impl RepoRow for CommitRecord {
    open spec fn repo(self) -> i64 {
        self.repo_id
    }

    open spec fn moved_to(self, repo_id: i64) -> Self {
        CommitRecord { repo_id, ..self }
    }

    fn in_repo(self, repo_id: i64) -> (out: Self) {
        CommitRecord { repo_id, ..self }
    }
}

impl RepoRow for CommentRecord {
    open spec fn repo(self) -> i64 {
        self.repo_id
    }

    open spec fn moved_to(self, repo_id: i64) -> Self {
        CommentRecord { repo_id, ..self }
    }

    fn in_repo(self, repo_id: i64) -> (out: Self) {
        CommentRecord { repo_id, ..self }
    }
}

impl RepoRow for ReviewCommentRecord {
    open spec fn repo(self) -> i64 {
        self.repo_id
    }

    open spec fn moved_to(self, repo_id: i64) -> Self {
        ReviewCommentRecord { repo_id, ..self }
    }

    fn in_repo(self, repo_id: i64) -> (out: Self) {
        ReviewCommentRecord { repo_id, ..self }
    }
}

impl RepoRow for ReviewRecord {
    open spec fn repo(self) -> i64 {
        self.repo_id
    }

    open spec fn moved_to(self, repo_id: i64) -> Self {
        ReviewRecord { repo_id, ..self }
    }

    fn in_repo(self, repo_id: i64) -> (out: Self) {
        ReviewRecord { repo_id, ..self }
    }
}

impl RepoRow for LabelRecord {
    open spec fn repo(self) -> i64 {
        self.repo_id
    }

    open spec fn moved_to(self, repo_id: i64) -> Self {
        LabelRecord { repo_id, ..self }
    }

    fn in_repo(self, repo_id: i64) -> (out: Self) {
        LabelRecord { repo_id, ..self }
    }
}

impl RepoRow for MilestoneRecord {
    open spec fn repo(self) -> i64 {
        self.repo_id
    }

    open spec fn moved_to(self, repo_id: i64) -> Self {
        MilestoneRecord { repo_id, ..self }
    }

    fn in_repo(self, repo_id: i64) -> (out: Self) {
        MilestoneRecord { repo_id, ..self }
    }
}

impl RepoRow for ReleaseRecord {
    open spec fn repo(self) -> i64 {
        self.repo_id
    }

    open spec fn moved_to(self, repo_id: i64) -> Self {
        ReleaseRecord { repo_id, ..self }
    }

    fn in_repo(self, repo_id: i64) -> (out: Self) {
        ReleaseRecord { repo_id, ..self }
    }
}

impl RepoRow for BranchRecord {
    open spec fn repo(self) -> i64 {
        self.repo_id
    }

    open spec fn moved_to(self, repo_id: i64) -> Self {
        BranchRecord { repo_id, ..self }
    }

    fn in_repo(self, repo_id: i64) -> (out: Self) {
        BranchRecord { repo_id, ..self }
    }
}

impl RepoRow for ContributorRecord {
    open spec fn repo(self) -> i64 {
        self.repo_id
    }

    open spec fn moved_to(self, repo_id: i64) -> Self {
        ContributorRecord { repo_id, ..self }
    }

    fn in_repo(self, repo_id: i64) -> (out: Self) {
        ContributorRecord { repo_id, ..self }
    }
}

impl RepoRow for WorkflowRunRecord {
    open spec fn repo(self) -> i64 {
        self.repo_id
    }

    open spec fn moved_to(self, repo_id: i64) -> Self {
        WorkflowRunRecord { repo_id, ..self }
    }

    fn in_repo(self, repo_id: i64) -> (out: Self) {
        WorkflowRunRecord { repo_id, ..self }
    }
}

impl RepoRow for PullRequestFileRecord {
    open spec fn repo(self) -> i64 {
        self.repo_id
    }

    open spec fn moved_to(self, repo_id: i64) -> Self {
        PullRequestFileRecord { repo_id, ..self }
    }

    fn in_repo(self, repo_id: i64) -> (out: Self) {
        PullRequestFileRecord { repo_id, ..self }
    }
}

impl RepoRow for TagRecord {
    open spec fn repo(self) -> i64 {
        self.repo_id
    }

    open spec fn moved_to(self, repo_id: i64) -> Self {
        TagRecord { repo_id, ..self }
    }

    fn in_repo(self, repo_id: i64) -> (out: Self) {
        TagRecord { repo_id, ..self }
    }
}

impl RepoRow for CommitFileRecord {
    open spec fn repo(self) -> i64 {
        self.repo_id
    }

    open spec fn moved_to(self, repo_id: i64) -> Self {
        CommitFileRecord { repo_id, ..self }
    }

    fn in_repo(self, repo_id: i64) -> (out: Self) {
        CommitFileRecord { repo_id, ..self }
    }
}

impl RepoRow for ReviewThreadRecord {
    open spec fn repo(self) -> i64 {
        self.repo_id
    }

    open spec fn moved_to(self, repo_id: i64) -> Self {
        ReviewThreadRecord { repo_id, ..self }
    }

    fn in_repo(self, repo_id: i64) -> (out: Self) {
        ReviewThreadRecord { repo_id, ..self }
    }
}

impl RepoRow for CommitCommentRecord {
    open spec fn repo(self) -> i64 {
        self.repo_id
    }

    open spec fn moved_to(self, repo_id: i64) -> Self {
        CommitCommentRecord { repo_id, ..self }
    }

    fn in_repo(self, repo_id: i64) -> (out: Self) {
        CommitCommentRecord { repo_id, ..self }
    }
}

impl RepoRow for IssueEventRecord {
    open spec fn repo(self) -> i64 {
        self.repo_id
    }

    open spec fn moved_to(self, repo_id: i64) -> Self {
        IssueEventRecord { repo_id, ..self }
    }

    fn in_repo(self, repo_id: i64) -> (out: Self) {
        IssueEventRecord { repo_id, ..self }
    }
}

impl RepoRow for DeploymentRecord {
    open spec fn repo(self) -> i64 {
        self.repo_id
    }

    open spec fn moved_to(self, repo_id: i64) -> Self {
        DeploymentRecord { repo_id, ..self }
    }

    fn in_repo(self, repo_id: i64) -> (out: Self) {
        DeploymentRecord { repo_id, ..self }
    }
}

impl RepoRow for PullRequestCommitRecord {
    open spec fn repo(self) -> i64 {
        self.repo_id
    }

    open spec fn moved_to(self, repo_id: i64) -> Self {
        PullRequestCommitRecord { repo_id, ..self }
    }

    fn in_repo(self, repo_id: i64) -> (out: Self) {
        PullRequestCommitRecord { repo_id, ..self }
    }
}

impl RepoRow for CommitStatusRecord {
    open spec fn repo(self) -> i64 {
        self.repo_id
    }

    open spec fn moved_to(self, repo_id: i64) -> Self {
        CommitStatusRecord { repo_id, ..self }
    }

    fn in_repo(self, repo_id: i64) -> (out: Self) {
        CommitStatusRecord { repo_id, ..self }
    }
}

impl RepoRow for WorkflowJobRecord {
    open spec fn repo(self) -> i64 {
        self.repo_id
    }

    open spec fn moved_to(self, repo_id: i64) -> Self {
        WorkflowJobRecord { repo_id, ..self }
    }

    fn in_repo(self, repo_id: i64) -> (out: Self) {
        WorkflowJobRecord { repo_id, ..self }
    }
}

impl RepoRow for IssueReactionRecord {
    open spec fn repo(self) -> i64 {
        self.repo_id
    }

    open spec fn moved_to(self, repo_id: i64) -> Self {
        IssueReactionRecord { repo_id, ..self }
    }

    fn in_repo(self, repo_id: i64) -> (out: Self) {
        IssueReactionRecord { repo_id, ..self }
    }
}

impl RepoRow for CheckRunRecord {
    open spec fn repo(self) -> i64 {
        self.repo_id
    }

    open spec fn moved_to(self, repo_id: i64) -> Self {
        CheckRunRecord { repo_id, ..self }
    }

    fn in_repo(self, repo_id: i64) -> (out: Self) {
        CheckRunRecord { repo_id, ..self }
    }
}

impl RepoRow for IssueTimelineEventRecord {
    open spec fn repo(self) -> i64 {
        self.repo_id
    }

    open spec fn moved_to(self, repo_id: i64) -> Self {
        IssueTimelineEventRecord { repo_id, ..self }
    }

    fn in_repo(self, repo_id: i64) -> (out: Self) {
        IssueTimelineEventRecord { repo_id, ..self }
    }
}

} // verus!
