//! Responses turned into rows of the mirror.

use crate::decimal;
use crate::json;
use crate::records::{
    BranchRecord, CheckRunRecord, CommentRecord, CommitCommentRecord, CommitFileRecord,
    CommitRecord, CommitStatusRecord, ContributorRecord, DeploymentRecord, IssueEventRecord,
    IssueReactionRecord, IssueRecord, IssueTimelineEventRecord, LabelRecord, MilestoneRecord,
    PullRequestCommitRecord, PullRequestFileRecord, PullRequestRecord, ReleaseRecord, RepoRecord,
    ReviewCommentRecord, ReviewRecord, ReviewThreadRecord, TagRecord, WorkflowJobRecord,
    WorkflowRunRecord,
};
use crate::text;
use crate::wire::{
    GhActor, GhBranch, GhCheckApp, GhCheckOutput, GhCheckRun, GhComment, GhCommit, GhCommitComment,
    GhCommitPerson, GhCommitStatus, GhContributor, GhDeployment, GhIssue, GhIssueEvent,
    GhIssueReaction, GhLabel, GhMilestone, GhPullFile, GhPullRequest, GhRef, GhRelease,
    GhRepository, GhReview, GhReviewComment, GhTag, GhWorkflowJob, GhWorkflowRun,
};
use serde_json::Value;
use vstd::prelude::*;
use vstd::string::*;

verus! {

// ---------------------------------------------------------------------------
// Parts
// ---------------------------------------------------------------------------

pub open spec fn login_of(actor: Option<GhActor>) -> Option<String> {
    match actor {
        Some(actor) => Some(actor.login),
        None => None,
    }
}

fn login(actor: Option<GhActor>) -> (out: Option<String>)
    ensures
        out == login_of(actor),
{
    match actor {
        Some(actor) => Some(actor.login),
        None => None,
    }
}

pub open spec fn date_of(person: Option<GhCommitPerson>) -> Option<String> {
    match person {
        Some(person) => person.date,
        None => None,
    }
}

fn date(person: Option<GhCommitPerson>) -> (out: Option<String>)
    ensures
        out == date_of(person),
{
    match person {
        Some(person) => person.date,
        None => None,
    }
}

pub open spec fn sha_of(side: Option<GhRef>) -> Option<String> {
    match side {
        Some(side) => side.sha,
        None => None,
    }
}

pub open spec fn ref_of(side: Option<GhRef>) -> Option<String> {
    match side {
        Some(side) => side.ref_name,
        None => None,
    }
}

pub open spec fn slug_of(app: Option<GhCheckApp>) -> Option<String> {
    match app {
        Some(app) => app.slug,
        None => None,
    }
}

pub open spec fn app_name_of(app: Option<GhCheckApp>) -> Option<String> {
    match app {
        Some(app) => app.name,
        None => None,
    }
}

pub open spec fn title_of(output: Option<GhCheckOutput>) -> Option<String> {
    match output {
        Some(output) => output.title,
        None => None,
    }
}

pub open spec fn summary_of(output: Option<GhCheckOutput>) -> Option<String> {
    match output {
        Some(output) => output.summary,
        None => None,
    }
}

pub open spec fn annotations_of(output: Option<GhCheckOutput>) -> i64 {
    match output {
        Some(output) => output.annotations_count,
        None => 0,
    }
}

pub open spec fn attempt_of(attempt: Option<i64>) -> i64 {
    match attempt {
        Some(attempt) => attempt,
        None => 1,
    }
}

pub open spec fn number_or_zero(number: Option<i64>) -> i64 {
    match number {
        Some(number) => number,
        None => 0,
    }
}

pub open spec fn compact_of(value: Option<Value>) -> Option<Seq<char>> {
    match value {
        Some(value) => Some(json::json_compact(value)),
        None => None,
    }
}

fn as_deref(text: &Option<String>) -> (out: Option<&str>)
    ensures
        match out {
            Some(borrowed) => json::text_of(*text) == Some(borrowed@),
            None => json::text_of(*text) is None,
        },
{
    match text {
        Some(text) => Some(text.as_str()),
        None => None,
    }
}

/// The number a URL ends with, after its last `/`; 0 when there is no URL, or
/// it does not end with a number.
pub open spec fn number_in_url(url: Option<Seq<char>>) -> int {
    match url {
        Some(url) => match decimal::signed_value(text::after_last_slash(url)) {
            Some(number) => number,
            None => 0,
        },
        None => 0,
    }
}

/// See [`number_in_url`].
pub fn issue_number_from_url(issue_url: Option<&str>) -> (out: i64)
    ensures
        out == match issue_url {
            Some(url) => number_in_url(Some(url@)),
            None => 0,
        },
{
    match issue_url {
        Some(url) => match decimal::parse_i64(text::last_segment(url)) {
            Some(number) => number,
            None => 0,
        },
        None => 0,
    }
}

/// The number of an issue is read back from any URL that ends with it.
pub proof fn issue_number_reads_back(stem: Seq<char>, number: i64)
    ensures
        number_in_url(Some(stem.push('/') + decimal::integer_text(number as int))) == number,
{
    let digits = decimal::integer_text(number as int);
    decimal::integer_text_reads_back(number as int);
    decimal::integer_text_has_no_slash(number as int);
    text::after_last_slash_of_joined(stem, digits);
}

// ---------------------------------------------------------------------------
// Rows
// ---------------------------------------------------------------------------

pub open spec fn is_repository_record(r: GhRepository, out: RepoRecord) -> bool {
    &&& out.id == r.id
    &&& out.owner == r.owner.login
    &&& out.name == r.name
    &&& out.full_name == r.full_name
    &&& out.default_branch == r.default_branch
    &&& out.private == r.private
    &&& out.pushed_at == r.pushed_at
    &&& out.stars == r.stargazers_count
    &&& out.forks == r.forks_count
    &&& out.description == r.description
    &&& out.clone_url == r.clone_url
}

/// A repository as a row.
pub fn repository_record(r: GhRepository) -> (out: RepoRecord)
    ensures
        is_repository_record(r, out),
{
    RepoRecord {
        id: r.id,
        owner: r.owner.login,
        name: r.name,
        full_name: r.full_name,
        default_branch: r.default_branch,
        private: r.private,
        pushed_at: r.pushed_at,
        stars: r.stargazers_count,
        forks: r.forks_count,
        description: r.description,
        clone_url: r.clone_url,
    }
}

pub open spec fn is_issue_record(repo_id: i64, i: GhIssue, out: IssueRecord) -> bool {
    &&& out.id == i.id
    &&& out.repo_id == repo_id
    &&& out.number == i.number
    &&& out.title == i.title
    &&& out.body == i.body
    &&& out.state == i.state
    &&& out.is_pull_request == (i.pull_request is Some)
    &&& out.created_at == i.created_at
    &&& out.updated_at == i.updated_at
    &&& out.closed_at == i.closed_at
    &&& out.html_url == i.html_url
}

/// An issue as a row. It is a pull request when the listing says so.
pub fn issue_record(repo_id: i64, i: GhIssue) -> (out: IssueRecord)
    ensures
        is_issue_record(repo_id, i, out),
{
    IssueRecord {
        id: i.id,
        repo_id,
        number: i.number,
        title: i.title,
        body: i.body,
        state: i.state,
        is_pull_request: i.pull_request.is_some(),
        created_at: i.created_at,
        updated_at: i.updated_at,
        closed_at: i.closed_at,
        html_url: i.html_url,
    }
}

pub open spec fn is_pull_request_record(repo_id: i64, p: GhPullRequest, out: PullRequestRecord) -> bool {
    &&& out.id == p.id
    &&& out.repo_id == repo_id
    &&& out.number == p.number
    &&& out.title == p.title
    &&& out.body == p.body
    &&& out.state == p.state
    &&& out.draft == (p.draft == Some(true))
    &&& out.merged == (p.merged_at is Some)
    &&& out.head_sha == sha_of(p.head)
    &&& out.base_sha == sha_of(p.base)
    &&& out.lines_added == 0
    &&& out.lines_removed == 0
    &&& out.created_at == p.created_at
    &&& out.updated_at == p.updated_at
    &&& out.closed_at == p.closed_at
    &&& out.merged_at == p.merged_at
    &&& out.html_url == p.html_url
    &&& out.head_ref == ref_of(p.head)
    &&& out.base_ref == ref_of(p.base)
}

/// A listed pull request as a row. Its line counts are not listed.
pub fn pull_request_record(repo_id: i64, p: GhPullRequest) -> (out: PullRequestRecord)
    ensures
        is_pull_request_record(repo_id, p, out),
{
    let (head_sha, head_ref) = match p.head {
        Some(side) => (side.sha, side.ref_name),
        None => (None, None),
    };
    let (base_sha, base_ref) = match p.base {
        Some(side) => (side.sha, side.ref_name),
        None => (None, None),
    };
    PullRequestRecord {
        id: p.id,
        repo_id,
        number: p.number,
        title: p.title,
        body: p.body,
        state: p.state,
        draft: match p.draft {
            Some(draft) => draft,
            None => false,
        },
        merged: p.merged_at.is_some(),
        head_sha,
        base_sha,
        lines_added: 0,
        lines_removed: 0,
        created_at: p.created_at,
        updated_at: p.updated_at,
        closed_at: p.closed_at,
        merged_at: p.merged_at,
        html_url: p.html_url,
        head_ref,
        base_ref,
    }
}

pub open spec fn is_comment_record(repo_id: i64, c: GhComment, out: CommentRecord) -> bool {
    &&& out.id == c.id
    &&& out.repo_id == repo_id
    &&& out.issue_number == number_in_url(json::text_of(c.issue_url))
    &&& out.author_login == login_of(c.user)
    &&& out.body == c.body
    &&& out.created_at == c.created_at
    &&& out.updated_at == c.updated_at
    &&& out.html_url == c.html_url
}

/// A comment as a row. The issue is the one its URL ends with.
pub fn comment_record(repo_id: i64, c: GhComment) -> (out: CommentRecord)
    ensures
        is_comment_record(repo_id, c, out),
{
    let issue_number: i64 = issue_number_from_url(as_deref(&c.issue_url));
    CommentRecord {
        id: c.id,
        repo_id,
        issue_number,
        author_login: login(c.user),
        body: c.body,
        created_at: c.created_at,
        updated_at: c.updated_at,
        html_url: c.html_url,
    }
}

pub open spec fn is_review_comment_record(repo_id: i64, c: GhReviewComment, out: ReviewCommentRecord) -> bool {
    &&& out.id == c.id
    &&& out.repo_id == repo_id
    &&& out.pull_number == number_in_url(json::text_of(c.pull_request_url))
    &&& out.author_login == login_of(c.user)
    &&& out.body == c.body
    &&& out.path == c.path
    &&& out.diff_hunk == c.diff_hunk
    &&& out.in_reply_to_id == c.in_reply_to_id
    &&& out.commit_id == c.commit_id
    &&& out.created_at == c.created_at
    &&& out.updated_at == c.updated_at
    &&& out.html_url == c.html_url
}

/// A review comment as a row. The pull request is the one its URL ends with.
pub fn review_comment_record(repo_id: i64, c: GhReviewComment) -> (out: ReviewCommentRecord)
    ensures
        is_review_comment_record(repo_id, c, out),
{
    let pull_number: i64 = issue_number_from_url(as_deref(&c.pull_request_url));
    ReviewCommentRecord {
        id: c.id,
        repo_id,
        pull_number,
        author_login: login(c.user),
        body: c.body,
        path: c.path,
        diff_hunk: c.diff_hunk,
        in_reply_to_id: c.in_reply_to_id,
        commit_id: c.commit_id,
        created_at: c.created_at,
        updated_at: c.updated_at,
        html_url: c.html_url,
    }
}

pub open spec fn is_label_record(repo_id: i64, l: GhLabel, out: LabelRecord) -> bool {
    &&& out.id == l.id
    &&& out.repo_id == repo_id
    &&& out.name == l.name
    &&& out.color == l.color
    &&& out.is_default == l.is_default
    &&& out.description == l.description
}

/// A label as a row.
pub fn label_record(repo_id: i64, l: GhLabel) -> (out: LabelRecord)
    ensures
        is_label_record(repo_id, l, out),
{
    LabelRecord {
        id: l.id,
        repo_id,
        name: l.name,
        color: l.color,
        is_default: l.is_default,
        description: l.description,
    }
}

pub open spec fn is_milestone_record(repo_id: i64, m: GhMilestone, out: MilestoneRecord) -> bool {
    &&& out.id == m.id
    &&& out.repo_id == repo_id
    &&& out.number == m.number
    &&& out.title == m.title
    &&& out.state == m.state
    &&& out.description == m.description
    &&& out.open_issues == m.open_issues
    &&& out.closed_issues == m.closed_issues
    &&& out.due_on == m.due_on
    &&& out.created_at == m.created_at
    &&& out.updated_at == m.updated_at
    &&& out.closed_at == m.closed_at
    &&& out.html_url == m.html_url
}

/// A milestone as a row.
pub fn milestone_record(repo_id: i64, m: GhMilestone) -> (out: MilestoneRecord)
    ensures
        is_milestone_record(repo_id, m, out),
{
    MilestoneRecord {
        id: m.id,
        repo_id,
        number: m.number,
        title: m.title,
        state: m.state,
        description: m.description,
        open_issues: m.open_issues,
        closed_issues: m.closed_issues,
        due_on: m.due_on,
        created_at: m.created_at,
        updated_at: m.updated_at,
        closed_at: m.closed_at,
        html_url: m.html_url,
    }
}

pub open spec fn is_release_record(repo_id: i64, r: GhRelease, out: ReleaseRecord) -> bool {
    &&& out.id == r.id
    &&& out.repo_id == repo_id
    &&& out.tag_name == r.tag_name
    &&& out.name == r.name
    &&& out.draft == r.draft
    &&& out.prerelease == r.prerelease
    &&& out.body == r.body
    &&& out.author_login == login_of(r.author)
    &&& out.created_at == r.created_at
    &&& out.published_at == r.published_at
    &&& out.html_url == r.html_url
}

/// A release as a row.
pub fn release_record(repo_id: i64, r: GhRelease) -> (out: ReleaseRecord)
    ensures
        is_release_record(repo_id, r, out),
{
    ReleaseRecord {
        id: r.id,
        repo_id,
        tag_name: r.tag_name,
        name: r.name,
        draft: r.draft,
        prerelease: r.prerelease,
        body: r.body,
        author_login: login(r.author),
        created_at: r.created_at,
        published_at: r.published_at,
        html_url: r.html_url,
    }
}

pub open spec fn is_branch_record(repo_id: i64, b: GhBranch, out: BranchRecord) -> bool {
    &&& out.repo_id == repo_id
    &&& out.name == b.name
    &&& out.commit_sha == b.commit.sha
    &&& out.protected == b.protected
}

/// A branch as a row.
pub fn branch_record(repo_id: i64, b: GhBranch) -> (out: BranchRecord)
    ensures
        is_branch_record(repo_id, b, out),
{
    BranchRecord {
        repo_id,
        name: b.name,
        commit_sha: b.commit.sha,
        protected: b.protected,
    }
}

pub open spec fn is_contributor_record(repo_id: i64, c: GhContributor, out: ContributorRecord) -> bool {
    &&& out.repo_id == repo_id
    &&& out.user_id == c.id
    &&& out.login == c.login
    &&& out.contributions == c.contributions
    &&& out.user_type == c.user_type
    &&& out.avatar_url == c.avatar_url
    &&& out.html_url == c.html_url
}

/// A contributor as a row.
pub fn contributor_record(repo_id: i64, c: GhContributor) -> (out: ContributorRecord)
    ensures
        is_contributor_record(repo_id, c, out),
{
    ContributorRecord {
        repo_id,
        user_id: c.id,
        login: c.login,
        contributions: c.contributions,
        user_type: c.user_type,
        avatar_url: c.avatar_url,
        html_url: c.html_url,
    }
}

pub open spec fn is_workflow_run_record(repo_id: i64, w: GhWorkflowRun, out: WorkflowRunRecord) -> bool {
    &&& out.id == w.id
    &&& out.repo_id == repo_id
    &&& out.workflow_id == w.workflow_id
    &&& out.run_number == w.run_number
    &&& out.run_attempt == attempt_of(w.run_attempt)
    &&& out.name == w.name
    &&& out.event == w.event
    &&& out.status == w.status
    &&& out.conclusion == w.conclusion
    &&& out.head_branch == w.head_branch
    &&& out.head_sha == w.head_sha
    &&& out.created_at == w.created_at
    &&& out.updated_at == w.updated_at
    &&& out.html_url == w.html_url
    &&& out.actor_login == login_of(w.actor)
}

/// A workflow run as a row. A run without an attempt number is on its first.
pub fn workflow_run_record(repo_id: i64, w: GhWorkflowRun) -> (out: WorkflowRunRecord)
    ensures
        is_workflow_run_record(repo_id, w, out),
{
    WorkflowRunRecord {
        id: w.id,
        repo_id,
        workflow_id: w.workflow_id,
        run_number: w.run_number,
        run_attempt: match w.run_attempt {
            Some(attempt) => attempt,
            None => 1,
        },
        name: w.name,
        event: w.event,
        status: w.status,
        conclusion: w.conclusion,
        head_branch: w.head_branch,
        head_sha: w.head_sha,
        created_at: w.created_at,
        updated_at: w.updated_at,
        html_url: w.html_url,
        actor_login: login(w.actor),
    }
}

pub open spec fn is_pull_request_file_record(repo_id: i64, pull_number: i64, f: GhPullFile, out: PullRequestFileRecord) -> bool {
    &&& out.repo_id == repo_id
    &&& out.pull_number == pull_number
    &&& out.filename == f.filename
    &&& out.status == f.status
    &&& out.additions == f.additions
    &&& out.deletions == f.deletions
    &&& out.changes == f.changes
    &&& out.previous_filename == f.previous_filename
    &&& out.sha == f.sha
}

/// A file of a pull request as a row.
pub fn pull_request_file_record(repo_id: i64, pull_number: i64, f: GhPullFile) -> (out: PullRequestFileRecord)
    ensures
        is_pull_request_file_record(repo_id, pull_number, f, out),
{
    PullRequestFileRecord {
        repo_id,
        pull_number,
        filename: f.filename,
        status: f.status,
        additions: f.additions,
        deletions: f.deletions,
        changes: f.changes,
        previous_filename: f.previous_filename,
        sha: f.sha,
    }
}

pub open spec fn is_tag_record(repo_id: i64, t: GhTag, out: TagRecord) -> bool {
    &&& out.repo_id == repo_id
    &&& out.name == t.name
    &&& out.commit_sha == t.commit.sha
}

/// A tag as a row.
pub fn tag_record(repo_id: i64, t: GhTag) -> (out: TagRecord)
    ensures
        is_tag_record(repo_id, t, out),
{
    TagRecord {
        repo_id,
        name: t.name,
        commit_sha: t.commit.sha,
    }
}

pub open spec fn is_commit_file_record(repo_id: i64, commit_sha: Seq<char>, f: GhPullFile, out: CommitFileRecord) -> bool {
    &&& out.repo_id == repo_id
    &&& out.commit_sha@ == commit_sha
    &&& out.filename == f.filename
    &&& out.status == f.status
    &&& out.additions == f.additions
    &&& out.deletions == f.deletions
    &&& out.changes == f.changes
    &&& out.previous_filename == f.previous_filename
    &&& out.sha == f.sha
}

/// A file of a commit as a row.
pub fn commit_file_record(repo_id: i64, commit_sha: &str, f: GhPullFile) -> (out: CommitFileRecord)
    ensures
        is_commit_file_record(repo_id, commit_sha@, f, out),
{
    CommitFileRecord {
        repo_id,
        commit_sha: commit_sha.to_owned(),
        filename: f.filename,
        status: f.status,
        additions: f.additions,
        deletions: f.deletions,
        changes: f.changes,
        previous_filename: f.previous_filename,
        sha: f.sha,
    }
}

pub open spec fn is_commit_comment_record(repo_id: i64, c: GhCommitComment, out: CommitCommentRecord) -> bool {
    &&& out.id == c.id
    &&& out.repo_id == repo_id
    &&& out.commit_sha == c.commit_id
    &&& out.path == c.path
    &&& out.position == c.position
    &&& out.author_login == login_of(c.user)
    &&& out.body == c.body
    &&& out.created_at == c.created_at
    &&& out.updated_at == c.updated_at
    &&& out.html_url == c.html_url
}

/// A comment on a commit as a row.
pub fn commit_comment_record(repo_id: i64, c: GhCommitComment) -> (out: CommitCommentRecord)
    ensures
        is_commit_comment_record(repo_id, c, out),
{
    CommitCommentRecord {
        id: c.id,
        repo_id,
        commit_sha: c.commit_id,
        path: c.path,
        position: c.position,
        author_login: login(c.user),
        body: c.body,
        created_at: c.created_at,
        updated_at: c.updated_at,
        html_url: c.html_url,
    }
}

pub open spec fn is_issue_event_record(repo_id: i64, e: GhIssueEvent, out: IssueEventRecord) -> bool {
    &&& out.id == e.id
    &&& out.repo_id == repo_id
    &&& out.issue_number == number_or_zero(e.issue)
    &&& out.event == e.event
    &&& out.actor_login == login_of(e.actor)
    &&& out.label_name == e.label
    &&& out.assignee_login == login_of(e.assignee)
    &&& out.milestone_title == e.milestone
    &&& out.commit_id == e.commit_id
    &&& out.created_at == e.created_at
}

/// An event as a row. An event of no issue is kept under number 0.
pub fn issue_event_record(repo_id: i64, e: GhIssueEvent) -> (out: IssueEventRecord)
    ensures
        is_issue_event_record(repo_id, e, out),
{
    IssueEventRecord {
        id: e.id,
        repo_id,
        issue_number: match e.issue {
            Some(number) => number,
            None => 0,
        },
        event: e.event,
        actor_login: login(e.actor),
        label_name: e.label,
        assignee_login: login(e.assignee),
        milestone_title: e.milestone,
        commit_id: e.commit_id,
        created_at: e.created_at,
    }
}

pub open spec fn is_deployment_record(repo_id: i64, d: GhDeployment, out: DeploymentRecord) -> bool {
    &&& out.id == d.id
    &&& out.repo_id == repo_id
    &&& out.git_ref == d.git_ref
    &&& out.sha == d.sha
    &&& out.environment == d.environment
    &&& out.task == d.task
    &&& out.description == d.description
    &&& out.creator_login == login_of(d.creator)
    &&& out.created_at == d.created_at
    &&& out.updated_at == d.updated_at
}

/// A deployment as a row.
pub fn deployment_record(repo_id: i64, d: GhDeployment) -> (out: DeploymentRecord)
    ensures
        is_deployment_record(repo_id, d, out),
{
    DeploymentRecord {
        id: d.id,
        repo_id,
        git_ref: d.git_ref,
        sha: d.sha,
        environment: d.environment,
        task: d.task,
        description: d.description,
        creator_login: login(d.creator),
        created_at: d.created_at,
        updated_at: d.updated_at,
    }
}

pub open spec fn is_pull_request_commit_record(repo_id: i64, pull_number: i64, c: GhCommit, out: PullRequestCommitRecord) -> bool {
    &&& out.repo_id == repo_id
    &&& out.pull_number == pull_number
    &&& out.sha == c.sha
    &&& out.message == c.commit.message
    &&& out.author_login == login_of(c.author)
    &&& out.committer_login == login_of(c.committer)
    &&& out.authored_at == date_of(c.commit.author)
    &&& out.committed_at == date_of(c.commit.committer)
}

/// A commit of a pull request as a row.
pub fn pull_request_commit_record(repo_id: i64, pull_number: i64, c: GhCommit) -> (out: PullRequestCommitRecord)
    ensures
        is_pull_request_commit_record(repo_id, pull_number, c, out),
{
    PullRequestCommitRecord {
        repo_id,
        pull_number,
        sha: c.sha,
        message: c.commit.message,
        author_login: login(c.author),
        committer_login: login(c.committer),
        authored_at: date(c.commit.author),
        committed_at: date(c.commit.committer),
    }
}

pub open spec fn is_commit_status_record(repo_id: i64, commit_sha: Seq<char>, s: GhCommitStatus, out: CommitStatusRecord) -> bool {
    &&& out.id == s.id
    &&& out.repo_id == repo_id
    &&& out.commit_sha@ == commit_sha
    &&& out.state == s.state
    &&& out.context == s.context
    &&& out.description == s.description
    &&& out.target_url == s.target_url
    &&& out.creator_login == login_of(s.creator)
    &&& out.created_at == s.created_at
    &&& out.updated_at == s.updated_at
}

/// A commit status as a row.
pub fn commit_status_record(repo_id: i64, commit_sha: &str, s: GhCommitStatus) -> (out: CommitStatusRecord)
    ensures
        is_commit_status_record(repo_id, commit_sha@, s, out),
{
    CommitStatusRecord {
        id: s.id,
        repo_id,
        commit_sha: commit_sha.to_owned(),
        state: s.state,
        context: s.context,
        description: s.description,
        target_url: s.target_url,
        creator_login: login(s.creator),
        created_at: s.created_at,
        updated_at: s.updated_at,
    }
}

pub open spec fn is_issue_reaction_record(repo_id: i64, issue_number: i64, r: GhIssueReaction, out: IssueReactionRecord) -> bool {
    &&& out.id == r.id
    &&& out.repo_id == repo_id
    &&& out.issue_number == issue_number
    &&& out.content == r.content
    &&& out.user_login == login_of(r.user)
    &&& out.created_at == r.created_at
}

/// A reaction as a row.
pub fn issue_reaction_record(repo_id: i64, issue_number: i64, r: GhIssueReaction) -> (out: IssueReactionRecord)
    ensures
        is_issue_reaction_record(repo_id, issue_number, r, out),
{
    IssueReactionRecord {
        id: r.id,
        repo_id,
        issue_number,
        content: r.content,
        user_login: login(r.user),
        created_at: r.created_at,
    }
}

pub open spec fn is_check_run_record(repo_id: i64, c: GhCheckRun, out: CheckRunRecord) -> bool {
    &&& out.id == c.id
    &&& out.repo_id == repo_id
    &&& out.head_sha == c.head_sha
    &&& out.name == c.name
    &&& out.status == c.status
    &&& out.conclusion == c.conclusion
    &&& out.started_at == c.started_at
    &&& out.completed_at == c.completed_at
    &&& out.html_url == c.html_url
    &&& out.details_url == c.details_url
    &&& out.check_suite_id == c.check_suite
    &&& out.app_slug == slug_of(c.app)
    &&& out.app_name == app_name_of(c.app)
    &&& out.output_title == title_of(c.output)
    &&& out.output_summary == summary_of(c.output)
    &&& out.annotations_count == annotations_of(c.output)
}

/// A check run as a row.
pub fn check_run_record(repo_id: i64, c: GhCheckRun) -> (out: CheckRunRecord)
    ensures
        is_check_run_record(repo_id, c, out),
{
    let (app_slug, app_name) = match c.app {
        Some(app) => (app.slug, app.name),
        None => (None, None),
    };
    let (output_title, output_summary, annotations_count): (Option<String>, Option<String>, i64) =
        match c.output {
        Some(output) => (output.title, output.summary, output.annotations_count),
        None => (None, None, 0),
    };
    CheckRunRecord {
        id: c.id,
        repo_id,
        head_sha: c.head_sha,
        name: c.name,
        status: c.status,
        conclusion: c.conclusion,
        started_at: c.started_at,
        completed_at: c.completed_at,
        html_url: c.html_url,
        details_url: c.details_url,
        check_suite_id: c.check_suite,
        app_slug,
        app_name,
        output_title,
        output_summary,
        annotations_count,
    }
}

pub open spec fn is_workflow_job_record(repo_id: i64, j: GhWorkflowJob, out: WorkflowJobRecord) -> bool {
    &&& out.id == j.id
    &&& out.repo_id == repo_id
    &&& out.run_id == j.run_id
    &&& out.run_attempt == attempt_of(j.run_attempt)
    &&& out.name == j.name
    &&& out.status == j.status
    &&& out.conclusion == j.conclusion
    &&& out.head_sha == j.head_sha
    &&& out.runner_name == j.runner_name
    &&& out.started_at == j.started_at
    &&& out.completed_at == j.completed_at
    &&& out.html_url == j.html_url
    &&& json::text_of(out.steps_json) == compact_of(j.steps)
}

/// A job as a row. Its steps are kept as text.
pub fn workflow_job_record(repo_id: i64, j: GhWorkflowJob) -> (out: WorkflowJobRecord)
    ensures
        is_workflow_job_record(repo_id, j, out),
{
    let steps_json = match &j.steps {
        Some(steps) => Some(json::compact(steps)),
        None => None,
    };
    WorkflowJobRecord {
        id: j.id,
        repo_id,
        run_id: j.run_id,
        run_attempt: match j.run_attempt {
            Some(attempt) => attempt,
            None => 1,
        },
        name: j.name,
        status: j.status,
        conclusion: j.conclusion,
        head_sha: j.head_sha,
        runner_name: j.runner_name,
        started_at: j.started_at,
        completed_at: j.completed_at,
        html_url: j.html_url,
        steps_json,
    }
}

pub open spec fn is_review_record(repo_id: i64, pull_number: i64, r: GhReview, out: ReviewRecord) -> bool {
    &&& out.id == r.id
    &&& out.repo_id == repo_id
    &&& out.pull_number == pull_number
    &&& out.author_login == login_of(r.user)
    &&& out.state == r.state
    &&& out.body == r.body
    &&& out.commit_id == r.commit_id
    &&& out.submitted_at == r.submitted_at
    &&& out.html_url == r.html_url
}

/// A review as a row.
pub fn review_record(repo_id: i64, pull_number: i64, r: GhReview) -> (out: ReviewRecord)
    ensures
        is_review_record(repo_id, pull_number, r, out),
{
    ReviewRecord {
        id: r.id,
        repo_id,
        pull_number,
        author_login: login(r.user),
        state: r.state,
        body: r.body,
        commit_id: r.commit_id,
        submitted_at: r.submitted_at,
        html_url: r.html_url,
    }
}

pub open spec fn is_commit_record(repo_id: i64, c: GhCommit, out: CommitRecord) -> bool {
    &&& out.repo_id == repo_id
    &&& out.sha == c.sha
    &&& out.message == c.commit.message
    &&& out.author_login == login_of(c.author)
    &&& out.committer_login == login_of(c.committer)
    &&& out.authored_at == date_of(c.commit.author)
    &&& out.committed_at == date_of(c.commit.committer)
    &&& out.additions == 0
    &&& out.deletions == 0
}

/// A listed commit as a row. Its line counts are not listed.
pub fn commit_record(repo_id: i64, c: GhCommit) -> (out: CommitRecord)
    ensures
        is_commit_record(repo_id, c, out),
{
    CommitRecord {
        repo_id,
        sha: c.sha,
        message: c.commit.message,
        author_login: login(c.author),
        committer_login: login(c.committer),
        authored_at: date(c.commit.author),
        committed_at: date(c.commit.committer),
        additions: 0,
        deletions: 0,
    }
}

// ---------------------------------------------------------------------------
// Rows from JSON
// ---------------------------------------------------------------------------

/// What is read of a review thread.
#[derive(Debug)]
pub struct ThreadFields {
    pub id: Option<String>,
    pub is_resolved: Option<bool>,
    pub is_outdated: Option<bool>,
    pub path: Option<String>,
    pub line: Option<i64>,
    pub resolved_by: Option<String>,
    pub comments_count: Option<i64>,
}

/// The fields are those of the node.
pub open spec fn are_thread_fields(node: Value, out: ThreadFields) -> bool {
    &&& json::text_of(out.id) == json::string_at(node, "id"@)
    &&& out.is_resolved == json::bool_at(node, "isResolved"@)
    &&& out.is_outdated == json::bool_at(node, "isOutdated"@)
    &&& json::text_of(out.path) == json::string_at(node, "path"@)
    &&& out.line == json::integer_at(node, "line"@)
    &&& json::text_of(out.resolved_by) == json::string_under(node, "resolvedBy"@, "login"@)
    &&& out.comments_count == json::integer_under(node, "comments"@, "totalCount"@)
}

fn thread_fields(node: &Value) -> (out: ThreadFields)
    ensures
        are_thread_fields(*node, out),
{
    ThreadFields {
        id: json::read_string(node, "id"),
        is_resolved: json::read_bool(node, "isResolved"),
        is_outdated: json::read_bool(node, "isOutdated"),
        path: json::read_string(node, "path"),
        line: json::read_integer(node, "line"),
        resolved_by: json::read_string_under(node, "resolvedBy", "login"),
        comments_count: json::read_integer_under(node, "comments", "totalCount"),
    }
}

/// The row of a thread with these fields: `None` without an id; what is absent
/// counts as not resolved, not outdated, and without comments.
pub fn thread_row(repo_id: i64, pull_number: i64, fields: ThreadFields) -> (out: Option<
    ReviewThreadRecord,
>)
    ensures
        out is Some <==> fields.id is Some,
        out is Some ==> out->0 == (ReviewThreadRecord {
            id: fields.id->0,
            repo_id,
            pull_number,
            is_resolved: fields.is_resolved == Some(true),
            is_outdated: fields.is_outdated == Some(true),
            path: fields.path,
            line: fields.line,
            resolved_by: fields.resolved_by,
            comments_count: number_or_zero(fields.comments_count),
        }),
{
    match fields.id {
        Some(id) => Some(
            ReviewThreadRecord {
                id,
                repo_id,
                pull_number,
                is_resolved: match fields.is_resolved {
                    Some(resolved) => resolved,
                    None => false,
                },
                is_outdated: match fields.is_outdated {
                    Some(outdated) => outdated,
                    None => false,
                },
                path: fields.path,
                line: fields.line,
                resolved_by: fields.resolved_by,
                comments_count: match fields.comments_count {
                    Some(count) => count,
                    None => 0,
                },
            },
        ),
        None => None,
    }
}

/// The node has an id, so that it becomes a row.
pub open spec fn has_thread_id(node: Value) -> bool {
    json::string_at(node, "id"@) is Some
}

pub open spec fn is_review_thread_record(
    repo_id: i64,
    pull_number: i64,
    node: Value,
    out: ReviewThreadRecord,
) -> bool {
    &&& Some(out.id@) == json::string_at(node, "id"@)
    &&& out.repo_id == repo_id
    &&& out.pull_number == pull_number
    &&& out.is_resolved == (json::bool_at(node, "isResolved"@) == Some(true))
    &&& out.is_outdated == (json::bool_at(node, "isOutdated"@) == Some(true))
    &&& json::text_of(out.path) == json::string_at(node, "path"@)
    &&& out.line == json::integer_at(node, "line"@)
    &&& json::text_of(out.resolved_by) == json::string_under(node, "resolvedBy"@, "login"@)
    &&& out.comments_count == number_or_zero(
        json::integer_under(node, "comments"@, "totalCount"@),
    )
}

/// A review thread as a row; `None` when it has no id.
pub fn review_thread_record(repo_id: i64, pull_number: i64, node: &Value) -> (out: Option<
    ReviewThreadRecord,
>)
    ensures
        out is Some <==> has_thread_id(*node),
        out is Some ==> is_review_thread_record(repo_id, pull_number, *node, out->0),
{
    thread_row(repo_id, pull_number, thread_fields(node))
}

/// What is read of an entry of a timeline.
#[derive(Debug)]
pub struct TimelineFields {
    pub event: Option<String>,
    pub created_at: Option<String>,
    pub actor: Option<String>,
    pub user: Option<String>,
    pub payload_json: String,
}

/// The fields are those of the entry.
pub open spec fn are_timeline_fields(entry: Value, out: TimelineFields) -> bool {
    &&& json::text_of(out.event) == json::string_at(entry, "event"@)
    &&& json::text_of(out.created_at) == json::string_at(entry, "created_at"@)
    &&& json::text_of(out.actor) == json::string_under(entry, "actor"@, "login"@)
    &&& json::text_of(out.user) == json::string_under(entry, "user"@, "login"@)
    &&& out.payload_json@ == json::json_compact(entry)
}

fn timeline_fields(entry: &Value) -> (out: TimelineFields)
    ensures
        are_timeline_fields(*entry, out),
{
    TimelineFields {
        event: json::read_string(entry, "event"),
        created_at: json::read_string(entry, "created_at"),
        actor: json::read_string_under(entry, "actor", "login"),
        user: json::read_string_under(entry, "user", "login"),
        payload_json: json::compact(entry),
    }
}

/// The first login, or the second where there is no first.
pub open spec fn first_login(actor: Option<Seq<char>>, user: Option<Seq<char>>) -> Option<
    Seq<char>,
> {
    if actor is Some {
        actor
    } else {
        user
    }
}

pub open spec fn event_name(event: Option<Seq<char>>) -> Seq<char> {
    match event {
        Some(event) => event,
        None => "unknown"@,
    }
}

pub open spec fn clamped_position(position: nat) -> i64 {
    if position <= i64::MAX {
        position as i64
    } else {
        i64::MAX
    }
}

/// The row of an entry with these fields: the event is `unknown` where it is
/// absent, and the actor is the user where there is no actor.
pub fn timeline_row(repo_id: i64, issue_number: i64, position: usize, fields: TimelineFields) -> (out:
    IssueTimelineEventRecord)
    ensures
        out.repo_id == repo_id,
        out.issue_number == issue_number,
        out.position == clamped_position(position as nat),
        out.event@ == event_name(json::text_of(fields.event)),
        out.created_at == fields.created_at,
        out.actor_login == (if fields.actor is Some {
            fields.actor
        } else {
            fields.user
        }),
        out.payload_json == fields.payload_json,
{
    IssueTimelineEventRecord {
        repo_id,
        issue_number,
        position: if position as u128 <= i64::MAX as u128 {
            position as i64
        } else {
            i64::MAX
        },
        event: match fields.event {
            Some(event) => event,
            None => "unknown".to_owned(),
        },
        created_at: fields.created_at,
        actor_login: match fields.actor {
            Some(login) => Some(login),
            None => fields.user,
        },
        payload_json: fields.payload_json,
    }
}

pub open spec fn is_issue_timeline_record(
    repo_id: i64,
    issue_number: i64,
    position: nat,
    entry: Value,
    out: IssueTimelineEventRecord,
) -> bool {
    &&& out.repo_id == repo_id
    &&& out.issue_number == issue_number
    &&& out.position == clamped_position(position)
    &&& out.event@ == event_name(json::string_at(entry, "event"@))
    &&& json::text_of(out.created_at) == json::string_at(entry, "created_at"@)
    &&& json::text_of(out.actor_login) == first_login(
        json::string_under(entry, "actor"@, "login"@),
        json::string_under(entry, "user"@, "login"@),
    )
    &&& out.payload_json@ == json::json_compact(entry)
}

/// An entry of an issue's timeline as a row. The entry is kept verbatim, and
/// what the mirror looks rows up by is lifted out.
pub fn issue_timeline_record(repo_id: i64, issue_number: i64, position: usize, entry: &Value) -> (out:
    IssueTimelineEventRecord)
    ensures
        is_issue_timeline_record(repo_id, issue_number, position as nat, *entry, out),
{
    timeline_row(repo_id, issue_number, position, timeline_fields(entry))
}

// ---------------------------------------------------------------------------
// Pages
// ---------------------------------------------------------------------------

/// Where a row belongs: a repository, or something in one.
#[derive(Debug, Clone, Copy, PartialEq, Eq, Structural)]
pub struct InRepo {
    pub repo_id: i64,
}

#[derive(Debug, Clone, Copy, PartialEq, Eq, Structural)]
pub struct InPull {
    pub repo_id: i64,
    pub pull_number: i64,
}

#[derive(Debug, Clone, Copy, PartialEq, Eq, Structural)]
pub struct InIssue {
    pub repo_id: i64,
    pub issue_number: i64,
}

#[derive(Debug)]
pub struct InCommit {
    pub repo_id: i64,
    pub commit_sha: String,
}

/// A response that becomes a row at a place.
pub trait IntoRecord<P>: Sized {
    type Record;

    spec fn becomes(self, at: P, out: Self::Record) -> bool;

    fn into_record(self, at: &P) -> (out: Self::Record)
        ensures
            self.becomes(*at, out),
    ;
}

/// The rows are those of the page, in order.
pub open spec fn rows_of<P, G: IntoRecord<P>>(page: Seq<G>, at: P, rows: Seq<G::Record>) -> bool {
    &&& rows.len() == page.len()
    &&& forall|i: int| 0 <= i < page.len() ==> (#[trigger] page[i]).becomes(at, rows[i])
}

/// A page of responses as rows, in order.
pub fn records<P, G: IntoRecord<P>>(page: Vec<G>, at: &P) -> (out: Vec<G::Record>)
    ensures
        rows_of(page@, *at, out@),
{
    let mut out: Vec<G::Record> = Vec::new();
    for item in it: page
        invariant
            it.seq() == page@,
            out@.len() == it.index(),
            forall|i: int| 0 <= i < out@.len() ==> (#[trigger] page@[i]).becomes(*at, out@[i]),
    {
        out.push(item.into_record(at));
    }
    out
}

impl IntoRecord<InRepo> for GhIssue {
    type Record = IssueRecord;

    open spec fn becomes(self, at: InRepo, out: IssueRecord) -> bool {
        is_issue_record(at.repo_id, self, out)
    }

    fn into_record(self, at: &InRepo) -> (out: IssueRecord) {
        issue_record(at.repo_id, self)
    }
}

impl IntoRecord<InRepo> for GhPullRequest {
    type Record = PullRequestRecord;

    open spec fn becomes(self, at: InRepo, out: PullRequestRecord) -> bool {
        is_pull_request_record(at.repo_id, self, out)
    }

    fn into_record(self, at: &InRepo) -> (out: PullRequestRecord) {
        pull_request_record(at.repo_id, self)
    }
}

impl IntoRecord<InRepo> for GhComment {
    type Record = CommentRecord;

    open spec fn becomes(self, at: InRepo, out: CommentRecord) -> bool {
        is_comment_record(at.repo_id, self, out)
    }

    fn into_record(self, at: &InRepo) -> (out: CommentRecord) {
        comment_record(at.repo_id, self)
    }
}

impl IntoRecord<InRepo> for GhReviewComment {
    type Record = ReviewCommentRecord;

    open spec fn becomes(self, at: InRepo, out: ReviewCommentRecord) -> bool {
        is_review_comment_record(at.repo_id, self, out)
    }

    fn into_record(self, at: &InRepo) -> (out: ReviewCommentRecord) {
        review_comment_record(at.repo_id, self)
    }
}

impl IntoRecord<InRepo> for GhLabel {
    type Record = LabelRecord;

    open spec fn becomes(self, at: InRepo, out: LabelRecord) -> bool {
        is_label_record(at.repo_id, self, out)
    }

    fn into_record(self, at: &InRepo) -> (out: LabelRecord) {
        label_record(at.repo_id, self)
    }
}

impl IntoRecord<InRepo> for GhMilestone {
    type Record = MilestoneRecord;

    open spec fn becomes(self, at: InRepo, out: MilestoneRecord) -> bool {
        is_milestone_record(at.repo_id, self, out)
    }

    fn into_record(self, at: &InRepo) -> (out: MilestoneRecord) {
        milestone_record(at.repo_id, self)
    }
}

impl IntoRecord<InRepo> for GhRelease {
    type Record = ReleaseRecord;

    open spec fn becomes(self, at: InRepo, out: ReleaseRecord) -> bool {
        is_release_record(at.repo_id, self, out)
    }

    fn into_record(self, at: &InRepo) -> (out: ReleaseRecord) {
        release_record(at.repo_id, self)
    }
}

impl IntoRecord<InRepo> for GhBranch {
    type Record = BranchRecord;

    open spec fn becomes(self, at: InRepo, out: BranchRecord) -> bool {
        is_branch_record(at.repo_id, self, out)
    }

    fn into_record(self, at: &InRepo) -> (out: BranchRecord) {
        branch_record(at.repo_id, self)
    }
}

impl IntoRecord<InRepo> for GhContributor {
    type Record = ContributorRecord;

    open spec fn becomes(self, at: InRepo, out: ContributorRecord) -> bool {
        is_contributor_record(at.repo_id, self, out)
    }

    fn into_record(self, at: &InRepo) -> (out: ContributorRecord) {
        contributor_record(at.repo_id, self)
    }
}

impl IntoRecord<InRepo> for GhWorkflowRun {
    type Record = WorkflowRunRecord;

    open spec fn becomes(self, at: InRepo, out: WorkflowRunRecord) -> bool {
        is_workflow_run_record(at.repo_id, self, out)
    }

    fn into_record(self, at: &InRepo) -> (out: WorkflowRunRecord) {
        workflow_run_record(at.repo_id, self)
    }
}

impl IntoRecord<InPull> for GhPullFile {
    type Record = PullRequestFileRecord;

    open spec fn becomes(self, at: InPull, out: PullRequestFileRecord) -> bool {
        is_pull_request_file_record(at.repo_id, at.pull_number, self, out)
    }

    fn into_record(self, at: &InPull) -> (out: PullRequestFileRecord) {
        pull_request_file_record(at.repo_id, at.pull_number, self)
    }
}

impl IntoRecord<InRepo> for GhTag {
    type Record = TagRecord;

    open spec fn becomes(self, at: InRepo, out: TagRecord) -> bool {
        is_tag_record(at.repo_id, self, out)
    }

    fn into_record(self, at: &InRepo) -> (out: TagRecord) {
        tag_record(at.repo_id, self)
    }
}

impl IntoRecord<InCommit> for GhPullFile {
    type Record = CommitFileRecord;

    open spec fn becomes(self, at: InCommit, out: CommitFileRecord) -> bool {
        is_commit_file_record(at.repo_id, at.commit_sha@, self, out)
    }

    fn into_record(self, at: &InCommit) -> (out: CommitFileRecord) {
        commit_file_record(at.repo_id, at.commit_sha.as_str(), self)
    }
}

impl IntoRecord<InRepo> for GhCommitComment {
    type Record = CommitCommentRecord;

    open spec fn becomes(self, at: InRepo, out: CommitCommentRecord) -> bool {
        is_commit_comment_record(at.repo_id, self, out)
    }

    fn into_record(self, at: &InRepo) -> (out: CommitCommentRecord) {
        commit_comment_record(at.repo_id, self)
    }
}

impl IntoRecord<InRepo> for GhIssueEvent {
    type Record = IssueEventRecord;

    open spec fn becomes(self, at: InRepo, out: IssueEventRecord) -> bool {
        is_issue_event_record(at.repo_id, self, out)
    }

    fn into_record(self, at: &InRepo) -> (out: IssueEventRecord) {
        issue_event_record(at.repo_id, self)
    }
}

impl IntoRecord<InRepo> for GhDeployment {
    type Record = DeploymentRecord;

    open spec fn becomes(self, at: InRepo, out: DeploymentRecord) -> bool {
        is_deployment_record(at.repo_id, self, out)
    }

    fn into_record(self, at: &InRepo) -> (out: DeploymentRecord) {
        deployment_record(at.repo_id, self)
    }
}

impl IntoRecord<InPull> for GhCommit {
    type Record = PullRequestCommitRecord;

    open spec fn becomes(self, at: InPull, out: PullRequestCommitRecord) -> bool {
        is_pull_request_commit_record(at.repo_id, at.pull_number, self, out)
    }

    fn into_record(self, at: &InPull) -> (out: PullRequestCommitRecord) {
        pull_request_commit_record(at.repo_id, at.pull_number, self)
    }
}

impl IntoRecord<InCommit> for GhCommitStatus {
    type Record = CommitStatusRecord;

    open spec fn becomes(self, at: InCommit, out: CommitStatusRecord) -> bool {
        is_commit_status_record(at.repo_id, at.commit_sha@, self, out)
    }

    fn into_record(self, at: &InCommit) -> (out: CommitStatusRecord) {
        commit_status_record(at.repo_id, at.commit_sha.as_str(), self)
    }
}

impl IntoRecord<InIssue> for GhIssueReaction {
    type Record = IssueReactionRecord;

    open spec fn becomes(self, at: InIssue, out: IssueReactionRecord) -> bool {
        is_issue_reaction_record(at.repo_id, at.issue_number, self, out)
    }

    fn into_record(self, at: &InIssue) -> (out: IssueReactionRecord) {
        issue_reaction_record(at.repo_id, at.issue_number, self)
    }
}

impl IntoRecord<InRepo> for GhCheckRun {
    type Record = CheckRunRecord;

    open spec fn becomes(self, at: InRepo, out: CheckRunRecord) -> bool {
        is_check_run_record(at.repo_id, self, out)
    }

    fn into_record(self, at: &InRepo) -> (out: CheckRunRecord) {
        check_run_record(at.repo_id, self)
    }
}

impl IntoRecord<InRepo> for GhWorkflowJob {
    type Record = WorkflowJobRecord;

    open spec fn becomes(self, at: InRepo, out: WorkflowJobRecord) -> bool {
        is_workflow_job_record(at.repo_id, self, out)
    }

    fn into_record(self, at: &InRepo) -> (out: WorkflowJobRecord) {
        workflow_job_record(at.repo_id, self)
    }
}

impl IntoRecord<InPull> for GhReview {
    type Record = ReviewRecord;

    open spec fn becomes(self, at: InPull, out: ReviewRecord) -> bool {
        is_review_record(at.repo_id, at.pull_number, self, out)
    }

    fn into_record(self, at: &InPull) -> (out: ReviewRecord) {
        review_record(at.repo_id, at.pull_number, self)
    }
}

impl IntoRecord<InRepo> for GhCommit {
    type Record = CommitRecord;

    open spec fn becomes(self, at: InRepo, out: CommitRecord) -> bool {
        is_commit_record(at.repo_id, self, out)
    }

    fn into_record(self, at: &InRepo) -> (out: CommitRecord) {
        commit_record(at.repo_id, self)
    }
}

} // verus!
