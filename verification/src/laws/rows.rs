//! What a row of the mirror says of the response it was made from.

use crate::convert;
use crate::convert::{InCommit, InIssue, InPull, InRepo, IntoRecord, ThreadFields, TimelineFields};
use crate::decimal;
use crate::json;
use crate::records::{
    BranchRecord, CheckRunRecord, CommentRecord, CommitCommentRecord, CommitFileRecord,
    CommitRecord, CommitStatusRecord, ContributorRecord, DeploymentRecord, IssueEventRecord,
    IssueReactionRecord, IssueRecord, IssueTimelineEventRecord, LabelRecord, MilestoneRecord,
    PullRequestCommitRecord, PullRequestFileRecord, PullRequestRecord, ReleaseRecord, RepoRecord,
    ReviewCommentRecord, ReviewRecord, ReviewThreadRecord, TagRecord, WorkflowJobRecord,
    WorkflowRunRecord,
};
use crate::text;
use crate::wire::{
    GhBranch, GhCheckRun, GhComment, GhCommit, GhCommitComment, GhCommitStatus, GhContributor,
    GhDeployment, GhIssue, GhIssueEvent, GhIssueReaction, GhLabel, GhMilestone, GhPullFile,
    GhPullRequest, GhRelease, GhRepository, GhReview, GhReviewComment, GhTag, GhWorkflowJob,
    GhWorkflowRun,
};
use serde_json::Value;
use vstd::prelude::*;
use vstd::string::*;

verus! {

/// A repository is kept as it was answered, field by field.
pub proof fn repository_row_says_what_was_answered(r: GhRepository, out: RepoRecord)
    requires
        convert::is_repository_record(r, out),
    ensures
        out.id == r.id,
        out.owner == r.owner.login,
        out.name == r.name,
        out.full_name == r.full_name,
        out.default_branch == r.default_branch,
        out.private == r.private,
        out.pushed_at == r.pushed_at,
        out.stars == r.stargazers_count,
        out.forks == r.forks_count,
        out.description == r.description,
        out.clone_url == r.clone_url,
{
}

/// An issue is kept as it was answered, field by field.
pub proof fn issue_row_says_what_was_answered(at: InRepo, i: GhIssue, out: IssueRecord)
    requires
        convert::is_issue_record(at.repo_id, i, out) || <GhIssue as IntoRecord<InRepo>>::becomes(i, at, out),
    ensures
        out.id == i.id,
        out.repo_id == at.repo_id,
        out.number == i.number,
        out.title == i.title,
        out.body == i.body,
        out.state == i.state,
        out.is_pull_request == (i.pull_request is Some),
        out.created_at == i.created_at,
        out.updated_at == i.updated_at,
        out.closed_at == i.closed_at,
        out.html_url == i.html_url,
{
}

/// A pull request is kept as it was answered, field by field.
pub proof fn pull_request_row_says_what_was_answered(at: InRepo, p: GhPullRequest, out: PullRequestRecord)
    requires
        convert::is_pull_request_record(at.repo_id, p, out) || <GhPullRequest as IntoRecord<InRepo>>::becomes(p, at, out),
    ensures
        out.id == p.id,
        out.repo_id == at.repo_id,
        out.number == p.number,
        out.title == p.title,
        out.body == p.body,
        out.state == p.state,
        out.draft == (p.draft == Some(true)),
        out.merged == (p.merged_at is Some),
        out.head_sha == match p.head {
            Some(side) => side.sha,
            None => None,
        },
        out.base_sha == match p.base {
            Some(side) => side.sha,
            None => None,
        },
        out.lines_added == 0,
        out.lines_removed == 0,
        out.created_at == p.created_at,
        out.updated_at == p.updated_at,
        out.closed_at == p.closed_at,
        out.merged_at == p.merged_at,
        out.html_url == p.html_url,
        out.head_ref == match p.head {
            Some(side) => side.ref_name,
            None => None,
        },
        out.base_ref == match p.base {
            Some(side) => side.ref_name,
            None => None,
        },
{
}

/// A comment is kept as it was answered, field by field.
pub proof fn comment_row_says_what_was_answered(at: InRepo, c: GhComment, out: CommentRecord)
    requires
        convert::is_comment_record(at.repo_id, c, out) || <GhComment as IntoRecord<InRepo>>::becomes(c, at, out),
    ensures
        out.id == c.id,
        out.repo_id == at.repo_id,
        out.issue_number == convert::number_in_url(json::text_of(c.issue_url)),
        out.author_login == match c.user {
            Some(actor) => Some(actor.login),
            None => None,
        },
        out.body == c.body,
        out.created_at == c.created_at,
        out.updated_at == c.updated_at,
        out.html_url == c.html_url,
{
}

/// A review comment is kept as it was answered, field by field.
pub proof fn review_comment_row_says_what_was_answered(at: InRepo, c: GhReviewComment, out: ReviewCommentRecord)
    requires
        convert::is_review_comment_record(at.repo_id, c, out) || <GhReviewComment as IntoRecord<InRepo>>::becomes(c, at, out),
    ensures
        out.id == c.id,
        out.repo_id == at.repo_id,
        out.pull_number == convert::number_in_url(json::text_of(c.pull_request_url)),
        out.author_login == match c.user {
            Some(actor) => Some(actor.login),
            None => None,
        },
        out.body == c.body,
        out.path == c.path,
        out.diff_hunk == c.diff_hunk,
        out.in_reply_to_id == c.in_reply_to_id,
        out.commit_id == c.commit_id,
        out.created_at == c.created_at,
        out.updated_at == c.updated_at,
        out.html_url == c.html_url,
{
}

/// A label is kept as it was answered, field by field.
pub proof fn label_row_says_what_was_answered(at: InRepo, l: GhLabel, out: LabelRecord)
    requires
        convert::is_label_record(at.repo_id, l, out) || <GhLabel as IntoRecord<InRepo>>::becomes(l, at, out),
    ensures
        out.id == l.id,
        out.repo_id == at.repo_id,
        out.name == l.name,
        out.color == l.color,
        out.is_default == l.is_default,
        out.description == l.description,
{
}

/// A milestone is kept as it was answered, field by field.
pub proof fn milestone_row_says_what_was_answered(at: InRepo, m: GhMilestone, out: MilestoneRecord)
    requires
        convert::is_milestone_record(at.repo_id, m, out) || <GhMilestone as IntoRecord<InRepo>>::becomes(m, at, out),
    ensures
        out.id == m.id,
        out.repo_id == at.repo_id,
        out.number == m.number,
        out.title == m.title,
        out.state == m.state,
        out.description == m.description,
        out.open_issues == m.open_issues,
        out.closed_issues == m.closed_issues,
        out.due_on == m.due_on,
        out.created_at == m.created_at,
        out.updated_at == m.updated_at,
        out.closed_at == m.closed_at,
        out.html_url == m.html_url,
{
}

/// A release is kept as it was answered, field by field.
pub proof fn release_row_says_what_was_answered(at: InRepo, r: GhRelease, out: ReleaseRecord)
    requires
        convert::is_release_record(at.repo_id, r, out) || <GhRelease as IntoRecord<InRepo>>::becomes(r, at, out),
    ensures
        out.id == r.id,
        out.repo_id == at.repo_id,
        out.tag_name == r.tag_name,
        out.name == r.name,
        out.draft == r.draft,
        out.prerelease == r.prerelease,
        out.body == r.body,
        out.author_login == match r.author {
            Some(actor) => Some(actor.login),
            None => None,
        },
        out.created_at == r.created_at,
        out.published_at == r.published_at,
        out.html_url == r.html_url,
{
}

/// A branch is kept as it was answered, field by field.
pub proof fn branch_row_says_what_was_answered(at: InRepo, b: GhBranch, out: BranchRecord)
    requires
        convert::is_branch_record(at.repo_id, b, out) || <GhBranch as IntoRecord<InRepo>>::becomes(b, at, out),
    ensures
        out.repo_id == at.repo_id,
        out.name == b.name,
        out.commit_sha == b.commit.sha,
        out.protected == b.protected,
{
}

/// A contributor is kept as it was answered, field by field.
pub proof fn contributor_row_says_what_was_answered(at: InRepo, c: GhContributor, out: ContributorRecord)
    requires
        convert::is_contributor_record(at.repo_id, c, out) || <GhContributor as IntoRecord<InRepo>>::becomes(c, at, out),
    ensures
        out.repo_id == at.repo_id,
        out.user_id == c.id,
        out.login == c.login,
        out.contributions == c.contributions,
        out.user_type == c.user_type,
        out.avatar_url == c.avatar_url,
        out.html_url == c.html_url,
{
}

/// A workflow run is kept as it was answered, field by field.
pub proof fn workflow_run_row_says_what_was_answered(at: InRepo, w: GhWorkflowRun, out: WorkflowRunRecord)
    requires
        convert::is_workflow_run_record(at.repo_id, w, out) || <GhWorkflowRun as IntoRecord<InRepo>>::becomes(w, at, out),
    ensures
        out.id == w.id,
        out.repo_id == at.repo_id,
        out.workflow_id == w.workflow_id,
        out.run_number == w.run_number,
        out.run_attempt == match w.run_attempt {
            Some(attempt) => attempt,
            None => 1,
        },
        out.name == w.name,
        out.event == w.event,
        out.status == w.status,
        out.conclusion == w.conclusion,
        out.head_branch == w.head_branch,
        out.head_sha == w.head_sha,
        out.created_at == w.created_at,
        out.updated_at == w.updated_at,
        out.html_url == w.html_url,
        out.actor_login == match w.actor {
            Some(actor) => Some(actor.login),
            None => None,
        },
{
}

/// A file of a pull request is kept as it was answered, field by field.
pub proof fn pull_request_file_row_says_what_was_answered(at: InPull, f: GhPullFile, out: PullRequestFileRecord)
    requires
        convert::is_pull_request_file_record(at.repo_id, at.pull_number, f, out) || <GhPullFile as IntoRecord<InPull>>::becomes(f, at, out),
    ensures
        out.repo_id == at.repo_id,
        out.pull_number == at.pull_number,
        out.filename == f.filename,
        out.status == f.status,
        out.additions == f.additions,
        out.deletions == f.deletions,
        out.changes == f.changes,
        out.previous_filename == f.previous_filename,
        out.sha == f.sha,
{
}

/// A tag is kept as it was answered, field by field.
pub proof fn tag_row_says_what_was_answered(at: InRepo, t: GhTag, out: TagRecord)
    requires
        convert::is_tag_record(at.repo_id, t, out) || <GhTag as IntoRecord<InRepo>>::becomes(t, at, out),
    ensures
        out.repo_id == at.repo_id,
        out.name == t.name,
        out.commit_sha == t.commit.sha,
{
}

/// A file of a commit is kept as it was answered, field by field.
pub proof fn commit_file_row_says_what_was_answered(at: InCommit, f: GhPullFile, out: CommitFileRecord)
    requires
        convert::is_commit_file_record(at.repo_id, at.commit_sha@, f, out) || <GhPullFile as IntoRecord<InCommit>>::becomes(f, at, out),
    ensures
        out.repo_id == at.repo_id,
        out.commit_sha@ == at.commit_sha@,
        out.filename == f.filename,
        out.status == f.status,
        out.additions == f.additions,
        out.deletions == f.deletions,
        out.changes == f.changes,
        out.previous_filename == f.previous_filename,
        out.sha == f.sha,
{
}

/// A comment on a commit is kept as it was answered, field by field.
pub proof fn commit_comment_row_says_what_was_answered(at: InRepo, c: GhCommitComment, out: CommitCommentRecord)
    requires
        convert::is_commit_comment_record(at.repo_id, c, out) || <GhCommitComment as IntoRecord<InRepo>>::becomes(c, at, out),
    ensures
        out.id == c.id,
        out.repo_id == at.repo_id,
        out.commit_sha == c.commit_id,
        out.path == c.path,
        out.position == c.position,
        out.author_login == match c.user {
            Some(actor) => Some(actor.login),
            None => None,
        },
        out.body == c.body,
        out.created_at == c.created_at,
        out.updated_at == c.updated_at,
        out.html_url == c.html_url,
{
}

/// An event is kept as it was answered, field by field.
pub proof fn issue_event_row_says_what_was_answered(at: InRepo, e: GhIssueEvent, out: IssueEventRecord)
    requires
        convert::is_issue_event_record(at.repo_id, e, out) || <GhIssueEvent as IntoRecord<InRepo>>::becomes(e, at, out),
    ensures
        out.id == e.id,
        out.repo_id == at.repo_id,
        out.issue_number == match e.issue {
            Some(number) => number,
            None => 0,
        },
        out.event == e.event,
        out.actor_login == match e.actor {
            Some(actor) => Some(actor.login),
            None => None,
        },
        out.label_name == e.label,
        out.assignee_login == match e.assignee {
            Some(actor) => Some(actor.login),
            None => None,
        },
        out.milestone_title == e.milestone,
        out.commit_id == e.commit_id,
        out.created_at == e.created_at,
{
}

/// A deployment is kept as it was answered, field by field.
pub proof fn deployment_row_says_what_was_answered(at: InRepo, d: GhDeployment, out: DeploymentRecord)
    requires
        convert::is_deployment_record(at.repo_id, d, out) || <GhDeployment as IntoRecord<InRepo>>::becomes(d, at, out),
    ensures
        out.id == d.id,
        out.repo_id == at.repo_id,
        out.git_ref == d.git_ref,
        out.sha == d.sha,
        out.environment == d.environment,
        out.task == d.task,
        out.description == d.description,
        out.creator_login == match d.creator {
            Some(actor) => Some(actor.login),
            None => None,
        },
        out.created_at == d.created_at,
        out.updated_at == d.updated_at,
{
}

/// A commit of a pull request is kept as it was answered, field by field.
pub proof fn pull_request_commit_row_says_what_was_answered(at: InPull, c: GhCommit, out: PullRequestCommitRecord)
    requires
        convert::is_pull_request_commit_record(at.repo_id, at.pull_number, c, out) || <GhCommit as IntoRecord<InPull>>::becomes(c, at, out),
    ensures
        out.repo_id == at.repo_id,
        out.pull_number == at.pull_number,
        out.sha == c.sha,
        out.message == c.commit.message,
        out.author_login == match c.author {
            Some(actor) => Some(actor.login),
            None => None,
        },
        out.committer_login == match c.committer {
            Some(actor) => Some(actor.login),
            None => None,
        },
        out.authored_at == match c.commit.author {
            Some(person) => person.date,
            None => None,
        },
        out.committed_at == match c.commit.committer {
            Some(person) => person.date,
            None => None,
        },
{
}

/// A commit status is kept as it was answered, field by field.
pub proof fn commit_status_row_says_what_was_answered(at: InCommit, s: GhCommitStatus, out: CommitStatusRecord)
    requires
        convert::is_commit_status_record(at.repo_id, at.commit_sha@, s, out) || <GhCommitStatus as IntoRecord<InCommit>>::becomes(s, at, out),
    ensures
        out.id == s.id,
        out.repo_id == at.repo_id,
        out.commit_sha@ == at.commit_sha@,
        out.state == s.state,
        out.context == s.context,
        out.description == s.description,
        out.target_url == s.target_url,
        out.creator_login == match s.creator {
            Some(actor) => Some(actor.login),
            None => None,
        },
        out.created_at == s.created_at,
        out.updated_at == s.updated_at,
{
}

/// A reaction is kept as it was answered, field by field.
pub proof fn issue_reaction_row_says_what_was_answered(at: InIssue, r: GhIssueReaction, out: IssueReactionRecord)
    requires
        convert::is_issue_reaction_record(at.repo_id, at.issue_number, r, out) || <GhIssueReaction as IntoRecord<InIssue>>::becomes(r, at, out),
    ensures
        out.id == r.id,
        out.repo_id == at.repo_id,
        out.issue_number == at.issue_number,
        out.content == r.content,
        out.user_login == match r.user {
            Some(actor) => Some(actor.login),
            None => None,
        },
        out.created_at == r.created_at,
{
}

/// A check run is kept as it was answered, field by field.
pub proof fn check_run_row_says_what_was_answered(at: InRepo, c: GhCheckRun, out: CheckRunRecord)
    requires
        convert::is_check_run_record(at.repo_id, c, out) || <GhCheckRun as IntoRecord<InRepo>>::becomes(c, at, out),
    ensures
        out.id == c.id,
        out.repo_id == at.repo_id,
        out.head_sha == c.head_sha,
        out.name == c.name,
        out.status == c.status,
        out.conclusion == c.conclusion,
        out.started_at == c.started_at,
        out.completed_at == c.completed_at,
        out.html_url == c.html_url,
        out.details_url == c.details_url,
        out.check_suite_id == c.check_suite,
        out.app_slug == match c.app {
            Some(app) => app.slug,
            None => None,
        },
        out.app_name == match c.app {
            Some(app) => app.name,
            None => None,
        },
        out.output_title == match c.output {
            Some(output) => output.title,
            None => None,
        },
        out.output_summary == match c.output {
            Some(output) => output.summary,
            None => None,
        },
        out.annotations_count == match c.output {
            Some(output) => output.annotations_count,
            None => 0,
        },
{
}

/// A job is kept as it was answered, field by field.
pub proof fn workflow_job_row_says_what_was_answered(at: InRepo, j: GhWorkflowJob, out: WorkflowJobRecord)
    requires
        convert::is_workflow_job_record(at.repo_id, j, out) || <GhWorkflowJob as IntoRecord<InRepo>>::becomes(j, at, out),
    ensures
        out.id == j.id,
        out.repo_id == at.repo_id,
        out.run_id == j.run_id,
        out.run_attempt == match j.run_attempt {
            Some(attempt) => attempt,
            None => 1,
        },
        out.name == j.name,
        out.status == j.status,
        out.conclusion == j.conclusion,
        out.head_sha == j.head_sha,
        out.runner_name == j.runner_name,
        out.started_at == j.started_at,
        out.completed_at == j.completed_at,
        out.html_url == j.html_url,
        json::text_of(out.steps_json) == match j.steps {
            Some(value) => Some(json::json_compact(value)),
            None => None,
        },
{
}

/// A review is kept as it was answered, field by field.
pub proof fn review_row_says_what_was_answered(at: InPull, r: GhReview, out: ReviewRecord)
    requires
        convert::is_review_record(at.repo_id, at.pull_number, r, out) || <GhReview as IntoRecord<InPull>>::becomes(r, at, out),
    ensures
        out.id == r.id,
        out.repo_id == at.repo_id,
        out.pull_number == at.pull_number,
        out.author_login == match r.user {
            Some(actor) => Some(actor.login),
            None => None,
        },
        out.state == r.state,
        out.body == r.body,
        out.commit_id == r.commit_id,
        out.submitted_at == r.submitted_at,
        out.html_url == r.html_url,
{
}

/// A commit is kept as it was answered, field by field.
pub proof fn commit_row_says_what_was_answered(at: InRepo, c: GhCommit, out: CommitRecord)
    requires
        convert::is_commit_record(at.repo_id, c, out) || <GhCommit as IntoRecord<InRepo>>::becomes(c, at, out),
    ensures
        out.repo_id == at.repo_id,
        out.sha == c.sha,
        out.message == c.commit.message,
        out.author_login == match c.author {
            Some(actor) => Some(actor.login),
            None => None,
        },
        out.committer_login == match c.committer {
            Some(actor) => Some(actor.login),
            None => None,
        },
        out.authored_at == match c.commit.author {
            Some(person) => person.date,
            None => None,
        },
        out.committed_at == match c.commit.committer {
            Some(person) => person.date,
            None => None,
        },
        out.additions == 0,
        out.deletions == 0,
{
}

/// A URL that ends with a number names it; one that does not, or no URL at all,
/// names nothing, which is kept as 0.
pub proof fn number_of_a_url_is_its_end(stem: Seq<char>, number: i64, end: Seq<char>)
    ensures
        convert::number_in_url(Some(stem + "/"@ + decimal::integer_text(number as int))) == number,
        convert::number_in_url(None) == 0,
        !end.contains('/') && decimal::signed_value(end) is None ==> convert::number_in_url(
            Some(stem + "/"@ + end),
        ) == 0,
{
    reveal_strlit("/");
    assert("/"@ =~= seq!['/']);
    let digits = decimal::integer_text(number as int);
    convert::issue_number_reads_back(stem, number);
    assert(stem + "/"@ + digits =~= stem.push('/') + digits);
    if !end.contains('/') {
        text::after_last_slash_of_joined(stem, end);
        assert(stem + "/"@ + end =~= stem.push('/') + end);
    }
}

/// A review thread is kept with what its node says: its id, whether it is
/// resolved or outdated, where it stands, who resolved it, and how many comments
/// it has. What the node leaves out counts as no, or as none.
pub proof fn thread_row_says_what_its_node_says(
    repo_id: i64,
    pull_number: i64,
    node: Value,
    out: ReviewThreadRecord,
)
    requires
        convert::is_review_thread_record(repo_id, pull_number, node, out),
    ensures
        out.repo_id == repo_id,
        out.pull_number == pull_number,
        json::string_at(node, "id"@) == Some(out.id@),
        out.is_resolved <==> json::bool_at(node, "isResolved"@) == Some(true),
        out.is_outdated <==> json::bool_at(node, "isOutdated"@) == Some(true),
        json::text_of(out.path) == json::string_at(node, "path"@),
        out.line == json::integer_at(node, "line"@),
        json::text_of(out.resolved_by) == json::string_under(node, "resolvedBy"@, "login"@),
        out.comments_count == match json::integer_under(node, "comments"@, "totalCount"@) {
            Some(count) => count,
            None => 0,
        },
{
}

/// A thread is kept exactly when its node has a text for an id.
pub proof fn threads_are_kept_by_their_id(node: Value)
    ensures
        convert::has_thread_id(node) <==> json::string_at(node, "id"@) is Some,
{
}

/// What is read of a thread stands under these names.
pub proof fn thread_fields_stand_under_their_names(node: Value, fields: ThreadFields)
    requires
        convert::are_thread_fields(node, fields),
    ensures
        json::text_of(fields.id) == json::string_at(node, "id"@),
        fields.is_resolved == json::bool_at(node, "isResolved"@),
        fields.is_outdated == json::bool_at(node, "isOutdated"@),
        json::text_of(fields.path) == json::string_at(node, "path"@),
        fields.line == json::integer_at(node, "line"@),
        json::text_of(fields.resolved_by) == json::string_under(node, "resolvedBy"@, "login"@),
        fields.comments_count == json::integer_under(node, "comments"@, "totalCount"@),
{
}

/// An entry of a timeline is kept whole, with its place, its event, its time and
/// who did it lifted out: the actor, or the user where there is no actor. An
/// entry without an event is kept as unknown.
pub proof fn timeline_row_says_what_its_entry_says(
    repo_id: i64,
    issue_number: i64,
    position: nat,
    entry: Value,
    out: IssueTimelineEventRecord,
)
    requires
        convert::is_issue_timeline_record(repo_id, issue_number, position, entry, out),
    ensures
        out.repo_id == repo_id,
        out.issue_number == issue_number,
        position <= i64::MAX ==> out.position == position,
        position > i64::MAX ==> out.position == i64::MAX,
        json::string_at(entry, "event"@) is Some ==> out.event@ == json::string_at(
            entry,
            "event"@,
        )->0,
        json::string_at(entry, "event"@) is None ==> out.event@ == "unknown"@,
        json::text_of(out.created_at) == json::string_at(entry, "created_at"@),
        json::string_under(entry, "actor"@, "login"@) is Some ==> json::text_of(out.actor_login)
            == json::string_under(entry, "actor"@, "login"@),
        json::string_under(entry, "actor"@, "login"@) is None ==> json::text_of(out.actor_login)
            == json::string_under(entry, "user"@, "login"@),
        out.payload_json@ == json::json_compact(entry),
{
}

/// What is read of an entry of a timeline stands under these names.
pub proof fn timeline_fields_stand_under_their_names(entry: Value, fields: TimelineFields)
    requires
        convert::are_timeline_fields(entry, fields),
    ensures
        json::text_of(fields.event) == json::string_at(entry, "event"@),
        json::text_of(fields.created_at) == json::string_at(entry, "created_at"@),
        json::text_of(fields.actor) == json::string_under(entry, "actor"@, "login"@),
        json::text_of(fields.user) == json::string_under(entry, "user"@, "login"@),
        fields.payload_json@ == json::json_compact(entry),
{
}

/// A row of a timeline has the place, the event and the actor of what was read,
/// with the user standing in for an absent actor.
pub proof fn timeline_parts_are_told_apart(
    event: Option<Seq<char>>,
    actor: Option<Seq<char>>,
    user: Option<Seq<char>>,
    position: nat,
)
    ensures
        event is Some ==> convert::event_name(event) == event->0,
        event is None ==> convert::event_name(event) == "unknown"@,
        actor is Some ==> convert::first_login(actor, user) == actor,
        actor is None ==> convert::first_login(actor, user) == user,
        position <= i64::MAX ==> convert::clamped_position(position) == position,
        position > i64::MAX ==> convert::clamped_position(position) == i64::MAX,
{
}

/// A count that is not given is none.
pub proof fn absent_counts_are_zero(count: Option<i64>)
    ensures
        count is Some ==> convert::number_or_zero(count) == count->0,
        count is None ==> convert::number_or_zero(count) == 0,
{
}

/// A page becomes as many rows as it has items, each made from the item at its
/// place.
pub proof fn pages_become_rows_item_by_item<P, G: IntoRecord<P>>(
    page: Seq<G>,
    at: P,
    rows: Seq<G::Record>,
    i: int,
)
    requires
        convert::rows_of(page, at, rows),
    ensures
        rows.len() == page.len(),
        0 <= i < page.len() ==> page[i].becomes(at, rows[i]),
{
}

/// What a value says is found by its name: a text, a yes or no, or a number,
/// directly or one level down.
pub proof fn members_are_found_by_name(value: Value, outer: Seq<char>, key: Seq<char>)
    ensures
        json::json_object(value) is Some && json::json_object(value)->0.contains_key(key)
            ==> json::member_of(value, key) == Some(json::json_object(value)->0[key]),
        json::json_object(value) is None || !json::json_object(value)->0.contains_key(key)
            ==> json::member_of(value, key) is None,
        json::member_of(value, key) is Some ==> {
            let member = json::member_of(value, key)->0;
            &&& json::string_at(value, key) == json::json_string(member)
            &&& json::bool_at(value, key) == json::json_bool(member)
            &&& json::integer_at(value, key) == json::json_integer(member)
            &&& json::string_under(value, key, outer) == json::string_at(member, outer)
            &&& json::integer_under(value, key, outer) == json::integer_at(member, outer)
        },
        json::member_of(value, key) is None ==> {
            &&& json::string_at(value, key) is None
            &&& json::bool_at(value, key) is None
            &&& json::integer_at(value, key) is None
            &&& json::string_under(value, key, outer) is None
            &&& json::integer_under(value, key, outer) is None
        },
{
}

/// An optional text is told by its characters.
pub proof fn optional_text_is_its_characters(text: Option<String>)
    ensures
        text is Some ==> json::text_of(text) == Some(text->0@),
        text is None ==> json::text_of(text) is None,
{
}

} // verus!
