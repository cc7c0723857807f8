//! What is looked up, listed and written, and how it is named and answered.

use crate::cache;
use crate::context::SecurityContext;
use crate::error;
use crate::error::{CanonicalError, CanonicalView, DomainError, ErrorView};
use crate::models;
use crate::records::{
    BranchRecord, CheckRunRecord, CommentRecord, CommitCommentRecord, CommitFileRecord,
    CommitRecord, CommitStatusRecord, ContributorRecord, DeploymentRecord, IssueEventRecord,
    IssueReactionRecord, IssueRecord, IssueTimelineEventRecord, LabelRecord, MilestoneRecord,
    PullRequestCommitRecord, PullRequestFileRecord, PullRequestRecord, ReleaseRecord, RepoRecord,
    RepoRow, ReviewCommentRecord, ReviewRecord, ReviewThreadRecord, TagRecord, WorkflowJobRecord,
    WorkflowRunRecord,
};
use crate::service::access::{Action, Resource};
use crate::service::queries;
use crate::service::queries::{GetPlan, ListPlan, ODataQuery, Selector, SelectorView, UpsertPlan};
use crate::text;
use vstd::prelude::*;
use vstd::string::*;

verus! {

// ---------------------------------------------------------------------------
// Plans
// ---------------------------------------------------------------------------

/// One repository, issue, pull request or commit is looked up under the owner,
/// then a slash, then the name: where the listings of the same repository look,
/// and where its rows are written.
pub proof fn one_row_is_looked_up_where_rows_are_listed<T>(
    ctx: SecurityContext,
    resource: Resource,
    owner: Seq<char>,
    name: Seq<char>,
    selector: SelectorView,
    query: ODataQuery,
    record: T,
    one: GetPlan,
    written: UpsertPlan<T>,
)
    requires
        queries::is_get_plan(ctx, resource, owner, name, selector, one),
        queries::is_upsert_plan(ctx, resource, owner, name, record, written),
    ensures
        one.full_name@ == owner + "/"@ + name,
        one.full_name@ == queries::list_plan(
            ctx,
            resource,
            owner,
            name,
            selector,
            query,
        ).full_name,
        one.full_name@ == written.full_name@,
        one.full_name@.take(owner.len() as int) == owner,
        one.full_name@[owner.len() as int] == '/',
        one.full_name@.skip(owner.len() as int + 1) == name,
{
    reveal_strlit("/");
    let full = owner + "/"@ + name;
    assert(full.take(owner.len() as int) =~= owner);
    assert(full.skip(owner.len() as int + 1) =~= name);
}

/// A look-up asks for leave to list, in the caller's tenant, and is about the
/// row it was asked for.
pub proof fn look_up_asks_for_leave_to_list(
    ctx: SecurityContext,
    resource: Resource,
    owner: Seq<char>,
    name: Seq<char>,
    selector: SelectorView,
    out: GetPlan,
)
    requires
        queries::is_get_plan(ctx, resource, owner, name, selector, out),
    ensures
        out.access.resource == resource,
        out.access.action == Action::List,
        out.access.owner_tenant_id == ctx.subject_tenant_id,
        out.selector@ == selector,
{
}

/// A listing asks for leave to list in the caller's tenant, and lists as many
/// rows as the query says, or fifty.
pub proof fn listing_shows_what_the_query_asks_for(
    ctx: SecurityContext,
    resource: Resource,
    owner: Seq<char>,
    name: Seq<char>,
    selector: SelectorView,
    limit: u64,
)
    ensures
        ({
            let plan = queries::list_plan(
                ctx,
                resource,
                owner,
                name,
                selector,
                ODataQuery { limit: Some(limit) },
            );
            &&& plan.access.resource == resource
            &&& plan.access.action == Action::List
            &&& plan.access.owner_tenant_id == ctx.subject_tenant_id
            &&& plan.full_name == owner + "/"@ + name
            &&& plan.selector == selector
            &&& plan.limit == limit
        }),
        queries::list_plan(
            ctx,
            resource,
            owner,
            name,
            selector,
            ODataQuery { limit: None },
        ).limit == 50,
        queries::limit_of(ODataQuery { limit: Some(limit) }) == limit,
        queries::limit_of(ODataQuery { limit: None }) == 50,
{
}

/// A write asks for leave to write in the caller's tenant, writes there, and
/// writes the row that it was given.
pub proof fn write_stays_in_the_callers_tenant<T>(
    ctx: SecurityContext,
    resource: Resource,
    owner: Seq<char>,
    name: Seq<char>,
    record: T,
    out: UpsertPlan<T>,
)
    requires
        queries::is_upsert_plan(ctx, resource, owner, name, record, out),
    ensures
        out.access.resource == resource,
        out.access.action == Action::Upsert,
        out.access.owner_tenant_id == ctx.subject_tenant_id,
        out.full_name@ == owner + "/"@ + name,
        out.tenant_id == ctx.subject_tenant_id,
        out.record == record,
{
}

/// Two repositories have the same full name only when they have the same owner
/// and the same name, for owners without a slash.
pub proof fn full_names_tell_repositories_apart(
    owner: Seq<char>,
    name: Seq<char>,
    other_owner: Seq<char>,
    other_name: Seq<char>,
)
    requires
        !owner.contains('/'),
        !other_owner.contains('/'),
        queries::full_name_of(owner, name) == queries::full_name_of(other_owner, other_name),
    ensures
        owner == other_owner,
        name == other_name,
{
    reveal_strlit("/");
    let one = owner + "/"@ + name;
    let other = other_owner + "/"@ + other_name;
    assert(one[owner.len() as int] == '/');
    assert(other[other_owner.len() as int] == '/');
    if other_owner.len() < owner.len() {
        assert(one[other_owner.len() as int] == owner[other_owner.len() as int]);
        assert(owner.contains('/'));
    }
    if owner.len() < other_owner.len() {
        assert(other[owner.len() as int] == other_owner[owner.len() as int]);
        assert(other_owner.contains('/'));
    }
    assert(one.take(owner.len() as int) =~= owner);
    assert(other.take(owner.len() as int) =~= other_owner);
    assert(one.skip(owner.len() as int + 1) =~= name);
    assert(other.skip(owner.len() as int + 1) =~= other_name);
}

/// A plan of a listing shows what it holds.
pub proof fn plan_shows_what_it_holds(plan: ListPlan)
    ensures
        plan@.access == plan.access,
        plan@.full_name == plan.full_name@,
        plan@.selector == plan.selector@,
        plan@.limit == plan.limit,
{
}

/// A selector shows the number, the id or the SHA that it holds.
pub proof fn selector_shows_what_it_selects(number: i64, sha: String)
    ensures
        Selector::WholeRepository@ == SelectorView::WholeRepository,
        Selector::OfIssue(number)@ == SelectorView::OfIssue(number),
        Selector::OfPull(number)@ == SelectorView::OfPull(number),
        Selector::OfCommit(sha)@ == SelectorView::OfCommit(sha@),
        Selector::OfRun(number)@ == SelectorView::OfRun(number),
{
}

/// An issue that moves to another repository keeps all but its repository.
pub proof fn moved_issue_changes_its_repository_alone(row: IssueRecord, repo_id: i64)
    ensures
        row.moved_to(repo_id).id == row.id,
        row.moved_to(repo_id).repo_id == repo_id,
        row.moved_to(repo_id).number == row.number,
        row.moved_to(repo_id).title == row.title,
        row.moved_to(repo_id).body == row.body,
        row.moved_to(repo_id).state == row.state,
        row.moved_to(repo_id).is_pull_request == row.is_pull_request,
        row.moved_to(repo_id).created_at == row.created_at,
        row.moved_to(repo_id).updated_at == row.updated_at,
        row.moved_to(repo_id).closed_at == row.closed_at,
        row.moved_to(repo_id).html_url == row.html_url,
        row.repo() == row.repo_id,
{
}

/// A pull request that moves to another repository keeps all but its repository.
pub proof fn moved_pull_request_changes_its_repository_alone(row: PullRequestRecord, repo_id: i64)
    ensures
        row.moved_to(repo_id).id == row.id,
        row.moved_to(repo_id).repo_id == repo_id,
        row.moved_to(repo_id).number == row.number,
        row.moved_to(repo_id).title == row.title,
        row.moved_to(repo_id).body == row.body,
        row.moved_to(repo_id).state == row.state,
        row.moved_to(repo_id).draft == row.draft,
        row.moved_to(repo_id).merged == row.merged,
        row.moved_to(repo_id).head_sha == row.head_sha,
        row.moved_to(repo_id).base_sha == row.base_sha,
        row.moved_to(repo_id).lines_added == row.lines_added,
        row.moved_to(repo_id).lines_removed == row.lines_removed,
        row.moved_to(repo_id).created_at == row.created_at,
        row.moved_to(repo_id).updated_at == row.updated_at,
        row.moved_to(repo_id).closed_at == row.closed_at,
        row.moved_to(repo_id).merged_at == row.merged_at,
        row.moved_to(repo_id).html_url == row.html_url,
        row.moved_to(repo_id).head_ref == row.head_ref,
        row.moved_to(repo_id).base_ref == row.base_ref,
        row.repo() == row.repo_id,
{
}

/// A commit that moves to another repository keeps all but its repository.
pub proof fn moved_commit_changes_its_repository_alone(row: CommitRecord, repo_id: i64)
    ensures
        row.moved_to(repo_id).repo_id == repo_id,
        row.moved_to(repo_id).sha == row.sha,
        row.moved_to(repo_id).message == row.message,
        row.moved_to(repo_id).author_login == row.author_login,
        row.moved_to(repo_id).committer_login == row.committer_login,
        row.moved_to(repo_id).authored_at == row.authored_at,
        row.moved_to(repo_id).committed_at == row.committed_at,
        row.moved_to(repo_id).additions == row.additions,
        row.moved_to(repo_id).deletions == row.deletions,
        row.repo() == row.repo_id,
{
}

/// A comment that moves to another repository keeps all but its repository.
pub proof fn moved_comment_changes_its_repository_alone(row: CommentRecord, repo_id: i64)
    ensures
        row.moved_to(repo_id).id == row.id,
        row.moved_to(repo_id).repo_id == repo_id,
        row.moved_to(repo_id).issue_number == row.issue_number,
        row.moved_to(repo_id).author_login == row.author_login,
        row.moved_to(repo_id).body == row.body,
        row.moved_to(repo_id).created_at == row.created_at,
        row.moved_to(repo_id).updated_at == row.updated_at,
        row.moved_to(repo_id).html_url == row.html_url,
        row.repo() == row.repo_id,
{
}

/// A review comment that moves to another repository keeps all but its repository.
pub proof fn moved_review_comment_changes_its_repository_alone(row: ReviewCommentRecord, repo_id: i64)
    ensures
        row.moved_to(repo_id).id == row.id,
        row.moved_to(repo_id).repo_id == repo_id,
        row.moved_to(repo_id).pull_number == row.pull_number,
        row.moved_to(repo_id).author_login == row.author_login,
        row.moved_to(repo_id).body == row.body,
        row.moved_to(repo_id).path == row.path,
        row.moved_to(repo_id).diff_hunk == row.diff_hunk,
        row.moved_to(repo_id).in_reply_to_id == row.in_reply_to_id,
        row.moved_to(repo_id).commit_id == row.commit_id,
        row.moved_to(repo_id).created_at == row.created_at,
        row.moved_to(repo_id).updated_at == row.updated_at,
        row.moved_to(repo_id).html_url == row.html_url,
        row.repo() == row.repo_id,
{
}

/// A review that moves to another repository keeps all but its repository.
pub proof fn moved_review_changes_its_repository_alone(row: ReviewRecord, repo_id: i64)
    ensures
        row.moved_to(repo_id).id == row.id,
        row.moved_to(repo_id).repo_id == repo_id,
        row.moved_to(repo_id).pull_number == row.pull_number,
        row.moved_to(repo_id).author_login == row.author_login,
        row.moved_to(repo_id).state == row.state,
        row.moved_to(repo_id).body == row.body,
        row.moved_to(repo_id).commit_id == row.commit_id,
        row.moved_to(repo_id).submitted_at == row.submitted_at,
        row.moved_to(repo_id).html_url == row.html_url,
        row.repo() == row.repo_id,
{
}

/// A label that moves to another repository keeps all but its repository.
pub proof fn moved_label_changes_its_repository_alone(row: LabelRecord, repo_id: i64)
    ensures
        row.moved_to(repo_id).id == row.id,
        row.moved_to(repo_id).repo_id == repo_id,
        row.moved_to(repo_id).name == row.name,
        row.moved_to(repo_id).color == row.color,
        row.moved_to(repo_id).is_default == row.is_default,
        row.moved_to(repo_id).description == row.description,
        row.repo() == row.repo_id,
{
}

/// A milestone that moves to another repository keeps all but its repository.
pub proof fn moved_milestone_changes_its_repository_alone(row: MilestoneRecord, repo_id: i64)
    ensures
        row.moved_to(repo_id).id == row.id,
        row.moved_to(repo_id).repo_id == repo_id,
        row.moved_to(repo_id).number == row.number,
        row.moved_to(repo_id).title == row.title,
        row.moved_to(repo_id).state == row.state,
        row.moved_to(repo_id).description == row.description,
        row.moved_to(repo_id).open_issues == row.open_issues,
        row.moved_to(repo_id).closed_issues == row.closed_issues,
        row.moved_to(repo_id).due_on == row.due_on,
        row.moved_to(repo_id).created_at == row.created_at,
        row.moved_to(repo_id).updated_at == row.updated_at,
        row.moved_to(repo_id).closed_at == row.closed_at,
        row.moved_to(repo_id).html_url == row.html_url,
        row.repo() == row.repo_id,
{
}

/// A release that moves to another repository keeps all but its repository.
pub proof fn moved_release_changes_its_repository_alone(row: ReleaseRecord, repo_id: i64)
    ensures
        row.moved_to(repo_id).id == row.id,
        row.moved_to(repo_id).repo_id == repo_id,
        row.moved_to(repo_id).tag_name == row.tag_name,
        row.moved_to(repo_id).name == row.name,
        row.moved_to(repo_id).draft == row.draft,
        row.moved_to(repo_id).prerelease == row.prerelease,
        row.moved_to(repo_id).body == row.body,
        row.moved_to(repo_id).author_login == row.author_login,
        row.moved_to(repo_id).created_at == row.created_at,
        row.moved_to(repo_id).published_at == row.published_at,
        row.moved_to(repo_id).html_url == row.html_url,
        row.repo() == row.repo_id,
{
}

/// A branch that moves to another repository keeps all but its repository.
pub proof fn moved_branch_changes_its_repository_alone(row: BranchRecord, repo_id: i64)
    ensures
        row.moved_to(repo_id).repo_id == repo_id,
        row.moved_to(repo_id).name == row.name,
        row.moved_to(repo_id).commit_sha == row.commit_sha,
        row.moved_to(repo_id).protected == row.protected,
        row.repo() == row.repo_id,
{
}

/// A contributor that moves to another repository keeps all but its repository.
pub proof fn moved_contributor_changes_its_repository_alone(row: ContributorRecord, repo_id: i64)
    ensures
        row.moved_to(repo_id).repo_id == repo_id,
        row.moved_to(repo_id).user_id == row.user_id,
        row.moved_to(repo_id).login == row.login,
        row.moved_to(repo_id).contributions == row.contributions,
        row.moved_to(repo_id).user_type == row.user_type,
        row.moved_to(repo_id).avatar_url == row.avatar_url,
        row.moved_to(repo_id).html_url == row.html_url,
        row.repo() == row.repo_id,
{
}

/// A workflow run that moves to another repository keeps all but its repository.
pub proof fn moved_workflow_run_changes_its_repository_alone(row: WorkflowRunRecord, repo_id: i64)
    ensures
        row.moved_to(repo_id).id == row.id,
        row.moved_to(repo_id).repo_id == repo_id,
        row.moved_to(repo_id).workflow_id == row.workflow_id,
        row.moved_to(repo_id).run_number == row.run_number,
        row.moved_to(repo_id).run_attempt == row.run_attempt,
        row.moved_to(repo_id).name == row.name,
        row.moved_to(repo_id).event == row.event,
        row.moved_to(repo_id).status == row.status,
        row.moved_to(repo_id).conclusion == row.conclusion,
        row.moved_to(repo_id).head_branch == row.head_branch,
        row.moved_to(repo_id).head_sha == row.head_sha,
        row.moved_to(repo_id).created_at == row.created_at,
        row.moved_to(repo_id).updated_at == row.updated_at,
        row.moved_to(repo_id).html_url == row.html_url,
        row.moved_to(repo_id).actor_login == row.actor_login,
        row.repo() == row.repo_id,
{
}

/// A pull request file that moves to another repository keeps all but its repository.
pub proof fn moved_pull_request_file_changes_its_repository_alone(row: PullRequestFileRecord, repo_id: i64)
    ensures
        row.moved_to(repo_id).repo_id == repo_id,
        row.moved_to(repo_id).pull_number == row.pull_number,
        row.moved_to(repo_id).filename == row.filename,
        row.moved_to(repo_id).status == row.status,
        row.moved_to(repo_id).additions == row.additions,
        row.moved_to(repo_id).deletions == row.deletions,
        row.moved_to(repo_id).changes == row.changes,
        row.moved_to(repo_id).previous_filename == row.previous_filename,
        row.moved_to(repo_id).sha == row.sha,
        row.repo() == row.repo_id,
{
}

/// A tag that moves to another repository keeps all but its repository.
pub proof fn moved_tag_changes_its_repository_alone(row: TagRecord, repo_id: i64)
    ensures
        row.moved_to(repo_id).repo_id == repo_id,
        row.moved_to(repo_id).name == row.name,
        row.moved_to(repo_id).commit_sha == row.commit_sha,
        row.repo() == row.repo_id,
{
}

/// A commit file that moves to another repository keeps all but its repository.
pub proof fn moved_commit_file_changes_its_repository_alone(row: CommitFileRecord, repo_id: i64)
    ensures
        row.moved_to(repo_id).repo_id == repo_id,
        row.moved_to(repo_id).commit_sha == row.commit_sha,
        row.moved_to(repo_id).filename == row.filename,
        row.moved_to(repo_id).status == row.status,
        row.moved_to(repo_id).additions == row.additions,
        row.moved_to(repo_id).deletions == row.deletions,
        row.moved_to(repo_id).changes == row.changes,
        row.moved_to(repo_id).previous_filename == row.previous_filename,
        row.moved_to(repo_id).sha == row.sha,
        row.repo() == row.repo_id,
{
}

/// A review thread that moves to another repository keeps all but its repository.
pub proof fn moved_review_thread_changes_its_repository_alone(row: ReviewThreadRecord, repo_id: i64)
    ensures
        row.moved_to(repo_id).id == row.id,
        row.moved_to(repo_id).repo_id == repo_id,
        row.moved_to(repo_id).pull_number == row.pull_number,
        row.moved_to(repo_id).is_resolved == row.is_resolved,
        row.moved_to(repo_id).is_outdated == row.is_outdated,
        row.moved_to(repo_id).path == row.path,
        row.moved_to(repo_id).line == row.line,
        row.moved_to(repo_id).resolved_by == row.resolved_by,
        row.moved_to(repo_id).comments_count == row.comments_count,
        row.repo() == row.repo_id,
{
}

/// A commit comment that moves to another repository keeps all but its repository.
pub proof fn moved_commit_comment_changes_its_repository_alone(row: CommitCommentRecord, repo_id: i64)
    ensures
        row.moved_to(repo_id).id == row.id,
        row.moved_to(repo_id).repo_id == repo_id,
        row.moved_to(repo_id).commit_sha == row.commit_sha,
        row.moved_to(repo_id).path == row.path,
        row.moved_to(repo_id).position == row.position,
        row.moved_to(repo_id).author_login == row.author_login,
        row.moved_to(repo_id).body == row.body,
        row.moved_to(repo_id).created_at == row.created_at,
        row.moved_to(repo_id).updated_at == row.updated_at,
        row.moved_to(repo_id).html_url == row.html_url,
        row.repo() == row.repo_id,
{
}

/// An issue event that moves to another repository keeps all but its repository.
pub proof fn moved_issue_event_changes_its_repository_alone(row: IssueEventRecord, repo_id: i64)
    ensures
        row.moved_to(repo_id).id == row.id,
        row.moved_to(repo_id).repo_id == repo_id,
        row.moved_to(repo_id).issue_number == row.issue_number,
        row.moved_to(repo_id).event == row.event,
        row.moved_to(repo_id).actor_login == row.actor_login,
        row.moved_to(repo_id).label_name == row.label_name,
        row.moved_to(repo_id).assignee_login == row.assignee_login,
        row.moved_to(repo_id).milestone_title == row.milestone_title,
        row.moved_to(repo_id).commit_id == row.commit_id,
        row.moved_to(repo_id).created_at == row.created_at,
        row.repo() == row.repo_id,
{
}

/// A deployment that moves to another repository keeps all but its repository.
pub proof fn moved_deployment_changes_its_repository_alone(row: DeploymentRecord, repo_id: i64)
    ensures
        row.moved_to(repo_id).id == row.id,
        row.moved_to(repo_id).repo_id == repo_id,
        row.moved_to(repo_id).git_ref == row.git_ref,
        row.moved_to(repo_id).sha == row.sha,
        row.moved_to(repo_id).environment == row.environment,
        row.moved_to(repo_id).task == row.task,
        row.moved_to(repo_id).description == row.description,
        row.moved_to(repo_id).creator_login == row.creator_login,
        row.moved_to(repo_id).created_at == row.created_at,
        row.moved_to(repo_id).updated_at == row.updated_at,
        row.repo() == row.repo_id,
{
}

/// A pull request commit that moves to another repository keeps all but its repository.
pub proof fn moved_pull_request_commit_changes_its_repository_alone(row: PullRequestCommitRecord, repo_id: i64)
    ensures
        row.moved_to(repo_id).repo_id == repo_id,
        row.moved_to(repo_id).pull_number == row.pull_number,
        row.moved_to(repo_id).sha == row.sha,
        row.moved_to(repo_id).message == row.message,
        row.moved_to(repo_id).author_login == row.author_login,
        row.moved_to(repo_id).committer_login == row.committer_login,
        row.moved_to(repo_id).authored_at == row.authored_at,
        row.moved_to(repo_id).committed_at == row.committed_at,
        row.repo() == row.repo_id,
{
}

/// A commit status that moves to another repository keeps all but its repository.
pub proof fn moved_commit_status_changes_its_repository_alone(row: CommitStatusRecord, repo_id: i64)
    ensures
        row.moved_to(repo_id).id == row.id,
        row.moved_to(repo_id).repo_id == repo_id,
        row.moved_to(repo_id).commit_sha == row.commit_sha,
        row.moved_to(repo_id).state == row.state,
        row.moved_to(repo_id).context == row.context,
        row.moved_to(repo_id).description == row.description,
        row.moved_to(repo_id).target_url == row.target_url,
        row.moved_to(repo_id).creator_login == row.creator_login,
        row.moved_to(repo_id).created_at == row.created_at,
        row.moved_to(repo_id).updated_at == row.updated_at,
        row.repo() == row.repo_id,
{
}

/// A workflow job that moves to another repository keeps all but its repository.
pub proof fn moved_workflow_job_changes_its_repository_alone(row: WorkflowJobRecord, repo_id: i64)
    ensures
        row.moved_to(repo_id).id == row.id,
        row.moved_to(repo_id).repo_id == repo_id,
        row.moved_to(repo_id).run_id == row.run_id,
        row.moved_to(repo_id).run_attempt == row.run_attempt,
        row.moved_to(repo_id).name == row.name,
        row.moved_to(repo_id).status == row.status,
        row.moved_to(repo_id).conclusion == row.conclusion,
        row.moved_to(repo_id).head_sha == row.head_sha,
        row.moved_to(repo_id).runner_name == row.runner_name,
        row.moved_to(repo_id).started_at == row.started_at,
        row.moved_to(repo_id).completed_at == row.completed_at,
        row.moved_to(repo_id).html_url == row.html_url,
        row.moved_to(repo_id).steps_json == row.steps_json,
        row.repo() == row.repo_id,
{
}

/// An issue reaction that moves to another repository keeps all but its repository.
pub proof fn moved_issue_reaction_changes_its_repository_alone(row: IssueReactionRecord, repo_id: i64)
    ensures
        row.moved_to(repo_id).id == row.id,
        row.moved_to(repo_id).repo_id == repo_id,
        row.moved_to(repo_id).issue_number == row.issue_number,
        row.moved_to(repo_id).content == row.content,
        row.moved_to(repo_id).user_login == row.user_login,
        row.moved_to(repo_id).created_at == row.created_at,
        row.repo() == row.repo_id,
{
}

/// A check run that moves to another repository keeps all but its repository.
pub proof fn moved_check_run_changes_its_repository_alone(row: CheckRunRecord, repo_id: i64)
    ensures
        row.moved_to(repo_id).id == row.id,
        row.moved_to(repo_id).repo_id == repo_id,
        row.moved_to(repo_id).head_sha == row.head_sha,
        row.moved_to(repo_id).name == row.name,
        row.moved_to(repo_id).status == row.status,
        row.moved_to(repo_id).conclusion == row.conclusion,
        row.moved_to(repo_id).started_at == row.started_at,
        row.moved_to(repo_id).completed_at == row.completed_at,
        row.moved_to(repo_id).html_url == row.html_url,
        row.moved_to(repo_id).details_url == row.details_url,
        row.moved_to(repo_id).check_suite_id == row.check_suite_id,
        row.moved_to(repo_id).app_slug == row.app_slug,
        row.moved_to(repo_id).app_name == row.app_name,
        row.moved_to(repo_id).output_title == row.output_title,
        row.moved_to(repo_id).output_summary == row.output_summary,
        row.moved_to(repo_id).annotations_count == row.annotations_count,
        row.repo() == row.repo_id,
{
}

/// An issue timeline event that moves to another repository keeps all but its repository.
pub proof fn moved_issue_timeline_event_changes_its_repository_alone(row: IssueTimelineEventRecord, repo_id: i64)
    ensures
        row.moved_to(repo_id).repo_id == repo_id,
        row.moved_to(repo_id).issue_number == row.issue_number,
        row.moved_to(repo_id).position == row.position,
        row.moved_to(repo_id).event == row.event,
        row.moved_to(repo_id).created_at == row.created_at,
        row.moved_to(repo_id).actor_login == row.actor_login,
        row.moved_to(repo_id).payload_json == row.payload_json,
        row.repo() == row.repo_id,
{
}

// ---------------------------------------------------------------------------
// Names
// ---------------------------------------------------------------------------

/// The policy knows each resource type by this name.
pub proof fn resources_are_named_for_the_policy()
    ensures
        Resource::Repo.spec_name() == "github_mirror.repo"@,
        Resource::Issue.spec_name() == "github_mirror.issue"@,
        Resource::PullRequest.spec_name() == "github_mirror.pull_request"@,
        Resource::Commit.spec_name() == "github_mirror.commit"@,
        Resource::Comment.spec_name() == "github_mirror.comment"@,
        Resource::ReviewComment.spec_name() == "github_mirror.review_comment"@,
        Resource::Review.spec_name() == "github_mirror.review"@,
        Resource::Label.spec_name() == "github_mirror.label"@,
        Resource::Milestone.spec_name() == "github_mirror.milestone"@,
        Resource::Release.spec_name() == "github_mirror.release"@,
        Resource::Branch.spec_name() == "github_mirror.branch"@,
        Resource::Contributor.spec_name() == "github_mirror.contributor"@,
        Resource::WorkflowRun.spec_name() == "github_mirror.workflow_run"@,
        Resource::PullRequestFile.spec_name() == "github_mirror.pull_request_file"@,
        Resource::Tag.spec_name() == "github_mirror.tag"@,
        Resource::CommitFile.spec_name() == "github_mirror.commit_file"@,
        Resource::ReviewThread.spec_name() == "github_mirror.review_thread"@,
        Resource::CommitComment.spec_name() == "github_mirror.commit_comment"@,
        Resource::IssueEvent.spec_name() == "github_mirror.issue_event"@,
        Resource::Deployment.spec_name() == "github_mirror.deployment"@,
        Resource::PullRequestCommit.spec_name() == "github_mirror.pull_request_commit"@,
        Resource::CommitStatus.spec_name() == "github_mirror.commit_status"@,
        Resource::WorkflowJob.spec_name() == "github_mirror.workflow_job"@,
        Resource::IssueReaction.spec_name() == "github_mirror.issue_reaction"@,
        Resource::CheckRun.spec_name() == "github_mirror.check_run"@,
        Resource::IssueTimeline.spec_name() == "github_mirror.issue_timeline"@,
        Resource::RepoSyncStatus.spec_name() == "github_mirror.repo_sync_status"@,
        Resource::SyncSession.spec_name() == "github_mirror.sync_session"@,
        Resource::Sync.spec_name() == "github_mirror.sync"@,
{
}

/// The policy knows each action by this name, and the gear has this one.
pub proof fn actions_are_named_for_the_policy()
    ensures
        Action::List.spec_name() == "list"@,
        Action::Upsert.spec_name() == "upsert"@,
        Action::Sync.spec_name() == "sync"@,
        Action::Get.spec_name() == "get"@,
        queries::GEAR_NAME@ == "github-mirror"@,
{
}

/// A repository is cloned from where it says, or from its page.
pub proof fn repository_is_cloned_from_where_it_says(record: RepoRecord)
    ensures
        record.clone_url is Some ==> models::served_clone_url(record) == record.clone_url->0@,
        record.clone_url is None ==> models::served_clone_url(record) == "https://github.com/"@
            + record.full_name@ + ".git"@,
{
}

// ---------------------------------------------------------------------------
// Errors
// ---------------------------------------------------------------------------

/// An error shows the words it holds.
pub proof fn errors_show_their_words(field: String, message: String)
    ensures
        DomainError::NotFound@ == ErrorView::NotFound,
        (DomainError::Validation { field, message })@ == (ErrorView::Validation {
            field: field@,
            message: message@,
        }),
        DomainError::Forbidden(message)@ == ErrorView::Forbidden(message@),
        DomainError::Internal(message)@ == ErrorView::Internal(message@),
        DomainError::Database(message)@ == ErrorView::Database(message@),
{
}

/// An answer shows the words it holds.
pub proof fn answers_show_their_words(one: String, other: String, third: String)
    ensures
        (CanonicalError::NotFound { detail: one, resource: other })@ == (CanonicalView::NotFound {
            detail: one@,
            resource: other@,
        }),
        (CanonicalError::InvalidArgument { field: one, description: other, reason: third })@ == (
        CanonicalView::InvalidArgument { field: one@, description: other@, reason: third@ }),
        (CanonicalError::Internal { detail: one })@ == (CanonicalView::Internal { detail: one@ }),
{
}

/// The words an error is recorded in: its message, with the field in front of a
/// refused value.
pub proof fn errors_are_recorded_in_their_words(field: Seq<char>, message: Seq<char>)
    ensures
        error::error_text(ErrorView::NotFound) == "not found"@,
        error::error_text(ErrorView::Validation { field, message }) == field + ": "@ + message,
        error::error_text(ErrorView::Forbidden(message)) == message,
        error::error_text(ErrorView::Internal(message)) == message,
        error::error_text(ErrorView::Database(message)) == message,
{
}

/// Only a locked database is worth another attempt.
pub proof fn only_a_locked_database_is_tried_again(
    field: Seq<char>,
    before: Seq<char>,
    message: Seq<char>,
    after: Seq<char>,
)
    ensures
        error::transient(ErrorView::Database(before + "database is locked"@ + after)),
        !text::contains_text(message, "database is locked"@) ==> !error::transient(
            ErrorView::Database(message),
        ),
        !error::transient(ErrorView::NotFound),
        !error::transient(ErrorView::Validation { field, message }),
        !error::transient(ErrorView::Forbidden(message)),
        !error::transient(ErrorView::Internal(message)),
{
    let needle = "database is locked"@;
    let whole = before + needle + after;
    let at = before.len() as int;
    assert(whole.subrange(at, at + needle.len()) =~= needle);
    assert(text::occurs_at(whole, needle, at));
}

/// What is absent and what is denied are both answered as not found, each in its
/// own words; a refused value as a bad argument; the rest as internal.
pub proof fn errors_are_answered_in_these_words(field: Seq<char>, message: Seq<char>)
    ensures
        error::answer_to(ErrorView::NotFound) == (CanonicalView::NotFound {
            detail: "Repo not found"@,
            resource: "repository"@,
        }),
        error::answer_to(ErrorView::Forbidden(message)) == (CanonicalView::NotFound {
            detail: "Repo not found or not accessible"@,
            resource: "repository"@,
        }),
        error::answer_to(ErrorView::Validation { field, message }) == (
        CanonicalView::InvalidArgument {
            field,
            description: message,
            reason: "VALIDATION_ERROR"@,
        }),
        error::answer_to(ErrorView::Internal(message)) == (CanonicalView::Internal {
            detail: message,
        }),
        error::answer_to(ErrorView::Database(message)) == (CanonicalView::Internal {
            detail: message,
        }),
{
}

// ---------------------------------------------------------------------------
// Cache
// ---------------------------------------------------------------------------

/// A URL is under a prefix when it is the prefix, or goes on from it with a
/// slash or a question mark.
pub proof fn prefix_covers_itself_and_what_is_below(prefix: Seq<char>, c: char, rest: Seq<char>)
    ensures
        cache::is_under(prefix, prefix),
        cache::is_under(prefix + "/"@ + rest, prefix),
        cache::is_under(prefix + "?"@ + rest, prefix),
        c != '/' && c != '?' ==> !cache::is_under(prefix.push(c) + rest, prefix),
        prefix.len() > 0 ==> !cache::is_under(prefix.drop_last(), prefix),
{
    reveal_strlit("/");
    reveal_strlit("?");
    assert(prefix.take(prefix.len() as int) =~= prefix);
    assert(prefix.is_prefix_of(prefix));
    assert((prefix + "/"@ + rest).take(prefix.len() as int) =~= prefix);
    assert((prefix + "?"@ + rest).take(prefix.len() as int) =~= prefix);
    assert((prefix + "/"@ + rest)[prefix.len() as int] == '/');
    assert((prefix + "?"@ + rest)[prefix.len() as int] == '?');
    assert((prefix.push(c) + rest)[prefix.len() as int] == c);
    assert(prefix.is_prefix_of(prefix + "/"@ + rest));
    assert(prefix.is_prefix_of(prefix + "?"@ + rest));
}

/// A URL that does not begin with a prefix is not under it.
pub proof fn prefix_covers_nothing_beside_it(url: Seq<char>, prefix: Seq<char>)
    requires
        cache::is_under(url, prefix),
    ensures
        prefix.len() <= url.len(),
        forall|i: int| 0 <= i < prefix.len() ==> url[i] == #[trigger] prefix[i],
{
    assert forall|i: int| 0 <= i < prefix.len() implies url[i] == #[trigger] prefix[i] by {
        assert(url.subrange(0, prefix.len() as int)[i] == prefix[i]);
    }
}

/// A clearing drops what is under any of its prefixes, and nothing else.
pub proof fn clearing_goes_by_each_prefix(url: Seq<char>, prefixes: Seq<String>, one: String)
    ensures
        !cache::is_cleared(url, Seq::empty()),
        cache::is_cleared(url, prefixes.push(one)) <==> cache::is_cleared(url, prefixes)
            || cache::is_under(url, one@),
{
    let all = prefixes.push(one);
    if cache::is_cleared(url, prefixes) {
        let i = choose|i: int|
            0 <= i < prefixes.len() && cache::is_under(url, (#[trigger] prefixes[i])@);
        assert(all[i] == prefixes[i]);
    }
    if cache::is_under(url, one@) {
        assert(all[prefixes.len() as int] == one);
    }
    if cache::is_cleared(url, all) {
        let i = choose|i: int| 0 <= i < all.len() && cache::is_under(url, (#[trigger] all[i])@);
        if i < prefixes.len() {
            assert(prefixes[i] == all[i]);
        }
    }
}

/// The repositories of an owner stand below `/repos/`, the owner and a slash.
pub proof fn repositories_stand_below_their_owner(base: Seq<char>, owner: Seq<char>)
    requires
        base.len() == 0 || base.last() != '/',
    ensures
        cache::owner_stem(base, owner) == base + "/repos/"@ + owner + "/"@,
        cache::owner_stem(base + "/"@, owner) == base + "/repos/"@ + owner + "/"@,
{
    reveal_strlit("/");
    assert((base + "/"@).drop_last() =~= base);
    assert((base + "/"@).last() == '/');
    assert(text::without_trailing_slashes(base + "/"@) == text::without_trailing_slashes(base));
    assert(cache::owner_stem(base, owner) =~= base + "/repos/"@ + owner + "/"@);
}

} // verus!
