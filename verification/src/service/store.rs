//! A fetched repository written into the mirror: which rows, in which order,
//! and how many.

use crate::laws;
use crate::ports::FetchedRepository;
use crate::records::{
    BranchRecord, CheckRunRecord, CommentRecord, CommitCommentRecord, CommitFileRecord,
    CommitRecord, CommitStatusRecord, ContributorRecord, DeploymentRecord, IssueEventRecord,
    IssueReactionRecord, IssueRecord, IssueTimelineEventRecord, LabelRecord, MilestoneRecord,
    PullRequestCommitRecord, PullRequestFileRecord, PullRequestRecord, ReleaseRecord, RepoRecord,
    ReviewCommentRecord, ReviewRecord, ReviewThreadRecord, TagRecord, WorkflowJobRecord,
    WorkflowRunRecord,
};
use crate::summary;
use crate::summary::{count, RowCounts, SyncSummary};
use vstd::prelude::*;

verus! {

/// One row to be written into its table.
#[derive(Debug)]
pub enum MirrorWrite {
    Issue(IssueRecord),
    PullRequest(PullRequestRecord),
    Commit(CommitRecord),
    Comment(CommentRecord),
    ReviewComment(ReviewCommentRecord),
    Review(ReviewRecord),
    Label(LabelRecord),
    Milestone(MilestoneRecord),
    Release(ReleaseRecord),
    Branch(BranchRecord),
    Contributor(ContributorRecord),
    WorkflowRun(WorkflowRunRecord),
    PullRequestFile(PullRequestFileRecord),
    Tag(TagRecord),
    CommitFile(CommitFileRecord),
    ReviewThread(ReviewThreadRecord),
    CommitComment(CommitCommentRecord),
    IssueEvent(IssueEventRecord),
    Deployment(DeploymentRecord),
    PullRequestCommit(PullRequestCommitRecord),
    CommitStatus(CommitStatusRecord),
    WorkflowJob(WorkflowJobRecord),
    IssueReaction(IssueReactionRecord),
    CheckRun(CheckRunRecord),
    IssueTimeline(IssueTimelineEventRecord),
}

/// A row that has a table.
pub trait MirrorRow: Sized {
    spec fn write_of(self) -> MirrorWrite;

    fn into_write(self) -> (out: MirrorWrite)
        ensures
            out == self.write_of(),
    ;
}

impl MirrorRow for IssueRecord {
    open spec fn write_of(self) -> MirrorWrite {
        MirrorWrite::Issue(self)
    }

    fn into_write(self) -> (out: MirrorWrite) {
        MirrorWrite::Issue(self)
    }
}

impl MirrorRow for PullRequestRecord {
    open spec fn write_of(self) -> MirrorWrite {
        MirrorWrite::PullRequest(self)
    }

    fn into_write(self) -> (out: MirrorWrite) {
        MirrorWrite::PullRequest(self)
    }
}

impl MirrorRow for CommitRecord {
    open spec fn write_of(self) -> MirrorWrite {
        MirrorWrite::Commit(self)
    }

    fn into_write(self) -> (out: MirrorWrite) {
        MirrorWrite::Commit(self)
    }
}

impl MirrorRow for CommentRecord {
    open spec fn write_of(self) -> MirrorWrite {
        MirrorWrite::Comment(self)
    }

    fn into_write(self) -> (out: MirrorWrite) {
        MirrorWrite::Comment(self)
    }
}

impl MirrorRow for ReviewCommentRecord {
    open spec fn write_of(self) -> MirrorWrite {
        MirrorWrite::ReviewComment(self)
    }

    fn into_write(self) -> (out: MirrorWrite) {
        MirrorWrite::ReviewComment(self)
    }
}

impl MirrorRow for ReviewRecord {
    open spec fn write_of(self) -> MirrorWrite {
        MirrorWrite::Review(self)
    }

    fn into_write(self) -> (out: MirrorWrite) {
        MirrorWrite::Review(self)
    }
}

impl MirrorRow for LabelRecord {
    open spec fn write_of(self) -> MirrorWrite {
        MirrorWrite::Label(self)
    }

    fn into_write(self) -> (out: MirrorWrite) {
        MirrorWrite::Label(self)
    }
}

impl MirrorRow for MilestoneRecord {
    open spec fn write_of(self) -> MirrorWrite {
        MirrorWrite::Milestone(self)
    }

    fn into_write(self) -> (out: MirrorWrite) {
        MirrorWrite::Milestone(self)
    }
}

impl MirrorRow for ReleaseRecord {
    open spec fn write_of(self) -> MirrorWrite {
        MirrorWrite::Release(self)
    }

    fn into_write(self) -> (out: MirrorWrite) {
        MirrorWrite::Release(self)
    }
}

impl MirrorRow for BranchRecord {
    open spec fn write_of(self) -> MirrorWrite {
        MirrorWrite::Branch(self)
    }

    fn into_write(self) -> (out: MirrorWrite) {
        MirrorWrite::Branch(self)
    }
}

impl MirrorRow for ContributorRecord {
    open spec fn write_of(self) -> MirrorWrite {
        MirrorWrite::Contributor(self)
    }

    fn into_write(self) -> (out: MirrorWrite) {
        MirrorWrite::Contributor(self)
    }
}

impl MirrorRow for WorkflowRunRecord {
    open spec fn write_of(self) -> MirrorWrite {
        MirrorWrite::WorkflowRun(self)
    }

    fn into_write(self) -> (out: MirrorWrite) {
        MirrorWrite::WorkflowRun(self)
    }
}

impl MirrorRow for PullRequestFileRecord {
    open spec fn write_of(self) -> MirrorWrite {
        MirrorWrite::PullRequestFile(self)
    }

    fn into_write(self) -> (out: MirrorWrite) {
        MirrorWrite::PullRequestFile(self)
    }
}

impl MirrorRow for TagRecord {
    open spec fn write_of(self) -> MirrorWrite {
        MirrorWrite::Tag(self)
    }

    fn into_write(self) -> (out: MirrorWrite) {
        MirrorWrite::Tag(self)
    }
}

impl MirrorRow for CommitFileRecord {
    open spec fn write_of(self) -> MirrorWrite {
        MirrorWrite::CommitFile(self)
    }

    fn into_write(self) -> (out: MirrorWrite) {
        MirrorWrite::CommitFile(self)
    }
}

impl MirrorRow for ReviewThreadRecord {
    open spec fn write_of(self) -> MirrorWrite {
        MirrorWrite::ReviewThread(self)
    }

    fn into_write(self) -> (out: MirrorWrite) {
        MirrorWrite::ReviewThread(self)
    }
}

impl MirrorRow for CommitCommentRecord {
    open spec fn write_of(self) -> MirrorWrite {
        MirrorWrite::CommitComment(self)
    }

    fn into_write(self) -> (out: MirrorWrite) {
        MirrorWrite::CommitComment(self)
    }
}

impl MirrorRow for IssueEventRecord {
    open spec fn write_of(self) -> MirrorWrite {
        MirrorWrite::IssueEvent(self)
    }

    fn into_write(self) -> (out: MirrorWrite) {
        MirrorWrite::IssueEvent(self)
    }
}

impl MirrorRow for DeploymentRecord {
    open spec fn write_of(self) -> MirrorWrite {
        MirrorWrite::Deployment(self)
    }

    fn into_write(self) -> (out: MirrorWrite) {
        MirrorWrite::Deployment(self)
    }
}

impl MirrorRow for PullRequestCommitRecord {
    open spec fn write_of(self) -> MirrorWrite {
        MirrorWrite::PullRequestCommit(self)
    }

    fn into_write(self) -> (out: MirrorWrite) {
        MirrorWrite::PullRequestCommit(self)
    }
}

impl MirrorRow for CommitStatusRecord {
    open spec fn write_of(self) -> MirrorWrite {
        MirrorWrite::CommitStatus(self)
    }

    fn into_write(self) -> (out: MirrorWrite) {
        MirrorWrite::CommitStatus(self)
    }
}

impl MirrorRow for WorkflowJobRecord {
    open spec fn write_of(self) -> MirrorWrite {
        MirrorWrite::WorkflowJob(self)
    }

    fn into_write(self) -> (out: MirrorWrite) {
        MirrorWrite::WorkflowJob(self)
    }
}

impl MirrorRow for IssueReactionRecord {
    open spec fn write_of(self) -> MirrorWrite {
        MirrorWrite::IssueReaction(self)
    }

    fn into_write(self) -> (out: MirrorWrite) {
        MirrorWrite::IssueReaction(self)
    }
}

impl MirrorRow for CheckRunRecord {
    open spec fn write_of(self) -> MirrorWrite {
        MirrorWrite::CheckRun(self)
    }

    fn into_write(self) -> (out: MirrorWrite) {
        MirrorWrite::CheckRun(self)
    }
}

impl MirrorRow for IssueTimelineEventRecord {
    open spec fn write_of(self) -> MirrorWrite {
        MirrorWrite::IssueTimeline(self)
    }

    fn into_write(self) -> (out: MirrorWrite) {
        MirrorWrite::IssueTimeline(self)
    }
}

/// The writes of one table, row by row.
pub open spec fn table_writes<T: MirrorRow>(rows: Seq<T>) -> Seq<MirrorWrite> {
    rows.map_values(|row: T| row.write_of())
}

fn push_rows<T: MirrorRow>(writes: &mut Vec<MirrorWrite>, rows: Vec<T>)
    ensures
        final(writes)@ == old(writes)@ + table_writes(rows@),
{
    let ghost before = writes@;
    for row in it: rows
        invariant
            it.seq() == rows@,
            writes@ == before + table_writes(rows@).take(it.index() as int),
    {
        let ghost next = table_writes(rows@).take(it.index() + 1);
        writes.push(row.into_write());
        assert(writes@ =~= before + next);
    }
    assert(table_writes(rows@).take(rows@.len() as int) =~= table_writes(rows@));
}

/// Rows of issues, pull requests, commits, comments, review comments, table by table.
pub open spec fn talk_writes(fetched: FetchedRepository) -> Seq<MirrorWrite> {
    table_writes(fetched.issues@)
        + table_writes(fetched.pull_requests@)
        + table_writes(fetched.commits@)
        + table_writes(fetched.comments@)
        + table_writes(fetched.review_comments@)
}

/// Rows of reviews, labels, milestones, releases, branches, table by table.
pub open spec fn planning_writes(fetched: FetchedRepository) -> Seq<MirrorWrite> {
    table_writes(fetched.reviews@)
        + table_writes(fetched.labels@)
        + table_writes(fetched.milestones@)
        + table_writes(fetched.releases@)
        + table_writes(fetched.branches@)
}

/// Rows of contributors, workflow runs, pull request files, tags, commit files, table by table.
pub open spec fn changes_writes(fetched: FetchedRepository) -> Seq<MirrorWrite> {
    table_writes(fetched.contributors@)
        + table_writes(fetched.workflow_runs@)
        + table_writes(fetched.pull_request_files@)
        + table_writes(fetched.tags@)
        + table_writes(fetched.commit_files@)
}

/// Rows of review threads, commit comments, issue events, deployments, pull request commits, table by table.
pub open spec fn history_writes(fetched: FetchedRepository) -> Seq<MirrorWrite> {
    table_writes(fetched.review_threads@)
        + table_writes(fetched.commit_comments@)
        + table_writes(fetched.issue_events@)
        + table_writes(fetched.deployments@)
        + table_writes(fetched.pull_request_commits@)
}

/// Rows of commit statuses, workflow jobs, issue reactions, check runs, issue timeline, table by table.
pub open spec fn automation_writes(fetched: FetchedRepository) -> Seq<MirrorWrite> {
    table_writes(fetched.commit_statuses@)
        + table_writes(fetched.workflow_jobs@)
        + table_writes(fetched.issue_reactions@)
        + table_writes(fetched.check_runs@)
        + table_writes(fetched.issue_timeline@)
}

/// The rows of a fetched repository, table by table.
pub open spec fn writes_of(fetched: FetchedRepository) -> Seq<MirrorWrite> {
    talk_writes(fetched)
        + planning_writes(fetched)
        + changes_writes(fetched)
        + history_writes(fetched)
        + automation_writes(fetched)
}

/// How many rows each table gets.
pub open spec fn counts_of(fetched: FetchedRepository) -> RowCounts {
    RowCounts {
        issues: fetched.issues@.len() as u64,
        pull_requests: fetched.pull_requests@.len() as u64,
        commits: fetched.commits@.len() as u64,
        comments: fetched.comments@.len() as u64,
        review_comments: fetched.review_comments@.len() as u64,
        reviews: fetched.reviews@.len() as u64,
        labels: fetched.labels@.len() as u64,
        milestones: fetched.milestones@.len() as u64,
        releases: fetched.releases@.len() as u64,
        branches: fetched.branches@.len() as u64,
        contributors: fetched.contributors@.len() as u64,
        workflow_runs: fetched.workflow_runs@.len() as u64,
        pull_request_files: fetched.pull_request_files@.len() as u64,
        tags: fetched.tags@.len() as u64,
        commit_files: fetched.commit_files@.len() as u64,
        review_threads: fetched.review_threads@.len() as u64,
        commit_comments: fetched.commit_comments@.len() as u64,
        issue_events: fetched.issue_events@.len() as u64,
        deployments: fetched.deployments@.len() as u64,
        pull_request_commits: fetched.pull_request_commits@.len() as u64,
        commit_statuses: fetched.commit_statuses@.len() as u64,
        workflow_jobs: fetched.workflow_jobs@.len() as u64,
        issue_reactions: fetched.issue_reactions@.len() as u64,
        check_runs: fetched.check_runs@.len() as u64,
        issue_timeline: fetched.issue_timeline@.len() as u64,
    }
}

/// A sync ready to be written: the repository first, then its rows in order.
#[derive(Debug)]
pub struct StorePlan {
    pub repository: RepoRecord,
    pub writes: Vec<MirrorWrite>,
    pub counts: RowCounts,
}

/// What a fetched repository is to be written as.
pub fn plan_of(fetched: FetchedRepository) -> (out: StorePlan)
    ensures
        out.repository == fetched.repository,
        out.writes@ == writes_of(fetched),
        out.counts == counts_of(fetched),
        out.counts.issues == fetched.issues@.len(),
        forall|i: int|
            0 <= i < fetched.issues@.len() ==> out.writes@.contains(
                MirrorWrite::Issue(#[trigger] fetched.issues@[i]),
            ),
        out.counts.pull_requests == fetched.pull_requests@.len(),
        forall|i: int|
            0 <= i < fetched.pull_requests@.len() ==> out.writes@.contains(
                MirrorWrite::PullRequest(#[trigger] fetched.pull_requests@[i]),
            ),
        out.counts.commits == fetched.commits@.len(),
        forall|i: int|
            0 <= i < fetched.commits@.len() ==> out.writes@.contains(
                MirrorWrite::Commit(#[trigger] fetched.commits@[i]),
            ),
        out.counts.comments == fetched.comments@.len(),
        forall|i: int|
            0 <= i < fetched.comments@.len() ==> out.writes@.contains(
                MirrorWrite::Comment(#[trigger] fetched.comments@[i]),
            ),
        out.counts.review_comments == fetched.review_comments@.len(),
        forall|i: int|
            0 <= i < fetched.review_comments@.len() ==> out.writes@.contains(
                MirrorWrite::ReviewComment(#[trigger] fetched.review_comments@[i]),
            ),
        out.counts.reviews == fetched.reviews@.len(),
        forall|i: int|
            0 <= i < fetched.reviews@.len() ==> out.writes@.contains(
                MirrorWrite::Review(#[trigger] fetched.reviews@[i]),
            ),
        out.counts.labels == fetched.labels@.len(),
        forall|i: int|
            0 <= i < fetched.labels@.len() ==> out.writes@.contains(
                MirrorWrite::Label(#[trigger] fetched.labels@[i]),
            ),
        out.counts.milestones == fetched.milestones@.len(),
        forall|i: int|
            0 <= i < fetched.milestones@.len() ==> out.writes@.contains(
                MirrorWrite::Milestone(#[trigger] fetched.milestones@[i]),
            ),
        out.counts.releases == fetched.releases@.len(),
        forall|i: int|
            0 <= i < fetched.releases@.len() ==> out.writes@.contains(
                MirrorWrite::Release(#[trigger] fetched.releases@[i]),
            ),
        out.counts.branches == fetched.branches@.len(),
        forall|i: int|
            0 <= i < fetched.branches@.len() ==> out.writes@.contains(
                MirrorWrite::Branch(#[trigger] fetched.branches@[i]),
            ),
        out.counts.contributors == fetched.contributors@.len(),
        forall|i: int|
            0 <= i < fetched.contributors@.len() ==> out.writes@.contains(
                MirrorWrite::Contributor(#[trigger] fetched.contributors@[i]),
            ),
        out.counts.workflow_runs == fetched.workflow_runs@.len(),
        forall|i: int|
            0 <= i < fetched.workflow_runs@.len() ==> out.writes@.contains(
                MirrorWrite::WorkflowRun(#[trigger] fetched.workflow_runs@[i]),
            ),
        out.counts.pull_request_files == fetched.pull_request_files@.len(),
        forall|i: int|
            0 <= i < fetched.pull_request_files@.len() ==> out.writes@.contains(
                MirrorWrite::PullRequestFile(#[trigger] fetched.pull_request_files@[i]),
            ),
        out.counts.tags == fetched.tags@.len(),
        forall|i: int|
            0 <= i < fetched.tags@.len() ==> out.writes@.contains(
                MirrorWrite::Tag(#[trigger] fetched.tags@[i]),
            ),
        out.counts.commit_files == fetched.commit_files@.len(),
        forall|i: int|
            0 <= i < fetched.commit_files@.len() ==> out.writes@.contains(
                MirrorWrite::CommitFile(#[trigger] fetched.commit_files@[i]),
            ),
        out.counts.review_threads == fetched.review_threads@.len(),
        forall|i: int|
            0 <= i < fetched.review_threads@.len() ==> out.writes@.contains(
                MirrorWrite::ReviewThread(#[trigger] fetched.review_threads@[i]),
            ),
        out.counts.commit_comments == fetched.commit_comments@.len(),
        forall|i: int|
            0 <= i < fetched.commit_comments@.len() ==> out.writes@.contains(
                MirrorWrite::CommitComment(#[trigger] fetched.commit_comments@[i]),
            ),
        out.counts.issue_events == fetched.issue_events@.len(),
        forall|i: int|
            0 <= i < fetched.issue_events@.len() ==> out.writes@.contains(
                MirrorWrite::IssueEvent(#[trigger] fetched.issue_events@[i]),
            ),
        out.counts.deployments == fetched.deployments@.len(),
        forall|i: int|
            0 <= i < fetched.deployments@.len() ==> out.writes@.contains(
                MirrorWrite::Deployment(#[trigger] fetched.deployments@[i]),
            ),
        out.counts.pull_request_commits == fetched.pull_request_commits@.len(),
        forall|i: int|
            0 <= i < fetched.pull_request_commits@.len() ==> out.writes@.contains(
                MirrorWrite::PullRequestCommit(#[trigger] fetched.pull_request_commits@[i]),
            ),
        out.counts.commit_statuses == fetched.commit_statuses@.len(),
        forall|i: int|
            0 <= i < fetched.commit_statuses@.len() ==> out.writes@.contains(
                MirrorWrite::CommitStatus(#[trigger] fetched.commit_statuses@[i]),
            ),
        out.counts.workflow_jobs == fetched.workflow_jobs@.len(),
        forall|i: int|
            0 <= i < fetched.workflow_jobs@.len() ==> out.writes@.contains(
                MirrorWrite::WorkflowJob(#[trigger] fetched.workflow_jobs@[i]),
            ),
        out.counts.issue_reactions == fetched.issue_reactions@.len(),
        forall|i: int|
            0 <= i < fetched.issue_reactions@.len() ==> out.writes@.contains(
                MirrorWrite::IssueReaction(#[trigger] fetched.issue_reactions@[i]),
            ),
        out.counts.check_runs == fetched.check_runs@.len(),
        forall|i: int|
            0 <= i < fetched.check_runs@.len() ==> out.writes@.contains(
                MirrorWrite::CheckRun(#[trigger] fetched.check_runs@[i]),
            ),
        out.counts.issue_timeline == fetched.issue_timeline@.len(),
        forall|i: int|
            0 <= i < fetched.issue_timeline@.len() ==> out.writes@.contains(
                MirrorWrite::IssueTimeline(#[trigger] fetched.issue_timeline@[i]),
            ),
{
    let counts = RowCounts {
        issues: count(&fetched.issues),
        pull_requests: count(&fetched.pull_requests),
        commits: count(&fetched.commits),
        comments: count(&fetched.comments),
        review_comments: count(&fetched.review_comments),
        reviews: count(&fetched.reviews),
        labels: count(&fetched.labels),
        milestones: count(&fetched.milestones),
        releases: count(&fetched.releases),
        branches: count(&fetched.branches),
        contributors: count(&fetched.contributors),
        workflow_runs: count(&fetched.workflow_runs),
        pull_request_files: count(&fetched.pull_request_files),
        tags: count(&fetched.tags),
        commit_files: count(&fetched.commit_files),
        review_threads: count(&fetched.review_threads),
        commit_comments: count(&fetched.commit_comments),
        issue_events: count(&fetched.issue_events),
        deployments: count(&fetched.deployments),
        pull_request_commits: count(&fetched.pull_request_commits),
        commit_statuses: count(&fetched.commit_statuses),
        workflow_jobs: count(&fetched.workflow_jobs),
        issue_reactions: count(&fetched.issue_reactions),
        check_runs: count(&fetched.check_runs),
        issue_timeline: count(&fetched.issue_timeline),
    };
    let mut writes: Vec<MirrorWrite> = Vec::new();
    let ghost mut done = Seq::<MirrorWrite>::empty();
    push_rows(&mut writes, fetched.issues);
    push_rows(&mut writes, fetched.pull_requests);
    push_rows(&mut writes, fetched.commits);
    push_rows(&mut writes, fetched.comments);
    push_rows(&mut writes, fetched.review_comments);
    proof {
        done = done + talk_writes(fetched);
        assert(writes@ =~= done);
    }
    push_rows(&mut writes, fetched.reviews);
    push_rows(&mut writes, fetched.labels);
    push_rows(&mut writes, fetched.milestones);
    push_rows(&mut writes, fetched.releases);
    push_rows(&mut writes, fetched.branches);
    proof {
        done = done + planning_writes(fetched);
        assert(writes@ =~= done);
    }
    push_rows(&mut writes, fetched.contributors);
    push_rows(&mut writes, fetched.workflow_runs);
    push_rows(&mut writes, fetched.pull_request_files);
    push_rows(&mut writes, fetched.tags);
    push_rows(&mut writes, fetched.commit_files);
    proof {
        done = done + changes_writes(fetched);
        assert(writes@ =~= done);
    }
    push_rows(&mut writes, fetched.review_threads);
    push_rows(&mut writes, fetched.commit_comments);
    push_rows(&mut writes, fetched.issue_events);
    push_rows(&mut writes, fetched.deployments);
    push_rows(&mut writes, fetched.pull_request_commits);
    proof {
        done = done + history_writes(fetched);
        assert(writes@ =~= done);
    }
    push_rows(&mut writes, fetched.commit_statuses);
    push_rows(&mut writes, fetched.workflow_jobs);
    push_rows(&mut writes, fetched.issue_reactions);
    push_rows(&mut writes, fetched.check_runs);
    push_rows(&mut writes, fetched.issue_timeline);
    proof {
        done = done + automation_writes(fetched);
        assert(writes@ =~= done);
        assert(done =~= writes_of(fetched));
        laws::writes::every_fetched_row_is_written(fetched, writes@);
    }
    StorePlan { repository: fetched.repository, writes, counts }
}

/// What a sync reports once everything is written. `full_name` is the name the
/// repository was stored under.
pub fn report(full_name: String, counts: RowCounts) -> (out: SyncSummary)
    ensures
        out == summary::summary_of(full_name, counts),
{
    let mut out = SyncSummary::new(full_name);
    out.tally(counts);
    out
}

/// All rows of a summary together.
pub open spec fn rows_in(counts: RowCounts) -> int {
    counts.issues
        + counts.pull_requests
        + counts.commits
        + counts.comments
        + counts.review_comments
        + counts.reviews
        + counts.labels
        + counts.milestones
        + counts.releases
        + counts.branches
        + counts.contributors
        + counts.workflow_runs
        + counts.pull_request_files
        + counts.tags
        + counts.commit_files
        + counts.review_threads
        + counts.commit_comments
        + counts.issue_events
        + counts.deployments
        + counts.pull_request_commits
        + counts.commit_statuses
        + counts.workflow_jobs
        + counts.issue_reactions
        + counts.check_runs
        + counts.issue_timeline
}

/// A sync reports as many rows as it writes.
pub proof fn every_write_is_counted(fetched: FetchedRepository)
    requires
        writes_of(fetched).len() <= u64::MAX,
    ensures
        rows_in(counts_of(fetched)) == writes_of(fetched).len(),
{
    assert(talk_writes(fetched).len() + planning_writes(fetched).len() + changes_writes(
        fetched,
    ).len() + history_writes(fetched).len() + automation_writes(fetched).len() == writes_of(
        fetched,
    ).len());
}

/// Every row that was fetched is written, and a row is written only where one
/// was fetched: the writes of a table are its rows, one for one and in order.
pub proof fn table_is_written_row_by_row<T: MirrorRow>(rows: Seq<T>, i: int)
    requires
        0 <= i < rows.len(),
    ensures
        table_writes(rows).len() == rows.len(),
        table_writes(rows)[i] == rows[i].write_of(),
{
}

} // verus!
