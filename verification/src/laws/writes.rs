//! What a sync writes and counts, told table by table from the rows themselves.

use crate::ports::{
    ActionsListing, CommitDetail, CommitListing, FetchedRepository, IssueDetail, IssueListing,
    MetadataListing, PullDetail, PullListing,
};
use crate::records::WorkflowJobRecord;
use crate::scheduler::worker;
use crate::service::store;
use crate::service::store::MirrorWrite;
use crate::summary;
use crate::summary::{RowCounts, SyncSummary};
use vstd::prelude::*;

verus! {

proof fn lemma_five_parts<T>(a: Seq<T>, b: Seq<T>, c: Seq<T>, d: Seq<T>, e: Seq<T>, k: int)
    ensures
        (a + b + c + d + e).len() == a.len() + b.len() + c.len() + d.len() + e.len(),
        0 <= k < a.len() ==> (a + b + c + d + e)[k] == a[k],
        0 <= k < b.len() ==> (a + b + c + d + e)[a.len() + k] == b[k],
        0 <= k < c.len() ==> (a + b + c + d + e)[a.len() + b.len() + k] == c[k],
        0 <= k < d.len() ==> (a + b + c + d + e)[a.len() + b.len() + c.len() + k] == d[k],
        0 <= k < e.len() ==> (a + b + c + d + e)[a.len() + b.len() + c.len() + d.len() + k] == e[k],
{
}

proof fn lemma_parts(fetched: FetchedRepository, k: int)
    ensures
        ({
            let all = store::writes_of(fetched);
            let talk = store::talk_writes(fetched);
            let planning = store::planning_writes(fetched);
            let changes = store::changes_writes(fetched);
            let history = store::history_writes(fetched);
            let automation = store::automation_writes(fetched);
            &&& all.len() == talk.len() + planning.len() + changes.len() + history.len()
                + automation.len()
            &&& 0 <= k < talk.len() ==> all[k] == talk[k]
            &&& 0 <= k < planning.len() ==> all[talk.len() + k] == planning[k]
            &&& 0 <= k < changes.len() ==> all[talk.len() + planning.len() + k] == changes[k]
            &&& 0 <= k < history.len() ==> all[talk.len() + planning.len() + changes.len() + k]
                == history[k]
            &&& 0 <= k < automation.len() ==> all[talk.len() + planning.len() + changes.len()
                + history.len() + k] == automation[k]
        }),
{
    lemma_five_parts(
        store::talk_writes(fetched),
        store::planning_writes(fetched),
        store::changes_writes(fetched),
        store::history_writes(fetched),
        store::automation_writes(fetched),
        k,
    );
}

proof fn lemma_talk(fetched: FetchedRepository, i: int)
    ensures
        0 <= i < fetched.issues@.len() ==> store::talk_writes(fetched)[i] == MirrorWrite::Issue(
            fetched.issues@[i],
        ),
        0 <= i < fetched.pull_requests@.len() ==> store::talk_writes(fetched)[fetched.issues@.len() + i] == MirrorWrite::PullRequest(
            fetched.pull_requests@[i],
        ),
        0 <= i < fetched.commits@.len() ==> store::talk_writes(fetched)[fetched.issues@.len() + fetched.pull_requests@.len() + i] == MirrorWrite::Commit(
            fetched.commits@[i],
        ),
        0 <= i < fetched.comments@.len() ==> store::talk_writes(fetched)[fetched.issues@.len() + fetched.pull_requests@.len() + fetched.commits@.len() + i] == MirrorWrite::Comment(
            fetched.comments@[i],
        ),
        0 <= i < fetched.review_comments@.len() ==> store::talk_writes(fetched)[fetched.issues@.len() + fetched.pull_requests@.len() + fetched.commits@.len() + fetched.comments@.len() + i] == MirrorWrite::ReviewComment(
            fetched.review_comments@[i],
        ),
        store::talk_writes(fetched).len() == fetched.issues@.len() + fetched.pull_requests@.len() + fetched.commits@.len() + fetched.comments@.len() + fetched.review_comments@.len(),
{
}

proof fn lemma_planning(fetched: FetchedRepository, i: int)
    ensures
        0 <= i < fetched.reviews@.len() ==> store::planning_writes(fetched)[i] == MirrorWrite::Review(
            fetched.reviews@[i],
        ),
        0 <= i < fetched.labels@.len() ==> store::planning_writes(fetched)[fetched.reviews@.len() + i] == MirrorWrite::Label(
            fetched.labels@[i],
        ),
        0 <= i < fetched.milestones@.len() ==> store::planning_writes(fetched)[fetched.reviews@.len() + fetched.labels@.len() + i] == MirrorWrite::Milestone(
            fetched.milestones@[i],
        ),
        0 <= i < fetched.releases@.len() ==> store::planning_writes(fetched)[fetched.reviews@.len() + fetched.labels@.len() + fetched.milestones@.len() + i] == MirrorWrite::Release(
            fetched.releases@[i],
        ),
        0 <= i < fetched.branches@.len() ==> store::planning_writes(fetched)[fetched.reviews@.len() + fetched.labels@.len() + fetched.milestones@.len() + fetched.releases@.len() + i] == MirrorWrite::Branch(
            fetched.branches@[i],
        ),
        store::planning_writes(fetched).len() == fetched.reviews@.len() + fetched.labels@.len() + fetched.milestones@.len() + fetched.releases@.len() + fetched.branches@.len(),
{
}

proof fn lemma_changes(fetched: FetchedRepository, i: int)
    ensures
        0 <= i < fetched.contributors@.len() ==> store::changes_writes(fetched)[i] == MirrorWrite::Contributor(
            fetched.contributors@[i],
        ),
        0 <= i < fetched.workflow_runs@.len() ==> store::changes_writes(fetched)[fetched.contributors@.len() + i] == MirrorWrite::WorkflowRun(
            fetched.workflow_runs@[i],
        ),
        0 <= i < fetched.pull_request_files@.len() ==> store::changes_writes(fetched)[fetched.contributors@.len() + fetched.workflow_runs@.len() + i] == MirrorWrite::PullRequestFile(
            fetched.pull_request_files@[i],
        ),
        0 <= i < fetched.tags@.len() ==> store::changes_writes(fetched)[fetched.contributors@.len() + fetched.workflow_runs@.len() + fetched.pull_request_files@.len() + i] == MirrorWrite::Tag(
            fetched.tags@[i],
        ),
        0 <= i < fetched.commit_files@.len() ==> store::changes_writes(fetched)[fetched.contributors@.len() + fetched.workflow_runs@.len() + fetched.pull_request_files@.len() + fetched.tags@.len() + i] == MirrorWrite::CommitFile(
            fetched.commit_files@[i],
        ),
        store::changes_writes(fetched).len() == fetched.contributors@.len() + fetched.workflow_runs@.len() + fetched.pull_request_files@.len() + fetched.tags@.len() + fetched.commit_files@.len(),
{
}

proof fn lemma_history(fetched: FetchedRepository, i: int)
    ensures
        0 <= i < fetched.review_threads@.len() ==> store::history_writes(fetched)[i] == MirrorWrite::ReviewThread(
            fetched.review_threads@[i],
        ),
        0 <= i < fetched.commit_comments@.len() ==> store::history_writes(fetched)[fetched.review_threads@.len() + i] == MirrorWrite::CommitComment(
            fetched.commit_comments@[i],
        ),
        0 <= i < fetched.issue_events@.len() ==> store::history_writes(fetched)[fetched.review_threads@.len() + fetched.commit_comments@.len() + i] == MirrorWrite::IssueEvent(
            fetched.issue_events@[i],
        ),
        0 <= i < fetched.deployments@.len() ==> store::history_writes(fetched)[fetched.review_threads@.len() + fetched.commit_comments@.len() + fetched.issue_events@.len() + i] == MirrorWrite::Deployment(
            fetched.deployments@[i],
        ),
        0 <= i < fetched.pull_request_commits@.len() ==> store::history_writes(fetched)[fetched.review_threads@.len() + fetched.commit_comments@.len() + fetched.issue_events@.len() + fetched.deployments@.len() + i] == MirrorWrite::PullRequestCommit(
            fetched.pull_request_commits@[i],
        ),
        store::history_writes(fetched).len() == fetched.review_threads@.len() + fetched.commit_comments@.len() + fetched.issue_events@.len() + fetched.deployments@.len() + fetched.pull_request_commits@.len(),
{
}

proof fn lemma_automation(fetched: FetchedRepository, i: int)
    ensures
        0 <= i < fetched.commit_statuses@.len() ==> store::automation_writes(fetched)[i] == MirrorWrite::CommitStatus(
            fetched.commit_statuses@[i],
        ),
        0 <= i < fetched.workflow_jobs@.len() ==> store::automation_writes(fetched)[fetched.commit_statuses@.len() + i] == MirrorWrite::WorkflowJob(
            fetched.workflow_jobs@[i],
        ),
        0 <= i < fetched.issue_reactions@.len() ==> store::automation_writes(fetched)[fetched.commit_statuses@.len() + fetched.workflow_jobs@.len() + i] == MirrorWrite::IssueReaction(
            fetched.issue_reactions@[i],
        ),
        0 <= i < fetched.check_runs@.len() ==> store::automation_writes(fetched)[fetched.commit_statuses@.len() + fetched.workflow_jobs@.len() + fetched.issue_reactions@.len() + i] == MirrorWrite::CheckRun(
            fetched.check_runs@[i],
        ),
        0 <= i < fetched.issue_timeline@.len() ==> store::automation_writes(fetched)[fetched.commit_statuses@.len() + fetched.workflow_jobs@.len() + fetched.issue_reactions@.len() + fetched.check_runs@.len() + i] == MirrorWrite::IssueTimeline(
            fetched.issue_timeline@[i],
        ),
        store::automation_writes(fetched).len() == fetched.commit_statuses@.len() + fetched.workflow_jobs@.len() + fetched.issue_reactions@.len() + fetched.check_runs@.len() + fetched.issue_timeline@.len(),
{
}

/// The issues, pull requests, commits, comments and review comments that were
/// fetched are all written, each as a row of its own table, in the order they
/// were fetched in and with nothing between them: they come first.
pub proof fn talk_rows_are_written(fetched: FetchedRepository, i: int)
    ensures
        ({
            let writes = store::writes_of(fetched);
            let before = 0int;
            &&& 0 <= i < fetched.issues@.len() ==> writes[before + i] == MirrorWrite::Issue(
                fetched.issues@[i],
            ) && writes.contains(MirrorWrite::Issue(fetched.issues@[i]))
            &&& 0 <= i < fetched.pull_requests@.len() ==> writes[before + fetched.issues@.len() + i] == MirrorWrite::PullRequest(
                fetched.pull_requests@[i],
            ) && writes.contains(MirrorWrite::PullRequest(fetched.pull_requests@[i]))
            &&& 0 <= i < fetched.commits@.len() ==> writes[before + fetched.issues@.len() + fetched.pull_requests@.len() + i] == MirrorWrite::Commit(
                fetched.commits@[i],
            ) && writes.contains(MirrorWrite::Commit(fetched.commits@[i]))
            &&& 0 <= i < fetched.comments@.len() ==> writes[before + fetched.issues@.len() + fetched.pull_requests@.len() + fetched.commits@.len() + i] == MirrorWrite::Comment(
                fetched.comments@[i],
            ) && writes.contains(MirrorWrite::Comment(fetched.comments@[i]))
            &&& 0 <= i < fetched.review_comments@.len() ==> writes[before + fetched.issues@.len() + fetched.pull_requests@.len() + fetched.commits@.len() + fetched.comments@.len() + i] == MirrorWrite::ReviewComment(
                fetched.review_comments@[i],
            ) && writes.contains(MirrorWrite::ReviewComment(fetched.review_comments@[i]))
        }),
{
    lemma_talk(fetched, i);
    let part = store::talk_writes(fetched);
    let writes = store::writes_of(fetched);
    let before = 0int;
    if 0 <= i < fetched.issues@.len() {
        lemma_parts(fetched, i);
        assert(writes[before + i] == part[i]);
    }
    if 0 <= i < fetched.pull_requests@.len() {
        lemma_parts(fetched, fetched.issues@.len() + i);
        assert(writes[before + fetched.issues@.len() + i] == part[fetched.issues@.len() + i]);
    }
    if 0 <= i < fetched.commits@.len() {
        lemma_parts(fetched, fetched.issues@.len() + fetched.pull_requests@.len() + i);
        assert(writes[before + fetched.issues@.len() + fetched.pull_requests@.len() + i] == part[fetched.issues@.len() + fetched.pull_requests@.len() + i]);
    }
    if 0 <= i < fetched.comments@.len() {
        lemma_parts(fetched, fetched.issues@.len() + fetched.pull_requests@.len() + fetched.commits@.len() + i);
        assert(writes[before + fetched.issues@.len() + fetched.pull_requests@.len() + fetched.commits@.len() + i] == part[fetched.issues@.len() + fetched.pull_requests@.len() + fetched.commits@.len() + i]);
    }
    if 0 <= i < fetched.review_comments@.len() {
        lemma_parts(fetched, fetched.issues@.len() + fetched.pull_requests@.len() + fetched.commits@.len() + fetched.comments@.len() + i);
        assert(writes[before + fetched.issues@.len() + fetched.pull_requests@.len() + fetched.commits@.len() + fetched.comments@.len() + i] == part[fetched.issues@.len() + fetched.pull_requests@.len() + fetched.commits@.len() + fetched.comments@.len() + i]);
    }
}

/// The reviews, labels, milestones, releases and branches that were fetched are
/// all written, each as a row of its own table, in the order they were fetched
/// in and with nothing between them and the rows of the tables before.
pub proof fn planning_rows_are_written(fetched: FetchedRepository, i: int)
    ensures
        ({
            let writes = store::writes_of(fetched);
            let before = fetched.issues@.len() + fetched.pull_requests@.len() + fetched.commits@.len() + fetched.comments@.len() + fetched.review_comments@.len();
            &&& 0 <= i < fetched.reviews@.len() ==> writes[before + i] == MirrorWrite::Review(
                fetched.reviews@[i],
            ) && writes.contains(MirrorWrite::Review(fetched.reviews@[i]))
            &&& 0 <= i < fetched.labels@.len() ==> writes[before + fetched.reviews@.len() + i] == MirrorWrite::Label(
                fetched.labels@[i],
            ) && writes.contains(MirrorWrite::Label(fetched.labels@[i]))
            &&& 0 <= i < fetched.milestones@.len() ==> writes[before + fetched.reviews@.len() + fetched.labels@.len() + i] == MirrorWrite::Milestone(
                fetched.milestones@[i],
            ) && writes.contains(MirrorWrite::Milestone(fetched.milestones@[i]))
            &&& 0 <= i < fetched.releases@.len() ==> writes[before + fetched.reviews@.len() + fetched.labels@.len() + fetched.milestones@.len() + i] == MirrorWrite::Release(
                fetched.releases@[i],
            ) && writes.contains(MirrorWrite::Release(fetched.releases@[i]))
            &&& 0 <= i < fetched.branches@.len() ==> writes[before + fetched.reviews@.len() + fetched.labels@.len() + fetched.milestones@.len() + fetched.releases@.len() + i] == MirrorWrite::Branch(
                fetched.branches@[i],
            ) && writes.contains(MirrorWrite::Branch(fetched.branches@[i]))
        }),
{
    lemma_talk(fetched, i);
    lemma_planning(fetched, i);
    let part = store::planning_writes(fetched);
    let writes = store::writes_of(fetched);
    let before = fetched.issues@.len() + fetched.pull_requests@.len() + fetched.commits@.len() + fetched.comments@.len() + fetched.review_comments@.len();
    if 0 <= i < fetched.reviews@.len() {
        lemma_parts(fetched, i);
        assert(writes[before + i] == part[i]);
    }
    if 0 <= i < fetched.labels@.len() {
        lemma_parts(fetched, fetched.reviews@.len() + i);
        assert(writes[before + fetched.reviews@.len() + i] == part[fetched.reviews@.len() + i]);
    }
    if 0 <= i < fetched.milestones@.len() {
        lemma_parts(fetched, fetched.reviews@.len() + fetched.labels@.len() + i);
        assert(writes[before + fetched.reviews@.len() + fetched.labels@.len() + i] == part[fetched.reviews@.len() + fetched.labels@.len() + i]);
    }
    if 0 <= i < fetched.releases@.len() {
        lemma_parts(fetched, fetched.reviews@.len() + fetched.labels@.len() + fetched.milestones@.len() + i);
        assert(writes[before + fetched.reviews@.len() + fetched.labels@.len() + fetched.milestones@.len() + i] == part[fetched.reviews@.len() + fetched.labels@.len() + fetched.milestones@.len() + i]);
    }
    if 0 <= i < fetched.branches@.len() {
        lemma_parts(fetched, fetched.reviews@.len() + fetched.labels@.len() + fetched.milestones@.len() + fetched.releases@.len() + i);
        assert(writes[before + fetched.reviews@.len() + fetched.labels@.len() + fetched.milestones@.len() + fetched.releases@.len() + i] == part[fetched.reviews@.len() + fetched.labels@.len() + fetched.milestones@.len() + fetched.releases@.len() + i]);
    }
}

/// The contributors, workflow runs, pull request files, tags and commit files
/// that were fetched are all written, each as a row of its own table, in the
/// order they were fetched in and with nothing between them and the rows of the
/// tables before.
pub proof fn changes_rows_are_written(fetched: FetchedRepository, i: int)
    ensures
        ({
            let writes = store::writes_of(fetched);
            let before = fetched.issues@.len() + fetched.pull_requests@.len() + fetched.commits@.len() + fetched.comments@.len() + fetched.review_comments@.len() + fetched.reviews@.len() + fetched.labels@.len() + fetched.milestones@.len() + fetched.releases@.len() + fetched.branches@.len();
            &&& 0 <= i < fetched.contributors@.len() ==> writes[before + i] == MirrorWrite::Contributor(
                fetched.contributors@[i],
            ) && writes.contains(MirrorWrite::Contributor(fetched.contributors@[i]))
            &&& 0 <= i < fetched.workflow_runs@.len() ==> writes[before + fetched.contributors@.len() + i] == MirrorWrite::WorkflowRun(
                fetched.workflow_runs@[i],
            ) && writes.contains(MirrorWrite::WorkflowRun(fetched.workflow_runs@[i]))
            &&& 0 <= i < fetched.pull_request_files@.len() ==> writes[before + fetched.contributors@.len() + fetched.workflow_runs@.len() + i] == MirrorWrite::PullRequestFile(
                fetched.pull_request_files@[i],
            ) && writes.contains(MirrorWrite::PullRequestFile(fetched.pull_request_files@[i]))
            &&& 0 <= i < fetched.tags@.len() ==> writes[before + fetched.contributors@.len() + fetched.workflow_runs@.len() + fetched.pull_request_files@.len() + i] == MirrorWrite::Tag(
                fetched.tags@[i],
            ) && writes.contains(MirrorWrite::Tag(fetched.tags@[i]))
            &&& 0 <= i < fetched.commit_files@.len() ==> writes[before + fetched.contributors@.len() + fetched.workflow_runs@.len() + fetched.pull_request_files@.len() + fetched.tags@.len() + i] == MirrorWrite::CommitFile(
                fetched.commit_files@[i],
            ) && writes.contains(MirrorWrite::CommitFile(fetched.commit_files@[i]))
        }),
{
    lemma_talk(fetched, i);
    lemma_planning(fetched, i);
    lemma_changes(fetched, i);
    let part = store::changes_writes(fetched);
    let writes = store::writes_of(fetched);
    let before = fetched.issues@.len() + fetched.pull_requests@.len() + fetched.commits@.len() + fetched.comments@.len() + fetched.review_comments@.len() + fetched.reviews@.len() + fetched.labels@.len() + fetched.milestones@.len() + fetched.releases@.len() + fetched.branches@.len();
    if 0 <= i < fetched.contributors@.len() {
        lemma_parts(fetched, i);
        assert(writes[before + i] == part[i]);
    }
    if 0 <= i < fetched.workflow_runs@.len() {
        lemma_parts(fetched, fetched.contributors@.len() + i);
        assert(writes[before + fetched.contributors@.len() + i] == part[fetched.contributors@.len() + i]);
    }
    if 0 <= i < fetched.pull_request_files@.len() {
        lemma_parts(fetched, fetched.contributors@.len() + fetched.workflow_runs@.len() + i);
        assert(writes[before + fetched.contributors@.len() + fetched.workflow_runs@.len() + i] == part[fetched.contributors@.len() + fetched.workflow_runs@.len() + i]);
    }
    if 0 <= i < fetched.tags@.len() {
        lemma_parts(fetched, fetched.contributors@.len() + fetched.workflow_runs@.len() + fetched.pull_request_files@.len() + i);
        assert(writes[before + fetched.contributors@.len() + fetched.workflow_runs@.len() + fetched.pull_request_files@.len() + i] == part[fetched.contributors@.len() + fetched.workflow_runs@.len() + fetched.pull_request_files@.len() + i]);
    }
    if 0 <= i < fetched.commit_files@.len() {
        lemma_parts(fetched, fetched.contributors@.len() + fetched.workflow_runs@.len() + fetched.pull_request_files@.len() + fetched.tags@.len() + i);
        assert(writes[before + fetched.contributors@.len() + fetched.workflow_runs@.len() + fetched.pull_request_files@.len() + fetched.tags@.len() + i] == part[fetched.contributors@.len() + fetched.workflow_runs@.len() + fetched.pull_request_files@.len() + fetched.tags@.len() + i]);
    }
}

/// The review threads, commit comments, issue events, deployments and pull
/// request commits that were fetched are all written, each as a row of its own
/// table, in the order they were fetched in and with nothing between them and
/// the rows of the tables before.
pub proof fn history_rows_are_written(fetched: FetchedRepository, i: int)
    ensures
        ({
            let writes = store::writes_of(fetched);
            let before = fetched.issues@.len() + fetched.pull_requests@.len() + fetched.commits@.len() + fetched.comments@.len() + fetched.review_comments@.len() + fetched.reviews@.len() + fetched.labels@.len() + fetched.milestones@.len() + fetched.releases@.len() + fetched.branches@.len() + fetched.contributors@.len() + fetched.workflow_runs@.len() + fetched.pull_request_files@.len() + fetched.tags@.len() + fetched.commit_files@.len();
            &&& 0 <= i < fetched.review_threads@.len() ==> writes[before + i] == MirrorWrite::ReviewThread(
                fetched.review_threads@[i],
            ) && writes.contains(MirrorWrite::ReviewThread(fetched.review_threads@[i]))
            &&& 0 <= i < fetched.commit_comments@.len() ==> writes[before + fetched.review_threads@.len() + i] == MirrorWrite::CommitComment(
                fetched.commit_comments@[i],
            ) && writes.contains(MirrorWrite::CommitComment(fetched.commit_comments@[i]))
            &&& 0 <= i < fetched.issue_events@.len() ==> writes[before + fetched.review_threads@.len() + fetched.commit_comments@.len() + i] == MirrorWrite::IssueEvent(
                fetched.issue_events@[i],
            ) && writes.contains(MirrorWrite::IssueEvent(fetched.issue_events@[i]))
            &&& 0 <= i < fetched.deployments@.len() ==> writes[before + fetched.review_threads@.len() + fetched.commit_comments@.len() + fetched.issue_events@.len() + i] == MirrorWrite::Deployment(
                fetched.deployments@[i],
            ) && writes.contains(MirrorWrite::Deployment(fetched.deployments@[i]))
            &&& 0 <= i < fetched.pull_request_commits@.len() ==> writes[before + fetched.review_threads@.len() + fetched.commit_comments@.len() + fetched.issue_events@.len() + fetched.deployments@.len() + i] == MirrorWrite::PullRequestCommit(
                fetched.pull_request_commits@[i],
            ) && writes.contains(MirrorWrite::PullRequestCommit(fetched.pull_request_commits@[i]))
        }),
{
    lemma_talk(fetched, i);
    lemma_planning(fetched, i);
    lemma_changes(fetched, i);
    lemma_history(fetched, i);
    let part = store::history_writes(fetched);
    let writes = store::writes_of(fetched);
    let before = fetched.issues@.len() + fetched.pull_requests@.len() + fetched.commits@.len() + fetched.comments@.len() + fetched.review_comments@.len() + fetched.reviews@.len() + fetched.labels@.len() + fetched.milestones@.len() + fetched.releases@.len() + fetched.branches@.len() + fetched.contributors@.len() + fetched.workflow_runs@.len() + fetched.pull_request_files@.len() + fetched.tags@.len() + fetched.commit_files@.len();
    if 0 <= i < fetched.review_threads@.len() {
        lemma_parts(fetched, i);
        assert(writes[before + i] == part[i]);
    }
    if 0 <= i < fetched.commit_comments@.len() {
        lemma_parts(fetched, fetched.review_threads@.len() + i);
        assert(writes[before + fetched.review_threads@.len() + i] == part[fetched.review_threads@.len() + i]);
    }
    if 0 <= i < fetched.issue_events@.len() {
        lemma_parts(fetched, fetched.review_threads@.len() + fetched.commit_comments@.len() + i);
        assert(writes[before + fetched.review_threads@.len() + fetched.commit_comments@.len() + i] == part[fetched.review_threads@.len() + fetched.commit_comments@.len() + i]);
    }
    if 0 <= i < fetched.deployments@.len() {
        lemma_parts(fetched, fetched.review_threads@.len() + fetched.commit_comments@.len() + fetched.issue_events@.len() + i);
        assert(writes[before + fetched.review_threads@.len() + fetched.commit_comments@.len() + fetched.issue_events@.len() + i] == part[fetched.review_threads@.len() + fetched.commit_comments@.len() + fetched.issue_events@.len() + i]);
    }
    if 0 <= i < fetched.pull_request_commits@.len() {
        lemma_parts(fetched, fetched.review_threads@.len() + fetched.commit_comments@.len() + fetched.issue_events@.len() + fetched.deployments@.len() + i);
        assert(writes[before + fetched.review_threads@.len() + fetched.commit_comments@.len() + fetched.issue_events@.len() + fetched.deployments@.len() + i] == part[fetched.review_threads@.len() + fetched.commit_comments@.len() + fetched.issue_events@.len() + fetched.deployments@.len() + i]);
    }
}

/// The commit statuses, workflow jobs, issue reactions, check runs and issue
/// timelines that were fetched are all written, each as a row of its own table,
/// in the order they were fetched in and with nothing between them and the rows
/// of the tables before.
pub proof fn automation_rows_are_written(fetched: FetchedRepository, i: int)
    ensures
        ({
            let writes = store::writes_of(fetched);
            let before = fetched.issues@.len() + fetched.pull_requests@.len() + fetched.commits@.len() + fetched.comments@.len() + fetched.review_comments@.len() + fetched.reviews@.len() + fetched.labels@.len() + fetched.milestones@.len() + fetched.releases@.len() + fetched.branches@.len() + fetched.contributors@.len() + fetched.workflow_runs@.len() + fetched.pull_request_files@.len() + fetched.tags@.len() + fetched.commit_files@.len() + fetched.review_threads@.len() + fetched.commit_comments@.len() + fetched.issue_events@.len() + fetched.deployments@.len() + fetched.pull_request_commits@.len();
            &&& 0 <= i < fetched.commit_statuses@.len() ==> writes[before + i] == MirrorWrite::CommitStatus(
                fetched.commit_statuses@[i],
            ) && writes.contains(MirrorWrite::CommitStatus(fetched.commit_statuses@[i]))
            &&& 0 <= i < fetched.workflow_jobs@.len() ==> writes[before + fetched.commit_statuses@.len() + i] == MirrorWrite::WorkflowJob(
                fetched.workflow_jobs@[i],
            ) && writes.contains(MirrorWrite::WorkflowJob(fetched.workflow_jobs@[i]))
            &&& 0 <= i < fetched.issue_reactions@.len() ==> writes[before + fetched.commit_statuses@.len() + fetched.workflow_jobs@.len() + i] == MirrorWrite::IssueReaction(
                fetched.issue_reactions@[i],
            ) && writes.contains(MirrorWrite::IssueReaction(fetched.issue_reactions@[i]))
            &&& 0 <= i < fetched.check_runs@.len() ==> writes[before + fetched.commit_statuses@.len() + fetched.workflow_jobs@.len() + fetched.issue_reactions@.len() + i] == MirrorWrite::CheckRun(
                fetched.check_runs@[i],
            ) && writes.contains(MirrorWrite::CheckRun(fetched.check_runs@[i]))
            &&& 0 <= i < fetched.issue_timeline@.len() ==> writes[before + fetched.commit_statuses@.len() + fetched.workflow_jobs@.len() + fetched.issue_reactions@.len() + fetched.check_runs@.len() + i] == MirrorWrite::IssueTimeline(
                fetched.issue_timeline@[i],
            ) && writes.contains(MirrorWrite::IssueTimeline(fetched.issue_timeline@[i]))
        }),
{
    lemma_talk(fetched, i);
    lemma_planning(fetched, i);
    lemma_changes(fetched, i);
    lemma_history(fetched, i);
    lemma_automation(fetched, i);
    let part = store::automation_writes(fetched);
    let writes = store::writes_of(fetched);
    let before = fetched.issues@.len() + fetched.pull_requests@.len() + fetched.commits@.len() + fetched.comments@.len() + fetched.review_comments@.len() + fetched.reviews@.len() + fetched.labels@.len() + fetched.milestones@.len() + fetched.releases@.len() + fetched.branches@.len() + fetched.contributors@.len() + fetched.workflow_runs@.len() + fetched.pull_request_files@.len() + fetched.tags@.len() + fetched.commit_files@.len() + fetched.review_threads@.len() + fetched.commit_comments@.len() + fetched.issue_events@.len() + fetched.deployments@.len() + fetched.pull_request_commits@.len();
    if 0 <= i < fetched.commit_statuses@.len() {
        lemma_parts(fetched, i);
        assert(writes[before + i] == part[i]);
    }
    if 0 <= i < fetched.workflow_jobs@.len() {
        lemma_parts(fetched, fetched.commit_statuses@.len() + i);
        assert(writes[before + fetched.commit_statuses@.len() + i] == part[fetched.commit_statuses@.len() + i]);
    }
    if 0 <= i < fetched.issue_reactions@.len() {
        lemma_parts(fetched, fetched.commit_statuses@.len() + fetched.workflow_jobs@.len() + i);
        assert(writes[before + fetched.commit_statuses@.len() + fetched.workflow_jobs@.len() + i] == part[fetched.commit_statuses@.len() + fetched.workflow_jobs@.len() + i]);
    }
    if 0 <= i < fetched.check_runs@.len() {
        lemma_parts(fetched, fetched.commit_statuses@.len() + fetched.workflow_jobs@.len() + fetched.issue_reactions@.len() + i);
        assert(writes[before + fetched.commit_statuses@.len() + fetched.workflow_jobs@.len() + fetched.issue_reactions@.len() + i] == part[fetched.commit_statuses@.len() + fetched.workflow_jobs@.len() + fetched.issue_reactions@.len() + i]);
    }
    if 0 <= i < fetched.issue_timeline@.len() {
        lemma_parts(fetched, fetched.commit_statuses@.len() + fetched.workflow_jobs@.len() + fetched.issue_reactions@.len() + fetched.check_runs@.len() + i);
        assert(writes[before + fetched.commit_statuses@.len() + fetched.workflow_jobs@.len() + fetched.issue_reactions@.len() + fetched.check_runs@.len() + i] == part[fetched.commit_statuses@.len() + fetched.workflow_jobs@.len() + fetched.issue_reactions@.len() + fetched.check_runs@.len() + i]);
    }
}

/// Nothing is written but the rows that were fetched: there are as many writes
/// as rows.
pub proof fn nothing_else_is_written(fetched: FetchedRepository)
    ensures
        store::writes_of(fetched).len() == fetched.issues@.len() + fetched.pull_requests@.len() + fetched.commits@.len() + fetched.comments@.len() + fetched.review_comments@.len() + fetched.reviews@.len() + fetched.labels@.len() + fetched.milestones@.len() + fetched.releases@.len() + fetched.branches@.len() + fetched.contributors@.len() + fetched.workflow_runs@.len() + fetched.pull_request_files@.len() + fetched.tags@.len() + fetched.commit_files@.len() + fetched.review_threads@.len() + fetched.commit_comments@.len() + fetched.issue_events@.len() + fetched.deployments@.len() + fetched.pull_request_commits@.len() + fetched.commit_statuses@.len() + fetched.workflow_jobs@.len() + fetched.issue_reactions@.len() + fetched.check_runs@.len() + fetched.issue_timeline@.len(),
{
    lemma_parts(fetched, 0);
    lemma_talk(fetched, 0);
    lemma_planning(fetched, 0);
    lemma_changes(fetched, 0);
    lemma_history(fetched, 0);
    lemma_automation(fetched, 0);
}

/// Every fetched row of every table is among what is written.
pub proof fn every_fetched_row_is_written(fetched: FetchedRepository, writes: Seq<MirrorWrite>)
    requires
        writes == store::writes_of(fetched),
    ensures
        forall|i: int|
            0 <= i < fetched.issues@.len() ==> writes.contains(
                MirrorWrite::Issue(#[trigger] fetched.issues@[i]),
            ),
        forall|i: int|
            0 <= i < fetched.pull_requests@.len() ==> writes.contains(
                MirrorWrite::PullRequest(#[trigger] fetched.pull_requests@[i]),
            ),
        forall|i: int|
            0 <= i < fetched.commits@.len() ==> writes.contains(
                MirrorWrite::Commit(#[trigger] fetched.commits@[i]),
            ),
        forall|i: int|
            0 <= i < fetched.comments@.len() ==> writes.contains(
                MirrorWrite::Comment(#[trigger] fetched.comments@[i]),
            ),
        forall|i: int|
            0 <= i < fetched.review_comments@.len() ==> writes.contains(
                MirrorWrite::ReviewComment(#[trigger] fetched.review_comments@[i]),
            ),
        forall|i: int|
            0 <= i < fetched.reviews@.len() ==> writes.contains(
                MirrorWrite::Review(#[trigger] fetched.reviews@[i]),
            ),
        forall|i: int|
            0 <= i < fetched.labels@.len() ==> writes.contains(
                MirrorWrite::Label(#[trigger] fetched.labels@[i]),
            ),
        forall|i: int|
            0 <= i < fetched.milestones@.len() ==> writes.contains(
                MirrorWrite::Milestone(#[trigger] fetched.milestones@[i]),
            ),
        forall|i: int|
            0 <= i < fetched.releases@.len() ==> writes.contains(
                MirrorWrite::Release(#[trigger] fetched.releases@[i]),
            ),
        forall|i: int|
            0 <= i < fetched.branches@.len() ==> writes.contains(
                MirrorWrite::Branch(#[trigger] fetched.branches@[i]),
            ),
        forall|i: int|
            0 <= i < fetched.contributors@.len() ==> writes.contains(
                MirrorWrite::Contributor(#[trigger] fetched.contributors@[i]),
            ),
        forall|i: int|
            0 <= i < fetched.workflow_runs@.len() ==> writes.contains(
                MirrorWrite::WorkflowRun(#[trigger] fetched.workflow_runs@[i]),
            ),
        forall|i: int|
            0 <= i < fetched.pull_request_files@.len() ==> writes.contains(
                MirrorWrite::PullRequestFile(#[trigger] fetched.pull_request_files@[i]),
            ),
        forall|i: int|
            0 <= i < fetched.tags@.len() ==> writes.contains(
                MirrorWrite::Tag(#[trigger] fetched.tags@[i]),
            ),
        forall|i: int|
            0 <= i < fetched.commit_files@.len() ==> writes.contains(
                MirrorWrite::CommitFile(#[trigger] fetched.commit_files@[i]),
            ),
        forall|i: int|
            0 <= i < fetched.review_threads@.len() ==> writes.contains(
                MirrorWrite::ReviewThread(#[trigger] fetched.review_threads@[i]),
            ),
        forall|i: int|
            0 <= i < fetched.commit_comments@.len() ==> writes.contains(
                MirrorWrite::CommitComment(#[trigger] fetched.commit_comments@[i]),
            ),
        forall|i: int|
            0 <= i < fetched.issue_events@.len() ==> writes.contains(
                MirrorWrite::IssueEvent(#[trigger] fetched.issue_events@[i]),
            ),
        forall|i: int|
            0 <= i < fetched.deployments@.len() ==> writes.contains(
                MirrorWrite::Deployment(#[trigger] fetched.deployments@[i]),
            ),
        forall|i: int|
            0 <= i < fetched.pull_request_commits@.len() ==> writes.contains(
                MirrorWrite::PullRequestCommit(#[trigger] fetched.pull_request_commits@[i]),
            ),
        forall|i: int|
            0 <= i < fetched.commit_statuses@.len() ==> writes.contains(
                MirrorWrite::CommitStatus(#[trigger] fetched.commit_statuses@[i]),
            ),
        forall|i: int|
            0 <= i < fetched.workflow_jobs@.len() ==> writes.contains(
                MirrorWrite::WorkflowJob(#[trigger] fetched.workflow_jobs@[i]),
            ),
        forall|i: int|
            0 <= i < fetched.issue_reactions@.len() ==> writes.contains(
                MirrorWrite::IssueReaction(#[trigger] fetched.issue_reactions@[i]),
            ),
        forall|i: int|
            0 <= i < fetched.check_runs@.len() ==> writes.contains(
                MirrorWrite::CheckRun(#[trigger] fetched.check_runs@[i]),
            ),
        forall|i: int|
            0 <= i < fetched.issue_timeline@.len() ==> writes.contains(
                MirrorWrite::IssueTimeline(#[trigger] fetched.issue_timeline@[i]),
            ),
{
    assert forall|i: int| 0 <= i < fetched.issues@.len() implies writes.contains(
        MirrorWrite::Issue(#[trigger] fetched.issues@[i]),
    ) by {
        talk_rows_are_written(fetched, i);
    }
    assert forall|i: int| 0 <= i < fetched.pull_requests@.len() implies writes.contains(
        MirrorWrite::PullRequest(#[trigger] fetched.pull_requests@[i]),
    ) by {
        talk_rows_are_written(fetched, i);
    }
    assert forall|i: int| 0 <= i < fetched.commits@.len() implies writes.contains(
        MirrorWrite::Commit(#[trigger] fetched.commits@[i]),
    ) by {
        talk_rows_are_written(fetched, i);
    }
    assert forall|i: int| 0 <= i < fetched.comments@.len() implies writes.contains(
        MirrorWrite::Comment(#[trigger] fetched.comments@[i]),
    ) by {
        talk_rows_are_written(fetched, i);
    }
    assert forall|i: int| 0 <= i < fetched.review_comments@.len() implies writes.contains(
        MirrorWrite::ReviewComment(#[trigger] fetched.review_comments@[i]),
    ) by {
        talk_rows_are_written(fetched, i);
    }
    assert forall|i: int| 0 <= i < fetched.reviews@.len() implies writes.contains(
        MirrorWrite::Review(#[trigger] fetched.reviews@[i]),
    ) by {
        planning_rows_are_written(fetched, i);
    }
    assert forall|i: int| 0 <= i < fetched.labels@.len() implies writes.contains(
        MirrorWrite::Label(#[trigger] fetched.labels@[i]),
    ) by {
        planning_rows_are_written(fetched, i);
    }
    assert forall|i: int| 0 <= i < fetched.milestones@.len() implies writes.contains(
        MirrorWrite::Milestone(#[trigger] fetched.milestones@[i]),
    ) by {
        planning_rows_are_written(fetched, i);
    }
    assert forall|i: int| 0 <= i < fetched.releases@.len() implies writes.contains(
        MirrorWrite::Release(#[trigger] fetched.releases@[i]),
    ) by {
        planning_rows_are_written(fetched, i);
    }
    assert forall|i: int| 0 <= i < fetched.branches@.len() implies writes.contains(
        MirrorWrite::Branch(#[trigger] fetched.branches@[i]),
    ) by {
        planning_rows_are_written(fetched, i);
    }
    assert forall|i: int| 0 <= i < fetched.contributors@.len() implies writes.contains(
        MirrorWrite::Contributor(#[trigger] fetched.contributors@[i]),
    ) by {
        changes_rows_are_written(fetched, i);
    }
    assert forall|i: int| 0 <= i < fetched.workflow_runs@.len() implies writes.contains(
        MirrorWrite::WorkflowRun(#[trigger] fetched.workflow_runs@[i]),
    ) by {
        changes_rows_are_written(fetched, i);
    }
    assert forall|i: int| 0 <= i < fetched.pull_request_files@.len() implies writes.contains(
        MirrorWrite::PullRequestFile(#[trigger] fetched.pull_request_files@[i]),
    ) by {
        changes_rows_are_written(fetched, i);
    }
    assert forall|i: int| 0 <= i < fetched.tags@.len() implies writes.contains(
        MirrorWrite::Tag(#[trigger] fetched.tags@[i]),
    ) by {
        changes_rows_are_written(fetched, i);
    }
    assert forall|i: int| 0 <= i < fetched.commit_files@.len() implies writes.contains(
        MirrorWrite::CommitFile(#[trigger] fetched.commit_files@[i]),
    ) by {
        changes_rows_are_written(fetched, i);
    }
    assert forall|i: int| 0 <= i < fetched.review_threads@.len() implies writes.contains(
        MirrorWrite::ReviewThread(#[trigger] fetched.review_threads@[i]),
    ) by {
        history_rows_are_written(fetched, i);
    }
    assert forall|i: int| 0 <= i < fetched.commit_comments@.len() implies writes.contains(
        MirrorWrite::CommitComment(#[trigger] fetched.commit_comments@[i]),
    ) by {
        history_rows_are_written(fetched, i);
    }
    assert forall|i: int| 0 <= i < fetched.issue_events@.len() implies writes.contains(
        MirrorWrite::IssueEvent(#[trigger] fetched.issue_events@[i]),
    ) by {
        history_rows_are_written(fetched, i);
    }
    assert forall|i: int| 0 <= i < fetched.deployments@.len() implies writes.contains(
        MirrorWrite::Deployment(#[trigger] fetched.deployments@[i]),
    ) by {
        history_rows_are_written(fetched, i);
    }
    assert forall|i: int| 0 <= i < fetched.pull_request_commits@.len() implies writes.contains(
        MirrorWrite::PullRequestCommit(#[trigger] fetched.pull_request_commits@[i]),
    ) by {
        history_rows_are_written(fetched, i);
    }
    assert forall|i: int| 0 <= i < fetched.commit_statuses@.len() implies writes.contains(
        MirrorWrite::CommitStatus(#[trigger] fetched.commit_statuses@[i]),
    ) by {
        automation_rows_are_written(fetched, i);
    }
    assert forall|i: int| 0 <= i < fetched.workflow_jobs@.len() implies writes.contains(
        MirrorWrite::WorkflowJob(#[trigger] fetched.workflow_jobs@[i]),
    ) by {
        automation_rows_are_written(fetched, i);
    }
    assert forall|i: int| 0 <= i < fetched.issue_reactions@.len() implies writes.contains(
        MirrorWrite::IssueReaction(#[trigger] fetched.issue_reactions@[i]),
    ) by {
        automation_rows_are_written(fetched, i);
    }
    assert forall|i: int| 0 <= i < fetched.check_runs@.len() implies writes.contains(
        MirrorWrite::CheckRun(#[trigger] fetched.check_runs@[i]),
    ) by {
        automation_rows_are_written(fetched, i);
    }
    assert forall|i: int| 0 <= i < fetched.issue_timeline@.len() implies writes.contains(
        MirrorWrite::IssueTimeline(#[trigger] fetched.issue_timeline@[i]),
    ) by {
        automation_rows_are_written(fetched, i);
    }
}

/// A table is counted with as many rows as were fetched for it.
pub proof fn every_table_is_counted_by_its_rows(fetched: FetchedRepository)
    ensures
        fetched.issues@.len() <= u64::MAX ==> store::counts_of(fetched).issues == fetched.issues@.len(),
        fetched.pull_requests@.len() <= u64::MAX ==> store::counts_of(fetched).pull_requests == fetched.pull_requests@.len(),
        fetched.commits@.len() <= u64::MAX ==> store::counts_of(fetched).commits == fetched.commits@.len(),
        fetched.comments@.len() <= u64::MAX ==> store::counts_of(fetched).comments == fetched.comments@.len(),
        fetched.review_comments@.len() <= u64::MAX ==> store::counts_of(fetched).review_comments == fetched.review_comments@.len(),
        fetched.reviews@.len() <= u64::MAX ==> store::counts_of(fetched).reviews == fetched.reviews@.len(),
        fetched.labels@.len() <= u64::MAX ==> store::counts_of(fetched).labels == fetched.labels@.len(),
        fetched.milestones@.len() <= u64::MAX ==> store::counts_of(fetched).milestones == fetched.milestones@.len(),
        fetched.releases@.len() <= u64::MAX ==> store::counts_of(fetched).releases == fetched.releases@.len(),
        fetched.branches@.len() <= u64::MAX ==> store::counts_of(fetched).branches == fetched.branches@.len(),
        fetched.contributors@.len() <= u64::MAX ==> store::counts_of(fetched).contributors == fetched.contributors@.len(),
        fetched.workflow_runs@.len() <= u64::MAX ==> store::counts_of(fetched).workflow_runs == fetched.workflow_runs@.len(),
        fetched.pull_request_files@.len() <= u64::MAX ==> store::counts_of(fetched).pull_request_files == fetched.pull_request_files@.len(),
        fetched.tags@.len() <= u64::MAX ==> store::counts_of(fetched).tags == fetched.tags@.len(),
        fetched.commit_files@.len() <= u64::MAX ==> store::counts_of(fetched).commit_files == fetched.commit_files@.len(),
        fetched.review_threads@.len() <= u64::MAX ==> store::counts_of(fetched).review_threads == fetched.review_threads@.len(),
        fetched.commit_comments@.len() <= u64::MAX ==> store::counts_of(fetched).commit_comments == fetched.commit_comments@.len(),
        fetched.issue_events@.len() <= u64::MAX ==> store::counts_of(fetched).issue_events == fetched.issue_events@.len(),
        fetched.deployments@.len() <= u64::MAX ==> store::counts_of(fetched).deployments == fetched.deployments@.len(),
        fetched.pull_request_commits@.len() <= u64::MAX ==> store::counts_of(fetched).pull_request_commits == fetched.pull_request_commits@.len(),
        fetched.commit_statuses@.len() <= u64::MAX ==> store::counts_of(fetched).commit_statuses == fetched.commit_statuses@.len(),
        fetched.workflow_jobs@.len() <= u64::MAX ==> store::counts_of(fetched).workflow_jobs == fetched.workflow_jobs@.len(),
        fetched.issue_reactions@.len() <= u64::MAX ==> store::counts_of(fetched).issue_reactions == fetched.issue_reactions@.len(),
        fetched.check_runs@.len() <= u64::MAX ==> store::counts_of(fetched).check_runs == fetched.check_runs@.len(),
        fetched.issue_timeline@.len() <= u64::MAX ==> store::counts_of(fetched).issue_timeline == fetched.issue_timeline@.len(),
{
}

/// A sync that wrote everything reports, for each table, as many rows as were
/// fetched for it, under the name it was given.
pub proof fn summary_says_what_was_fetched(repository: String, fetched: FetchedRepository)
    ensures
        summary::summary_of(repository, store::counts_of(fetched)).repository == repository,
        fetched.issues@.len() <= u64::MAX ==> summary::summary_of(
            repository,
            store::counts_of(fetched),
        ).issues_synced == fetched.issues@.len(),
        fetched.pull_requests@.len() <= u64::MAX ==> summary::summary_of(
            repository,
            store::counts_of(fetched),
        ).pull_requests_synced == fetched.pull_requests@.len(),
        fetched.commits@.len() <= u64::MAX ==> summary::summary_of(
            repository,
            store::counts_of(fetched),
        ).commits_synced == fetched.commits@.len(),
        fetched.comments@.len() <= u64::MAX ==> summary::summary_of(
            repository,
            store::counts_of(fetched),
        ).comments_synced == fetched.comments@.len(),
        fetched.review_comments@.len() <= u64::MAX ==> summary::summary_of(
            repository,
            store::counts_of(fetched),
        ).review_comments_synced == fetched.review_comments@.len(),
        fetched.reviews@.len() <= u64::MAX ==> summary::summary_of(
            repository,
            store::counts_of(fetched),
        ).reviews_synced == fetched.reviews@.len(),
        fetched.labels@.len() <= u64::MAX ==> summary::summary_of(
            repository,
            store::counts_of(fetched),
        ).labels_synced == fetched.labels@.len(),
        fetched.milestones@.len() <= u64::MAX ==> summary::summary_of(
            repository,
            store::counts_of(fetched),
        ).milestones_synced == fetched.milestones@.len(),
        fetched.releases@.len() <= u64::MAX ==> summary::summary_of(
            repository,
            store::counts_of(fetched),
        ).releases_synced == fetched.releases@.len(),
        fetched.branches@.len() <= u64::MAX ==> summary::summary_of(
            repository,
            store::counts_of(fetched),
        ).branches_synced == fetched.branches@.len(),
        fetched.contributors@.len() <= u64::MAX ==> summary::summary_of(
            repository,
            store::counts_of(fetched),
        ).contributors_synced == fetched.contributors@.len(),
        fetched.workflow_runs@.len() <= u64::MAX ==> summary::summary_of(
            repository,
            store::counts_of(fetched),
        ).workflow_runs_synced == fetched.workflow_runs@.len(),
        fetched.pull_request_files@.len() <= u64::MAX ==> summary::summary_of(
            repository,
            store::counts_of(fetched),
        ).pull_request_files_synced == fetched.pull_request_files@.len(),
        fetched.tags@.len() <= u64::MAX ==> summary::summary_of(
            repository,
            store::counts_of(fetched),
        ).tags_synced == fetched.tags@.len(),
        fetched.commit_files@.len() <= u64::MAX ==> summary::summary_of(
            repository,
            store::counts_of(fetched),
        ).commit_files_synced == fetched.commit_files@.len(),
        fetched.review_threads@.len() <= u64::MAX ==> summary::summary_of(
            repository,
            store::counts_of(fetched),
        ).review_threads_synced == fetched.review_threads@.len(),
        fetched.commit_comments@.len() <= u64::MAX ==> summary::summary_of(
            repository,
            store::counts_of(fetched),
        ).commit_comments_synced == fetched.commit_comments@.len(),
        fetched.issue_events@.len() <= u64::MAX ==> summary::summary_of(
            repository,
            store::counts_of(fetched),
        ).issue_events_synced == fetched.issue_events@.len(),
        fetched.deployments@.len() <= u64::MAX ==> summary::summary_of(
            repository,
            store::counts_of(fetched),
        ).deployments_synced == fetched.deployments@.len(),
        fetched.pull_request_commits@.len() <= u64::MAX ==> summary::summary_of(
            repository,
            store::counts_of(fetched),
        ).pull_request_commits_synced == fetched.pull_request_commits@.len(),
        fetched.commit_statuses@.len() <= u64::MAX ==> summary::summary_of(
            repository,
            store::counts_of(fetched),
        ).commit_statuses_synced == fetched.commit_statuses@.len(),
        fetched.workflow_jobs@.len() <= u64::MAX ==> summary::summary_of(
            repository,
            store::counts_of(fetched),
        ).workflow_jobs_synced == fetched.workflow_jobs@.len(),
        fetched.issue_reactions@.len() <= u64::MAX ==> summary::summary_of(
            repository,
            store::counts_of(fetched),
        ).issue_reactions_synced == fetched.issue_reactions@.len(),
        fetched.check_runs@.len() <= u64::MAX ==> summary::summary_of(
            repository,
            store::counts_of(fetched),
        ).check_runs_synced == fetched.check_runs@.len(),
        fetched.issue_timeline@.len() <= u64::MAX ==> summary::summary_of(
            repository,
            store::counts_of(fetched),
        ).issue_timeline_synced == fetched.issue_timeline@.len(),
{
}

/// A summary says of each table what was counted for it.
pub proof fn summary_says_what_was_counted(repository: String, counts: RowCounts)
    ensures
        summary::summary_of(repository, counts).repository == repository,
        summary::summary_of(repository, counts).issues_synced == counts.issues,
        summary::summary_of(repository, counts).pull_requests_synced == counts.pull_requests,
        summary::summary_of(repository, counts).commits_synced == counts.commits,
        summary::summary_of(repository, counts).comments_synced == counts.comments,
        summary::summary_of(repository, counts).review_comments_synced == counts.review_comments,
        summary::summary_of(repository, counts).reviews_synced == counts.reviews,
        summary::summary_of(repository, counts).labels_synced == counts.labels,
        summary::summary_of(repository, counts).milestones_synced == counts.milestones,
        summary::summary_of(repository, counts).releases_synced == counts.releases,
        summary::summary_of(repository, counts).branches_synced == counts.branches,
        summary::summary_of(repository, counts).contributors_synced == counts.contributors,
        summary::summary_of(repository, counts).workflow_runs_synced == counts.workflow_runs,
        summary::summary_of(repository, counts).pull_request_files_synced == counts.pull_request_files,
        summary::summary_of(repository, counts).tags_synced == counts.tags,
        summary::summary_of(repository, counts).commit_files_synced == counts.commit_files,
        summary::summary_of(repository, counts).review_threads_synced == counts.review_threads,
        summary::summary_of(repository, counts).commit_comments_synced == counts.commit_comments,
        summary::summary_of(repository, counts).issue_events_synced == counts.issue_events,
        summary::summary_of(repository, counts).deployments_synced == counts.deployments,
        summary::summary_of(repository, counts).pull_request_commits_synced == counts.pull_request_commits,
        summary::summary_of(repository, counts).commit_statuses_synced == counts.commit_statuses,
        summary::summary_of(repository, counts).workflow_jobs_synced == counts.workflow_jobs,
        summary::summary_of(repository, counts).issue_reactions_synced == counts.issue_reactions,
        summary::summary_of(repository, counts).check_runs_synced == counts.check_runs,
        summary::summary_of(repository, counts).issue_timeline_synced == counts.issue_timeline,
{
}

/// Counting further rows adds to each table what is counted for it, and leaves
/// the name alone.
pub proof fn counting_adds_table_by_table(before: SyncSummary, more: RowCounts)
    requires
        summary::room_for(before, more),
    ensures
        summary::tallied(before, more).repository == before.repository,
        summary::tallied(before, more).issues_synced == before.issues_synced + more.issues,
        summary::tallied(before, more).pull_requests_synced == before.pull_requests_synced + more.pull_requests,
        summary::tallied(before, more).commits_synced == before.commits_synced + more.commits,
        summary::tallied(before, more).comments_synced == before.comments_synced + more.comments,
        summary::tallied(before, more).review_comments_synced == before.review_comments_synced + more.review_comments,
        summary::tallied(before, more).reviews_synced == before.reviews_synced + more.reviews,
        summary::tallied(before, more).labels_synced == before.labels_synced + more.labels,
        summary::tallied(before, more).milestones_synced == before.milestones_synced + more.milestones,
        summary::tallied(before, more).releases_synced == before.releases_synced + more.releases,
        summary::tallied(before, more).branches_synced == before.branches_synced + more.branches,
        summary::tallied(before, more).contributors_synced == before.contributors_synced + more.contributors,
        summary::tallied(before, more).workflow_runs_synced == before.workflow_runs_synced + more.workflow_runs,
        summary::tallied(before, more).pull_request_files_synced == before.pull_request_files_synced + more.pull_request_files,
        summary::tallied(before, more).tags_synced == before.tags_synced + more.tags,
        summary::tallied(before, more).commit_files_synced == before.commit_files_synced + more.commit_files,
        summary::tallied(before, more).review_threads_synced == before.review_threads_synced + more.review_threads,
        summary::tallied(before, more).commit_comments_synced == before.commit_comments_synced + more.commit_comments,
        summary::tallied(before, more).issue_events_synced == before.issue_events_synced + more.issue_events,
        summary::tallied(before, more).deployments_synced == before.deployments_synced + more.deployments,
        summary::tallied(before, more).pull_request_commits_synced == before.pull_request_commits_synced + more.pull_request_commits,
        summary::tallied(before, more).commit_statuses_synced == before.commit_statuses_synced + more.commit_statuses,
        summary::tallied(before, more).workflow_jobs_synced == before.workflow_jobs_synced + more.workflow_jobs,
        summary::tallied(before, more).issue_reactions_synced == before.issue_reactions_synced + more.issue_reactions,
        summary::tallied(before, more).check_runs_synced == before.check_runs_synced + more.check_runs,
        summary::tallied(before, more).issue_timeline_synced == before.issue_timeline_synced + more.issue_timeline,
{
}

/// Rows can be counted as long as every count fits 64 bits, and only then.
pub proof fn there_is_room_while_every_count_fits(before: SyncSummary, more: RowCounts)
    ensures
        summary::room_for(before, more) <==> {
            &&& before.issues_synced + more.issues <= 0xffff_ffff_ffff_ffff
            &&& before.pull_requests_synced + more.pull_requests <= 0xffff_ffff_ffff_ffff
            &&& before.commits_synced + more.commits <= 0xffff_ffff_ffff_ffff
            &&& before.comments_synced + more.comments <= 0xffff_ffff_ffff_ffff
            &&& before.review_comments_synced + more.review_comments <= 0xffff_ffff_ffff_ffff
            &&& before.reviews_synced + more.reviews <= 0xffff_ffff_ffff_ffff
            &&& before.labels_synced + more.labels <= 0xffff_ffff_ffff_ffff
            &&& before.milestones_synced + more.milestones <= 0xffff_ffff_ffff_ffff
            &&& before.releases_synced + more.releases <= 0xffff_ffff_ffff_ffff
            &&& before.branches_synced + more.branches <= 0xffff_ffff_ffff_ffff
            &&& before.contributors_synced + more.contributors <= 0xffff_ffff_ffff_ffff
            &&& before.workflow_runs_synced + more.workflow_runs <= 0xffff_ffff_ffff_ffff
            &&& before.pull_request_files_synced + more.pull_request_files <= 0xffff_ffff_ffff_ffff
            &&& before.tags_synced + more.tags <= 0xffff_ffff_ffff_ffff
            &&& before.commit_files_synced + more.commit_files <= 0xffff_ffff_ffff_ffff
            &&& before.review_threads_synced + more.review_threads <= 0xffff_ffff_ffff_ffff
            &&& before.commit_comments_synced + more.commit_comments <= 0xffff_ffff_ffff_ffff
            &&& before.issue_events_synced + more.issue_events <= 0xffff_ffff_ffff_ffff
            &&& before.deployments_synced + more.deployments <= 0xffff_ffff_ffff_ffff
            &&& before.pull_request_commits_synced + more.pull_request_commits <= 0xffff_ffff_ffff_ffff
            &&& before.commit_statuses_synced + more.commit_statuses <= 0xffff_ffff_ffff_ffff
            &&& before.workflow_jobs_synced + more.workflow_jobs <= 0xffff_ffff_ffff_ffff
            &&& before.issue_reactions_synced + more.issue_reactions <= 0xffff_ffff_ffff_ffff
            &&& before.check_runs_synced + more.check_runs <= 0xffff_ffff_ffff_ffff
            &&& before.issue_timeline_synced + more.issue_timeline <= 0xffff_ffff_ffff_ffff
        },
{
}

/// Where nothing is counted, every table has no rows.
pub proof fn nothing_is_counted_before_the_first_row(before: SyncSummary)
    ensures
        summary::no_rows().issues == 0,
        summary::no_rows().pull_requests == 0,
        summary::no_rows().commits == 0,
        summary::no_rows().comments == 0,
        summary::no_rows().review_comments == 0,
        summary::no_rows().reviews == 0,
        summary::no_rows().labels == 0,
        summary::no_rows().milestones == 0,
        summary::no_rows().releases == 0,
        summary::no_rows().branches == 0,
        summary::no_rows().contributors == 0,
        summary::no_rows().workflow_runs == 0,
        summary::no_rows().pull_request_files == 0,
        summary::no_rows().tags == 0,
        summary::no_rows().commit_files == 0,
        summary::no_rows().review_threads == 0,
        summary::no_rows().commit_comments == 0,
        summary::no_rows().issue_events == 0,
        summary::no_rows().deployments == 0,
        summary::no_rows().pull_request_commits == 0,
        summary::no_rows().commit_statuses == 0,
        summary::no_rows().workflow_jobs == 0,
        summary::no_rows().issue_reactions == 0,
        summary::no_rows().check_runs == 0,
        summary::no_rows().issue_timeline == 0,
        before.is_blank() ==> before.issues_synced == 0,
        before.is_blank() ==> before.pull_requests_synced == 0,
        before.is_blank() ==> before.commits_synced == 0,
        before.is_blank() ==> before.comments_synced == 0,
        before.is_blank() ==> before.review_comments_synced == 0,
        before.is_blank() ==> before.reviews_synced == 0,
        before.is_blank() ==> before.labels_synced == 0,
        before.is_blank() ==> before.milestones_synced == 0,
        before.is_blank() ==> before.releases_synced == 0,
        before.is_blank() ==> before.branches_synced == 0,
        before.is_blank() ==> before.contributors_synced == 0,
        before.is_blank() ==> before.workflow_runs_synced == 0,
        before.is_blank() ==> before.pull_request_files_synced == 0,
        before.is_blank() ==> before.tags_synced == 0,
        before.is_blank() ==> before.commit_files_synced == 0,
        before.is_blank() ==> before.review_threads_synced == 0,
        before.is_blank() ==> before.commit_comments_synced == 0,
        before.is_blank() ==> before.issue_events_synced == 0,
        before.is_blank() ==> before.deployments_synced == 0,
        before.is_blank() ==> before.pull_request_commits_synced == 0,
        before.is_blank() ==> before.commit_statuses_synced == 0,
        before.is_blank() ==> before.workflow_jobs_synced == 0,
        before.is_blank() ==> before.issue_reactions_synced == 0,
        before.is_blank() ==> before.check_runs_synced == 0,
        before.is_blank() ==> before.issue_timeline_synced == 0,
{
}

/// A written listing of issues counts its issues, comments, events and people,
/// and nothing else.
pub proof fn issue_listing_counts_its_rows(listing: IssueListing)
    ensures
        ({
            let counts = worker::issue_listing_counts(listing);
            &&& listing.issues@.len() <= u64::MAX ==> counts.issues == listing.issues@.len()
            &&& counts.pull_requests == 0
            &&& counts.commits == 0
            &&& listing.comments@.len() <= u64::MAX ==> counts.comments == listing.comments@.len()
            &&& counts.review_comments == 0
            &&& counts.reviews == 0
            &&& counts.labels == 0
            &&& counts.milestones == 0
            &&& counts.releases == 0
            &&& counts.branches == 0
            &&& listing.contributors@.len() <= u64::MAX ==> counts.contributors == listing.contributors@.len()
            &&& counts.workflow_runs == 0
            &&& counts.pull_request_files == 0
            &&& counts.tags == 0
            &&& counts.commit_files == 0
            &&& counts.review_threads == 0
            &&& counts.commit_comments == 0
            &&& listing.issue_events@.len() <= u64::MAX ==> counts.issue_events == listing.issue_events@.len()
            &&& counts.deployments == 0
            &&& counts.pull_request_commits == 0
            &&& counts.commit_statuses == 0
            &&& counts.workflow_jobs == 0
            &&& counts.issue_reactions == 0
            &&& counts.check_runs == 0
            &&& counts.issue_timeline == 0
        }),
{
}

/// The written details of an issue count its reactions and its timeline, and
/// nothing else.
pub proof fn issue_detail_counts_its_rows(detail: IssueDetail)
    ensures
        ({
            let counts = worker::issue_detail_counts(detail);
            &&& counts.issues == 0
            &&& counts.pull_requests == 0
            &&& counts.commits == 0
            &&& counts.comments == 0
            &&& counts.review_comments == 0
            &&& counts.reviews == 0
            &&& counts.labels == 0
            &&& counts.milestones == 0
            &&& counts.releases == 0
            &&& counts.branches == 0
            &&& counts.contributors == 0
            &&& counts.workflow_runs == 0
            &&& counts.pull_request_files == 0
            &&& counts.tags == 0
            &&& counts.commit_files == 0
            &&& counts.review_threads == 0
            &&& counts.commit_comments == 0
            &&& counts.issue_events == 0
            &&& counts.deployments == 0
            &&& counts.pull_request_commits == 0
            &&& counts.commit_statuses == 0
            &&& counts.workflow_jobs == 0
            &&& detail.reactions@.len() <= u64::MAX ==> counts.issue_reactions == detail.reactions@.len()
            &&& counts.check_runs == 0
            &&& detail.timeline@.len() <= u64::MAX ==> counts.issue_timeline == detail.timeline@.len()
        }),
{
}

/// A written listing of pull requests counts them, their review comments and
/// people, and nothing else.
pub proof fn pull_listing_counts_its_rows(listing: PullListing)
    ensures
        ({
            let counts = worker::pull_listing_counts(listing);
            &&& counts.issues == 0
            &&& listing.pull_requests@.len() <= u64::MAX ==> counts.pull_requests == listing.pull_requests@.len()
            &&& counts.commits == 0
            &&& counts.comments == 0
            &&& listing.review_comments@.len() <= u64::MAX ==> counts.review_comments == listing.review_comments@.len()
            &&& counts.reviews == 0
            &&& counts.labels == 0
            &&& counts.milestones == 0
            &&& counts.releases == 0
            &&& counts.branches == 0
            &&& listing.contributors@.len() <= u64::MAX ==> counts.contributors == listing.contributors@.len()
            &&& counts.workflow_runs == 0
            &&& counts.pull_request_files == 0
            &&& counts.tags == 0
            &&& counts.commit_files == 0
            &&& counts.review_threads == 0
            &&& counts.commit_comments == 0
            &&& counts.issue_events == 0
            &&& counts.deployments == 0
            &&& counts.pull_request_commits == 0
            &&& counts.commit_statuses == 0
            &&& counts.workflow_jobs == 0
            &&& counts.issue_reactions == 0
            &&& counts.check_runs == 0
            &&& counts.issue_timeline == 0
        }),
{
}

/// The written details of a pull request count its reviews, files, commits,
/// threads and people, and nothing else.
pub proof fn pull_detail_counts_its_rows(detail: PullDetail)
    ensures
        ({
            let counts = worker::pull_detail_counts(detail);
            &&& counts.issues == 0
            &&& counts.pull_requests == 0
            &&& counts.commits == 0
            &&& counts.comments == 0
            &&& counts.review_comments == 0
            &&& detail.reviews@.len() <= u64::MAX ==> counts.reviews == detail.reviews@.len()
            &&& counts.labels == 0
            &&& counts.milestones == 0
            &&& counts.releases == 0
            &&& counts.branches == 0
            &&& detail.contributors@.len() <= u64::MAX ==> counts.contributors == detail.contributors@.len()
            &&& counts.workflow_runs == 0
            &&& detail.files@.len() <= u64::MAX ==> counts.pull_request_files == detail.files@.len()
            &&& counts.tags == 0
            &&& counts.commit_files == 0
            &&& detail.review_threads@.len() <= u64::MAX ==> counts.review_threads == detail.review_threads@.len()
            &&& counts.commit_comments == 0
            &&& counts.issue_events == 0
            &&& counts.deployments == 0
            &&& detail.commits@.len() <= u64::MAX ==> counts.pull_request_commits == detail.commits@.len()
            &&& counts.commit_statuses == 0
            &&& counts.workflow_jobs == 0
            &&& counts.issue_reactions == 0
            &&& counts.check_runs == 0
            &&& counts.issue_timeline == 0
        }),
{
}

/// A written listing of commits counts them, their comments and people, and
/// nothing else.
pub proof fn commit_listing_counts_its_rows(listing: CommitListing)
    ensures
        ({
            let counts = worker::commit_listing_counts(listing);
            &&& counts.issues == 0
            &&& counts.pull_requests == 0
            &&& listing.commits@.len() <= u64::MAX ==> counts.commits == listing.commits@.len()
            &&& counts.comments == 0
            &&& counts.review_comments == 0
            &&& counts.reviews == 0
            &&& counts.labels == 0
            &&& counts.milestones == 0
            &&& counts.releases == 0
            &&& counts.branches == 0
            &&& listing.contributors@.len() <= u64::MAX ==> counts.contributors == listing.contributors@.len()
            &&& counts.workflow_runs == 0
            &&& counts.pull_request_files == 0
            &&& counts.tags == 0
            &&& counts.commit_files == 0
            &&& counts.review_threads == 0
            &&& listing.commit_comments@.len() <= u64::MAX ==> counts.commit_comments == listing.commit_comments@.len()
            &&& counts.issue_events == 0
            &&& counts.deployments == 0
            &&& counts.pull_request_commits == 0
            &&& counts.commit_statuses == 0
            &&& counts.workflow_jobs == 0
            &&& counts.issue_reactions == 0
            &&& counts.check_runs == 0
            &&& counts.issue_timeline == 0
        }),
{
}

/// The written details of a commit count its files, statuses and check runs,
/// and nothing else.
pub proof fn commit_detail_counts_its_rows(detail: CommitDetail)
    ensures
        ({
            let counts = worker::commit_detail_counts(detail);
            &&& counts.issues == 0
            &&& counts.pull_requests == 0
            &&& counts.commits == 0
            &&& counts.comments == 0
            &&& counts.review_comments == 0
            &&& counts.reviews == 0
            &&& counts.labels == 0
            &&& counts.milestones == 0
            &&& counts.releases == 0
            &&& counts.branches == 0
            &&& counts.contributors == 0
            &&& counts.workflow_runs == 0
            &&& counts.pull_request_files == 0
            &&& counts.tags == 0
            &&& detail.files@.len() <= u64::MAX ==> counts.commit_files == detail.files@.len()
            &&& counts.review_threads == 0
            &&& counts.commit_comments == 0
            &&& counts.issue_events == 0
            &&& counts.deployments == 0
            &&& counts.pull_request_commits == 0
            &&& detail.statuses@.len() <= u64::MAX ==> counts.commit_statuses == detail.statuses@.len()
            &&& counts.workflow_jobs == 0
            &&& counts.issue_reactions == 0
            &&& detail.check_runs@.len() <= u64::MAX ==> counts.check_runs == detail.check_runs@.len()
            &&& counts.issue_timeline == 0
        }),
{
}

/// A written listing of metadata counts its labels, milestones, releases,
/// branches and tags, and nothing else.
pub proof fn metadata_listing_counts_its_rows(listing: MetadataListing)
    ensures
        ({
            let counts = worker::metadata_listing_counts(listing);
            &&& counts.issues == 0
            &&& counts.pull_requests == 0
            &&& counts.commits == 0
            &&& counts.comments == 0
            &&& counts.review_comments == 0
            &&& counts.reviews == 0
            &&& listing.labels@.len() <= u64::MAX ==> counts.labels == listing.labels@.len()
            &&& listing.milestones@.len() <= u64::MAX ==> counts.milestones == listing.milestones@.len()
            &&& listing.releases@.len() <= u64::MAX ==> counts.releases == listing.releases@.len()
            &&& listing.branches@.len() <= u64::MAX ==> counts.branches == listing.branches@.len()
            &&& counts.contributors == 0
            &&& counts.workflow_runs == 0
            &&& counts.pull_request_files == 0
            &&& listing.tags@.len() <= u64::MAX ==> counts.tags == listing.tags@.len()
            &&& counts.commit_files == 0
            &&& counts.review_threads == 0
            &&& counts.commit_comments == 0
            &&& counts.issue_events == 0
            &&& counts.deployments == 0
            &&& counts.pull_request_commits == 0
            &&& counts.commit_statuses == 0
            &&& counts.workflow_jobs == 0
            &&& counts.issue_reactions == 0
            &&& counts.check_runs == 0
            &&& counts.issue_timeline == 0
        }),
{
}

/// A written listing of actions counts its workflow runs and deployments, and
/// nothing else.
pub proof fn actions_listing_counts_its_rows(listing: ActionsListing)
    ensures
        ({
            let counts = worker::actions_listing_counts(listing);
            &&& counts.issues == 0
            &&& counts.pull_requests == 0
            &&& counts.commits == 0
            &&& counts.comments == 0
            &&& counts.review_comments == 0
            &&& counts.reviews == 0
            &&& counts.labels == 0
            &&& counts.milestones == 0
            &&& counts.releases == 0
            &&& counts.branches == 0
            &&& counts.contributors == 0
            &&& listing.workflow_runs@.len() <= u64::MAX ==> counts.workflow_runs == listing.workflow_runs@.len()
            &&& counts.pull_request_files == 0
            &&& counts.tags == 0
            &&& counts.commit_files == 0
            &&& counts.review_threads == 0
            &&& counts.commit_comments == 0
            &&& counts.issue_events == 0
            &&& listing.deployments@.len() <= u64::MAX ==> counts.deployments == listing.deployments@.len()
            &&& counts.pull_request_commits == 0
            &&& counts.commit_statuses == 0
            &&& counts.workflow_jobs == 0
            &&& counts.issue_reactions == 0
            &&& counts.check_runs == 0
            &&& counts.issue_timeline == 0
        }),
{
}

/// The written jobs of a workflow run count as jobs, and as nothing else.
pub proof fn workflow_jobs_count_their_rows(jobs: Seq<WorkflowJobRecord>)
    ensures
        ({
            let counts = worker::workflow_job_counts(jobs);
            &&& counts.issues == 0
            &&& counts.pull_requests == 0
            &&& counts.commits == 0
            &&& counts.comments == 0
            &&& counts.review_comments == 0
            &&& counts.reviews == 0
            &&& counts.labels == 0
            &&& counts.milestones == 0
            &&& counts.releases == 0
            &&& counts.branches == 0
            &&& counts.contributors == 0
            &&& counts.workflow_runs == 0
            &&& counts.pull_request_files == 0
            &&& counts.tags == 0
            &&& counts.commit_files == 0
            &&& counts.review_threads == 0
            &&& counts.commit_comments == 0
            &&& counts.issue_events == 0
            &&& counts.deployments == 0
            &&& counts.pull_request_commits == 0
            &&& counts.commit_statuses == 0
            &&& jobs.len() <= u64::MAX ==> counts.workflow_jobs == jobs.len()
            &&& counts.issue_reactions == 0
            &&& counts.check_runs == 0
            &&& counts.issue_timeline == 0
        }),
{
}

} // verus!
