//! A whole repository fetched: which requests, in which order, and what their
//! answers amount to.

use crate::client::{
    FetchRequest, Page, PER_COMMIT_SYNC_CAP, PER_ISSUE_SYNC_CAP, PER_PULL_SYNC_CAP,
    PER_RUN_SYNC_CAP,
};
use crate::convert;
use crate::convert::{InCommit, InIssue, InPull, InRepo, IntoRecord};
use crate::json;
use crate::ports::{FetchedRepository, Listing, ListingCompleteness};
use crate::records::{
    CheckRunRecord, CommitFileRecord, CommitRecord, CommitStatusRecord, IssueReactionRecord,
    IssueRecord, IssueTimelineEventRecord, PullRequestCommitRecord, PullRequestFileRecord,
    PullRequestRecord, RepoRow, ReviewRecord, ReviewThreadRecord, WorkflowJobRecord,
};
use crate::wire::{
    GhBranch, GhCheckRun, GhComment, GhCommit, GhCommitComment, GhCommitDetail, GhCommitStatus,
    GhContributor, GhDeployment, GhIssue, GhIssueEvent, GhIssueReaction, GhLabel, GhMilestone,
    GhPullFile, GhPullRequest, GhRelease, GhRepository, GhReview, GhReviewComment, GhTag,
    GhWorkflowJob, GhWorkflowRun,
};
use serde_json::Value;
use vstd::prelude::*;
use vstd::string::*;

verus! {

// ---------------------------------------------------------------------------
// Requests
// ---------------------------------------------------------------------------

/// The first requests of a fetch: the repository, then its listings.
pub open spec fn opening_requests() -> Seq<FetchRequest> {
    seq![
        FetchRequest::Repository,
        FetchRequest::Page(Page::Issues),
        FetchRequest::Page(Page::Pulls),
        FetchRequest::Page(Page::Commits),
        FetchRequest::Page(Page::Comments),
        FetchRequest::Page(Page::ReviewComments),
        FetchRequest::Page(Page::Labels),
        FetchRequest::Page(Page::Milestones),
        FetchRequest::Page(Page::Releases),
        FetchRequest::Page(Page::Branches),
        FetchRequest::Page(Page::Contributors),
        FetchRequest::Page(Page::WorkflowRuns),
        FetchRequest::Page(Page::Deployments),
        FetchRequest::Page(Page::IssueEvents),
        FetchRequest::Page(Page::CommitComments),
        FetchRequest::Page(Page::Tags),
    ]
}

/// See [`opening_requests`].
pub fn first_requests() -> (out: Vec<FetchRequest>)
    ensures
        out@ == opening_requests(),
{
    let out = vec![
        FetchRequest::Repository,
        FetchRequest::Page(Page::Issues),
        FetchRequest::Page(Page::Pulls),
        FetchRequest::Page(Page::Commits),
        FetchRequest::Page(Page::Comments),
        FetchRequest::Page(Page::ReviewComments),
        FetchRequest::Page(Page::Labels),
        FetchRequest::Page(Page::Milestones),
        FetchRequest::Page(Page::Releases),
        FetchRequest::Page(Page::Branches),
        FetchRequest::Page(Page::Contributors),
        FetchRequest::Page(Page::WorkflowRuns),
        FetchRequest::Page(Page::Deployments),
        FetchRequest::Page(Page::IssueEvents),
        FetchRequest::Page(Page::CommitComments),
        FetchRequest::Page(Page::Tags),
    ];
    assert(out@ =~= opening_requests());
    out
}

/// How many of a page's items are looked at one by one.
pub open spec fn capped(length: nat, cap: usize) -> nat {
    if length <= cap {
        length
    } else {
        cap as nat
    }
}

fn first_few(length: usize, cap: usize) -> (out: usize)
    ensures
        out == capped(length as nat, cap),
{
    if length <= cap {
        length
    } else {
        cap
    }
}

/// The reactions of the first few issues, then their timelines.
pub open spec fn issue_requests(issues: Seq<GhIssue>) -> Seq<FetchRequest> {
    let few = issues.take(capped(issues.len(), PER_ISSUE_SYNC_CAP) as int);
    few.map_values(|issue: GhIssue| FetchRequest::IssueReactions(issue.number))
        + few.map_values(|issue: GhIssue| FetchRequest::IssueTimeline(issue.number))
}

/// The jobs of the first few workflow runs.
pub open spec fn run_requests(runs: Seq<GhWorkflowRun>) -> Seq<FetchRequest> {
    runs.take(capped(runs.len(), PER_RUN_SYNC_CAP) as int).map_values(
        |run: GhWorkflowRun| FetchRequest::RunJobs(run.id),
    )
}

/// Details, statuses and check runs of a number of commits, commit by commit.
pub open spec fn commit_requests(commits: Seq<GhCommit>, few: nat) -> Seq<FetchRequest>
    decreases few,
{
    if few == 0 {
        Seq::empty()
    } else {
        let sha = commits[few - 1].sha;
        commit_requests(commits, (few - 1) as nat).push(FetchRequest::Commit(sha)).push(
            FetchRequest::CommitStatuses(sha),
        ).push(FetchRequest::CommitCheckRuns(sha))
    }
}

/// Reviews, files, commits and review threads of a number of pull requests, one
/// after the other.
pub open spec fn pull_requests_of(pulls: Seq<GhPullRequest>, few: nat) -> Seq<FetchRequest>
    decreases few,
{
    if few == 0 {
        Seq::empty()
    } else {
        let number = pulls[few - 1].number;
        pull_requests_of(pulls, (few - 1) as nat).push(FetchRequest::PullReviews(number)).push(
            FetchRequest::PullFiles(number),
        ).push(FetchRequest::PullCommits(number)).push(FetchRequest::PullThreads(number))
    }
}

/// The requests that follow the listings.
pub open spec fn following_requests(
    issues: Seq<GhIssue>,
    runs: Seq<GhWorkflowRun>,
    commits: Seq<GhCommit>,
    pulls: Seq<GhPullRequest>,
) -> Seq<FetchRequest> {
    issue_requests(issues) + run_requests(runs) + commit_requests(
        commits,
        capped(commits.len(), PER_COMMIT_SYNC_CAP),
    ) + pull_requests_of(pulls, capped(pulls.len(), PER_PULL_SYNC_CAP))
}

/// The requests that follow the listings, in order.
pub fn detail_requests(
    issues: &Vec<GhIssue>,
    runs: &Vec<GhWorkflowRun>,
    commits: &Vec<GhCommit>,
    pulls: &Vec<GhPullRequest>,
) -> (out: Vec<FetchRequest>)
    ensures
        out@ == following_requests(issues@, runs@, commits@, pulls@),
{
    let mut out: Vec<FetchRequest> = Vec::new();
    let few: usize = first_few(issues.len(), PER_ISSUE_SYNC_CAP);
    let ghost reactions = issues@.take(few as int).map_values(
        |issue: GhIssue| FetchRequest::IssueReactions(issue.number),
    );
    let ghost timelines = issues@.take(few as int).map_values(
        |issue: GhIssue| FetchRequest::IssueTimeline(issue.number),
    );
    for i in 0..few
        invariant
            few <= issues@.len(),
            reactions == issues@.take(few as int).map_values(
                |issue: GhIssue| FetchRequest::IssueReactions(issue.number),
            ),
            out@ == reactions.take(i as int),
    {
        out.push(FetchRequest::IssueReactions(issues[i].number));
        assert(out@ =~= reactions.take(i + 1));
    }
    assert(reactions.take(few as int) =~= reactions);
    for i in 0..few
        invariant
            few <= issues@.len(),
            timelines == issues@.take(few as int).map_values(
                |issue: GhIssue| FetchRequest::IssueTimeline(issue.number),
            ),
            out@ == reactions + timelines.take(i as int),
    {
        out.push(FetchRequest::IssueTimeline(issues[i].number));
        assert(out@ =~= reactions + timelines.take(i + 1));
    }
    assert(timelines.take(few as int) =~= timelines);
    assert(out@ == issue_requests(issues@));
    let ghost before = out@;
    let few: usize = first_few(runs.len(), PER_RUN_SYNC_CAP);
    for i in 0..few
        invariant
            few == capped(runs@.len(), PER_RUN_SYNC_CAP),
            out@ == before + run_requests(runs@).take(i as int),
    {
        out.push(FetchRequest::RunJobs(runs[i].id));
        assert(out@ =~= before + run_requests(runs@).take(i + 1));
    }
    assert(run_requests(runs@).take(few as int) =~= run_requests(runs@));
    let ghost before = out@;
    let few: usize = first_few(commits.len(), PER_COMMIT_SYNC_CAP);
    for i in 0..few
        invariant
            few <= commits@.len(),
            out@ == before + commit_requests(commits@, i as nat),
    {
        let sha = &commits[i].sha;
        out.push(FetchRequest::Commit(sha.clone()));
        out.push(FetchRequest::CommitStatuses(sha.clone()));
        out.push(FetchRequest::CommitCheckRuns(sha.clone()));
        assert(out@ =~= before + commit_requests(commits@, (i + 1) as nat));
    }
    let ghost before = out@;
    let few: usize = first_few(pulls.len(), PER_PULL_SYNC_CAP);
    for i in 0..few
        invariant
            few <= pulls@.len(),
            out@ == before + pull_requests_of(pulls@, i as nat),
    {
        let number: i64 = pulls[i].number;
        out.push(FetchRequest::PullReviews(number));
        out.push(FetchRequest::PullFiles(number));
        out.push(FetchRequest::PullCommits(number));
        out.push(FetchRequest::PullThreads(number));
        assert(out@ =~= before + pull_requests_of(pulls@, (i + 1) as nat));
    }
    out
}

proof fn lemma_commit_requests_len(commits: Seq<GhCommit>, few: nat)
    ensures
        commit_requests(commits, few).len() == 3 * few,
    decreases few,
{
    if few > 0 {
        lemma_commit_requests_len(commits, (few - 1) as nat);
    }
}

proof fn lemma_pull_requests_len(pulls: Seq<GhPullRequest>, few: nat)
    ensures
        pull_requests_of(pulls, few).len() == 4 * few,
    decreases few,
{
    if few > 0 {
        lemma_pull_requests_len(pulls, (few - 1) as nat);
    }
}

/// A fetch makes a bounded number of calls, whatever its pages hold.
pub proof fn calls_are_bounded(
    issues: Seq<GhIssue>,
    runs: Seq<GhWorkflowRun>,
    commits: Seq<GhCommit>,
    pulls: Seq<GhPullRequest>,
)
    ensures
        opening_requests().len() + following_requests(issues, runs, commits, pulls).len() <= 116,
{
    lemma_commit_requests_len(commits, capped(commits.len(), PER_COMMIT_SYNC_CAP));
    lemma_pull_requests_len(pulls, capped(pulls.len(), PER_PULL_SYNC_CAP));
}

// ---------------------------------------------------------------------------
// Answers
// ---------------------------------------------------------------------------

/// The answers about one commit.
#[derive(Debug)]
pub struct CommitPages {
    pub detail: GhCommitDetail,
    pub statuses: Vec<GhCommitStatus>,
    pub check_runs: Vec<GhCheckRun>,
}

/// The answers about one pull request.
#[derive(Debug)]
pub struct PullPages {
    pub reviews: Vec<GhReview>,
    pub files: Vec<GhPullFile>,
    pub commits: Vec<GhCommit>,
    /// The GraphQL answer about its review threads.
    pub threads: Value,
}

/// The answers about several commits, brought together commit by commit: those
/// at the same place are about the same one. `None` when there are not as many
/// of each.
pub fn pair_commit_pages(
    details: Vec<GhCommitDetail>,
    mut statuses: Vec<Vec<GhCommitStatus>>,
    mut check_runs: Vec<Vec<GhCheckRun>>,
) -> (out: Option<Vec<CommitPages>>)
    ensures
        out is Some <==> details@.len() == statuses@.len() && details@.len() == check_runs@.len(),
        out matches Some(pages) ==> pages@ == Seq::new(
            details@.len(),
            |i: int|
                CommitPages {
                    detail: details@[i],
                    statuses: statuses@[i],
                    check_runs: check_runs@[i],
                },
        ),
{
    let ghost all_statuses = statuses@;
    let ghost all_check_runs = check_runs@;
    if details.len() != statuses.len() || details.len() != check_runs.len() {
        return None;
    }
    let mut pages: Vec<CommitPages> = Vec::new();
    for detail in it: details
        invariant
            it.seq() == details@,
            details@.len() == all_statuses.len(),
            details@.len() == all_check_runs.len(),
            pages@.len() == it.index(),
            statuses@ == all_statuses.skip(it.index() as int),
            check_runs@ == all_check_runs.skip(it.index() as int),
            forall|k: int|
                0 <= k < pages@.len() ==> (#[trigger] pages@[k]) == (CommitPages {
                    detail: details@[k],
                    statuses: all_statuses[k],
                    check_runs: all_check_runs[k],
                }),
    {
        let commit_statuses = statuses.remove(0);
        let commit_check_runs = check_runs.remove(0);
        assert(statuses@ =~= all_statuses.skip(it.index() + 1));
        assert(check_runs@ =~= all_check_runs.skip(it.index() + 1));
        pages.push(
            CommitPages { detail, statuses: commit_statuses, check_runs: commit_check_runs },
        );
    }
    Some(pages)
}

/// The answers about several pull requests, brought together as those about
/// commits are.
pub fn pair_pull_pages(
    reviews: Vec<Vec<GhReview>>,
    mut files: Vec<Vec<GhPullFile>>,
    mut commits: Vec<Vec<GhCommit>>,
    mut threads: Vec<Value>,
) -> (out: Option<Vec<PullPages>>)
    ensures
        out is Some <==> reviews@.len() == files@.len() && reviews@.len() == commits@.len()
            && reviews@.len() == threads@.len(),
        out matches Some(pages) ==> pages@ == Seq::new(
            reviews@.len(),
            |i: int|
                PullPages {
                    reviews: reviews@[i],
                    files: files@[i],
                    commits: commits@[i],
                    threads: threads@[i],
                },
        ),
{
    let ghost all_files = files@;
    let ghost all_commits = commits@;
    let ghost all_threads = threads@;
    if reviews.len() != files.len() || reviews.len() != commits.len() || reviews.len()
        != threads.len() {
        return None;
    }
    let mut pages: Vec<PullPages> = Vec::new();
    for pull_reviews in it: reviews
        invariant
            it.seq() == reviews@,
            reviews@.len() == all_files.len(),
            reviews@.len() == all_commits.len(),
            reviews@.len() == all_threads.len(),
            pages@.len() == it.index(),
            files@ == all_files.skip(it.index() as int),
            commits@ == all_commits.skip(it.index() as int),
            threads@ == all_threads.skip(it.index() as int),
            forall|k: int|
                0 <= k < pages@.len() ==> (#[trigger] pages@[k]) == (PullPages {
                    reviews: reviews@[k],
                    files: all_files[k],
                    commits: all_commits[k],
                    threads: all_threads[k],
                }),
    {
        let pull_files = files.remove(0);
        let pull_commits = commits.remove(0);
        let pull_threads = threads.remove(0);
        assert(files@ =~= all_files.skip(it.index() + 1));
        assert(commits@ =~= all_commits.skip(it.index() + 1));
        assert(threads@ =~= all_threads.skip(it.index() + 1));
        pages.push(
            PullPages {
                reviews: pull_reviews,
                files: pull_files,
                commits: pull_commits,
                threads: pull_threads,
            },
        );
    }
    Some(pages)
}

/// Rows of several pages, one page after the other. Page `i` belongs at
/// `places[i]`.
pub open spec fn rows_of_pages<P, G: IntoRecord<P>>(
    pages: Seq<Seq<G>>,
    places: Seq<P>,
    rows: Seq<G::Record>,
) -> bool
    decreases pages.len(),
{
    if pages.len() == 0 {
        rows.len() == 0
    } else {
        let cut = rows.len() - pages.last().len();
        &&& cut >= 0
        &&& convert::rows_of(pages.last(), places[pages.len() - 1], rows.skip(cut))
        &&& rows_of_pages(pages.drop_last(), places, rows.take(cut))
    }
}

proof fn lemma_rows_of_one_more_page<P, G: IntoRecord<P>>(
    pages: Seq<Seq<G>>,
    places: Seq<P>,
    rows: Seq<G::Record>,
    page: Seq<G>,
    more: Seq<G::Record>,
)
    requires
        rows_of_pages::<P, G>(pages, places, rows),
        pages.len() < places.len(),
        convert::rows_of(page, places[pages.len() as int], more),
    ensures
        rows_of_pages::<P, G>(pages.push(page), places, rows + more),
{
    let all = rows + more;
    let cut = all.len() - page.len();
    assert(pages.push(page).drop_last() =~= pages);
    assert(all.skip(cut) =~= more);
    assert(all.take(cut) =~= rows);
}

/// The nodes of a list that have an id, in order.
pub open spec fn identified(nodes: Seq<Value>) -> Seq<Value>
    decreases nodes.len(),
{
    if nodes.len() == 0 {
        Seq::empty()
    } else if convert::has_thread_id(nodes.last()) {
        identified(nodes.drop_last()).push(nodes.last())
    } else {
        identified(nodes.drop_last())
    }
}

/// The review-thread nodes of an answer; none where it has no such list.
pub open spec fn thread_nodes_in(body: Value) -> Seq<Value> {
    match json::member_of(body, "data"@) {
        Some(data) => match json::member_of(data, "repository"@) {
            Some(repository) => match json::member_of(repository, "pullRequest"@) {
                Some(pull) => match json::member_of(pull, "reviewThreads"@) {
                    Some(threads) => match json::member_of(threads, "nodes"@) {
                        Some(nodes) => match json::json_array(nodes) {
                            Some(nodes) => nodes,
                            None => Seq::empty(),
                        },
                        None => Seq::empty(),
                    },
                    None => Seq::empty(),
                },
                None => Seq::empty(),
            },
            None => Seq::empty(),
        },
        None => Seq::empty(),
    }
}

fn thread_nodes(body: &Value) -> (out: Option<&Vec<Value>>)
    ensures
        match out {
            Some(nodes) => nodes@ == thread_nodes_in(*body),
            None => thread_nodes_in(*body).len() == 0,
        },
{
    let data = match json::get(body, "data") {
        Some(data) => data,
        None => return None,
    };
    let repository = match json::get(data, "repository") {
        Some(repository) => repository,
        None => return None,
    };
    let pull = match json::get(repository, "pullRequest") {
        Some(pull) => pull,
        None => return None,
    };
    let threads = match json::get(pull, "reviewThreads") {
        Some(threads) => threads,
        None => return None,
    };
    let nodes = match json::get(threads, "nodes") {
        Some(nodes) => nodes,
        None => return None,
    };
    json::as_array(nodes)
}

/// The rows are those of the nodes that have an id, in order.
pub open spec fn are_thread_rows(
    repo_id: i64,
    pull_number: i64,
    nodes: Seq<Value>,
    rows: Seq<ReviewThreadRecord>,
) -> bool {
    let kept = identified(nodes);
    &&& rows.len() == kept.len()
    &&& forall|i: int|
        0 <= i < kept.len() ==> convert::is_review_thread_record(
            repo_id,
            pull_number,
            #[trigger] kept[i],
            rows[i],
        )
}

/// The review threads of a pull request, from the GraphQL answer about them.
/// A thread without an id is left out.
pub fn review_thread_rows(repo_id: i64, pull_number: i64, body: &Value) -> (out: Vec<
    ReviewThreadRecord,
>)
    ensures
        are_thread_rows(repo_id, pull_number, thread_nodes_in(*body), out@),
{
    let mut out: Vec<ReviewThreadRecord> = Vec::new();
    let nodes = match thread_nodes(body) {
        Some(nodes) => nodes,
        None => return out,
    };
    let mut i: usize = 0;
    while i < nodes.len()
        invariant
            i <= nodes@.len(),
            are_thread_rows(repo_id, pull_number, nodes@.take(i as int), out@),
        decreases nodes@.len() - i,
    {
        let ghost before = identified(nodes@.take(i as int));
        assert(nodes@.take(i + 1).drop_last() =~= nodes@.take(i as int));
        match convert::review_thread_record(repo_id, pull_number, &nodes[i]) {
            Some(row) => {
                out.push(row);
                assert(identified(nodes@.take(i + 1)) == before.push(nodes@[i as int]));
            },
            None => {
                assert(identified(nodes@.take(i + 1)) == before);
            },
        }
        i = i + 1;
    }
    assert(nodes@.take(i as int) =~= nodes@);
    out
}

/// Thread rows of several pull requests, one after the other.
pub open spec fn thread_rows_of_pages(
    repo_id: i64,
    bodies: Seq<Value>,
    places: Seq<InPull>,
    rows: Seq<ReviewThreadRecord>,
) -> bool
    decreases bodies.len(),
{
    if bodies.len() == 0 {
        rows.len() == 0
    } else {
        let nodes = thread_nodes_in(bodies.last());
        let cut = rows.len() - identified(nodes).len();
        &&& cut >= 0
        &&& are_thread_rows(
            repo_id,
            places[bodies.len() - 1].pull_number,
            nodes,
            rows.skip(cut),
        )
        &&& thread_rows_of_pages(repo_id, bodies.drop_last(), places, rows.take(cut))
    }
}

proof fn lemma_threads_of_one_more_page(
    repo_id: i64,
    bodies: Seq<Value>,
    places: Seq<InPull>,
    rows: Seq<ReviewThreadRecord>,
    body: Value,
    more: Seq<ReviewThreadRecord>,
)
    requires
        thread_rows_of_pages(repo_id, bodies, places, rows),
        bodies.len() < places.len(),
        are_thread_rows(
            repo_id,
            places[bodies.len() as int].pull_number,
            thread_nodes_in(body),
            more,
        ),
    ensures
        thread_rows_of_pages(repo_id, bodies.push(body), places, rows + more),
{
    let all = rows + more;
    let cut = all.len() - more.len();
    assert(bodies.push(body).drop_last() =~= bodies);
    assert(all.skip(cut) =~= more);
    assert(all.take(cut) =~= rows);
}

/// Timeline rows of one issue: position by position.
pub open spec fn are_timeline_rows(
    repo_id: i64,
    issue_number: i64,
    entries: Seq<Value>,
    rows: Seq<IssueTimelineEventRecord>,
) -> bool {
    &&& rows.len() == entries.len()
    &&& forall|i: int|
        0 <= i < entries.len() ==> convert::is_issue_timeline_record(
            repo_id,
            issue_number,
            i as nat,
            #[trigger] entries[i],
            rows[i],
        )
}

/// The timeline of an issue as rows.
pub fn timeline_rows(repo_id: i64, issue_number: i64, entries: &Vec<Value>) -> (out: Vec<
    IssueTimelineEventRecord,
>)
    ensures
        are_timeline_rows(repo_id, issue_number, entries@, out@),
{
    let mut out: Vec<IssueTimelineEventRecord> = Vec::new();
    let mut i: usize = 0;
    while i < entries.len()
        invariant
            i <= entries@.len(),
            are_timeline_rows(repo_id, issue_number, entries@.take(i as int), out@),
        decreases entries@.len() - i,
    {
        out.push(convert::issue_timeline_record(repo_id, issue_number, i, &entries[i]));
        assert forall|k: int| 0 <= k < i + 1 implies convert::is_issue_timeline_record(
            repo_id,
            issue_number,
            k as nat,
            #[trigger] entries@.take(i + 1)[k],
            out@[k],
        ) by {
            if k < i {
                assert(entries@.take(i as int)[k] == entries@[k]);
            }
        }
        i = i + 1;
    }
    assert(entries@.take(i as int) =~= entries@);
    out
}

/// Timeline rows of several issues, one after the other.
pub open spec fn timeline_rows_of_pages(
    pages: Seq<Seq<Value>>,
    places: Seq<InIssue>,
    rows: Seq<IssueTimelineEventRecord>,
) -> bool
    decreases pages.len(),
{
    if pages.len() == 0 {
        rows.len() == 0
    } else {
        let at = places[pages.len() - 1];
        let cut = rows.len() - pages.last().len();
        &&& cut >= 0
        &&& are_timeline_rows(at.repo_id, at.issue_number, pages.last(), rows.skip(cut))
        &&& timeline_rows_of_pages(pages.drop_last(), places, rows.take(cut))
    }
}

// ---------------------------------------------------------------------------
// Details
// ---------------------------------------------------------------------------

/// The first few issues, as places of their sub-resources.
pub open spec fn issue_places(repo_id: i64, issues: Seq<IssueRecord>) -> Seq<InIssue> {
    issues.take(capped(issues.len(), PER_ISSUE_SYNC_CAP) as int).map_values(
        |issue: IssueRecord| InIssue { repo_id, issue_number: issue.number },
    )
}

/// The first few pull requests, as places of their sub-resources.
pub open spec fn pull_places(repo_id: i64, pulls: Seq<PullRequestRecord>) -> Seq<InPull> {
    pulls.take(capped(pulls.len(), PER_PULL_SYNC_CAP) as int).map_values(
        |pull: PullRequestRecord| InPull { repo_id, pull_number: pull.number },
    )
}

/// The first few commits, as places of their sub-resources.
pub open spec fn commit_places(repo_id: i64, commits: Seq<CommitRecord>) -> Seq<InCommit> {
    commits.take(capped(commits.len(), PER_COMMIT_SYNC_CAP) as int).map_values(
        |commit: CommitRecord| InCommit { repo_id, commit_sha: commit.sha },
    )
}

pub open spec fn pages_of<T>(pages: Seq<Vec<T>>) -> Seq<Seq<T>> {
    pages.map_values(|page: Vec<T>| page@)
}

/// The reactions of the first few issues as rows.
pub fn fetch_issue_reactions(
    repo_id: i64,
    issues: &Vec<IssueRecord>,
    pages: Vec<Vec<GhIssueReaction>>,
) -> (out: Vec<IssueReactionRecord>)
    requires
        pages@.len() == capped(issues@.len(), PER_ISSUE_SYNC_CAP),
    ensures
        rows_of_pages::<InIssue, GhIssueReaction>(
            pages_of(pages@),
            issue_places(repo_id, issues@),
            out@,
        ),
{
    let mut out: Vec<IssueReactionRecord> = Vec::new();
    let ghost places = issue_places(repo_id, issues@);
    assert(pages_of(pages@).take(0) =~= Seq::<Seq<GhIssueReaction>>::empty());
    let mut k: usize = 0;
    for page in it: pages
        invariant
            it.seq() == pages@,
            k == it.index(),
            pages@.len() == capped(issues@.len(), PER_ISSUE_SYNC_CAP),
            places == issue_places(repo_id, issues@),
            rows_of_pages::<InIssue, GhIssueReaction>(pages_of(pages@).take(k as int), places, out@),
    {
        let at = InIssue { repo_id, issue_number: issues[k].number };
        assert(at == places[k as int]);
        let ghost entries = page@;
        let mut rows = convert::records(page, &at);
        proof {
            lemma_rows_of_one_more_page::<InIssue, GhIssueReaction>(
                pages_of(pages@).take(k as int),
                places,
                out@,
                entries,
                rows@,
            );
            assert(pages_of(pages@).take(k + 1) =~= pages_of(pages@).take(k as int).push(entries));
        }
        out.append(&mut rows);
        k = k + 1;
    }
    assert(pages_of(pages@).take(k as int) =~= pages_of(pages@));
    out
}

/// The timelines of the first few issues as rows.
pub fn fetch_issue_timeline(repo_id: i64, issues: &Vec<IssueRecord>, pages: &Vec<Vec<Value>>) -> (out:
    Vec<IssueTimelineEventRecord>)
    requires
        pages@.len() == capped(issues@.len(), PER_ISSUE_SYNC_CAP),
    ensures
        timeline_rows_of_pages(pages_of(pages@), issue_places(repo_id, issues@), out@),
{
    let mut out: Vec<IssueTimelineEventRecord> = Vec::new();
    let ghost places = issue_places(repo_id, issues@);
    assert(pages_of(pages@).take(0) =~= Seq::<Seq<Value>>::empty());
    let mut k: usize = 0;
    while k < pages.len()
        invariant
            k <= pages@.len(),
            pages@.len() == capped(issues@.len(), PER_ISSUE_SYNC_CAP),
            places == issue_places(repo_id, issues@),
            timeline_rows_of_pages(pages_of(pages@).take(k as int), places, out@),
        decreases pages@.len() - k,
    {
        let ghost before = out@;
        let mut rows = timeline_rows(repo_id, issues[k].number, &pages[k]);
        let ghost more = rows@;
        assert(places[k as int].issue_number == issues@[k as int].number);
        out.append(&mut rows);
        proof {
            let seen = pages_of(pages@).take(k + 1);
            assert(seen.drop_last() =~= pages_of(pages@).take(k as int));
            let cut = out@.len() - seen.last().len();
            assert(out@.skip(cut) =~= more);
            assert(out@.take(cut) =~= before);
        }
        k = k + 1;
    }
    assert(pages_of(pages@).take(k as int) =~= pages_of(pages@));
    out
}

/// The first few workflow runs, as places of their jobs.
pub open spec fn run_places(repo_id: i64, runs: nat) -> Seq<InRepo> {
    Seq::new(capped(runs, PER_RUN_SYNC_CAP), |i: int| InRepo { repo_id })
}

/// The jobs of the first few workflow runs as rows.
pub fn fetch_workflow_jobs(repo_id: i64, runs: usize, pages: Vec<Vec<GhWorkflowJob>>) -> (out: Vec<
    WorkflowJobRecord,
>)
    requires
        pages@.len() == capped(runs as nat, PER_RUN_SYNC_CAP),
    ensures
        rows_of_pages::<InRepo, GhWorkflowJob>(
            pages_of(pages@),
            run_places(repo_id, runs as nat),
            out@,
        ),
{
    let mut out: Vec<WorkflowJobRecord> = Vec::new();
    let ghost places = run_places(repo_id, runs as nat);
    let at = InRepo { repo_id };
    assert(pages_of(pages@).take(0) =~= Seq::<Seq<GhWorkflowJob>>::empty());
    let ghost mut k: int = 0;
    for page in it: pages
        invariant
            it.seq() == pages@,
            k == it.index(),
            at == (InRepo { repo_id }),
            pages@.len() == places.len(),
            places == run_places(repo_id, runs as nat),
            rows_of_pages::<InRepo, GhWorkflowJob>(pages_of(pages@).take(k), places, out@),
    {
        assert(at == places[k]);
        let ghost entries = page@;
        let mut rows = convert::records(page, &at);
        proof {
            lemma_rows_of_one_more_page::<InRepo, GhWorkflowJob>(
                pages_of(pages@).take(k),
                places,
                out@,
                entries,
                rows@,
            );
            assert(pages_of(pages@).take(k + 1) =~= pages_of(pages@).take(k).push(entries));
            k = k + 1;
        }
        out.append(&mut rows);
    }
    assert(pages_of(pages@).take(k) =~= pages_of(pages@));
    out
}

/// The per-commit slices of a fetch.
#[derive(Debug)]
pub struct CommitDetails {
    pub commit_files: Vec<CommitFileRecord>,
    pub commit_statuses: Vec<CommitStatusRecord>,
    pub check_runs: Vec<CheckRunRecord>,
}

/// A commit with the line counts of its details; as it was when they give
/// none.
pub open spec fn counted_commit(commit: CommitRecord, detail: GhCommitDetail) -> CommitRecord {
    match detail.stats {
        Some(stats) => CommitRecord {
            additions: stats.additions,
            deletions: stats.deletions,
            ..commit
        },
        None => commit,
    }
}

/// The commits with the line counts of the first few.
pub open spec fn counted_commits(commits: Seq<CommitRecord>, pages: Seq<CommitPages>) -> Seq<
    CommitRecord,
> {
    Seq::new(
        commits.len(),
        |i: int|
            if i < pages.len() {
                counted_commit(commits[i], pages[i].detail)
            } else {
                commits[i]
            },
    )
}

/// The slices are those of the answers, commit by commit.
pub open spec fn are_commit_details(
    places: Seq<InCommit>,
    repo_places: Seq<InRepo>,
    pages: Seq<CommitPages>,
    out: CommitDetails,
) -> bool {
    &&& rows_of_pages::<InCommit, GhPullFile>(
        pages.map_values(|page: CommitPages| page.detail.files@),
        places,
        out.commit_files@,
    )
    &&& rows_of_pages::<InCommit, GhCommitStatus>(
        pages.map_values(|page: CommitPages| page.statuses@),
        places,
        out.commit_statuses@,
    )
    &&& rows_of_pages::<InRepo, GhCheckRun>(
        pages.map_values(|page: CommitPages| page.check_runs@),
        repo_places,
        out.check_runs@,
    )
}

pub open spec fn same_place(repo_id: i64, count: nat) -> Seq<InRepo> {
    Seq::new(count, |i: int| InRepo { repo_id })
}

proof fn lemma_one_more_commit(
    places: Seq<InCommit>,
    repo_places: Seq<InRepo>,
    pages: Seq<CommitPages>,
    k: int,
    before: CommitDetails,
    files: Seq<CommitFileRecord>,
    statuses: Seq<CommitStatusRecord>,
    checks: Seq<CheckRunRecord>,
    after: CommitDetails,
)
    requires
        0 <= k < pages.len(),
        pages.len() <= places.len(),
        pages.len() <= repo_places.len(),
        are_commit_details(places, repo_places, pages.take(k), before),
        convert::rows_of(pages[k].detail.files@, places[k], files),
        convert::rows_of(pages[k].statuses@, places[k], statuses),
        convert::rows_of(pages[k].check_runs@, repo_places[k], checks),
        after.commit_files@ == before.commit_files@ + files,
        after.commit_statuses@ == before.commit_statuses@ + statuses,
        after.check_runs@ == before.check_runs@ + checks,
    ensures
        are_commit_details(places, repo_places, pages.take(k + 1), after),
{
    let seen = pages.take(k);
    let more = pages.take(k + 1);
    let of_files = |page: CommitPages| page.detail.files@;
    let of_statuses = |page: CommitPages| page.statuses@;
    let of_checks = |page: CommitPages| page.check_runs@;
    lemma_rows_of_one_more_page::<InCommit, GhPullFile>(
        seen.map_values(of_files),
        places,
        before.commit_files@,
        pages[k].detail.files@,
        files,
    );
    lemma_rows_of_one_more_page::<InCommit, GhCommitStatus>(
        seen.map_values(of_statuses),
        places,
        before.commit_statuses@,
        pages[k].statuses@,
        statuses,
    );
    lemma_rows_of_one_more_page::<InRepo, GhCheckRun>(
        seen.map_values(of_checks),
        repo_places,
        before.check_runs@,
        pages[k].check_runs@,
        checks,
    );
    assert(more.map_values(of_files) =~= seen.map_values(of_files).push(pages[k].detail.files@));
    assert(more.map_values(of_statuses) =~= seen.map_values(of_statuses).push(pages[k].statuses@));
    assert(more.map_values(of_checks) =~= seen.map_values(of_checks).push(pages[k].check_runs@));
}

/// The per-commit slices of a fetch; the first few commits get their line
/// counts on the way.
pub fn fetch_commit_details(
    repo_id: i64,
    commits: &mut Vec<CommitRecord>,
    pages: Vec<CommitPages>,
) -> (out: CommitDetails)
    requires
        pages@.len() == capped(old(commits)@.len(), PER_COMMIT_SYNC_CAP),
    ensures
        final(commits)@ == counted_commits(old(commits)@, pages@),
        are_commit_details(
            commit_places(repo_id, old(commits)@),
            same_place(repo_id, pages@.len()),
            pages@,
            out,
        ),
{
    let ghost given = commits@;
    let ghost places = commit_places(repo_id, commits@);
    let ghost repo_places = same_place(repo_id, pages@.len());
    let mut out = CommitDetails {
        commit_files: Vec::new(),
        commit_statuses: Vec::new(),
        check_runs: Vec::new(),
    };
    let in_repo = InRepo { repo_id };
    assert(counted_commits(given, pages@.take(0)) =~= given);
    let mut k: usize = 0;
    for page in it: pages
        invariant
            it.seq() == pages@,
            k == it.index(),
            pages@.len() == capped(given.len(), PER_COMMIT_SYNC_CAP),
            places == commit_places(repo_id, given),
            repo_places == same_place(repo_id, pages@.len()),
            in_repo == (InRepo { repo_id }),
            commits@ == counted_commits(given, pages@.take(k as int)),
            are_commit_details(places, repo_places, pages@.take(k as int), out),
    {
        let ghost before = out;
        assert(commits@[k as int] == given[k as int]);
        let at = InCommit { repo_id, commit_sha: commits[k].sha.clone() };
        assert(at == places[k as int]);
        match page.detail.stats {
            Some(stats) => {
                commits[k].additions = stats.additions;
                commits[k].deletions = stats.deletions;
            },
            None => {},
        }
        assert(commits@ =~= counted_commits(given, pages@.take(k + 1)));
        let mut files = convert::records(page.detail.files, &at);
        let mut statuses = convert::records(page.statuses, &at);
        let mut checks = convert::records(page.check_runs, &in_repo);
        let ghost (more_files, more_statuses, more_checks) = (files@, statuses@, checks@);
        out.commit_files.append(&mut files);
        out.commit_statuses.append(&mut statuses);
        out.check_runs.append(&mut checks);
        proof {
            lemma_one_more_commit(
                places,
                repo_places,
                pages@,
                k as int,
                before,
                more_files,
                more_statuses,
                more_checks,
                out,
            );
        }
        k = k + 1;
    }
    assert(pages@.take(k as int) =~= pages@);
    out
}

/// The per-pull-request slices of a fetch.
#[derive(Debug)]
pub struct PullDetails {
    pub reviews: Vec<ReviewRecord>,
    pub pull_request_files: Vec<PullRequestFileRecord>,
    pub review_threads: Vec<ReviewThreadRecord>,
    pub pull_request_commits: Vec<PullRequestCommitRecord>,
}

/// The lines that files add, and remove.
pub open spec fn lines_added_by(files: Seq<GhPullFile>) -> int
    decreases files.len(),
{
    if files.len() == 0 {
        0
    } else {
        lines_added_by(files.drop_last()) + files.last().additions
    }
}

pub open spec fn lines_removed_by(files: Seq<GhPullFile>) -> int
    decreases files.len(),
{
    if files.len() == 0 {
        0
    } else {
        lines_removed_by(files.drop_last()) + files.last().deletions
    }
}

pub open spec fn fits(value: int) -> bool {
    i64::MIN <= value <= i64::MAX
}

/// The line counts fit 64 bits, however many of the files are counted.
pub open spec fn counts_fit(files: Seq<GhPullFile>) -> bool {
    forall|end: int|
        0 <= end <= files.len() ==> {
            &&& fits(lines_added_by(#[trigger] files.take(end)))
            &&& fits(lines_removed_by(files.take(end)))
        }
}

/// The lines that files add and remove, together; `None` when a count does not
/// fit 64 bits on the way.
pub fn line_counts(files: &Vec<GhPullFile>) -> (out: Option<(i64, i64)>)
    ensures
        match out {
            Some((added, removed)) => {
                &&& counts_fit(files@)
                &&& added == lines_added_by(files@)
                &&& removed == lines_removed_by(files@)
            },
            None => !counts_fit(files@),
        },
{
    let mut added: i64 = 0;
    let mut removed: i64 = 0;
    let mut i: usize = 0;
    while i < files.len()
        invariant
            i <= files@.len(),
            added == lines_added_by(files@.take(i as int)),
            removed == lines_removed_by(files@.take(i as int)),
            forall|end: int|
                0 <= end <= i ==> {
                    &&& fits(lines_added_by(#[trigger] files@.take(end)))
                    &&& fits(lines_removed_by(files@.take(end)))
                },
        decreases files@.len() - i,
    {
        assert(files@.take(i + 1).drop_last() =~= files@.take(i as int));
        assert(files@.take(i + 1).last() == files@[i as int]);
        match (added.checked_add(files[i].additions), removed.checked_add(files[i].deletions)) {
            (Some(more_added), Some(more_removed)) => {
                added = more_added;
                removed = more_removed;
            },
            _ => {
                return None;
            },
        }
        i = i + 1;
    }
    assert(files@.take(i as int) =~= files@);
    Some((added, removed))
}

/// A pull request with the line counts of its files.
pub open spec fn counted_pull(pull: PullRequestRecord, files: Seq<GhPullFile>) -> PullRequestRecord {
    PullRequestRecord {
        lines_added: lines_added_by(files) as i64,
        lines_removed: lines_removed_by(files) as i64,
        ..pull
    }
}

/// The pull requests with the line counts of the first few.
pub open spec fn counted_pulls(pulls: Seq<PullRequestRecord>, pages: Seq<PullPages>) -> Seq<
    PullRequestRecord,
> {
    Seq::new(
        pulls.len(),
        |i: int|
            if i < pages.len() {
                counted_pull(pulls[i], pages[i].files@)
            } else {
                pulls[i]
            },
    )
}

/// The slices are those of the answers, pull request by pull request.
pub open spec fn are_pull_details(
    repo_id: i64,
    places: Seq<InPull>,
    pages: Seq<PullPages>,
    out: PullDetails,
) -> bool {
    &&& rows_of_pages::<InPull, GhReview>(
        pages.map_values(|page: PullPages| page.reviews@),
        places,
        out.reviews@,
    )
    &&& rows_of_pages::<InPull, GhPullFile>(
        pages.map_values(|page: PullPages| page.files@),
        places,
        out.pull_request_files@,
    )
    &&& rows_of_pages::<InPull, GhCommit>(
        pages.map_values(|page: PullPages| page.commits@),
        places,
        out.pull_request_commits@,
    )
    &&& thread_rows_of_pages(
        repo_id,
        pages.map_values(|page: PullPages| page.threads),
        places,
        out.review_threads@,
    )
}

proof fn lemma_one_more_pull(
    repo_id: i64,
    places: Seq<InPull>,
    pages: Seq<PullPages>,
    k: int,
    before: PullDetails,
    reviews: Seq<ReviewRecord>,
    files: Seq<PullRequestFileRecord>,
    commits: Seq<PullRequestCommitRecord>,
    threads: Seq<ReviewThreadRecord>,
    after: PullDetails,
)
    requires
        0 <= k < pages.len(),
        pages.len() <= places.len(),
        are_pull_details(repo_id, places, pages.take(k), before),
        convert::rows_of(pages[k].reviews@, places[k], reviews),
        convert::rows_of(pages[k].files@, places[k], files),
        convert::rows_of(pages[k].commits@, places[k], commits),
        are_thread_rows(
            repo_id,
            places[k].pull_number,
            thread_nodes_in(pages[k].threads),
            threads,
        ),
        after.reviews@ == before.reviews@ + reviews,
        after.pull_request_files@ == before.pull_request_files@ + files,
        after.pull_request_commits@ == before.pull_request_commits@ + commits,
        after.review_threads@ == before.review_threads@ + threads,
    ensures
        are_pull_details(repo_id, places, pages.take(k + 1), after),
{
    let seen = pages.take(k);
    let more = pages.take(k + 1);
    let of_reviews = |page: PullPages| page.reviews@;
    let of_files = |page: PullPages| page.files@;
    let of_commits = |page: PullPages| page.commits@;
    let of_threads = |page: PullPages| page.threads;
    lemma_rows_of_one_more_page::<InPull, GhReview>(
        seen.map_values(of_reviews),
        places,
        before.reviews@,
        pages[k].reviews@,
        reviews,
    );
    lemma_rows_of_one_more_page::<InPull, GhPullFile>(
        seen.map_values(of_files),
        places,
        before.pull_request_files@,
        pages[k].files@,
        files,
    );
    lemma_rows_of_one_more_page::<InPull, GhCommit>(
        seen.map_values(of_commits),
        places,
        before.pull_request_commits@,
        pages[k].commits@,
        commits,
    );
    lemma_threads_of_one_more_page(
        repo_id,
        seen.map_values(of_threads),
        places,
        before.review_threads@,
        pages[k].threads,
        threads,
    );
    assert(more.map_values(of_reviews) =~= seen.map_values(of_reviews).push(pages[k].reviews@));
    assert(more.map_values(of_files) =~= seen.map_values(of_files).push(pages[k].files@));
    assert(more.map_values(of_commits) =~= seen.map_values(of_commits).push(pages[k].commits@));
    assert(more.map_values(of_threads) =~= seen.map_values(of_threads).push(pages[k].threads));
}

/// The per-pull-request slices of a fetch; the first few pull requests get
/// their line counts on the way.
pub fn fetch_pull_details(
    repo_id: i64,
    pulls: &mut Vec<PullRequestRecord>,
    pages: Vec<PullPages>,
) -> (out: PullDetails)
    requires
        pages@.len() == capped(old(pulls)@.len(), PER_PULL_SYNC_CAP),
        forall|i: int| 0 <= i < pages@.len() ==> counts_fit((#[trigger] pages@[i]).files@),
    ensures
        final(pulls)@ == counted_pulls(old(pulls)@, pages@),
        are_pull_details(repo_id, pull_places(repo_id, old(pulls)@), pages@, out),
{
    let ghost given = pulls@;
    let ghost places = pull_places(repo_id, pulls@);
    let mut out = PullDetails {
        reviews: Vec::new(),
        pull_request_files: Vec::new(),
        review_threads: Vec::new(),
        pull_request_commits: Vec::new(),
    };
    assert(counted_pulls(given, pages@.take(0)) =~= given);
    let mut k: usize = 0;
    for page in it: pages
        invariant
            it.seq() == pages@,
            k == it.index(),
            pages@.len() == capped(given.len(), PER_PULL_SYNC_CAP),
            forall|i: int| 0 <= i < pages@.len() ==> counts_fit((#[trigger] pages@[i]).files@),
            places == pull_places(repo_id, given),
            pulls@ == counted_pulls(given, pages@.take(k as int)),
            are_pull_details(repo_id, places, pages@.take(k as int), out),
    {
        let ghost before = out;
        assert(pulls@[k as int] == given[k as int]);
        assert(counts_fit(pages@[k as int].files@));
        let at = InPull { repo_id, pull_number: pulls[k].number };
        assert(at == places[k as int]);
        match line_counts(&page.files) {
            Some((added, removed)) => {
                pulls[k].lines_added = added;
                pulls[k].lines_removed = removed;
            },
            None => {},
        }
        assert(pulls@ =~= counted_pulls(given, pages@.take(k + 1)));
        let mut threads = review_thread_rows(repo_id, at.pull_number, &page.threads);
        let mut reviews = convert::records(page.reviews, &at);
        let mut files = convert::records(page.files, &at);
        let mut commits = convert::records(page.commits, &at);
        let ghost (more_reviews, more_files) = (reviews@, files@);
        let ghost (more_commits, more_threads) = (commits@, threads@);
        out.reviews.append(&mut reviews);
        out.pull_request_files.append(&mut files);
        out.pull_request_commits.append(&mut commits);
        out.review_threads.append(&mut threads);
        proof {
            lemma_one_more_pull(
                repo_id,
                places,
                pages@,
                k as int,
                before,
                more_reviews,
                more_files,
                more_commits,
                more_threads,
                out,
            );
        }
        k = k + 1;
    }
    assert(pages@.take(k as int) =~= pages@);
    out
}

// ---------------------------------------------------------------------------
// The whole
// ---------------------------------------------------------------------------

/// Every answer of a fetch.
#[derive(Debug)]
pub struct FetchedPages {
    pub repository: GhRepository,
    pub issues: Vec<GhIssue>,
    pub pulls: Vec<GhPullRequest>,
    pub commits: Vec<GhCommit>,
    pub comments: Vec<GhComment>,
    pub review_comments: Vec<GhReviewComment>,
    pub labels: Vec<GhLabel>,
    pub milestones: Vec<GhMilestone>,
    pub releases: Vec<GhRelease>,
    pub branches: Vec<GhBranch>,
    pub contributors: Vec<GhContributor>,
    pub workflow_runs: Vec<GhWorkflowRun>,
    pub deployments: Vec<GhDeployment>,
    pub issue_events: Vec<GhIssueEvent>,
    pub commit_comments: Vec<GhCommitComment>,
    pub tags: Vec<GhTag>,
    /// Of the first few issues.
    pub reactions: Vec<Vec<GhIssueReaction>>,
    pub timelines: Vec<Vec<Value>>,
    /// Of the first few workflow runs.
    pub jobs: Vec<Vec<GhWorkflowJob>>,
    /// Of the first few commits.
    pub commit_details: Vec<CommitPages>,
    /// Of the first few pull requests.
    pub pull_details: Vec<PullPages>,
}

impl FetchedPages {
    /// There are details of the first few items of each page, as many as are
    /// asked for, and the line counts of pull requests fit.
    pub open spec fn wf(self) -> bool {
        &&& self.reactions@.len() == capped(self.issues@.len(), PER_ISSUE_SYNC_CAP)
        &&& self.timelines@.len() == capped(self.issues@.len(), PER_ISSUE_SYNC_CAP)
        &&& self.jobs@.len() == capped(self.workflow_runs@.len(), PER_RUN_SYNC_CAP)
        &&& self.commit_details@.len() == capped(self.commits@.len(), PER_COMMIT_SYNC_CAP)
        &&& self.pull_details@.len() == capped(self.pulls@.len(), PER_PULL_SYNC_CAP)
        &&& forall|i: int|
            0 <= i < self.pull_details@.len() ==> counts_fit(
                (#[trigger] self.pull_details@[i]).files@,
            )
    }
}

impl FetchedPages {
    /// Whether there are details of the first few items of each page, as many
    /// as are asked for, and the line counts of pull requests fit.
    pub fn complete(&self) -> (out: bool)
        ensures
            out == self.wf(),
    {
        let issues: usize = first_few(self.issues.len(), PER_ISSUE_SYNC_CAP);
        if self.reactions.len() != issues || self.timelines.len() != issues {
            return false;
        }
        if self.jobs.len() != first_few(self.workflow_runs.len(), PER_RUN_SYNC_CAP) {
            return false;
        }
        if self.commit_details.len() != first_few(self.commits.len(), PER_COMMIT_SYNC_CAP) {
            return false;
        }
        if self.pull_details.len() != first_few(self.pulls.len(), PER_PULL_SYNC_CAP) {
            return false;
        }
        let mut i: usize = 0;
        while i < self.pull_details.len()
            invariant
                i <= self.pull_details@.len(),
                forall|j: int|
                    0 <= j < i ==> counts_fit((#[trigger] self.pull_details@[j]).files@),
            decreases self.pull_details@.len() - i,
        {
            if line_counts(&self.pull_details[i].files).is_none() {
                return false;
            }
            i = i + 1;
        }
        true
    }
}

/// The pull-request rows are those of the page, with the line counts of the
/// first few.
pub open spec fn are_counted_pulls(
    page: Seq<GhPullRequest>,
    repo_id: i64,
    details: Seq<PullPages>,
    rows: Seq<PullRequestRecord>,
) -> bool {
    exists|listed: Seq<PullRequestRecord>|
        #![trigger counted_pulls(listed, details)]
        convert::rows_of(page, InRepo { repo_id }, listed) && rows == counted_pulls(listed, details)
}

/// The commit rows are those of the page, with the line counts of the first
/// few.
pub open spec fn are_counted_commits(
    page: Seq<GhCommit>,
    repo_id: i64,
    details: Seq<CommitPages>,
    rows: Seq<CommitRecord>,
) -> bool {
    exists|listed: Seq<CommitRecord>|
        #![trigger counted_commits(listed, details)]
        convert::rows_of::<InRepo, GhCommit>(page, InRepo { repo_id }, listed) && rows
            == counted_commits(listed, details)
}

/// What the answers of a fetch amount to.
pub open spec fn is_fetched(pages: FetchedPages, out: FetchedRepository) -> bool {
    let repo_id = pages.repository.id;
    let at = InRepo { repo_id };
    &&& convert::is_repository_record(pages.repository, out.repository)
    &&& out.complete@ == Set::<Listing>::empty()
    &&& convert::rows_of(pages.issues@, at, out.issues@)
    &&& are_counted_pulls(pages.pulls@, repo_id, pages.pull_details@, out.pull_requests@)
    &&& are_counted_commits(pages.commits@, repo_id, pages.commit_details@, out.commits@)
    &&& convert::rows_of(pages.comments@, at, out.comments@)
    &&& convert::rows_of(pages.review_comments@, at, out.review_comments@)
    &&& convert::rows_of(pages.labels@, at, out.labels@)
    &&& convert::rows_of(pages.milestones@, at, out.milestones@)
    &&& convert::rows_of(pages.releases@, at, out.releases@)
    &&& convert::rows_of(pages.branches@, at, out.branches@)
    &&& convert::rows_of(pages.contributors@, at, out.contributors@)
    &&& convert::rows_of(pages.workflow_runs@, at, out.workflow_runs@)
    &&& convert::rows_of(pages.tags@, at, out.tags@)
    &&& convert::rows_of(pages.commit_comments@, at, out.commit_comments@)
    &&& convert::rows_of(pages.issue_events@, at, out.issue_events@)
    &&& convert::rows_of(pages.deployments@, at, out.deployments@)
    &&& rows_of_pages::<InIssue, GhIssueReaction>(
        pages_of(pages.reactions@),
        issue_places(repo_id, out.issues@),
        out.issue_reactions@,
    )
    &&& timeline_rows_of_pages(
        pages_of(pages.timelines@),
        issue_places(repo_id, out.issues@),
        out.issue_timeline@,
    )
    &&& rows_of_pages::<InRepo, GhWorkflowJob>(
        pages_of(pages.jobs@),
        run_places(repo_id, pages.workflow_runs@.len()),
        out.workflow_jobs@,
    )
    &&& are_commit_details(
        commit_places(repo_id, out.commits@),
        same_place(repo_id, pages.commit_details@.len()),
        pages.commit_details@,
        CommitDetails {
            commit_files: out.commit_files,
            commit_statuses: out.commit_statuses,
            check_runs: out.check_runs,
        },
    )
    &&& are_pull_details(
        repo_id,
        pull_places(repo_id, out.pull_requests@),
        pages.pull_details@,
        PullDetails {
            reviews: out.reviews,
            pull_request_files: out.pull_request_files,
            review_threads: out.review_threads,
            pull_request_commits: out.pull_request_commits,
        },
    )
}

/// The rows of a whole repository, from every answer of a fetch.
///
/// No listing counts as complete: each was read one page deep.
pub fn fetch_repository(pages: FetchedPages) -> (out: FetchedRepository)
    requires
        pages.wf(),
    ensures
        is_fetched(pages, out),
{
    let repo_id: i64 = pages.repository.id;
    let at = InRepo { repo_id };
    let issues = convert::records(pages.issues, &at);
    let issue_reactions = fetch_issue_reactions(repo_id, &issues, pages.reactions);
    let issue_timeline = fetch_issue_timeline(repo_id, &issues, &pages.timelines);
    let mut commits: Vec<CommitRecord> = convert::records(pages.commits, &at);
    let ghost listed_commits = commits@;
    let workflow_jobs = fetch_workflow_jobs(repo_id, pages.workflow_runs.len(), pages.jobs);
    let CommitDetails { commit_files, commit_statuses, check_runs } = fetch_commit_details(
        repo_id,
        &mut commits,
        pages.commit_details,
    );
    let mut pulls = convert::records(pages.pulls, &at);
    let ghost listed_pulls = pulls@;
    let PullDetails { reviews, pull_request_files, review_threads, pull_request_commits } =
        fetch_pull_details(repo_id, &mut pulls, pages.pull_details);
    proof {
        assert(commits@ == counted_commits(listed_commits, pages.commit_details@));
        assert(commit_places(repo_id, commits@) =~= commit_places(repo_id, listed_commits));
        assert(pulls@ == counted_pulls(listed_pulls, pages.pull_details@));
        assert(pull_places(repo_id, pulls@) =~= pull_places(repo_id, listed_pulls));
    }
    FetchedRepository {
        repository: convert::repository_record(pages.repository),
        complete: ListingCompleteness::none(),
        issues,
        pull_requests: pulls,
        commits,
        comments: convert::records(pages.comments, &at),
        review_comments: convert::records(pages.review_comments, &at),
        reviews,
        labels: convert::records(pages.labels, &at),
        milestones: convert::records(pages.milestones, &at),
        releases: convert::records(pages.releases, &at),
        branches: convert::records(pages.branches, &at),
        contributors: convert::records(pages.contributors, &at),
        workflow_runs: convert::records(pages.workflow_runs, &at),
        pull_request_files,
        tags: convert::records(pages.tags, &at),
        commit_files,
        review_threads,
        commit_comments: convert::records(pages.commit_comments, &at),
        issue_events: convert::records(pages.issue_events, &at),
        deployments: convert::records(pages.deployments, &at),
        pull_request_commits,
        commit_statuses,
        workflow_jobs,
        issue_reactions,
        check_runs,
        issue_timeline,
    }
}

// ---------------------------------------------------------------------------
// Ownership
// ---------------------------------------------------------------------------

/// Every row belongs to the repository.
pub open spec fn all_in<T: RepoRow>(rows: Seq<T>, repo_id: i64) -> bool {
    forall|i: int| 0 <= i < rows.len() ==> (#[trigger] rows[i]).repo() == repo_id
}

/// Whatever a page at any of the places becomes belongs to the repository.
spec fn stays_in<P, G: IntoRecord<P>>(places: Seq<P>, repo_id: i64) -> bool where G::Record: RepoRow {
    forall|k: int, item: G, row: G::Record|
        0 <= k < places.len() && #[trigger] item.becomes(places[k], row) ==> row.repo() == repo_id
}

proof fn lemma_pages_stay_in<P, G: IntoRecord<P>>(
    pages: Seq<Seq<G>>,
    places: Seq<P>,
    rows: Seq<G::Record>,
    repo_id: i64,
) where G::Record: RepoRow
    requires
        rows_of_pages::<P, G>(pages, places, rows),
        pages.len() <= places.len(),
        stays_in::<P, G>(places, repo_id),
    ensures
        all_in::<G::Record>(rows, repo_id),
    decreases pages.len(),
{
    if pages.len() > 0 {
        let cut = rows.len() - pages.last().len();
        let tail = rows.skip(cut);
        lemma_pages_stay_in::<P, G>(pages.drop_last(), places, rows.take(cut), repo_id);
        assert forall|i: int| 0 <= i < rows.len() implies (#[trigger] rows[i]).repo() == repo_id by {
            if i < cut {
                assert(rows.take(cut)[i] == rows[i]);
            } else {
                assert(pages.last()[i - cut].becomes(places[pages.len() - 1], tail[i - cut]));
                assert(tail[i - cut] == rows[i]);
            }
        }
    }
}

proof fn lemma_threads_stay_in(
    repo_id: i64,
    bodies: Seq<Value>,
    places: Seq<InPull>,
    rows: Seq<ReviewThreadRecord>,
)
    requires
        thread_rows_of_pages(repo_id, bodies, places, rows),
    ensures
        all_in(rows, repo_id),
    decreases bodies.len(),
{
    if bodies.len() > 0 {
        let kept = identified(thread_nodes_in(bodies.last()));
        let cut = rows.len() - kept.len();
        let tail = rows.skip(cut);
        lemma_threads_stay_in(repo_id, bodies.drop_last(), places, rows.take(cut));
        assert forall|i: int| 0 <= i < rows.len() implies (#[trigger] rows[i]).repo() == repo_id by {
            if i < cut {
                assert(rows.take(cut)[i] == rows[i]);
            } else {
                assert(convert::is_review_thread_record(
                    repo_id,
                    places[bodies.len() - 1].pull_number,
                    kept[i - cut],
                    tail[i - cut],
                ));
                assert(tail[i - cut] == rows[i]);
            }
        }
    }
}

proof fn lemma_timelines_stay_in(
    pages: Seq<Seq<Value>>,
    places: Seq<InIssue>,
    rows: Seq<IssueTimelineEventRecord>,
    repo_id: i64,
)
    requires
        timeline_rows_of_pages(pages, places, rows),
        pages.len() <= places.len(),
        forall|k: int| 0 <= k < places.len() ==> (#[trigger] places[k]).repo_id == repo_id,
    ensures
        all_in(rows, repo_id),
    decreases pages.len(),
{
    if pages.len() > 0 {
        let at = places[pages.len() - 1];
        let cut = rows.len() - pages.last().len();
        let tail = rows.skip(cut);
        lemma_timelines_stay_in(pages.drop_last(), places, rows.take(cut), repo_id);
        assert forall|i: int| 0 <= i < rows.len() implies (#[trigger] rows[i]).repo() == repo_id by {
            if i < cut {
                assert(rows.take(cut)[i] == rows[i]);
            } else {
                assert(convert::is_issue_timeline_record(
                    at.repo_id,
                    at.issue_number,
                    (i - cut) as nat,
                    pages.last()[i - cut],
                    tail[i - cut],
                ));
                assert(tail[i - cut] == rows[i]);
            }
        }
    }
}

/// Every row of a fetch belongs to the repository that was fetched.
pub open spec fn owned_by_repository(out: FetchedRepository) -> bool {
    let id = out.repository.id;
    &&& all_in(out.issues@, id)
    &&& all_in(out.pull_requests@, id)
    &&& all_in(out.commits@, id)
    &&& all_in(out.comments@, id)
    &&& all_in(out.review_comments@, id)
    &&& all_in(out.reviews@, id)
    &&& all_in(out.labels@, id)
    &&& all_in(out.milestones@, id)
    &&& all_in(out.releases@, id)
    &&& all_in(out.branches@, id)
    &&& all_in(out.contributors@, id)
    &&& all_in(out.workflow_runs@, id)
    &&& all_in(out.pull_request_files@, id)
    &&& all_in(out.tags@, id)
    &&& all_in(out.commit_files@, id)
    &&& all_in(out.review_threads@, id)
    &&& all_in(out.commit_comments@, id)
    &&& all_in(out.issue_events@, id)
    &&& all_in(out.deployments@, id)
    &&& all_in(out.pull_request_commits@, id)
    &&& all_in(out.commit_statuses@, id)
    &&& all_in(out.workflow_jobs@, id)
    &&& all_in(out.issue_reactions@, id)
    &&& all_in(out.check_runs@, id)
    &&& all_in(out.issue_timeline@, id)
}

/// Every row of a fetch belongs to the repository that was fetched.
pub proof fn fetched_rows_belong_to_the_repository(pages: FetchedPages, out: FetchedRepository)
    requires
        pages.wf(),
        is_fetched(pages, out),
    ensures
        owned_by_repository(out),
{
    let id = out.repository.id;
    let at = InRepo { repo_id: id };
    assert forall|i: int| 0 <= i < out.issues@.len() implies (#[trigger] out.issues@[i]).repo() == id by {
        assert(pages.issues@[i].becomes(at, out.issues@[i]));
    }
    assert forall|i: int| 0 <= i < out.comments@.len() implies (#[trigger] out.comments@[i]).repo() == id by {
        assert(pages.comments@[i].becomes(at, out.comments@[i]));
    }
    assert forall|i: int| 0 <= i < out.review_comments@.len() implies (#[trigger] out.review_comments@[i]).repo() == id by {
        assert(pages.review_comments@[i].becomes(at, out.review_comments@[i]));
    }
    assert forall|i: int| 0 <= i < out.labels@.len() implies (#[trigger] out.labels@[i]).repo() == id by {
        assert(pages.labels@[i].becomes(at, out.labels@[i]));
    }
    assert forall|i: int| 0 <= i < out.milestones@.len() implies (#[trigger] out.milestones@[i]).repo() == id by {
        assert(pages.milestones@[i].becomes(at, out.milestones@[i]));
    }
    assert forall|i: int| 0 <= i < out.releases@.len() implies (#[trigger] out.releases@[i]).repo() == id by {
        assert(pages.releases@[i].becomes(at, out.releases@[i]));
    }
    assert forall|i: int| 0 <= i < out.branches@.len() implies (#[trigger] out.branches@[i]).repo() == id by {
        assert(pages.branches@[i].becomes(at, out.branches@[i]));
    }
    assert forall|i: int| 0 <= i < out.contributors@.len() implies (#[trigger] out.contributors@[i]).repo() == id by {
        assert(pages.contributors@[i].becomes(at, out.contributors@[i]));
    }
    assert forall|i: int| 0 <= i < out.workflow_runs@.len() implies (#[trigger] out.workflow_runs@[i]).repo() == id by {
        assert(pages.workflow_runs@[i].becomes(at, out.workflow_runs@[i]));
    }
    assert forall|i: int| 0 <= i < out.tags@.len() implies (#[trigger] out.tags@[i]).repo() == id by {
        assert(pages.tags@[i].becomes(at, out.tags@[i]));
    }
    assert forall|i: int| 0 <= i < out.commit_comments@.len() implies (#[trigger] out.commit_comments@[i]).repo() == id by {
        assert(pages.commit_comments@[i].becomes(at, out.commit_comments@[i]));
    }
    assert forall|i: int| 0 <= i < out.issue_events@.len() implies (#[trigger] out.issue_events@[i]).repo() == id by {
        assert(pages.issue_events@[i].becomes(at, out.issue_events@[i]));
    }
    assert forall|i: int| 0 <= i < out.deployments@.len() implies (#[trigger] out.deployments@[i]).repo() == id by {
        assert(pages.deployments@[i].becomes(at, out.deployments@[i]));
    }
    let listed_pulls = choose|listed: Seq<PullRequestRecord>|
        #![trigger counted_pulls(listed, pages.pull_details@)]
        convert::rows_of(pages.pulls@, at, listed) && out.pull_requests@ == counted_pulls(
            listed,
            pages.pull_details@,
        );
    assert forall|i: int| 0 <= i < out.pull_requests@.len() implies (
    #[trigger] out.pull_requests@[i]).repo() == id by {
        assert(pages.pulls@[i].becomes(at, listed_pulls[i]));
    }
    let listed_commits = choose|listed: Seq<CommitRecord>|
        #![trigger counted_commits(listed, pages.commit_details@)]
        convert::rows_of::<InRepo, GhCommit>(pages.commits@, at, listed) && out.commits@
            == counted_commits(listed, pages.commit_details@);
    assert forall|i: int| 0 <= i < out.commits@.len() implies (#[trigger] out.commits@[i]).repo()
        == id by {
        assert(<GhCommit as IntoRecord<InRepo>>::becomes(pages.commits@[i], at, listed_commits[i]));
    }
    lemma_pages_stay_in::<InIssue, GhIssueReaction>(
        pages_of(pages.reactions@),
        issue_places(id, out.issues@),
        out.issue_reactions@,
        id,
    );
    lemma_pages_stay_in::<InRepo, GhWorkflowJob>(
        pages_of(pages.jobs@),
        run_places(id, pages.workflow_runs@.len()),
        out.workflow_jobs@,
        id,
    );
    lemma_pages_stay_in::<InCommit, GhPullFile>(
        pages.commit_details@.map_values(|page: CommitPages| page.detail.files@),
        commit_places(id, out.commits@),
        out.commit_files@,
        id,
    );
    lemma_pages_stay_in::<InCommit, GhCommitStatus>(
        pages.commit_details@.map_values(|page: CommitPages| page.statuses@),
        commit_places(id, out.commits@),
        out.commit_statuses@,
        id,
    );
    lemma_pages_stay_in::<InRepo, GhCheckRun>(
        pages.commit_details@.map_values(|page: CommitPages| page.check_runs@),
        same_place(id, pages.commit_details@.len()),
        out.check_runs@,
        id,
    );
    lemma_pages_stay_in::<InPull, GhReview>(
        pages.pull_details@.map_values(|page: PullPages| page.reviews@),
        pull_places(id, out.pull_requests@),
        out.reviews@,
        id,
    );
    lemma_pages_stay_in::<InPull, GhPullFile>(
        pages.pull_details@.map_values(|page: PullPages| page.files@),
        pull_places(id, out.pull_requests@),
        out.pull_request_files@,
        id,
    );
    lemma_pages_stay_in::<InPull, GhCommit>(
        pages.pull_details@.map_values(|page: PullPages| page.commits@),
        pull_places(id, out.pull_requests@),
        out.pull_request_commits@,
        id,
    );
    lemma_threads_stay_in(
        id,
        pages.pull_details@.map_values(|page: PullPages| page.threads),
        pull_places(id, out.pull_requests@),
        out.review_threads@,
    );
    lemma_timelines_stay_in(
        pages_of(pages.timelines@),
        issue_places(id, out.issues@),
        out.issue_timeline@,
        id,
    );
}

} // verus!
