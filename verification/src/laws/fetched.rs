//! What a fetched repository says of the answers it was made from.

use crate::convert;
use crate::convert::{InCommit, InIssue, InPull, InRepo, IntoRecord};
use crate::fetch;
use crate::fetch::{CommitPages, FetchedPages, PullPages};
use crate::json;
use crate::ports::{FetchedRepository, Listing};
use crate::records::{
    CommitRecord, IssueTimelineEventRecord, PullRequestRecord, ReviewThreadRecord,
};
use crate::wire::{
    GhCheckRun, GhCommit, GhCommitDetail, GhCommitStatus, GhIssueReaction, GhPullFile, GhReview,
    GhWorkflowJob,
};
use serde_json::Value;
use vstd::prelude::*;
use vstd::string::*;

verus! {

/// The smaller of a length and ten.
pub open spec fn at_most_ten(length: nat) -> nat {
    if length < 10 {
        length
    } else {
        10
    }
}

/// Details are owed for the first ten items of each page, and no others.
pub proof fn details_are_owed_for_the_first_ten(pages: FetchedPages)
    requires
        pages.wf(),
    ensures
        pages.reactions@.len() == at_most_ten(pages.issues@.len()),
        pages.timelines@.len() == at_most_ten(pages.issues@.len()),
        pages.jobs@.len() == at_most_ten(pages.workflow_runs@.len()),
        pages.commit_details@.len() == at_most_ten(pages.commits@.len()),
        pages.pull_details@.len() == at_most_ten(pages.pulls@.len()),
{
}

/// A fetch whose answers are as many as were asked for, with line counts that
/// stay within 64 bits, is complete.
pub proof fn answers_that_match_are_complete(pages: FetchedPages)
    requires
        pages.reactions@.len() == at_most_ten(pages.issues@.len()),
        pages.timelines@.len() == at_most_ten(pages.issues@.len()),
        pages.jobs@.len() == at_most_ten(pages.workflow_runs@.len()),
        pages.commit_details@.len() == at_most_ten(pages.commits@.len()),
        pages.pull_details@.len() == at_most_ten(pages.pulls@.len()),
        forall|i: int, end: int|
            0 <= i < pages.pull_details@.len() && 0 <= end <= pages.pull_details@[i].files@.len()
                ==> {
                let files = (#[trigger] pages.pull_details@[i].files@.take(end));
                &&& i64::MIN <= fetch::lines_added_by(files) <= i64::MAX
                &&& i64::MIN <= fetch::lines_removed_by(files) <= i64::MAX
            },
    ensures
        pages.wf(),
{
    assert forall|i: int| 0 <= i < pages.pull_details@.len() implies fetch::counts_fit(
        (#[trigger] pages.pull_details@[i]).files@,
    ) by {
        assert forall|end: int| 0 <= end <= pages.pull_details@[i].files@.len() implies {
            &&& fetch::fits(
                fetch::lines_added_by(#[trigger] pages.pull_details@[i].files@.take(end)),
            )
            &&& fetch::fits(fetch::lines_removed_by(pages.pull_details@[i].files@.take(end)))
        } by {}
    }
}

/// The lines that files add and remove are those of each file, added up.
pub proof fn lines_are_added_up_file_by_file(files: Seq<GhPullFile>, file: GhPullFile)
    ensures
        fetch::lines_added_by(Seq::empty()) == 0,
        fetch::lines_removed_by(Seq::empty()) == 0,
        fetch::lines_added_by(files.push(file)) == fetch::lines_added_by(files) + file.additions,
        fetch::lines_removed_by(files.push(file)) == fetch::lines_removed_by(files)
            + file.deletions,
{
    assert(files.push(file).drop_last() =~= files);
}

/// Every item of every listing becomes one row of its table, in order, and every
/// one of these rows belongs to the repository. No listing counts as complete.
pub proof fn listings_become_their_tables(pages: FetchedPages, out: FetchedRepository, i: int)
    requires
        fetch::is_fetched(pages, out),
    ensures
        out.repository.id == pages.repository.id,
        out.repository.full_name == pages.repository.full_name,
        forall|listing: Listing| !#[trigger] out.complete@.contains(listing),
        out.issues@.len() == pages.issues@.len(),
        0 <= i < pages.issues@.len() ==> out.issues@[i].repo_id == pages.repository.id && out.issues@[i].id == pages.issues@[i].id && out.issues@[i].number == pages.issues@[i].number && out.issues@[i].title == pages.issues@[i].title && out.issues@[i].state == pages.issues@[i].state,
        out.comments@.len() == pages.comments@.len(),
        0 <= i < pages.comments@.len() ==> out.comments@[i].repo_id == pages.repository.id && out.comments@[i].id == pages.comments@[i].id && out.comments@[i].body == pages.comments@[i].body,
        out.review_comments@.len() == pages.review_comments@.len(),
        0 <= i < pages.review_comments@.len() ==> out.review_comments@[i].repo_id == pages.repository.id && out.review_comments@[i].id == pages.review_comments@[i].id && out.review_comments@[i].body == pages.review_comments@[i].body && out.review_comments@[i].path == pages.review_comments@[i].path,
        out.labels@.len() == pages.labels@.len(),
        0 <= i < pages.labels@.len() ==> out.labels@[i].repo_id == pages.repository.id && out.labels@[i].id == pages.labels@[i].id && out.labels@[i].name == pages.labels@[i].name,
        out.milestones@.len() == pages.milestones@.len(),
        0 <= i < pages.milestones@.len() ==> out.milestones@[i].repo_id == pages.repository.id && out.milestones@[i].id == pages.milestones@[i].id && out.milestones@[i].number == pages.milestones@[i].number && out.milestones@[i].title == pages.milestones@[i].title,
        out.releases@.len() == pages.releases@.len(),
        0 <= i < pages.releases@.len() ==> out.releases@[i].repo_id == pages.repository.id && out.releases@[i].id == pages.releases@[i].id && out.releases@[i].tag_name == pages.releases@[i].tag_name,
        out.branches@.len() == pages.branches@.len(),
        0 <= i < pages.branches@.len() ==> out.branches@[i].repo_id == pages.repository.id && out.branches@[i].name == pages.branches@[i].name,
        out.contributors@.len() == pages.contributors@.len(),
        0 <= i < pages.contributors@.len() ==> out.contributors@[i].repo_id == pages.repository.id && out.contributors@[i].login == pages.contributors@[i].login,
        out.workflow_runs@.len() == pages.workflow_runs@.len(),
        0 <= i < pages.workflow_runs@.len() ==> out.workflow_runs@[i].repo_id == pages.repository.id && out.workflow_runs@[i].id == pages.workflow_runs@[i].id && out.workflow_runs@[i].run_number == pages.workflow_runs@[i].run_number,
        out.tags@.len() == pages.tags@.len(),
        0 <= i < pages.tags@.len() ==> out.tags@[i].repo_id == pages.repository.id && out.tags@[i].name == pages.tags@[i].name,
        out.commit_comments@.len() == pages.commit_comments@.len(),
        0 <= i < pages.commit_comments@.len() ==> out.commit_comments@[i].repo_id == pages.repository.id && out.commit_comments@[i].id == pages.commit_comments@[i].id && out.commit_comments@[i].body == pages.commit_comments@[i].body,
        out.issue_events@.len() == pages.issue_events@.len(),
        0 <= i < pages.issue_events@.len() ==> out.issue_events@[i].repo_id == pages.repository.id && out.issue_events@[i].id == pages.issue_events@[i].id && out.issue_events@[i].event == pages.issue_events@[i].event,
        out.deployments@.len() == pages.deployments@.len(),
        0 <= i < pages.deployments@.len() ==> out.deployments@[i].repo_id == pages.repository.id && out.deployments@[i].id == pages.deployments@[i].id && out.deployments@[i].sha == pages.deployments@[i].sha,
{
    let at = InRepo { repo_id: pages.repository.id };
    if 0 <= i < pages.branches@.len() {
        assert(pages.branches@[i].becomes(at, out.branches@[i]));
    }
    if 0 <= i < pages.tags@.len() {
        assert(pages.tags@[i].becomes(at, out.tags@[i]));
    }
}

/// A pull request is listed as it was answered, and each of the first ten has
/// the lines that its files add and remove; the others have none counted.
pub proof fn pull_requests_carry_the_lines_of_their_files(
    pages: FetchedPages,
    out: FetchedRepository,
    i: int,
)
    requires
        fetch::is_fetched(pages, out),
        pages.wf(),
        0 <= i < pages.pulls@.len(),
    ensures
        out.pull_requests@.len() == pages.pulls@.len(),
        out.pull_requests@[i].id == pages.pulls@[i].id,
        out.pull_requests@[i].number == pages.pulls@[i].number,
        out.pull_requests@[i].state == pages.pulls@[i].state,
        out.pull_requests@[i].merged == (pages.pulls@[i].merged_at is Some),
        out.pull_requests@[i].repo_id == pages.repository.id,
        i < 10 ==> out.pull_requests@[i].lines_added == fetch::lines_added_by(
            pages.pull_details@[i].files@,
        ) && out.pull_requests@[i].lines_removed == fetch::lines_removed_by(
            pages.pull_details@[i].files@,
        ),
        i >= 10 ==> out.pull_requests@[i].lines_added == 0 && out.pull_requests@[i].lines_removed
            == 0,
{
    let listed = choose|listed: Seq<PullRequestRecord>|
        #![trigger fetch::counted_pulls(listed, pages.pull_details@)]
        convert::rows_of(pages.pulls@, InRepo { repo_id: pages.repository.id }, listed)
            && out.pull_requests@ == fetch::counted_pulls(listed, pages.pull_details@);
    assert(pages.pulls@[i].becomes(InRepo { repo_id: pages.repository.id }, listed[i]));
    if i < 10 {
        let files = pages.pull_details@[i].files@;
        assert(fetch::counts_fit(files));
        assert(files.take(files.len() as int) =~= files);
    }
}

/// A commit is listed as it was answered, and each of the first ten has the line
/// counts of its details, where they give any; the others have none.
pub proof fn commits_carry_the_lines_of_their_details(
    pages: FetchedPages,
    out: FetchedRepository,
    i: int,
)
    requires
        fetch::is_fetched(pages, out),
        pages.wf(),
        0 <= i < pages.commits@.len(),
    ensures
        out.commits@.len() == pages.commits@.len(),
        out.commits@[i].sha == pages.commits@[i].sha,
        out.commits@[i].message == pages.commits@[i].commit.message,
        out.commits@[i].repo_id == pages.repository.id,
        i < 10 && pages.commit_details@[i].detail.stats is Some ==> {
            &&& out.commits@[i].additions == pages.commit_details@[i].detail.stats->0.additions
            &&& out.commits@[i].deletions == pages.commit_details@[i].detail.stats->0.deletions
        },
        i >= 10 || pages.commit_details@[i].detail.stats is None ==> out.commits@[i].additions == 0
            && out.commits@[i].deletions == 0,
{
    let at = InRepo { repo_id: pages.repository.id };
    let listed = choose|listed: Seq<CommitRecord>|
        #![trigger fetch::counted_commits(listed, pages.commit_details@)]
        convert::rows_of::<InRepo, GhCommit>(pages.commits@, at, listed) && out.commits@
            == fetch::counted_commits(listed, pages.commit_details@);
    assert(<GhCommit as IntoRecord<InRepo>>::becomes(pages.commits@[i], at, listed[i]));
}

/// The line counts of details change nothing else of a row.
pub proof fn counting_lines_changes_nothing_else(
    commit: CommitRecord,
    detail: GhCommitDetail,
    pull: PullRequestRecord,
    files: Seq<GhPullFile>,
)
    ensures
        ({
            let counted = fetch::counted_commit(commit, detail);
            &&& counted.repo_id == commit.repo_id
            &&& counted.sha == commit.sha
            &&& counted.message == commit.message
            &&& counted.author_login == commit.author_login
            &&& counted.committer_login == commit.committer_login
            &&& counted.authored_at == commit.authored_at
            &&& counted.committed_at == commit.committed_at
        }),
        ({
            let counted = fetch::counted_pull(pull, files);
            PullRequestRecord {
                lines_added: pull.lines_added,
                lines_removed: pull.lines_removed,
                ..counted
            } == pull
        }),
{
}

/// How many items the first `k` pages hold.
pub open spec fn items_before<T>(pages: Seq<Seq<T>>, k: int) -> nat
    decreases k,
{
    if k <= 0 {
        0
    } else {
        items_before(pages, k - 1) + pages[k - 1].len()
    }
}

proof fn lemma_items_before<T>(pages: Seq<Seq<T>>, more: Seq<T>, k: int)
    requires
        0 <= k <= pages.len(),
    ensures
        items_before(pages.push(more), k) == items_before(pages, k),
    decreases k,
{
    if k > 0 {
        lemma_items_before(pages, more, k - 1);
    }
}

proof fn lemma_items_grow<T>(pages: Seq<Seq<T>>, k: int, end: int)
    requires
        0 <= k < end <= pages.len(),
    ensures
        items_before(pages, k) + pages[k].len() <= items_before(pages, end),
    decreases end,
{
    if k < end - 1 {
        lemma_items_grow(pages, k, end - 1);
    }
}

/// Pages that belong at different places become rows end to end: item `j` of
/// page `k` becomes the row that has every item of the earlier pages, and `j`
/// items of its own, in front of it.
pub proof fn pages_are_laid_end_to_end<P, G: IntoRecord<P>>(
    pages: Seq<Seq<G>>,
    places: Seq<P>,
    rows: Seq<G::Record>,
    k: int,
    j: int,
)
    requires
        fetch::rows_of_pages::<P, G>(pages, places, rows),
    ensures
        rows.len() == items_before(pages, pages.len() as int),
        0 <= k < pages.len() && 0 <= j < pages[k].len() ==> {
            &&& items_before(pages, k) + j < rows.len()
            &&& pages[k][j].becomes(places[k], rows[items_before(pages, k) + j])
        },
    decreases pages.len(),
{
    if pages.len() > 0 {
        let last = pages.len() - 1;
        let cut = rows.len() - pages.last().len();
        let rest = pages.drop_last();
        assert(rest.push(pages.last()) =~= pages);
        pages_are_laid_end_to_end::<P, G>(rest, places, rows.take(cut), k, j);
        lemma_items_before(rest, pages.last(), last);
        if 0 <= k < last {
            lemma_items_before(rest, pages.last(), k);
            if 0 <= j < pages[k].len() {
                assert(rest[k] == pages[k]);
                lemma_items_grow(rest, k, last);
            }
        } else if k == last && 0 <= j < pages[k].len() {
            assert(pages.last()[j].becomes(places[last], rows.skip(cut)[j]));
        }
    }
}

/// The entries of several timelines become rows end to end, each at its position
/// in the timeline of its own issue.
pub proof fn timelines_are_laid_end_to_end(
    pages: Seq<Seq<Value>>,
    places: Seq<InIssue>,
    rows: Seq<IssueTimelineEventRecord>,
    k: int,
    j: int,
)
    requires
        fetch::timeline_rows_of_pages(pages, places, rows),
    ensures
        rows.len() == items_before(pages, pages.len() as int),
        0 <= k < pages.len() && 0 <= j < pages[k].len() ==> {
            &&& items_before(pages, k) + j < rows.len()
            &&& convert::is_issue_timeline_record(
                places[k].repo_id,
                places[k].issue_number,
                j as nat,
                pages[k][j],
                rows[items_before(pages, k) + j],
            )
        },
    decreases pages.len(),
{
    if pages.len() > 0 {
        let last = pages.len() - 1;
        let cut = rows.len() - pages.last().len();
        let rest = pages.drop_last();
        assert(rest.push(pages.last()) =~= pages);
        timelines_are_laid_end_to_end(rest, places, rows.take(cut), k, j);
        lemma_items_before(rest, pages.last(), last);
        if 0 <= k < last {
            lemma_items_before(rest, pages.last(), k);
            if 0 <= j < pages[k].len() {
                assert(rest[k] == pages[k]);
                lemma_items_grow(rest, k, last);
            }
        } else if k == last && 0 <= j < pages[k].len() {
            assert(convert::is_issue_timeline_record(
                places[last].repo_id,
                places[last].issue_number,
                j as nat,
                pages.last()[j],
                rows.skip(cut)[j],
            ));
        }
    }
}

/// A node is kept when it has an id, behind those kept before it.
pub proof fn nodes_with_an_id_are_kept_in_order(nodes: Seq<Value>, node: Value)
    ensures
        fetch::identified(Seq::empty()).len() == 0,
        json::string_at(node, "id"@) is Some ==> fetch::identified(nodes.push(node))
            == fetch::identified(nodes).push(node),
        json::string_at(node, "id"@) is None ==> fetch::identified(nodes.push(node))
            == fetch::identified(nodes),
{
    assert(nodes.push(node).drop_last() =~= nodes);
}

/// The nodes that each answer keeps.
pub open spec fn kept_nodes(bodies: Seq<Value>) -> Seq<Seq<Value>> {
    bodies.map_values(|body: Value| fetch::identified(fetch::thread_nodes_in(body)))
}

/// The threads of several pull requests become rows end to end, each in its own
/// pull request.
pub proof fn threads_are_laid_end_to_end(
    repo_id: i64,
    bodies: Seq<Value>,
    places: Seq<InPull>,
    rows: Seq<ReviewThreadRecord>,
    k: int,
    j: int,
)
    requires
        fetch::thread_rows_of_pages(repo_id, bodies, places, rows),
    ensures
        rows.len() == items_before(kept_nodes(bodies), bodies.len() as int),
        0 <= k < bodies.len() && 0 <= j < kept_nodes(bodies)[k].len() ==> {
            let place = items_before(kept_nodes(bodies), k) + j;
            &&& place < rows.len()
            &&& convert::is_review_thread_record(
                repo_id,
                places[k].pull_number,
                kept_nodes(bodies)[k][j],
                rows[place],
            )
        },
    decreases bodies.len(),
{
    if bodies.len() > 0 {
        let last = bodies.len() - 1;
        let pages = kept_nodes(bodies);
        let cut = rows.len() - pages[last].len();
        let rest = kept_nodes(bodies.drop_last());
        assert(rest.push(pages[last]) =~= pages);
        threads_are_laid_end_to_end(repo_id, bodies.drop_last(), places, rows.take(cut), k, j);
        lemma_items_before(rest, pages[last], last);
        if 0 <= k < last {
            lemma_items_before(rest, pages[last], k);
            if 0 <= j < pages[k].len() {
                assert(rest[k] == pages[k]);
                lemma_items_grow(rest, k, last);
            }
        } else if k == last && 0 <= j < pages[k].len() {
            let nodes = fetch::thread_nodes_in(bodies.last());
            assert(convert::is_review_thread_record(
                repo_id,
                places[last].pull_number,
                fetch::identified(nodes)[j],
                rows.skip(cut)[j],
            ));
        }
    }
}

/// The threads of an answer stand in its `data`, under the repository and the
/// pull request, as the nodes of `reviewThreads`. Where any of these is missing,
/// or no list, there are none.
pub proof fn threads_stand_under_their_pull_request(
    body: Value,
    data: Value,
    repository: Value,
    pull: Value,
    threads: Value,
    nodes: Value,
)
    ensures
        ({
            &&& json::member_of(body, "data"@) == Some(data)
            &&& json::member_of(data, "repository"@) == Some(repository)
            &&& json::member_of(repository, "pullRequest"@) == Some(pull)
            &&& json::member_of(pull, "reviewThreads"@) == Some(threads)
            &&& json::member_of(threads, "nodes"@) == Some(nodes)
            &&& json::json_array(nodes) is Some
        }) ==> fetch::thread_nodes_in(body) == json::json_array(nodes)->0,
        json::member_of(body, "data"@) is None ==> fetch::thread_nodes_in(body).len() == 0,
        json::member_of(body, "data"@) == Some(data) && json::member_of(data, "repository"@)
            is None ==> fetch::thread_nodes_in(body).len() == 0,
{
}

/// What hangs off the first ten issues is kept under their numbers: reactions
/// and timelines, item by item and in order.
pub proof fn details_of_issues_are_kept_under_them(
    pages: FetchedPages,
    out: FetchedRepository,
    k: int,
    j: int,
)
    requires
        fetch::is_fetched(pages, out),
        pages.wf(),
        0 <= k < at_most_ten(pages.issues@.len()),
    ensures
        0 <= j < pages.reactions@[k]@.len() ==> {
            let place = items_before(fetch::pages_of(pages.reactions@), k) + j;
            &&& place < out.issue_reactions@.len()
            &&& out.issue_reactions@[place].issue_number == pages.issues@[k].number
            &&& out.issue_reactions@[place].content == pages.reactions@[k]@[j].content
            &&& out.issue_reactions@[place].repo_id == pages.repository.id
        },
        0 <= j < pages.timelines@[k]@.len() ==> {
            let place = items_before(fetch::pages_of(pages.timelines@), k) + j;
            &&& place < out.issue_timeline@.len()
            &&& out.issue_timeline@[place].issue_number == pages.issues@[k].number
            &&& out.issue_timeline@[place].payload_json@ == json::json_compact(
                pages.timelines@[k]@[j],
            )
            &&& out.issue_timeline@[place].repo_id == pages.repository.id
        },
        out.issue_reactions@.len() == items_before(
            fetch::pages_of(pages.reactions@),
            pages.reactions@.len() as int,
        ),
        out.issue_timeline@.len() == items_before(
            fetch::pages_of(pages.timelines@),
            pages.timelines@.len() as int,
        ),
{
    let places = fetch::issue_places(pages.repository.id, out.issues@);
    pages_are_laid_end_to_end::<InIssue, GhIssueReaction>(
        fetch::pages_of(pages.reactions@),
        places,
        out.issue_reactions@,
        k,
        j,
    );
    timelines_are_laid_end_to_end(
        fetch::pages_of(pages.timelines@),
        places,
        out.issue_timeline@,
        k,
        j,
    );
    assert(pages.issues@[k].becomes(InRepo { repo_id: pages.repository.id }, out.issues@[k]));
    assert(places[k].issue_number == pages.issues@[k].number);
}

/// The jobs of the first ten workflow runs are kept, item by item and in order.
pub proof fn jobs_of_runs_are_kept(pages: FetchedPages, out: FetchedRepository, k: int, j: int)
    requires
        fetch::is_fetched(pages, out),
        pages.wf(),
        0 <= k < at_most_ten(pages.workflow_runs@.len()),
    ensures
        0 <= j < pages.jobs@[k]@.len() ==> {
            let place = items_before(fetch::pages_of(pages.jobs@), k) + j;
            &&& place < out.workflow_jobs@.len()
            &&& out.workflow_jobs@[place].id == pages.jobs@[k]@[j].id
            &&& out.workflow_jobs@[place].run_id == pages.jobs@[k]@[j].run_id
            &&& out.workflow_jobs@[place].repo_id == pages.repository.id
        },
        out.workflow_jobs@.len() == items_before(
            fetch::pages_of(pages.jobs@),
            pages.jobs@.len() as int,
        ),
{
    pages_are_laid_end_to_end::<InRepo, GhWorkflowJob>(
        fetch::pages_of(pages.jobs@),
        fetch::run_places(pages.repository.id, pages.workflow_runs@.len()),
        out.workflow_jobs@,
        k,
        j,
    );
}

/// What hangs off the first ten commits is kept under their SHAs: files and
/// statuses, and the check runs beside them, item by item and in order.
pub proof fn details_of_commits_are_kept_under_them(
    pages: FetchedPages,
    out: FetchedRepository,
    k: int,
    j: int,
)
    requires
        fetch::is_fetched(pages, out),
        pages.wf(),
        0 <= k < at_most_ten(pages.commits@.len()),
    ensures
        ({
            let files = pages.commit_details@.map_values(|page: CommitPages| page.detail.files@);
            let place = items_before(files, k) + j;
            &&& out.commit_files@.len() == items_before(files, files.len() as int)
            &&& 0 <= j < pages.commit_details@[k].detail.files@.len() ==> {
                &&& place < out.commit_files@.len()
                &&& out.commit_files@[place].commit_sha@ == pages.commits@[k].sha@
                &&& out.commit_files@[place].filename
                    == pages.commit_details@[k].detail.files@[j].filename
                &&& out.commit_files@[place].repo_id == pages.repository.id
            }
        }),
        ({
            let statuses = pages.commit_details@.map_values(|page: CommitPages| page.statuses@);
            let place = items_before(statuses, k) + j;
            &&& out.commit_statuses@.len() == items_before(statuses, statuses.len() as int)
            &&& 0 <= j < pages.commit_details@[k].statuses@.len() ==> {
                &&& place < out.commit_statuses@.len()
                &&& out.commit_statuses@[place].commit_sha@ == pages.commits@[k].sha@
                &&& out.commit_statuses@[place].id == pages.commit_details@[k].statuses@[j].id
                &&& out.commit_statuses@[place].repo_id == pages.repository.id
            }
        }),
        ({
            let checks = pages.commit_details@.map_values(|page: CommitPages| page.check_runs@);
            let place = items_before(checks, k) + j;
            &&& out.check_runs@.len() == items_before(checks, checks.len() as int)
            &&& 0 <= j < pages.commit_details@[k].check_runs@.len() ==> {
                &&& place < out.check_runs@.len()
                &&& out.check_runs@[place].id == pages.commit_details@[k].check_runs@[j].id
                &&& out.check_runs@[place].repo_id == pages.repository.id
            }
        }),
{
    let places = fetch::commit_places(pages.repository.id, out.commits@);
    commits_carry_the_lines_of_their_details(pages, out, k);
    assert(places[k].commit_sha@ == pages.commits@[k].sha@);
    pages_are_laid_end_to_end::<InCommit, GhPullFile>(
        pages.commit_details@.map_values(|page: CommitPages| page.detail.files@),
        places,
        out.commit_files@,
        k,
        j,
    );
    pages_are_laid_end_to_end::<InCommit, GhCommitStatus>(
        pages.commit_details@.map_values(|page: CommitPages| page.statuses@),
        places,
        out.commit_statuses@,
        k,
        j,
    );
    pages_are_laid_end_to_end::<InRepo, GhCheckRun>(
        pages.commit_details@.map_values(|page: CommitPages| page.check_runs@),
        fetch::same_place(pages.repository.id, pages.commit_details@.len()),
        out.check_runs@,
        k,
        j,
    );
}

/// What hangs off the first ten pull requests is kept under their numbers:
/// reviews, files and commits, item by item and in order.
pub proof fn details_of_pulls_are_kept_under_them(
    pages: FetchedPages,
    out: FetchedRepository,
    k: int,
    j: int,
)
    requires
        fetch::is_fetched(pages, out),
        pages.wf(),
        0 <= k < at_most_ten(pages.pulls@.len()),
    ensures
        ({
            let reviews = pages.pull_details@.map_values(|page: PullPages| page.reviews@);
            let place = items_before(reviews, k) + j;
            &&& out.reviews@.len() == items_before(reviews, reviews.len() as int)
            &&& 0 <= j < pages.pull_details@[k].reviews@.len() ==> {
                &&& place < out.reviews@.len()
                &&& out.reviews@[place].pull_number == pages.pulls@[k].number
                &&& out.reviews@[place].id == pages.pull_details@[k].reviews@[j].id
                &&& out.reviews@[place].repo_id == pages.repository.id
            }
        }),
        ({
            let files = pages.pull_details@.map_values(|page: PullPages| page.files@);
            let place = items_before(files, k) + j;
            &&& out.pull_request_files@.len() == items_before(files, files.len() as int)
            &&& 0 <= j < pages.pull_details@[k].files@.len() ==> {
                &&& place < out.pull_request_files@.len()
                &&& out.pull_request_files@[place].pull_number == pages.pulls@[k].number
                &&& out.pull_request_files@[place].filename
                    == pages.pull_details@[k].files@[j].filename
                &&& out.pull_request_files@[place].repo_id == pages.repository.id
            }
        }),
        ({
            let commits = pages.pull_details@.map_values(|page: PullPages| page.commits@);
            let place = items_before(commits, k) + j;
            &&& out.pull_request_commits@.len() == items_before(commits, commits.len() as int)
            &&& 0 <= j < pages.pull_details@[k].commits@.len() ==> {
                &&& place < out.pull_request_commits@.len()
                &&& out.pull_request_commits@[place].pull_number == pages.pulls@[k].number
                &&& out.pull_request_commits@[place].sha == pages.pull_details@[k].commits@[j].sha
                &&& out.pull_request_commits@[place].repo_id == pages.repository.id
            }
        }),
{
    let places = fetch::pull_places(pages.repository.id, out.pull_requests@);
    pull_requests_carry_the_lines_of_their_files(pages, out, k);
    assert(places[k].pull_number == pages.pulls@[k].number);
    pages_are_laid_end_to_end::<InPull, GhReview>(
        pages.pull_details@.map_values(|page: PullPages| page.reviews@),
        places,
        out.reviews@,
        k,
        j,
    );
    pages_are_laid_end_to_end::<InPull, GhPullFile>(
        pages.pull_details@.map_values(|page: PullPages| page.files@),
        places,
        out.pull_request_files@,
        k,
        j,
    );
    pages_are_laid_end_to_end::<InPull, GhCommit>(
        pages.pull_details@.map_values(|page: PullPages| page.commits@),
        places,
        out.pull_request_commits@,
        k,
        j,
    );
}

/// The review threads of the first ten pull requests are kept under their
/// numbers, in order.
pub proof fn threads_of_pulls_are_kept_under_them(
    pages: FetchedPages,
    out: FetchedRepository,
    k: int,
    j: int,
)
    requires
        fetch::is_fetched(pages, out),
        pages.wf(),
        0 <= k < at_most_ten(pages.pulls@.len()),
    ensures
        ({
            let kept = kept_nodes(
                pages.pull_details@.map_values(|page: PullPages| page.threads),
            );
            let place = items_before(kept, k) + j;
            &&& out.review_threads@.len() == items_before(kept, pages.pull_details@.len() as int)
            &&& 0 <= j < kept[k].len() ==> {
                &&& place < out.review_threads@.len()
                &&& out.review_threads@[place].pull_number == pages.pulls@[k].number
                &&& json::string_at(kept[k][j], "id"@) == Some(out.review_threads@[place].id@)
                &&& out.review_threads@[place].repo_id == pages.repository.id
            }
        }),
{
    let places = fetch::pull_places(pages.repository.id, out.pull_requests@);
    pull_requests_carry_the_lines_of_their_files(pages, out, k);
    assert(places[k].pull_number == pages.pulls@[k].number);
    threads_are_laid_end_to_end(
        pages.repository.id,
        pages.pull_details@.map_values(|page: PullPages| page.threads),
        places,
        out.review_threads@,
        k,
        j,
    );
}

} // verus!
