//! Where the requests of a fetch go, which there are, and what the status of an
//! answer means.

use crate::client;
use crate::client::{FetchRequest, Leg, Page, Target, TargetView};
use crate::decimal;
use crate::fetch;
use crate::json;
use crate::text;
use crate::wire::{GhCommit, GhIssue, GhPullRequest, GhWorkflowRun};
use serde_json::Value;
use vstd::prelude::*;
use vstd::string::*;

verus! {

/// A request about a repository goes to the repository's own path.
pub proof fn repository_is_asked_for_by_owner_and_name(owner: Seq<char>, name: Seq<char>)
    ensures
        client::target_of(FetchRequest::Repository, owner, name) == TargetView::Get(
            "/repos/"@ + owner + "/"@ + name,
        ),
{
}

/// Every listing is asked for below the path of its repository, where the API
/// serves it: a page of fifty, and of every state where there are several.
pub proof fn listings_are_asked_for_where_they_are_served(owner: Seq<char>, name: Seq<char>)
    ensures
        ({
            let below = "/repos/"@ + owner + "/"@ + name;
            &&& client::target_of(FetchRequest::Page(Page::Issues), owner, name) == TargetView::Get(
                below + "/issues?state=all&per_page=50"@,
            )
            &&& client::target_of(FetchRequest::Page(Page::Pulls), owner, name) == TargetView::Get(
                below + "/pulls?state=all&per_page=50"@,
            )
            &&& client::target_of(FetchRequest::Page(Page::Commits), owner, name) == TargetView::Get(
                below + "/commits?per_page=50"@,
            )
            &&& client::target_of(FetchRequest::Page(Page::Comments), owner, name) == TargetView::Get(
                below + "/issues/comments?per_page=50"@,
            )
            &&& client::target_of(FetchRequest::Page(Page::ReviewComments), owner, name) == TargetView::Get(
                below + "/pulls/comments?per_page=50"@,
            )
            &&& client::target_of(FetchRequest::Page(Page::Labels), owner, name) == TargetView::Get(
                below + "/labels?per_page=50"@,
            )
            &&& client::target_of(FetchRequest::Page(Page::Milestones), owner, name) == TargetView::Get(
                below + "/milestones?state=all&per_page=50"@,
            )
            &&& client::target_of(FetchRequest::Page(Page::Releases), owner, name) == TargetView::Get(
                below + "/releases?per_page=50"@,
            )
            &&& client::target_of(FetchRequest::Page(Page::Branches), owner, name) == TargetView::Get(
                below + "/branches?per_page=50"@,
            )
            &&& client::target_of(FetchRequest::Page(Page::Contributors), owner, name) == TargetView::Get(
                below + "/contributors?per_page=50"@,
            )
            &&& client::target_of(FetchRequest::Page(Page::WorkflowRuns), owner, name) == TargetView::Get(
                below + "/actions/runs?per_page=50"@,
            )
            &&& client::target_of(FetchRequest::Page(Page::Deployments), owner, name) == TargetView::Get(
                below + "/deployments?per_page=50"@,
            )
            &&& client::target_of(FetchRequest::Page(Page::IssueEvents), owner, name) == TargetView::Get(
                below + "/issues/events?per_page=50"@,
            )
            &&& client::target_of(FetchRequest::Page(Page::CommitComments), owner, name) == TargetView::Get(
                below + "/comments?per_page=50"@,
            )
            &&& client::target_of(FetchRequest::Page(Page::Tags), owner, name) == TargetView::Get(
                below + "/tags?per_page=50"@,
            )
        }),
{
}

/// Issues, pull requests and milestones are listed whatever their state: the
/// query of each names all of them.
pub proof fn every_state_is_listed(page: Page)
    requires
        page is Issues || page is Pulls || page is Milestones,
    ensures
        text::contains_text(page.spec_suffix(), "?state=all&"@),
{
    reveal_strlit("?state=all&");
    reveal_strlit("/issues?state=all&per_page=50");
    reveal_strlit("/pulls?state=all&per_page=50");
    reveal_strlit("/milestones?state=all&per_page=50");
    if page is Issues {
        assert(page.spec_suffix().subrange(7, 18) =~= "?state=all&"@);
        assert(text::occurs_at(page.spec_suffix(), "?state=all&"@, 7));
    }
    if page is Pulls {
        assert(page.spec_suffix().subrange(6, 17) =~= "?state=all&"@);
        assert(text::occurs_at(page.spec_suffix(), "?state=all&"@, 6));
    }
    if page is Milestones {
        assert(page.spec_suffix().subrange(11, 22) =~= "?state=all&"@);
        assert(text::occurs_at(page.spec_suffix(), "?state=all&"@, 11));
    }
}

/// Every listing asks for a page of fifty.
pub proof fn every_listing_asks_for_fifty(page: Page)
    ensures
        "per_page=50"@.is_suffix_of(page.spec_suffix()),
{
    reveal_strlit("per_page=50");
    reveal_strlit("/issues?state=all&per_page=50");
    reveal_strlit("/pulls?state=all&per_page=50");
    reveal_strlit("/commits?per_page=50");
    reveal_strlit("/issues/comments?per_page=50");
    reveal_strlit("/pulls/comments?per_page=50");
    reveal_strlit("/labels?per_page=50");
    reveal_strlit("/milestones?state=all&per_page=50");
    reveal_strlit("/releases?per_page=50");
    reveal_strlit("/branches?per_page=50");
    reveal_strlit("/contributors?per_page=50");
    reveal_strlit("/actions/runs?per_page=50");
    reveal_strlit("/deployments?per_page=50");
    reveal_strlit("/issues/events?per_page=50");
    reveal_strlit("/comments?per_page=50");
    reveal_strlit("/tags?per_page=50");
    let suffix = page.spec_suffix();
    assert(suffix.subrange(suffix.len() - "per_page=50"@.len(), suffix.len() as int) =~= "per_page=50"@);
}

/// What belongs to an issue, a workflow run, a commit or a pull request is asked
/// for below its path: by number, by id, or by SHA.
pub proof fn details_are_asked_for_where_they_are_served(
    owner: Seq<char>,
    name: Seq<char>,
    number: i64,
    sha: String,
)
    ensures
        ({
            let below = "/repos/"@ + owner + "/"@ + name;
            let digits = decimal::integer_text(number as int);
            &&& client::target_of(FetchRequest::IssueReactions(number), owner, name)
                == TargetView::Get(below + "/issues/"@ + digits + "/reactions?per_page=50"@)
            &&& client::target_of(FetchRequest::IssueTimeline(number), owner, name)
                == TargetView::Get(below + "/issues/"@ + digits + "/timeline?per_page=50"@)
            &&& client::target_of(FetchRequest::RunJobs(number), owner, name) == TargetView::Get(
                below + "/actions/runs/"@ + digits + "/jobs?per_page=50"@,
            )
            &&& client::target_of(FetchRequest::Commit(sha), owner, name) == TargetView::Get(
                below + "/commits/"@ + sha@,
            )
            &&& client::target_of(FetchRequest::CommitStatuses(sha), owner, name)
                == TargetView::Get(below + "/commits/"@ + sha@ + "/statuses?per_page=50"@)
            &&& client::target_of(FetchRequest::CommitCheckRuns(sha), owner, name)
                == TargetView::Get(below + "/commits/"@ + sha@ + "/check-runs?per_page=50"@)
            &&& client::target_of(FetchRequest::PullReviews(number), owner, name)
                == TargetView::Get(below + "/pulls/"@ + digits + "/reviews?per_page=50"@)
            &&& client::target_of(FetchRequest::PullFiles(number), owner, name) == TargetView::Get(
                below + "/pulls/"@ + digits + "/files?per_page=50"@,
            )
            &&& client::target_of(FetchRequest::PullCommits(number), owner, name)
                == TargetView::Get(below + "/pulls/"@ + digits + "/commits?per_page=50"@)
            &&& client::target_of(FetchRequest::PullThreads(number), owner, name)
                == TargetView::Graphql(
                "query { repository(owner: \""@ + owner + "\", name: \""@ + name
                    + "\") { pullRequest(number: "@ + digits
                    + ") { reviewThreads(first: 50) { nodes { id isResolved isOutdated path line resolvedBy { login } comments(first: 1) { totalCount } } } } } }"@,
            )
        }),
{
    reveal_strlit("");
    let below = "/repos/"@ + owner + "/"@ + name;
    assert(below + "/commits/"@ + sha@ + ""@ =~= below + "/commits/"@ + sha@);
}

/// A fetch opens with the repository, and then asks for every listing once.
pub proof fn every_listing_is_asked_for_once(page: Page)
    ensures
        fetch::opening_requests()[0] == FetchRequest::Repository,
        fetch::opening_requests().len() == 16,
        exists|i: int|
            1 <= i < 16 && #[trigger] fetch::opening_requests()[i] == FetchRequest::Page(page),
        forall|i: int, j: int|
            0 <= i < j < 16 ==> #[trigger] fetch::opening_requests()[i]
                != #[trigger] fetch::opening_requests()[j],
{
    assert(fetch::opening_requests()[1] == FetchRequest::Page(Page::Issues));
    assert(fetch::opening_requests()[2] == FetchRequest::Page(Page::Pulls));
    assert(fetch::opening_requests()[3] == FetchRequest::Page(Page::Commits));
    assert(fetch::opening_requests()[4] == FetchRequest::Page(Page::Comments));
    assert(fetch::opening_requests()[5] == FetchRequest::Page(Page::ReviewComments));
    assert(fetch::opening_requests()[6] == FetchRequest::Page(Page::Labels));
    assert(fetch::opening_requests()[7] == FetchRequest::Page(Page::Milestones));
    assert(fetch::opening_requests()[8] == FetchRequest::Page(Page::Releases));
    assert(fetch::opening_requests()[9] == FetchRequest::Page(Page::Branches));
    assert(fetch::opening_requests()[10] == FetchRequest::Page(Page::Contributors));
    assert(fetch::opening_requests()[11] == FetchRequest::Page(Page::WorkflowRuns));
    assert(fetch::opening_requests()[12] == FetchRequest::Page(Page::Deployments));
    assert(fetch::opening_requests()[13] == FetchRequest::Page(Page::IssueEvents));
    assert(fetch::opening_requests()[14] == FetchRequest::Page(Page::CommitComments));
    assert(fetch::opening_requests()[15] == FetchRequest::Page(Page::Tags));
}

/// Each of the first ten issues, and no other, is asked for its reactions; then
/// each of them for its timeline; then each of the first ten workflow runs for
/// its jobs.
pub proof fn first_issues_and_runs_are_asked_for(
    issues: Seq<GhIssue>,
    runs: Seq<GhWorkflowRun>,
    commits: Seq<GhCommit>,
    pulls: Seq<GhPullRequest>,
    i: int,
)
    ensures
        ({
            let requests = fetch::following_requests(issues, runs, commits, pulls);
            let few_issues = if issues.len() < 10 {
                issues.len() as int
            } else {
                10
            };
            let few_runs = if runs.len() < 10 {
                runs.len() as int
            } else {
                10
            };
            &&& 0 <= i < few_issues ==> requests[i] == FetchRequest::IssueReactions(
                issues[i].number,
            ) && requests[few_issues + i] == FetchRequest::IssueTimeline(issues[i].number)
            &&& 0 <= i < few_runs ==> requests[2 * few_issues + i] == FetchRequest::RunJobs(
                runs[i].id,
            )
        }),
{
    let few_issues = issues.take(
        if issues.len() < 10 {
            issues.len() as int
        } else {
            10
        },
    );
    lemma_details_follow(issues, runs, commits, pulls);
    let head = fetch::issue_requests(issues);
    assert(head.len() == 2 * few_issues.len());
}

proof fn lemma_details_follow(
    issues: Seq<GhIssue>,
    runs: Seq<GhWorkflowRun>,
    commits: Seq<GhCommit>,
    pulls: Seq<GhPullRequest>,
)
    ensures
        ({
            let few_issues = if issues.len() < 10 {
                issues.len() as int
            } else {
                10
            };
            let few_runs = if runs.len() < 10 {
                runs.len() as int
            } else {
                10
            };
            let few_commits = if commits.len() < 10 {
                commits.len() as nat
            } else {
                10
            };
            let few_pulls = if pulls.len() < 10 {
                pulls.len() as nat
            } else {
                10
            };
            &&& fetch::following_requests(issues, runs, commits, pulls) == fetch::issue_requests(
                issues,
            ) + fetch::run_requests(runs) + fetch::commit_requests(commits, few_commits)
                + fetch::pull_requests_of(pulls, few_pulls)
            &&& fetch::issue_requests(issues).len() == 2 * few_issues
            &&& fetch::run_requests(runs).len() == few_runs
            &&& fetch::commit_requests(commits, few_commits).len() == 3 * few_commits
            &&& fetch::pull_requests_of(pulls, few_pulls).len() == 4 * few_pulls
        }),
{
    let few_commits = if commits.len() < 10 {
        commits.len() as nat
    } else {
        10
    };
    let few_pulls = if pulls.len() < 10 {
        pulls.len() as nat
    } else {
        10
    };
    lemma_commit_requests(commits, few_commits, 0);
    lemma_pull_requests(pulls, few_pulls, 0);
}

proof fn lemma_commit_requests(commits: Seq<GhCommit>, few: nat, i: int)
    ensures
        fetch::commit_requests(commits, few).len() == 3 * few,
        0 <= i < few ==> {
            let requests = fetch::commit_requests(commits, few);
            &&& requests[3 * i] == FetchRequest::Commit(commits[i].sha)
            &&& requests[3 * i + 1] == FetchRequest::CommitStatuses(commits[i].sha)
            &&& requests[3 * i + 2] == FetchRequest::CommitCheckRuns(commits[i].sha)
        },
    decreases few,
{
    if few > 0 {
        lemma_commit_requests(commits, (few - 1) as nat, i);
    }
}

proof fn lemma_pull_requests(pulls: Seq<GhPullRequest>, few: nat, i: int)
    ensures
        fetch::pull_requests_of(pulls, few).len() == 4 * few,
        0 <= i < few ==> {
            let requests = fetch::pull_requests_of(pulls, few);
            &&& requests[4 * i] == FetchRequest::PullReviews(pulls[i].number)
            &&& requests[4 * i + 1] == FetchRequest::PullFiles(pulls[i].number)
            &&& requests[4 * i + 2] == FetchRequest::PullCommits(pulls[i].number)
            &&& requests[4 * i + 3] == FetchRequest::PullThreads(pulls[i].number)
        },
    decreases few,
{
    if few > 0 {
        lemma_pull_requests(pulls, (few - 1) as nat, i);
    }
}

/// After the issues and runs, each of the first ten commits is asked for its
/// details, statuses and check runs, commit by commit; then each of the first
/// ten pull requests for its reviews, files, commits and threads. That is all.
pub proof fn first_commits_and_pulls_are_asked_for(
    issues: Seq<GhIssue>,
    runs: Seq<GhWorkflowRun>,
    commits: Seq<GhCommit>,
    pulls: Seq<GhPullRequest>,
    i: int,
)
    ensures
        ({
            let requests = fetch::following_requests(issues, runs, commits, pulls);
            let few_issues = if issues.len() < 10 {
                issues.len() as int
            } else {
                10
            };
            let few_runs = if runs.len() < 10 {
                runs.len() as int
            } else {
                10
            };
            let few_commits = if commits.len() < 10 {
                commits.len() as int
            } else {
                10
            };
            let few_pulls = if pulls.len() < 10 {
                pulls.len() as int
            } else {
                10
            };
            let before = 2 * few_issues + few_runs;
            &&& 0 <= i < few_commits ==> {
                &&& requests[before + 3 * i] == FetchRequest::Commit(commits[i].sha)
                &&& requests[before + 3 * i + 1] == FetchRequest::CommitStatuses(commits[i].sha)
                &&& requests[before + 3 * i + 2] == FetchRequest::CommitCheckRuns(commits[i].sha)
            }
            &&& 0 <= i < few_pulls ==> {
                let start = before + 3 * few_commits + 4 * i;
                &&& requests[start] == FetchRequest::PullReviews(pulls[i].number)
                &&& requests[start + 1] == FetchRequest::PullFiles(pulls[i].number)
                &&& requests[start + 2] == FetchRequest::PullCommits(pulls[i].number)
                &&& requests[start + 3] == FetchRequest::PullThreads(pulls[i].number)
            }
            &&& requests.len() == before + 3 * few_commits + 4 * few_pulls
        }),
{
    let few_commits = if commits.len() < 10 {
        commits.len() as nat
    } else {
        10
    };
    let few_pulls = if pulls.len() < 10 {
        pulls.len() as nat
    } else {
        10
    };
    lemma_details_follow(issues, runs, commits, pulls);
    lemma_commit_requests(commits, few_commits, i);
    lemma_pull_requests(pulls, few_pulls, i);
    let a = fetch::issue_requests(issues) + fetch::run_requests(runs);
    let b = fetch::commit_requests(commits, few_commits);
    let c = fetch::pull_requests_of(pulls, few_pulls);
    assert(forall|k: int| 0 <= k < b.len() ==> (a + b + c)[a.len() + k] == #[trigger] b[k]);
    assert(forall|k: int|
        0 <= k < c.len() ==> (a + b + c)[a.len() + b.len() + k] == #[trigger] c[k]);
}

/// GraphQL is served beside the versioned root of an enterprise server, and
/// under any other base.
pub proof fn graphql_is_beside_the_rest_root(root: Seq<char>, base: Seq<char>)
    ensures
        client::graphql_beside(root + "/api/v3"@) == root + "/api/graphql"@,
        (forall|head: Seq<char>| base != #[trigger] (head + "/api/v3"@)) ==> client::graphql_beside(
            base,
        ) == base + "/graphql"@,
{
    let enterprise = root + "/api/v3"@;
    assert(enterprise.subrange(enterprise.len() - "/api/v3"@.len(), enterprise.len() as int)
        =~= "/api/v3"@);
    assert(enterprise.take(enterprise.len() - "/api/v3"@.len()) =~= root);
    if "/api/v3"@.is_suffix_of(base) {
        let head = base.take(base.len() - "/api/v3"@.len());
        assert(base =~= head + "/api/v3"@);
    }
}

/// An answer is a success with a status from 200 to 299, and with no other.
pub proof fn success_is_a_status_in_the_two_hundreds(code: u16)
    ensures
        client::is_success(code) <==> code / 100 == 2,
{
}

/// A status reads as its code, a blank and its reason.
pub proof fn status_reads_as_code_and_reason(code: u16, reason: Seq<char>)
    ensures
        client::status_words(code, Some(reason)) == decimal::natural_text(code as nat) + " "@ + reason,
        client::status_words(code, None) == decimal::natural_text(code as nat)
            + " <unknown status code>"@,
{
    reveal_strlit(" ");
    reveal_strlit("<unknown status code>");
    reveal_strlit(" <unknown status code>");
    assert(" "@ + "<unknown status code>"@ =~= " <unknown status code>"@);
    let digits = decimal::natural_text(code as nat);
    assert(digits + " "@ + "<unknown status code>"@ =~= digits + (" "@ + "<unknown status code>"@));
}

/// A GraphQL answer reports the items of its `errors` list, when that has any.
pub proof fn graphql_errors_are_those_of_the_list(body: Value, errors: Value)
    ensures
        json::member_of(body, "errors"@) == Some(errors) && json::json_array(errors) is Some
            && json::json_array(errors)->0.len() > 0 ==> client::graphql_errors(body)
            == json::json_array(errors),
        json::member_of(body, "errors"@) is None ==> client::graphql_errors(body) is None,
        json::member_of(body, "errors"@) == Some(errors) && (json::json_array(errors) is None
            || json::json_array(errors)->0.len() == 0) ==> client::graphql_errors(body) is None,
{
}

/// A failed request says at which stage it failed.
pub proof fn failures_name_their_stage()
    ensures
        Leg::BuildClient.spec_words() == "failed to build HTTP client: "@,
        Leg::Send.spec_words() == "GitHub request failed: "@,
        Leg::Decode.spec_words() == "GitHub response decode failed: "@,
        Leg::SendGraphql.spec_words() == "GitHub GraphQL request failed: "@,
        Leg::DecodeGraphql.spec_words() == "GitHub GraphQL decode failed: "@,
{
}

/// Answers are asked for in the media type of the API.
pub proof fn answers_are_asked_for_in_the_media_type_of_the_api()
    ensures
        client::ACCEPTED@ == "application/vnd.github+json"@,
{
}

/// A target shows the path, or the query, that it holds.
pub proof fn targets_show_where_they_go(held: String)
    ensures
        Target::Get(held)@ == TargetView::Get(held@),
        Target::Graphql(held)@ == TargetView::Graphql(held@),
{
}

} // verus!
