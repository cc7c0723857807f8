use std::sync::atomic::Ordering;

use github_mirror::client::{
    check_graphql_body, check_graphql_status, check_status, in_words, request_url,
    review_threads_query, user_agent, FetchRequest, Leg, Page, Target, PER_COMMIT_SYNC_CAP,
    PER_ISSUE_SYNC_CAP, PER_PULL_SYNC_CAP, PER_RUN_SYNC_CAP,
};
use github_mirror::config::default_scope;
use github_mirror::context::SecurityContext;
use github_mirror::error::DomainError;
use github_mirror::fetch::{
    detail_requests, fetch_repository, first_requests, line_counts, pair_commit_pages,
    pair_pull_pages, review_thread_rows, timeline_rows, CommitPages, FetchedPages, PullPages,
};
use github_mirror::ports::{FetchOptions, Listing, ListingCompleteness};
use github_mirror::records::RepoRecord;
use github_mirror::service::access::{AccessCheck, Action, Resource};
use github_mirror::service::progress::SyncProgress;
use github_mirror::service::queries::{Service, ServiceConfig};
use github_mirror::service::store::{plan_of, report, MirrorWrite};
use github_mirror::service::syncing::{SyncAction, SyncEvent, SyncRepository};
use github_mirror::wire::{
    GhActor, GhCheckRun, GhCommit, GhCommitDetail, GhCommitDetails, GhCommitStats, GhCommitStatus,
    GhIssue, GhIssueReaction, GhPullFile, GhPullRequest, GhRepository, GhReview, GhWorkflowJob,
    GhWorkflowRun,
};
use serde_json::Value;

fn s(text: &str) -> String {
    text.to_owned()
}

fn json(text: &str) -> Value {
    serde_json::from_str(text).expect("valid JSON")
}

fn get(request: FetchRequest) -> String {
    match request.target("acme", "widget") {
        Target::Get(path) => path,
        Target::Graphql(query) => panic!("{query}"),
    }
}

// --- requests --------------------------------------------------------------

#[test]
fn requests_go_below_the_base() {
    assert_eq!(request_url("https://x///", "/repos/a/b"), "https://x/repos/a/b");
    assert_eq!(request_url("https://x", "/repos/a/b"), "https://x/repos/a/b");
    assert_eq!(user_agent("1.2.3"), "cf-gears-github-mirror/1.2.3");
}

#[test]
fn every_request_has_its_path() {
    assert_eq!(get(FetchRequest::Repository), "/repos/acme/widget");
    assert_eq!(
        get(FetchRequest::Page(Page::Issues)),
        "/repos/acme/widget/issues?state=all&per_page=50"
    );
    assert_eq!(get(FetchRequest::Page(Page::Tags)), "/repos/acme/widget/tags?per_page=50");
    assert_eq!(
        get(FetchRequest::IssueReactions(12)),
        "/repos/acme/widget/issues/12/reactions?per_page=50"
    );
    assert_eq!(
        get(FetchRequest::IssueTimeline(12)),
        "/repos/acme/widget/issues/12/timeline?per_page=50"
    );
    assert_eq!(
        get(FetchRequest::RunJobs(i64::MIN)),
        "/repos/acme/widget/actions/runs/-9223372036854775808/jobs?per_page=50"
    );
    assert_eq!(get(FetchRequest::Commit(s("abc"))), "/repos/acme/widget/commits/abc");
    assert_eq!(
        get(FetchRequest::CommitStatuses(s("abc"))),
        "/repos/acme/widget/commits/abc/statuses?per_page=50"
    );
    assert_eq!(
        get(FetchRequest::CommitCheckRuns(s("abc"))),
        "/repos/acme/widget/commits/abc/check-runs?per_page=50"
    );
    assert_eq!(
        get(FetchRequest::PullReviews(3)),
        "/repos/acme/widget/pulls/3/reviews?per_page=50"
    );
    assert_eq!(get(FetchRequest::PullFiles(3)), "/repos/acme/widget/pulls/3/files?per_page=50");
    assert_eq!(
        get(FetchRequest::PullCommits(3)),
        "/repos/acme/widget/pulls/3/commits?per_page=50"
    );
}

#[test]
fn review_threads_are_queried_by_number() {
    let query = review_threads_query("acme", "widget", 3);
    assert!(query.starts_with(
        "query { repository(owner: \"acme\", name: \"widget\") { pullRequest(number: 3) { "
    ));
    assert_eq!(query.matches('{').count(), query.matches('}').count());
    match FetchRequest::PullThreads(3).target("acme", "widget") {
        Target::Graphql(sent) => assert_eq!(sent, query),
        Target::Get(path) => panic!("{path}"),
    }
}

#[test]
fn a_fetch_opens_with_the_repository() {
    let requests = first_requests();
    assert_eq!(requests.len(), 16);
    assert!(matches!(requests[0], FetchRequest::Repository));
    assert!(matches!(requests[1], FetchRequest::Page(Page::Issues)));
    assert!(matches!(requests[15], FetchRequest::Page(Page::Tags)));
}

fn issue(number: i64) -> GhIssue {
    GhIssue {
        id: 1,
        number,
        title: s("t"),
        body: None,
        state: s("open"),
        pull_request: None,
        created_at: s("c"),
        updated_at: s("u"),
        closed_at: None,
        html_url: None,
    }
}

fn pull(number: i64) -> GhPullRequest {
    GhPullRequest {
        id: 2,
        number,
        title: s("t"),
        body: None,
        state: s("open"),
        draft: None,
        merged_at: None,
        head: None,
        base: None,
        created_at: s("c"),
        updated_at: s("u"),
        closed_at: None,
        html_url: None,
    }
}

fn commit(sha: &str) -> GhCommit {
    GhCommit {
        sha: s(sha),
        commit: GhCommitDetails { message: s("m"), author: None, committer: None },
        author: None,
        committer: None,
    }
}

fn run(id: i64) -> GhWorkflowRun {
    GhWorkflowRun {
        id,
        workflow_id: 1,
        run_number: 1,
        run_attempt: None,
        name: None,
        event: s("push"),
        status: None,
        conclusion: None,
        head_branch: None,
        head_sha: s("abc"),
        actor: None,
        created_at: s("c"),
        updated_at: s("u"),
        html_url: None,
    }
}

#[test]
fn details_follow_item_by_item() {
    let requests = detail_requests(
        &vec![issue(1), issue(2)],
        &vec![run(5)],
        &vec![commit("abc")],
        &vec![pull(3)],
    );
    let shown: Vec<String> = requests.iter().map(|request| format!("{request:?}")).collect();
    assert_eq!(
        shown,
        [
            "IssueReactions(1)",
            "IssueReactions(2)",
            "IssueTimeline(1)",
            "IssueTimeline(2)",
            "RunJobs(5)",
            "Commit(\"abc\")",
            "CommitStatuses(\"abc\")",
            "CommitCheckRuns(\"abc\")",
            "PullReviews(3)",
            "PullFiles(3)",
            "PullCommits(3)",
            "PullThreads(3)",
        ]
    );
}

#[test]
fn only_the_first_few_items_are_looked_at() {
    let requests = detail_requests(
        &(0..50).map(issue).collect(),
        &(0..50).map(run).collect(),
        &(0..50).map(|i| commit(&i.to_string())).collect(),
        &(0..50).map(pull).collect(),
    );
    let expected = 2 * PER_ISSUE_SYNC_CAP
        + PER_RUN_SYNC_CAP
        + 3 * PER_COMMIT_SYNC_CAP
        + 4 * PER_PULL_SYNC_CAP;
    assert_eq!(requests.len(), expected);
    assert_eq!(requests.len() + first_requests().len(), 116);
}

// --- answers ---------------------------------------------------------------

fn internal(result: Result<(), DomainError>) -> String {
    match result {
        Err(DomainError::Internal(words)) => words,
        other => panic!("{other:?}"),
    }
}

#[test]
fn statuses_are_read() {
    assert!(check_status(200, "/x").is_ok());
    assert!(check_status(299, "/x").is_ok());
    assert!(matches!(check_status(404, "/x"), Err(DomainError::NotFound)));
    assert_eq!(
        internal(check_status(502, "/x")),
        "GitHub responded with 502 Bad Gateway for /x"
    );
    assert_eq!(
        internal(check_status(304, "/x")),
        "GitHub responded with 304 Not Modified for /x"
    );
    assert_eq!(
        internal(check_status(799, "/x")),
        "GitHub responded with 799 <unknown status code> for /x"
    );
    assert!(check_graphql_status(204).is_ok());
    assert_eq!(
        internal(check_graphql_status(404)),
        "GitHub GraphQL responded with 404 Not Found"
    );
    assert_eq!(in_words(200, Some("OK")), "200 OK");
    assert_eq!(in_words(200, None), "200 <unknown status code>");
}

#[test]
fn graphql_errors_are_failures() {
    assert!(check_graphql_body(&json("{\"data\":{}}")).is_ok());
    assert!(check_graphql_body(&json("{\"errors\":[]}")).is_ok());
    assert!(check_graphql_body(&json("{\"errors\":\"no\"}")).is_ok());
    assert!(check_graphql_body(&json("[]")).is_ok());
    assert_eq!(
        internal(check_graphql_body(&json("{\"errors\":[\"no\"]}"))),
        "GitHub GraphQL errors: [String(\"no\")]"
    );
}

#[test]
fn failures_name_their_leg() {
    let words = |leg: Leg| match leg.failed("why") {
        DomainError::Internal(words) => words,
        other => panic!("{other:?}"),
    };
    assert_eq!(words(Leg::BuildClient), "failed to build HTTP client: why");
    assert_eq!(words(Leg::Send), "GitHub request failed: why");
    assert_eq!(words(Leg::Decode), "GitHub response decode failed: why");
    assert_eq!(words(Leg::SendGraphql), "GitHub GraphQL request failed: why");
    assert_eq!(words(Leg::DecodeGraphql), "GitHub GraphQL decode failed: why");
}

#[test]
fn threads_without_an_id_are_left_out() {
    let body = json(
        "{\"data\":{\"repository\":{\"pullRequest\":{\"reviewThreads\":{\"nodes\":[\
         {\"id\":\"A\"},{\"path\":\"x\"},{\"id\":\"B\",\"isOutdated\":true}]}}}}}",
    );
    let rows = review_thread_rows(7, 3, &body);
    let ids: Vec<&str> = rows.iter().map(|row| row.id.as_str()).collect();
    assert_eq!(ids, ["A", "B"]);
    assert!(rows[1].is_outdated);
    assert!(rows.iter().all(|row| row.repo_id == 7 && row.pull_number == 3));
    assert!(review_thread_rows(7, 3, &json("{\"data\":null}")).is_empty());
    assert!(review_thread_rows(7, 3, &Value::Null).is_empty());
}

#[test]
fn timelines_are_numbered_from_nought() {
    let rows = timeline_rows(7, 9, &vec![Value::Null, json("{\"event\":\"closed\"}")]);
    assert_eq!((rows[0].position, rows[0].event.as_str()), (0, "unknown"));
    assert_eq!((rows[1].position, rows[1].event.as_str()), (1, "closed"));
}

fn file(additions: i64, deletions: i64) -> GhPullFile {
    GhPullFile {
        filename: s("a.rs"),
        status: s("modified"),
        additions,
        deletions,
        changes: 0,
        previous_filename: None,
        sha: None,
    }
}

#[test]
fn line_counts_are_sums() {
    assert_eq!(line_counts(&vec![]), Some((0, 0)));
    assert_eq!(line_counts(&vec![file(3, 1), file(4, 2)]), Some((7, 3)));
    assert_eq!(line_counts(&vec![file(i64::MAX, 0), file(1, 0)]), None);
    assert_eq!(line_counts(&vec![file(0, i64::MIN), file(0, -1)]), None);
    assert_eq!(line_counts(&vec![file(i64::MAX, i64::MIN)]), Some((i64::MAX, i64::MIN)));
}

// --- the whole -------------------------------------------------------------

fn pages() -> FetchedPages {
    FetchedPages {
        repository: GhRepository {
            clone_url: None,
            id: 7,
            name: s("widget"),
            full_name: s("acme/widget"),
            owner: GhActor { login: s("acme") },
            default_branch: s("main"),
            private: false,
            pushed_at: None,
            stargazers_count: 0,
            forks_count: 0,
            description: None,
        },
        issues: vec![issue(11)],
        pulls: vec![pull(12)],
        commits: vec![commit("abc"), commit("def")],
        comments: vec![],
        review_comments: vec![],
        labels: vec![],
        milestones: vec![],
        releases: vec![],
        branches: vec![],
        contributors: vec![],
        workflow_runs: vec![run(5)],
        deployments: vec![],
        issue_events: vec![],
        commit_comments: vec![],
        tags: vec![],
        reactions: vec![vec![GhIssueReaction {
            id: 21,
            content: s("+1"),
            user: None,
            created_at: s("c"),
        }]],
        timelines: vec![vec![Value::Null, Value::Null]],
        jobs: vec![vec![GhWorkflowJob {
            id: 22,
            run_id: 5,
            run_attempt: None,
            name: s("build"),
            status: None,
            conclusion: None,
            head_sha: s("abc"),
            runner_name: None,
            started_at: None,
            completed_at: None,
            html_url: None,
            steps: None,
        }]],
        commit_details: vec![
            CommitPages {
                detail: GhCommitDetail {
                    stats: Some(GhCommitStats { additions: 8, deletions: 9 }),
                    files: vec![file(8, 9)],
                },
                statuses: vec![GhCommitStatus {
                    id: 23,
                    state: s("success"),
                    context: s("ci"),
                    description: None,
                    target_url: None,
                    creator: None,
                    created_at: s("c"),
                    updated_at: s("u"),
                }],
                check_runs: vec![],
            },
            CommitPages {
                detail: GhCommitDetail { stats: None, files: vec![] },
                statuses: vec![],
                check_runs: vec![GhCheckRun {
                    id: 24,
                    head_sha: s("def"),
                    name: s("lint"),
                    status: None,
                    conclusion: None,
                    started_at: None,
                    completed_at: None,
                    html_url: None,
                    details_url: None,
                    check_suite: None,
                    app: None,
                    output: None,
                }],
            },
        ],
        pull_details: vec![PullPages {
            reviews: vec![GhReview {
                id: 25,
                user: None,
                state: s("APPROVED"),
                body: None,
                commit_id: None,
                submitted_at: None,
                html_url: None,
            }],
            files: vec![file(3, 1), file(4, 2)],
            commits: vec![commit("abc")],
            threads: json(
                "{\"data\":{\"repository\":{\"pullRequest\":{\"reviewThreads\":{\"nodes\":[\
                 {\"id\":\"A\"}]}}}}}",
            ),
        }],
    }
}

#[test]
fn a_fetch_amounts_to_rows_of_its_repository() {
    let out = fetch_repository(pages());
    assert_eq!(out.repository.full_name, "acme/widget");
    assert_eq!((out.issues[0].repo_id, out.issues[0].number), (7, 11));
    assert_eq!((out.pull_requests[0].lines_added, out.pull_requests[0].lines_removed), (7, 3));
    assert_eq!((out.commits[0].additions, out.commits[0].deletions), (8, 9));
    assert_eq!((out.commits[1].additions, out.commits[1].deletions), (0, 0));
    assert_eq!((out.issue_reactions[0].repo_id, out.issue_reactions[0].issue_number), (7, 11));
    assert_eq!(out.issue_timeline.len(), 2);
    assert_eq!((out.issue_timeline[1].issue_number, out.issue_timeline[1].position), (11, 1));
    assert_eq!((out.workflow_jobs[0].repo_id, out.workflow_jobs[0].run_id), (7, 5));
    assert_eq!(out.commit_files[0].commit_sha, "abc");
    assert_eq!(out.commit_statuses[0].commit_sha, "abc");
    assert_eq!((out.check_runs[0].repo_id, out.check_runs[0].head_sha.as_str()), (7, "def"));
    assert_eq!(out.reviews[0].pull_number, 12);
    assert_eq!(out.pull_request_files.len(), 2);
    assert_eq!(out.pull_request_commits[0].pull_number, 12);
    assert_eq!((out.review_threads[0].id.as_str(), out.review_threads[0].pull_number), ("A", 12));
    assert!(!out.complete.is_complete(Listing::Issues));
}

#[test]
fn a_fetch_is_complete_with_every_answer() {
    assert!(pages().complete());
    let mut missing = pages();
    missing.timelines.clear();
    assert!(!missing.complete());
    let mut missing = pages();
    missing.commit_details.pop();
    assert!(!missing.complete());
    let mut beyond = pages();
    beyond.pull_details[0].files = vec![file(i64::MAX, 0), file(1, 0)];
    assert!(!beyond.complete());
}

#[test]
fn a_fetched_repository_is_written_table_by_table() {
    let plan = plan_of(fetch_repository(pages()));
    assert_eq!(plan.repository.id, 7);
    assert_eq!(plan.writes.len(), 17);
    assert!(matches!(plan.writes[0], MirrorWrite::Issue(_)));
    assert!(matches!(plan.writes[1], MirrorWrite::PullRequest(_)));
    assert!(matches!(plan.writes[2], MirrorWrite::Commit(_)));
    assert!(matches!(plan.writes[4], MirrorWrite::Review(_)));
    assert!(matches!(plan.writes[16], MirrorWrite::IssueTimeline(_)));
    let summary = report(s("acme/widget"), plan.counts);
    assert_eq!(summary.repository, "acme/widget");
    assert_eq!(summary.issues_synced, 1);
    assert_eq!(summary.commits_synced, 2);
    assert_eq!(summary.pull_request_files_synced, 2);
    assert_eq!(summary.issue_timeline_synced, 2);
    assert_eq!(summary.labels_synced, 0);
}

const CALLER: SecurityContext = SecurityContext { subject_id: 1, subject_tenant_id: 2 };

const LEAVE: AccessCheck =
    AccessCheck { resource: Resource::Sync, action: Action::Sync, owner_tenant_id: 2 };

fn sync() -> SyncRepository {
    let config = ServiceConfig { api_base_url: s("https://x"), scope: default_scope() };
    let options = FetchOptions { tenant_id: 2, scope: default_scope(), force: false };
    Service::new(config).sync_repository(&CALLER, "acme", "widget", &options)
}

/// Runs a sync up to the writing of its repository.
fn up_to_the_repository(sync: &mut SyncRepository, progress: &mut SyncProgress) -> RepoRecord {
    match sync.step(SyncEvent::Begin, progress) {
        SyncAction::Authorise(check) => assert_eq!(check, LEAVE),
        _ => panic!("leave comes first"),
    }
    match sync.step(SyncEvent::Granted, progress) {
        SyncAction::Fetch(owner, name, options) => {
            assert_eq!((owner.as_str(), name.as_str(), options.tenant_id), ("acme", "widget", 2));
        }
        _ => panic!("the repository is fetched"),
    }
    assert_eq!(progress.percent(), 0);
    match sync.step(SyncEvent::Fetched(fetch_repository(pages())), progress) {
        SyncAction::SaveRepository(LEAVE, 2, record) => record,
        _ => panic!("the repository is written first"),
    }
}

#[test]
fn a_sync_writes_every_row_and_then_succeeds() {
    let (mut sync, mut progress) = (sync(), SyncProgress::new());
    let handle = progress.handle();
    let mut stored = up_to_the_repository(&mut sync, &mut progress);
    assert_eq!(handle.load(Ordering::Relaxed), 20);
    stored.full_name = s("acme/renamed");
    let mut action = sync.step(SyncEvent::Stored(stored), &mut progress);
    let mut written = 0;
    let summary = loop {
        match action {
            SyncAction::SaveRow(LEAVE, 2, row) => {
                assert_eq!(matches!(row, MirrorWrite::Issue(_)), written == 0);
                written += 1;
                assert_eq!(progress.percent(), 20);
                action = sync.step(SyncEvent::Written, &mut progress);
            }
            SyncAction::Return(answer) => break answer.expect("everything was written"),
            _ => panic!("rows follow the repository"),
        }
    };
    assert_eq!(written, 17);
    assert_eq!(summary.repository, "acme/renamed");
    assert_eq!((summary.issues_synced, summary.commits_synced), (1, 2));
    assert_eq!((progress.percent(), handle.load(Ordering::Relaxed)), (95, 95));
}

#[test]
fn a_denied_sync_fetches_nothing() {
    let (mut sync, mut progress) = (sync(), SyncProgress::new());
    sync.step(SyncEvent::Begin, &mut progress);
    let denied = SyncEvent::Refused(DomainError::Forbidden(s("no")));
    let answer = sync.step(denied, &mut progress);
    assert!(matches!(answer, SyncAction::Return(Err(DomainError::Forbidden(_)))));
    assert_eq!(progress.percent(), 0);
}

#[test]
fn a_failed_fetch_writes_nothing() {
    let (mut sync, mut progress) = (sync(), SyncProgress::new());
    sync.step(SyncEvent::Begin, &mut progress);
    sync.step(SyncEvent::Granted, &mut progress);
    let answer = sync.step(SyncEvent::Refused(DomainError::NotFound), &mut progress);
    assert!(matches!(answer, SyncAction::Return(Err(DomainError::NotFound))));
    assert_eq!(progress.percent(), 0);
}

#[test]
fn the_first_failed_write_ends_a_sync() {
    let (mut sync, mut progress) = (sync(), SyncProgress::new());
    let stored = up_to_the_repository(&mut sync, &mut progress);
    sync.step(SyncEvent::Stored(stored), &mut progress);
    sync.step(SyncEvent::Written, &mut progress);
    let failed = SyncEvent::Refused(DomainError::internal("full"));
    match sync.step(failed, &mut progress) {
        SyncAction::Return(Err(DomainError::Internal(words))) => assert_eq!(words, "full"),
        _ => panic!("the failure is the answer"),
    }
    assert_eq!(progress.percent(), 20);
}

#[test]
fn answers_at_the_same_place_belong_together() {
    let checks = vec![Vec::new(), Vec::new()];
    let details = |adds: i64| GhCommitDetail {
        stats: Some(GhCommitStats { additions: adds, deletions: 0 }),
        files: Vec::new(),
    };
    let statuses = || vec![Vec::new(), Vec::new()];
    let pairs = pair_commit_pages(vec![details(1), details(2)], statuses(), checks).expect("two");
    assert_eq!(pairs.len(), 2);
    assert_eq!(pairs[1].detail.stats.as_ref().map(|stats| stats.additions), Some(2));
    assert!(pair_commit_pages(vec![details(1)], statuses(), Vec::new()).is_none());
    let files = vec![vec![file(3, 1)], Vec::new()];
    let empty = || vec![Vec::new(), Vec::new()];
    let threads = vec![json("1"), json("2")];
    let pairs = pair_pull_pages(vec![Vec::new(), Vec::new()], files, empty(), threads).expect("two");
    assert_eq!((pairs[0].files.len(), pairs[1].files.len()), (1, 0));
    assert_eq!(pairs[1].threads, json("2"));
    assert!(pair_pull_pages(Vec::new(), Vec::new(), empty(), Vec::new()).is_none());
}

#[test]
fn completeness_accumulates() {
    let mut all = ListingCompleteness::none();
    let mut some = ListingCompleteness::none();
    some.set(Listing::Issues, true);
    all.absorb(&some);
    assert!(all.is_complete(Listing::Issues));
    assert!(!all.is_complete(Listing::Commits));
    all.absorb(&ListingCompleteness::none());
    assert!(all.is_complete(Listing::Issues));
    all.set(Listing::Issues, false);
    assert!(!all.is_complete(Listing::Issues));
    assert!(ListingCompleteness::all_complete().is_complete(Listing::Commits));
}
