use github_mirror::config::default_scope;
use github_mirror::decimal::{i64_text, parse_i64, parse_u32, parse_u64, u64_text};
use github_mirror::error::DomainError;
use github_mirror::ports::{
    ActionsListing, CommitListing, FetchOptions, IssueListing, Listing, ListingCompleteness,
    MetadataListing, PullListing,
};
use github_mirror::records::{CommitRecord, IssueRecord, PullRequestRecord, RepoRecord, WorkflowRunRecord};
use github_mirror::scheduler::queue::TaskQueue;
use github_mirror::scheduler::task::{
    Entity, ExtractionTask, Family, NewTask, RunIdentity, TaskKind, TaskPhase, TaskPriority,
};
use github_mirror::scheduler::worker::{
    counts_of_issue_listing, dispatch, entity_number, handles, RunState,
};
use github_mirror::scope::CollectionMode;
use github_mirror::summary::{RowCounts, SyncSummary};
use github_mirror::text::{
    contains, eq_ignore_ascii_case, last_segment, rfind, same, split_once_at_slash, starts_with,
    strip_suffix, trim_end_slashes,
};

const RUN: RunIdentity = RunIdentity { session_id: 5, tenant_id: 6 };

fn s(text: &str) -> String {
    text.to_owned()
}

fn options() -> FetchOptions {
    FetchOptions { tenant_id: 6, scope: default_scope(), force: false }
}

fn stored() -> RepoRecord {
    RepoRecord {
        id: 7,
        owner: s("Acme"),
        name: s("Widget"),
        full_name: s("Acme/Widget"),
        default_branch: s("main"),
        private: false,
        pushed_at: None,
        stars: 0,
        forks: 0,
        description: None,
        clone_url: None,
    }
}

fn discovered(options: FetchOptions) -> RunState {
    let mut state = RunState::new(RUN, "acme", "widget", options);
    state.discover(&stored()).unwrap();
    state
}

fn issue(number: i64, state: &str) -> IssueRecord {
    IssueRecord {
        id: number,
        repo_id: 7,
        number,
        title: s("t"),
        body: None,
        state: s(state),
        is_pull_request: false,
        created_at: s("c"),
        updated_at: s("u"),
        closed_at: None,
        html_url: None,
    }
}

fn issue_listing(issues: Vec<IssueRecord>) -> IssueListing {
    let mut complete = ListingCompleteness::none();
    complete.set(Listing::Issues, true);
    IssueListing { complete, issues, comments: vec![], issue_events: vec![], contributors: vec![] }
}

fn queued(task: NewTask) -> ExtractionTask {
    let mut queue = TaskQueue::new();
    assert!(!queue.is_full());
    let phase = task.kind.phase();
    let session_id = task.run.session_id;
    queue.enqueue_task(task);
    queue.claim_next_task_in(session_id, &[phase]).unwrap()
}

#[test]
fn discovery_seeds_a_task_per_family() {
    let mut state = RunState::new(RUN, "acme", "widget", options());
    assert_eq!(state.summary().repository, "acme/widget");
    let tasks = state.discover(&stored()).unwrap();
    let kinds: Vec<TaskKind> = tasks.iter().map(|task| task.kind).collect();
    assert_eq!(
        kinds,
        [
            TaskKind::Index(Family::PullRequests),
            TaskKind::Index(Family::Issues),
            TaskKind::Index(Family::Commits),
            TaskKind::Index(Family::Metadata),
            TaskKind::Index(Family::Actions),
        ]
    );
    assert_eq!(tasks[0].priority, TaskPriority::OpenPr);
    assert_eq!(tasks[4].priority, TaskPriority::Global);
    assert_eq!(state.summary().repository, "Acme/Widget");
    assert_eq!(state.repo_id().unwrap(), 7);
}

#[test]
fn discovery_seeds_only_what_the_scope_enables() {
    let mut options = options();
    options.scope.objects.issues = false;
    options.scope.objects.labels = false;
    options.scope.objects.milestones = false;
    options.scope.objects.releases = false;
    let mut state = RunState::new(RUN, "acme", "widget", options);
    assert_eq!(state.discover(&stored()).unwrap().len(), 4);
    options.scope.objects.branches = false;
    let mut state = RunState::new(RUN, "acme", "widget", options);
    assert_eq!(state.discover(&stored()).unwrap().len(), 3);
}

#[test]
fn a_repository_is_discovered_once() {
    let mut state = discovered(options());
    match state.discover(&stored()) {
        Err(DomainError::Internal(words)) => {
            assert_eq!(words, "the repository was discovered twice in one sync");
        }
        other => panic!("{other:?}"),
    }
}

#[test]
fn indexing_waits_for_discovery() {
    let mut state = RunState::new(RUN, "acme", "widget", options());
    match state.index_issues(&issue_listing(vec![])) {
        Err(DomainError::Internal(words)) => {
            assert_eq!(words, "repository was not discovered before indexing");
        }
        other => panic!("{other:?}"),
    }
    assert!(!state.completeness().is_complete(Listing::Issues));
}

#[test]
fn issues_with_something_to_fetch_are_refined() {
    let mut options = options();
    options.scope.collection.reactions = CollectionMode::Off;
    options.scope.collection.timeline = CollectionMode::Open;
    let mut state = discovered(options);
    let tasks = state.index_issues(&issue_listing(vec![issue(1, "open"), issue(2, "closed")])).unwrap();
    assert_eq!(tasks.len(), 1);
    assert_eq!((tasks[0].entity_id.as_deref(), tasks[0].priority), (Some("1"), TaskPriority::OpenIssue));
    assert!(state.completeness().is_complete(Listing::Issues));
    let task = queued(tasks.into_iter().next().unwrap());
    let (repo_id, number, wants) = state.refine_issue(&task).unwrap();
    assert_eq!((repo_id, number), (7, 1));
    assert!(wants.timeline && !wants.reactions);
    options.scope.collection.timeline = CollectionMode::All;
    let mut state = discovered(options);
    let tasks = state.index_issues(&issue_listing(vec![issue(2, "closed")])).unwrap();
    assert_eq!(tasks[0].priority, TaskPriority::ClosedIssue);
}

#[test]
fn pull_requests_commits_and_runs_are_refined_one_by_one() {
    let mut state = discovered(options());
    let pull = PullRequestRecord {
        id: 1,
        repo_id: 7,
        number: 12,
        title: s("t"),
        body: None,
        state: s("closed"),
        draft: false,
        merged: false,
        head_sha: None,
        base_sha: None,
        lines_added: 0,
        lines_removed: 0,
        created_at: s("c"),
        updated_at: s("u"),
        closed_at: None,
        merged_at: None,
        html_url: None,
        head_ref: None,
        base_ref: None,
    };
    let listing = PullListing {
        complete: ListingCompleteness::none(),
        pull_requests: vec![pull],
        review_comments: vec![],
        contributors: vec![],
    };
    let tasks = state.index_pull_requests(&listing).unwrap();
    assert_eq!(tasks[0].priority, TaskPriority::ClosedPr);
    let task = queued(tasks.into_iter().next().unwrap());
    assert_eq!(state.refine_numbered(&task).unwrap(), (7, 12));

    let commit = CommitRecord {
        repo_id: 7,
        sha: s("abc"),
        message: s("m"),
        author_login: None,
        committer_login: None,
        authored_at: None,
        committed_at: None,
        additions: 0,
        deletions: 0,
    };
    let listing = CommitListing {
        complete: ListingCompleteness::none(),
        commits: vec![commit],
        commit_comments: vec![],
        contributors: vec![],
    };
    let tasks = state.index_commits(&listing).unwrap();
    let task = queued(tasks.into_iter().next().unwrap());
    assert_eq!(state.refine_commit(&task).unwrap(), (7, "abc", true));

    let run = WorkflowRunRecord {
        id: 31,
        repo_id: 7,
        workflow_id: 1,
        run_number: 1,
        run_attempt: 1,
        name: None,
        event: s("push"),
        status: None,
        conclusion: None,
        head_branch: None,
        head_sha: s("abc"),
        created_at: s("c"),
        updated_at: s("u"),
        html_url: None,
        actor_login: None,
    };
    let listing = ActionsListing { workflow_runs: vec![run], deployments: vec![] };
    let tasks = state.index_actions(&listing).unwrap();
    assert_eq!(tasks[0].entity_id.as_deref(), Some("31"));
    let mut options = options();
    options.scope.collection.actions = CollectionMode::Off;
    assert!(discovered(options).index_actions(&listing).unwrap().is_empty());
    let metadata = MetadataListing {
        complete: ListingCompleteness::all_complete(),
        labels: vec![],
        milestones: vec![],
        releases: vec![],
        branches: vec![],
        tags: vec![],
    };
    state.index_metadata(&metadata).unwrap();
    assert!(state.completeness().is_complete(Listing::Commits));
}

fn task(kind: TaskKind, entity_id: Option<&str>) -> ExtractionTask {
    queued(NewTask {
        run: RUN,
        kind,
        entity_id: entity_id.map(ToOwned::to_owned),
        priority: TaskPriority::Normal,
        attempt: 0,
    })
}

#[test]
fn a_task_without_a_number_is_told_apart() {
    let words = |id: Option<&str>| match entity_number(&task(TaskKind::Refine(Entity::Issue), id)) {
        Err(DomainError::Internal(words)) => words,
        other => panic!("{other:?}"),
    };
    assert_eq!(words(Some("a\"b")), "issue task without a numeric entity id: Some(\"a\\\"b\")");
    assert_eq!(words(None), "issue task without a numeric entity id: None");
    assert_eq!(entity_number(&task(TaskKind::Refine(Entity::Issue), Some("-4"))).unwrap(), -4);
    match discovered(options()).refine_commit(&task(TaskKind::Refine(Entity::Commit), None)) {
        Err(DomainError::Internal(words)) => assert_eq!(words, "commit task without a SHA"),
        other => panic!("{other:?}"),
    }
}

#[test]
fn tasks_are_dispatched_by_phase_and_entity() {
    assert!(handles(TaskPhase::Discovery, "repository"));
    assert!(!handles(TaskPhase::Discovery, "issues"));
    assert!(handles(TaskPhase::Indexing, "metadata") && !handles(TaskPhase::Indexing, "issue"));
    assert!(handles(TaskPhase::Refinement, "workflow_run"));
    assert!(!handles(TaskPhase::Verification, "issue"));
    assert_eq!(dispatch(TaskPhase::Indexing, "actions").unwrap(), TaskKind::Index(Family::Actions));
    assert_eq!(dispatch(TaskPhase::Discovery, "anything").unwrap(), TaskKind::Discover);
    match dispatch(TaskPhase::Refinement, "label") {
        Err(DomainError::Internal(words)) => {
            assert_eq!(words, "no handler for refinement task of type label");
        }
        other => panic!("{other:?}"),
    }
}

#[test]
fn counts_add_up_in_any_order() {
    let listing = issue_listing(vec![issue(1, "open"), issue(2, "open")]);
    let counts = counts_of_issue_listing(&listing);
    assert_eq!((counts.issues, counts.comments), (2, 0));
    let labels = RowCounts { labels: 3, ..RowCounts::none() };
    let mut one = SyncSummary::new(s("a/b"));
    one.tally(counts_of_issue_listing(&listing));
    one.tally(labels);
    let mut other = SyncSummary::new(s("a/b"));
    other.tally(labels);
    other.tally(counts_of_issue_listing(&listing));
    assert_eq!((one.issues_synced, one.labels_synced), (2, 3));
    assert_eq!(format!("{one:?}"), format!("{other:?}"));
    assert!(one.has_room(&labels));
    assert!(!one.has_room(&RowCounts { labels: u64::MAX - 2, ..RowCounts::none() }));
}

#[test]
fn what_was_written_counts_from_then_on() {
    let mut state = discovered(options());
    let listing = issue_listing(vec![issue(1, "open"), issue(2, "closed")]);
    state.index_issues(&listing).expect("discovered");
    assert_eq!(state.summary().issues_synced, 0);
    assert!(state.has_room(&counts_of_issue_listing(&listing)));
    state.wrote_issue_listing(&listing);
    let summary = state.summary();
    assert_eq!((summary.issues_synced, summary.comments_synced), (2, 0));
    state.wrote_issue_listing(&listing);
    assert_eq!(state.summary().issues_synced, 4);
    state.wrote_workflow_jobs(&Vec::new());
    assert_eq!(state.summary().workflow_jobs_synced, 0);
}

// --- texts -----------------------------------------------------------------

#[test]
fn integers_are_read_and_written() {
    assert_eq!(parse_u32("4294967295"), Some(u32::MAX));
    assert_eq!(parse_u32("4294967296"), None);
    assert_eq!(parse_u64("+0"), Some(0));
    assert_eq!(parse_u64("-0"), None);
    assert_eq!(parse_u64("+"), None);
    assert_eq!(parse_u64("1 "), None);
    assert_eq!(parse_i64("-9223372036854775808"), Some(i64::MIN));
    assert_eq!(parse_i64("9223372036854775808"), None);
    assert_eq!(parse_i64("-"), None);
    assert_eq!(parse_i64("-0"), Some(0));
    assert_eq!(i64_text(i64::MIN), "-9223372036854775808");
    assert_eq!(u64_text(u64::MAX), "18446744073709551615");
    assert_eq!(u64_text(0), "0");
    for value in [0, 1, -1, 9, 10, 99, -100, i64::MAX] {
        assert_eq!(parse_i64(&i64_text(value)), Some(value));
        assert_eq!(i64_text(value), value.to_string());
    }
}

#[test]
fn texts_are_searched_and_cut() {
    assert_eq!(rfind("abcabc", "bc"), Some(4));
    assert_eq!(rfind("abc", "x"), None);
    assert_eq!(rfind("abc", ""), Some(3));
    assert!(contains("abc", "b") && !contains("b", "abc"));
    assert_eq!(trim_end_slashes("a//b///"), "a//b");
    assert_eq!(trim_end_slashes("///"), "");
    assert_eq!(strip_suffix("abc", "bc"), Some("a"));
    assert_eq!(strip_suffix("abc", "x"), None);
    assert!(starts_with("abc", "ab") && !starts_with("ab", "abc"));
    assert_eq!(last_segment("a/b/\u{e9}"), "\u{e9}");
    assert_eq!(split_once_at_slash("a/b/c"), Some((s("a"), s("b/c"))));
    assert_eq!(split_once_at_slash("abc"), None);
    assert!(eq_ignore_ascii_case("CoRe", "core") && !eq_ignore_ascii_case("\u{c9}", "\u{e9}"));
    assert!(same("a", "a") && !same("a", "b"));
}
