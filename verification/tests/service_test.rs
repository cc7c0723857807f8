use std::sync::atomic::Ordering;

use github_mirror::cache::{cache_prefix, cleared, under};
use github_mirror::config::{default_scope, GithubMirrorConfig};
use github_mirror::context::SecurityContext;
use github_mirror::error::{CanonicalError, DomainError, RepositoryError};
use github_mirror::gear::GithubMirrorGear;
use github_mirror::metrics::{request, response_bytes, Outcome};
use github_mirror::migration::{down, up, DatabaseBackend};
use github_mirror::models::{clone_url, GithubMirrorHealthDto, Repository};
use github_mirror::rate_limit::headers::RateLimitHeaders;
use github_mirror::records::{LabelRecord, RepoRecord};
use github_mirror::scope::CollectionMode;
use github_mirror::service::access::{ask, AccessCheck, Action, Resource};
use github_mirror::service::progress::{
    SyncProgress, PROGRESS_FETCHED, PROGRESS_FINISHED, PROGRESS_STORED,
};
use github_mirror::service::queries::{
    found, full_name, page, ODataQuery, Selector, Service, ServiceConfig, DEFAULT_LIST_LIMIT,
};
use github_mirror::service::sessions::{
    mark_repo_status, repos_awaiting_resume, resumed_sessions, save_session_progress,
    stale_statuses, still_in_progress, EnqueueSync, RepoSyncStatusRecord, ResumeQuery, RunSyncJob,
    SessionAction, SessionEvent, SyncSessionRecord, COMPLETE, FAILED, INTERRUPTED, IN_PROGRESS,
    QUEUED, RESUME_LIMIT,
};
use github_mirror::sync::SyncJob;

const CALLER: SecurityContext = SecurityContext { subject_id: 1, subject_tenant_id: 2 };

fn s(text: &str) -> String {
    text.to_owned()
}

fn service() -> Service {
    Service::new(ServiceConfig { api_base_url: s("https://api.github.com"), scope: default_scope() })
}

fn check(resource: Resource, action: Action) -> AccessCheck {
    AccessCheck { resource, action, owner_tenant_id: 2 }
}

fn repo_record(name: &str, clone_url: Option<&str>) -> RepoRecord {
    RepoRecord {
        id: 1,
        owner: s("acme"),
        name: s(name),
        full_name: format!("acme/{name}"),
        default_branch: s("main"),
        private: false,
        pushed_at: None,
        stars: 0,
        forks: 0,
        description: None,
        clone_url: clone_url.map(ToOwned::to_owned),
    }
}

// --- gear ------------------------------------------------------------------

#[test]
fn default_gear_has_no_service_until_init() {
    let gear = GithubMirrorGear::default();
    assert!(gear.service.is_none());
}

#[test]
fn health_reports_the_configured_url() {
    let mut gear = GithubMirrorGear::default();
    let config = GithubMirrorConfig {
        api_base_url: s("https://ghe.corp/api/v3"),
        ..GithubMirrorConfig::default()
    };
    gear.init(config).unwrap();
    let status = gear.register_rest().unwrap().status("0.1.0");
    let health = GithubMirrorHealthDto::from(status);
    assert_eq!(health.api_base_url, "https://ghe.corp/api/v3");
}

#[test]
fn init_without_config_section_uses_defaults() {
    let mut gear = GithubMirrorGear::default();
    assert!(gear.init(GithubMirrorConfig::default()).is_ok());
}

#[test]
fn second_init_fails_with_already_initialized() {
    let mut gear = GithubMirrorGear::default();
    gear.init(GithubMirrorConfig::default()).unwrap();
    let message = gear.init(GithubMirrorConfig::default()).unwrap_err();
    assert!(message.contains("already initialized"));
}

#[test]
fn register_rest_before_init_fails() {
    let gear = GithubMirrorGear::default();
    let message = gear.register_rest().unwrap_err();
    assert!(message.contains("Service not initialized"));
}

#[test]
fn the_status_names_the_gear() {
    let mut gear = GithubMirrorGear::default();
    gear.init(GithubMirrorConfig::default()).unwrap();
    let status = gear.register_rest().unwrap().status("1.2.3");
    assert_eq!(status.gear, "github-mirror");
    assert_eq!(status.api_base_url, "https://api.github.com");
    assert_eq!(status.version, "1.2.3");
}

// --- cache -----------------------------------------------------------------

/// Holds every URL against what a clear of the prefix must do to it; how many
/// are cleared.
fn cleared_of(prefix: &str, urls: &[(&str, bool)]) -> usize {
    let prefixes = vec![prefix.to_owned()];
    for (url, expected) in urls {
        assert_eq!(cleared(url, &prefixes), *expected, "{url} under {prefix}");
    }
    urls.iter().filter(|(url, _)| cleared(url, &prefixes)).count()
}

#[test]
fn clearing_by_prefix_drops_only_the_matching_repository() {
    let removed = cleared_of(
        "https://api.github.com/repos/acme/widget",
        &[
            ("https://api.github.com/repos/acme/widget/issues", true),
            ("https://api.github.com/repos/acme/gadget/issues", false),
        ],
    );
    assert_eq!(removed, 1);
}

#[test]
fn clearing_a_prefix_stops_at_a_path_or_query_boundary() {
    let prefix = "https://api.github.com/repos/acme/widget";
    let removed = cleared_of(
        prefix,
        &[
            (prefix, true),
            ("https://api.github.com/repos/acme/widget/issues", true),
            ("https://api.github.com/repos/acme/widget?page=2", true),
            ("https://api.github.com/repos/acme/widget-fork/issues", false),
            ("https://api.github.com/repos/acme/widgets/issues", false),
        ],
    );
    assert_eq!(removed, 3, "the prefix itself, its child and its query");
}

#[test]
fn a_metacharacter_in_a_prefix_matches_only_itself() {
    let removed = cleared_of(
        "https://api.github.com/repos/acme/my_re%po",
        &[
            ("https://api.github.com/repos/acme/my_re%po/issues", true),
            ("https://api.github.com/repos/acme/myXre%po/issues", false),
            ("https://api.github.com/repos/acme/my_reZZZpo/issues", false),
            ("https://api.github.com/repos/acme/myXreZZZpo/issues", false),
        ],
    );
    assert_eq!(removed, 1, "only the repository actually named in the prefix");
}

#[test]
fn any_of_several_prefixes_clears() {
    assert!(cleared("b/c", &vec![s("a"), s("b")]));
    assert!(!cleared("b/c", &vec![]));
    assert!(!under("", "a"));
    assert!(under("", ""));
}

#[test]
fn a_cache_is_cleared_by_owner_or_repository() {
    assert_eq!(cache_prefix("https://x/", "acme", Some("widget")), "https://x/repos/acme/widget");
    assert_eq!(cache_prefix("https://x", "acme", None), "https://x/repos/acme");
    let (leave, tenant_id, prefix) = service().clear_cache(&CALLER, "acme", None);
    assert_eq!((leave, tenant_id), (check(Resource::Sync, Action::Sync), 2));
    assert_eq!(prefix, "https://api.github.com/repos/acme");
}

// --- plans -----------------------------------------------------------------

#[test]
fn listings_are_planned_in_the_callers_tenant() {
    let plan = service().list_issues(&CALLER, "acme", "widget", &ODataQuery { limit: None });
    assert_eq!(plan.access, check(Resource::Issue, Action::List));
    assert_eq!((plan.full_name.as_str(), plan.limit), ("acme/widget", DEFAULT_LIST_LIMIT));
    assert!(matches!(plan.selector, Selector::WholeRepository));
    let query = ODataQuery { limit: Some(3) };
    let plan = service().list_comments(&CALLER, "acme", "widget", 12, &query);
    assert!(matches!(plan.selector, Selector::OfIssue(12)));
    assert_eq!((plan.limit, plan.access.resource), (3, Resource::Comment));
    let plan = service().list_commit_files(&CALLER, "acme", "widget", "abc", &query);
    assert!(matches!(plan.selector, Selector::OfCommit(ref sha) if sha == "abc"));
    let plan = service().list_workflow_jobs(&CALLER, "acme", "widget", 5, &query);
    assert!(matches!(plan.selector, Selector::OfRun(5)));
    let plan = service().list_reviews(&CALLER, "acme", "widget", 6, &query);
    assert!(matches!(plan.selector, Selector::OfPull(6)));
    let (leave, limit) = service().list_repos(&CALLER, &query);
    assert_eq!((leave, limit), (check(Resource::Repo, Action::List), 3));
}

#[test]
fn look_ups_ask_for_leave_to_list() {
    let plan = service().get_repo(&CALLER, "acme", "widget");
    assert_eq!(plan.access, check(Resource::Repo, Action::List));
    let plan = service().get_commit(&CALLER, "acme", "widget", "abc");
    assert_eq!(plan.access, check(Resource::Commit, Action::List));
    assert_eq!(found(Some(4)).unwrap(), 4);
    assert!(matches!(found::<u8>(None), Err(DomainError::NotFound)));
}

#[test]
fn an_upsert_is_bound_to_the_repository_that_was_found() {
    let label = || LabelRecord {
        id: 1,
        repo_id: 99,
        name: s("bug"),
        color: s("f00"),
        is_default: false,
        description: None,
    };
    let plan = service().upsert_label(&CALLER, "acme", "widget", label());
    assert_eq!(plan.access, check(Resource::Label, Action::Upsert));
    assert_eq!((plan.tenant_id, plan.full_name.as_str()), (2, "acme/widget"));
    let row = plan.bind(Some(7)).unwrap();
    assert_eq!((row.repo_id, row.name.as_str()), (7, "bug"));
    let plan = service().upsert_label(&CALLER, "acme", "widget", label());
    assert!(matches!(plan.bind(None), Err(DomainError::NotFound)));
}

#[test]
fn a_page_is_the_whole_of_what_was_listed() {
    let out = page(vec![1, 2], 50);
    assert_eq!((out.items, out.page_info.limit), (vec![1, 2], 50));
    assert!(out.page_info.next_cursor.is_none() && out.page_info.prev_cursor.is_none());
    assert_eq!(full_name("acme", "widget"), "acme/widget");
}

#[test]
fn access_is_named() {
    assert_eq!(Resource::PullRequestFile.name(), "github_mirror.pull_request_file");
    assert_eq!(Resource::Sync.name(), "github_mirror.sync");
    assert!(!Resource::Sync.has_resource_ids() && Resource::Repo.has_resource_ids());
    assert_eq!((Action::Get.name(), Action::Upsert.name()), ("get", "upsert"));
    assert_eq!(ask(&CALLER, Resource::Tag, Action::List), check(Resource::Tag, Action::List));
}

// --- models ----------------------------------------------------------------

#[test]
fn a_clone_url_is_served_for_every_repository() {
    let widget = repo_record("widget", Some("https://github.com/acme/widget.git"));
    assert_eq!(clone_url(&widget), "https://github.com/acme/widget.git");
    let gadget = repo_record("gadget", None);
    assert_eq!(
        clone_url(&gadget),
        "https://github.com/acme/gadget.git",
        "a row stored without a clone URL must still serve a usable one"
    );
}

#[test]
fn consumers_see_part_of_a_repository() {
    let seen = Repository::of(repo_record("widget", None));
    assert_eq!((seen.id, seen.full_name.as_str(), seen.private), (1, "acme/widget", false));
}

#[test]
fn requests_are_measured() {
    let seen = RateLimitHeaders { remaining: Some(7), ..RateLimitHeaders::none() };
    let sample = request("GET", 200, Outcome::Fresh, &seen);
    assert_eq!((sample.method, sample.status, sample.outcome), ("GET", 200, "fresh"));
    assert_eq!(sample.remaining, Some((7, s("core"))));
    let seen = RateLimitHeaders { resource: Some(s("search")), ..seen };
    assert_eq!(request("GET", 304, Outcome::NotModified, &seen).remaining, Some((7, s("search"))));
    let sample = request("POST", 0, Outcome::Failed, &RateLimitHeaders::none());
    assert_eq!((sample.status, sample.outcome, sample.remaining), (0, "failed", None));
    assert_eq!(Outcome::RateLimited.as_str(), "rate_limited");
    assert_eq!(response_bytes(12), 12);
}

#[test]
fn the_migration_knows_its_databases() {
    let sql = "ALTER TABLE gm_http_cache ADD COLUMN next_page TEXT;";
    assert_eq!(up(&DatabaseBackend::Postgres), Ok(sql));
    assert_eq!(up(&DatabaseBackend::MySql), Ok(sql));
    assert_eq!(up(&DatabaseBackend::Sqlite), Ok(sql));
    assert_eq!(
        up(&DatabaseBackend::Other(s("Oracle"))),
        Err(s("migration has no DDL for database backend Oracle"))
    );
    assert_eq!(down(), "ALTER TABLE gm_http_cache DROP COLUMN next_page;");
}

// --- errors ----------------------------------------------------------------

#[test]
fn errors_are_answered() {
    let validation = DomainError::Validation { field: s("f"), message: s("m") };
    assert_eq!(validation.message(), "f: m");
    match CanonicalError::from(validation) {
        CanonicalError::InvalidArgument { field, description, reason } => {
            assert_eq!((field, description, reason), (s("f"), s("m"), s("VALIDATION_ERROR")));
        }
        other => panic!("{other:?}"),
    }
    let denied = |words: &str| CanonicalError::from(DomainError::Forbidden(s(words)));
    assert_eq!(format!("{:?}", denied("one")), format!("{:?}", denied("other")));
    match RepositoryError::answer(DomainError::Forbidden(s("because"))) {
        CanonicalError::NotFound { detail, resource } => {
            assert_eq!(detail, "Repo not found or not accessible");
            assert_eq!(resource, "repository");
        }
        other => panic!("{other:?}"),
    }
    match CanonicalError::from(DomainError::NotFound) {
        CanonicalError::NotFound { detail, .. } => assert_eq!(detail, "Repo not found"),
        other => panic!("{other:?}"),
    }
    for error in [DomainError::internal("x"), DomainError::Database(s("x"))] {
        assert!(!error.is_transient());
        match RepositoryError::answer(error) {
            CanonicalError::Internal { detail } => assert_eq!(detail, "x"),
            other => panic!("{other:?}"),
        }
    }
    assert_eq!(RepositoryError::type_id(), "cf.core.github_mirror.repository.v1~");
}

#[test]
fn only_a_locked_database_is_transient() {
    assert!(DomainError::Database(s("error: database is locked")).is_transient());
    assert!(!DomainError::Database(s("database is lock")).is_transient());
    assert!(!DomainError::internal("database is locked").is_transient());
}

#[test]
fn collection_modes_cover_open_or_all() {
    assert!(!CollectionMode::Off.includes(true));
    assert!(CollectionMode::Open.includes(true) && !CollectionMode::Open.includes(false));
    assert!(CollectionMode::All.includes(false));
}

// --- sessions --------------------------------------------------------------

fn session() -> SyncSessionRecord {
    SyncSessionRecord {
        id: 5,
        repo_full_name: s("acme/widget"),
        repo_id: None,
        status: s(QUEUED),
        progress_percent: 0,
        error: None,
        summary_json: None,
        created_at: s("t0"),
        started_at: None,
        ended_at: None,
    }
}

fn status(name: &str, state: &str) -> RepoSyncStatusRecord {
    RepoSyncStatusRecord {
        repo_full_name: s(name),
        repo_id: Some(7),
        status: s(state),
        last_session_id: Some(4),
        last_synced_at: Some(s("before")),
    }
}

#[test]
fn progress_only_rises() {
    let mut progress = SyncProgress::new();
    assert_eq!(progress.percent(), 0);
    progress.fetched();
    assert_eq!(progress.percent(), PROGRESS_FETCHED);
    progress.stored();
    progress.fetched();
    assert_eq!(progress.percent(), PROGRESS_STORED);
    progress.finished();
    progress.raise_to(50);
    assert_eq!(progress.percent(), PROGRESS_FINISHED);
}

#[test]
fn a_handle_follows_the_progress_it_was_taken_from() {
    let mut progress = SyncProgress::new();
    let early = progress.handle();
    assert_eq!(early.load(Ordering::Relaxed), 0);
    progress.fetched();
    assert_eq!(early.load(Ordering::Relaxed), 20);
    let late = progress.handle();
    progress.stored();
    progress.raise_to(30);
    assert_eq!((early.load(Ordering::Relaxed), late.load(Ordering::Relaxed)), (95, 95));
    progress.finished();
    assert_eq!((early.load(Ordering::Relaxed), progress.percent()), (100, 100));
}

#[test]
fn sessions_move_through_their_states() {
    let started = session().start("t1");
    assert_eq!((started.status.as_str(), started.started_at.as_deref()), (IN_PROGRESS, Some("t1")));
    let (leave, tenant_id, beating) = save_session_progress(&CALLER, &started, 40, "t2");
    assert_eq!((leave, tenant_id), (check(Resource::SyncSession, Action::Upsert), 2));
    assert_eq!((beating.progress_percent, beating.ended_at.as_deref()), (40, Some("t2")));
    assert_eq!(beating.status, IN_PROGRESS);
    let ended = beating.end(Ok(Some(s("{}"))), "t3");
    assert_eq!((ended.status.as_str(), ended.progress_percent), (COMPLETE, 100));
    assert_eq!((ended.summary_json.as_deref(), ended.ended_at.as_deref()), (Some("{}"), Some("t3")));
    let failed = started.end(Err(DomainError::NotFound), "t4");
    assert_eq!((failed.status.as_str(), failed.error.as_deref()), (FAILED, Some("not found")));
    assert_eq!(failed.progress_percent, 100);
    let interrupted = service().sweep_interrupted_sessions(vec![(2, session())], "t5");
    assert_eq!((interrupted[0].0, interrupted[0].1.status.as_str()), (2, INTERRUPTED));
    assert_eq!(
        interrupted[0].1.error.as_deref(),
        Some("the server restarted while this sync was in flight")
    );
    assert_eq!(stale_statuses(), [QUEUED, IN_PROGRESS]);
}

#[test]
fn session_reads_ask_for_leave() {
    assert_eq!(service().get_session(&CALLER), check(Resource::SyncSession, Action::Get));
    let query = ODataQuery { limit: None };
    assert_eq!(service().list_sessions(&CALLER, &query), (check(Resource::SyncSession, Action::List), 50));
    assert_eq!(
        service().list_repo_sync_status(&CALLER, &ODataQuery { limit: Some(4) }, Some(COMPLETE)),
        (check(Resource::RepoSyncStatus, Action::List), Some(s(COMPLETE)), 4)
    );
}

#[test]
fn marking_a_repository_keeps_what_it_does_not_speak_of() {
    let marked = mark_repo_status(Some(status("acme/widget", COMPLETE)), "acme/widget", 9, IN_PROGRESS, None);
    assert_eq!((marked.repo_id, marked.last_session_id), (Some(7), Some(9)));
    assert_eq!(marked.last_synced_at.as_deref(), Some("before"));
    let marked = mark_repo_status(None, "acme/widget", 9, COMPLETE, Some(s("now")));
    assert_eq!((marked.repo_id, marked.last_synced_at.as_deref()), (None, Some("now")));
}

#[test]
fn a_resume_looks_for_runs_in_progress() {
    let (leave, query) = repos_awaiting_resume(&CALLER, None);
    assert_eq!(leave, check(Resource::RepoSyncStatus, Action::List));
    assert!(matches!(query, ResumeQuery::All { status: "in_progress", limit: RESUME_LIMIT }));
    let (_, query) = repos_awaiting_resume(&CALLER, Some("acme/widget"));
    assert!(matches!(query, ResumeQuery::One(ref slug) if slug == "acme/widget"));
    assert_eq!(still_in_progress(Some(status("a/b", IN_PROGRESS))).len(), 1);
    assert!(still_in_progress(Some(status("a/b", COMPLETE))).is_empty());
    assert!(still_in_progress(None).is_empty());
}

#[test]
fn a_resume_splits_slugs_and_skips_what_is_none() {
    let pending = vec![
        status("acme/widget", IN_PROGRESS),
        status("nameless", IN_PROGRESS),
        status("acme/a/b", IN_PROGRESS),
    ];
    assert_eq!(
        service().resume_incomplete_syncs(&pending),
        [(s("acme"), s("widget")), (s("acme"), s("a/b"))]
    );
    assert_eq!(resumed_sessions(&vec![Ok(1), Err(DomainError::NotFound), Ok(3)]), [1, 3]);
}

fn enqueue() -> EnqueueSync {
    service().enqueue_sync(5, &CALLER, "acme", "widget", None, true)
}

/// Runs a request to sync up to the hand-over of its job.
fn up_to_the_hand_over(request: &mut EnqueueSync) -> SyncJob {
    assert!(matches!(request.step(SessionEvent::Begin, "t"), SessionAction::Validate(_)));
    match request.step(SessionEvent::Done, "t") {
        SessionAction::Authorise(leave) => {
            assert_eq!(leave, check(Resource::SyncSession, Action::Upsert));
        }
        _ => panic!("leave comes before the session"),
    }
    match request.step(SessionEvent::Done, "t1") {
        SessionAction::SaveSession(leave, 2, saved) => {
            assert_eq!(leave, check(Resource::SyncSession, Action::Upsert));
            assert_eq!((saved.id, saved.status.as_str()), (5, QUEUED));
            assert_eq!((saved.repo_full_name.as_str(), saved.created_at.as_str()), ("acme/widget", "t1"));
        }
        _ => panic!("the session is saved in the caller's tenant"),
    }
    match request.step(SessionEvent::Done, "t") {
        SessionAction::Authorise(leave) => {
            assert_eq!(leave, check(Resource::RepoSyncStatus, Action::Upsert));
        }
        _ => panic!("leave comes before the status"),
    }
    match request.step(SessionEvent::Done, "t") {
        SessionAction::FindStatus(leave, slug) => {
            assert_eq!(leave, check(Resource::RepoSyncStatus, Action::Upsert));
            assert_eq!(slug, "acme/widget");
        }
        _ => panic!("the status is looked up"),
    }
    match request.step(SessionEvent::Status(Some(status("acme/widget", COMPLETE))), "t") {
        SessionAction::SaveStatus(leave, 2, marked) => {
            assert_eq!(leave, check(Resource::RepoSyncStatus, Action::Upsert));
            assert_eq!((marked.status.as_str(), marked.last_session_id), (IN_PROGRESS, Some(5)));
            assert_eq!(marked.last_synced_at.as_deref(), Some("before"));
        }
        _ => panic!("the status is saved in the caller's tenant"),
    }
    match request.step(SessionEvent::Done, "t") {
        SessionAction::Send(job) => job,
        _ => panic!("the job is handed over"),
    }
}

#[test]
fn a_queued_sync_is_answered_with_its_session() {
    let mut request = enqueue();
    let job = up_to_the_hand_over(&mut request);
    assert_eq!((job.session_id, job.owner.as_str(), job.name.as_str()), (5, "acme", "widget"));
    assert!(job.force);
    assert!(matches!(request.step(SessionEvent::Done, "t"), SessionAction::Return(Ok(5))));
}

#[test]
fn a_sync_that_cannot_be_queued_is_recorded_as_failed() {
    let mut request = enqueue();
    up_to_the_hand_over(&mut request);
    match request.step(SessionEvent::NotSent(s("no available capacity")), "t2") {
        SessionAction::SaveSession(leave, 2, saved) => {
            assert_eq!(leave, check(Resource::SyncSession, Action::Upsert));
            assert_eq!((saved.status.as_str(), saved.ended_at.as_deref()), (FAILED, Some("t2")));
            assert_eq!(
                saved.error.as_deref(),
                Some("sync could not be queued: no available capacity")
            );
        }
        _ => panic!("the failure is saved"),
    }
    match request.step(SessionEvent::Done, "t") {
        SessionAction::Return(Err(DomainError::Internal(words))) => {
            assert_eq!(words, "sync could not be queued: no available capacity");
        }
        _ => panic!("the caller is told"),
    }
}

#[test]
fn a_refusal_ends_a_request() {
    let mut request = enqueue();
    request.step(SessionEvent::Begin, "t");
    let refused = request.step(SessionEvent::Refused(DomainError::Forbidden(s("no"))), "t");
    assert!(matches!(refused, SessionAction::Return(Err(DomainError::Forbidden(_)))));
}

fn job() -> SyncJob {
    SyncJob {
        session_id: 5,
        ctx: CALLER,
        owner: s("acme"),
        name: s("widget"),
        scope: default_scope(),
        force: true,
    }
}

/// Runs a job up to its sync.
fn up_to_the_sync(run: &mut RunSyncJob) {
    assert!(matches!(run.step(SessionEvent::Begin, "t"), SessionAction::Authorise(_)));
    assert!(matches!(run.step(SessionEvent::Done, "t"), SessionAction::FindSession(_, 5)));
    match run.step(SessionEvent::Session(Some(session())), "t1") {
        SessionAction::SaveSession(_, 2, saved) => assert_eq!(saved.status, IN_PROGRESS),
        _ => panic!("the start is saved"),
    }
    match run.step(SessionEvent::Done, "t") {
        SessionAction::RunSync(ctx, owner, name, options) => {
            assert_eq!((ctx, owner.as_str(), name.as_str()), (CALLER, "acme", "widget"));
            assert!(options.force);
            assert_eq!(options.tenant_id, 2);
        }
        _ => panic!("the sync is run"),
    }
}

#[test]
fn a_completed_run_marks_its_repository() {
    let mut run = service().run_sync_job(&job());
    up_to_the_sync(&mut run);
    match run.step(SessionEvent::Outcome(Ok(Some(s("{}")))), "t2") {
        SessionAction::SaveSession(leave, 2, saved) => {
            assert_eq!(leave, check(Resource::SyncSession, Action::Upsert));
            assert_eq!((saved.status.as_str(), saved.started_at.as_deref()), (COMPLETE, Some("t1")));
            assert_eq!(saved.progress_percent, 100);
        }
        _ => panic!("the end is saved"),
    }
    assert!(matches!(run.step(SessionEvent::Done, "t"), SessionAction::Authorise(_)));
    match run.step(SessionEvent::Done, "t") {
        SessionAction::FindStatus(leave, slug) => {
            assert_eq!(leave, check(Resource::RepoSyncStatus, Action::Upsert));
            assert_eq!(slug, "acme/widget");
        }
        _ => panic!("the status is looked up"),
    }
    match run.step(SessionEvent::Status(None), "t3") {
        SessionAction::SaveStatus(leave, 2, marked) => {
            assert_eq!(leave, check(Resource::RepoSyncStatus, Action::Upsert));
            assert_eq!((marked.status.as_str(), marked.last_session_id), (COMPLETE, Some(5)));
            assert_eq!(marked.last_synced_at.as_deref(), Some("t3"));
        }
        _ => panic!("the status is saved"),
    }
    assert!(matches!(run.step(SessionEvent::Done, "t"), SessionAction::Return(Ok(5))));
}

#[test]
fn a_failed_run_is_recorded_and_leaves_its_repository_in_progress() {
    let mut run = service().run_sync_job(&job());
    up_to_the_sync(&mut run);
    match run.step(SessionEvent::Outcome(Err(DomainError::internal("boom"))), "t2") {
        SessionAction::SaveSession(leave, 2, saved) => {
            assert_eq!(leave, check(Resource::SyncSession, Action::Upsert));
            assert_eq!((saved.status.as_str(), saved.error.as_deref()), (FAILED, Some("boom")));
            assert_eq!(saved.progress_percent, 100);
        }
        _ => panic!("the end is saved"),
    }
    assert!(matches!(run.step(SessionEvent::Done, "t"), SessionAction::Return(Ok(5))));
}

#[test]
fn a_job_without_a_session_is_not_found() {
    let mut run = service().run_sync_job(&job());
    run.step(SessionEvent::Begin, "t");
    run.step(SessionEvent::Done, "t");
    assert!(matches!(
        run.step(SessionEvent::Session(None), "t"),
        SessionAction::Return(Err(DomainError::NotFound))
    ));
}
