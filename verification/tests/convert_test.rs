use github_mirror::convert::{
    branch_record, check_run_record, comment_record, commit_comment_record, commit_file_record,
    commit_record, commit_status_record, contributor_record, deployment_record,
    issue_event_record, issue_number_from_url, issue_reaction_record, issue_record,
    issue_timeline_record, label_record, milestone_record, pull_request_commit_record,
    pull_request_file_record, pull_request_record, release_record, repository_record,
    review_comment_record, review_record, review_thread_record, tag_record, timeline_row,
    workflow_job_record, workflow_run_record, TimelineFields,
};
use github_mirror::wire::{
    GhActor, GhBranch, GhBranchCommit, GhCheckApp, GhCheckOutput, GhCheckRun, GhComment, GhCommit,
    GhCommitComment, GhCommitDetails, GhCommitPerson, GhCommitStatus, GhContributor, GhDeployment,
    GhIssue, GhIssueEvent, GhIssueReaction, GhLabel, GhMilestone, GhPullFile, GhPullRequest, GhRef,
    GhRelease, GhRepository, GhReview, GhReviewComment, GhTag, GhWorkflowJob, GhWorkflowRun,
};
use serde_json::Value;

fn s(text: &str) -> String {
    text.to_owned()
}

fn some(text: &str) -> Option<String> {
    Some(text.to_owned())
}

fn actor(login: &str) -> Option<GhActor> {
    Some(GhActor { login: s(login) })
}

fn json(text: &str) -> Value {
    serde_json::from_str(text).expect("valid JSON")
}

fn commit(author: Option<GhActor>, date: Option<GhCommitPerson>) -> GhCommit {
    GhCommit {
        sha: s("abc"),
        commit: GhCommitDetails { message: s("fix"), author: date, committer: None },
        author,
        committer: actor("bot"),
    }
}

fn file() -> GhPullFile {
    GhPullFile {
        filename: s("a.rs"),
        status: s("renamed"),
        additions: 3,
        deletions: 4,
        changes: 7,
        previous_filename: some("b.rs"),
        sha: some("f00"),
    }
}

#[test]
fn issue_numbers_come_from_the_end_of_a_url() {
    assert_eq!(issue_number_from_url(Some("https://api.github.com/repos/o/r/issues/42")), 42);
    assert_eq!(issue_number_from_url(Some("42")), 42);
    assert_eq!(issue_number_from_url(Some("https://x/issues/-7")), -7);
    assert_eq!(issue_number_from_url(Some("https://x/issues/")), 0);
    assert_eq!(issue_number_from_url(Some("https://x/issues/42a")), 0);
    assert_eq!(issue_number_from_url(Some("https://x/issues/9223372036854775808")), 0);
    assert_eq!(issue_number_from_url(Some("x/-9223372036854775808")), i64::MIN);
    assert_eq!(issue_number_from_url(Some("")), 0);
    assert_eq!(issue_number_from_url(None), 0);
}

#[test]
fn a_repository_is_owned_by_its_login() {
    let row = repository_record(GhRepository {
        clone_url: some("https://x.git"),
        id: 9,
        name: s("widget"),
        full_name: s("acme/widget"),
        owner: GhActor { login: s("acme") },
        default_branch: s("main"),
        private: true,
        pushed_at: some("2024-01-01"),
        stargazers_count: 5,
        forks_count: 6,
        description: None,
    });
    assert_eq!((row.id, row.stars, row.forks, row.private), (9, 5, 6, true));
    assert_eq!((row.owner.as_str(), row.name.as_str()), ("acme", "widget"));
    assert_eq!(row.full_name, "acme/widget");
    assert_eq!(row.default_branch, "main");
    assert_eq!(row.pushed_at.as_deref(), Some("2024-01-01"));
    assert_eq!(row.clone_url.as_deref(), Some("https://x.git"));
    assert_eq!(row.description, None);
}

fn issue(pull_request: Option<()>) -> GhIssue {
    GhIssue {
        id: 1,
        number: 2,
        title: s("t"),
        body: some("b"),
        state: s("open"),
        pull_request,
        created_at: s("c"),
        updated_at: s("u"),
        closed_at: None,
        html_url: some("h"),
    }
}

#[test]
fn an_issue_that_names_a_pull_request_is_one() {
    let row = issue_record(7, issue(None));
    assert!(!row.is_pull_request);
    assert_eq!((row.id, row.repo_id, row.number), (1, 7, 2));
    assert_eq!((row.title.as_str(), row.state.as_str()), ("t", "open"));
    assert_eq!((row.created_at.as_str(), row.updated_at.as_str()), ("c", "u"));
    assert_eq!((row.body.as_deref(), row.html_url.as_deref()), (Some("b"), Some("h")));
    assert!(issue_record(7, issue(Some(()))).is_pull_request);
}

fn pull(head: Option<GhRef>, draft: Option<bool>, merged_at: Option<String>) -> GhPullRequest {
    GhPullRequest {
        id: 1,
        number: 2,
        title: s("t"),
        body: None,
        state: s("closed"),
        draft,
        merged_at,
        head,
        base: Some(GhRef { sha: None, ref_name: some("main") }),
        created_at: s("c"),
        updated_at: s("u"),
        closed_at: some("d"),
        html_url: None,
    }
}

#[test]
fn a_pull_request_is_merged_when_it_says_when() {
    let head = GhRef { sha: some("abc"), ref_name: some("topic") };
    let row = pull_request_record(7, pull(Some(head), Some(true), some("m")));
    assert!(row.draft && row.merged);
    assert_eq!(row.merged_at.as_deref(), Some("m"));
    assert_eq!((row.head_sha.as_deref(), row.head_ref.as_deref()), (Some("abc"), Some("topic")));
    assert_eq!((row.base_sha.as_deref(), row.base_ref.as_deref()), (None, Some("main")));
    assert_eq!((row.lines_added, row.lines_removed, row.repo_id), (0, 0, 7));
    let row = pull_request_record(7, pull(None, None, None));
    assert!(!row.draft && !row.merged);
    assert_eq!((row.head_sha, row.head_ref), (None, None));
}

#[test]
fn comments_belong_to_the_issue_of_their_url() {
    let row = comment_record(
        7,
        GhComment {
            id: 3,
            user: actor("ann"),
            body: some("hi"),
            created_at: s("c"),
            updated_at: s("u"),
            html_url: None,
            issue_url: some("https://x/issues/12"),
        },
    );
    assert_eq!((row.id, row.repo_id, row.issue_number), (3, 7, 12));
    assert_eq!(row.author_login.as_deref(), Some("ann"));
    let row = review_comment_record(
        7,
        GhReviewComment {
            id: 4,
            user: None,
            body: None,
            path: some("p"),
            diff_hunk: some("@@"),
            in_reply_to_id: Some(3),
            commit_id: some("abc"),
            created_at: s("c"),
            updated_at: s("u"),
            html_url: None,
            pull_request_url: some("https://x/pulls/13"),
        },
    );
    assert_eq!((row.pull_number, row.in_reply_to_id, row.author_login), (13, Some(3), None));
    assert_eq!((row.path.as_deref(), row.diff_hunk.as_deref()), (Some("p"), Some("@@")));
    assert_eq!(row.commit_id.as_deref(), Some("abc"));
}

#[test]
fn metadata_becomes_rows() {
    let label = label_record(
        7,
        GhLabel { id: 1, name: s("bug"), color: s("f00"), is_default: true, description: None },
    );
    assert_eq!((label.id, label.repo_id, label.is_default), (1, 7, true));
    assert_eq!((label.name.as_str(), label.color.as_str()), ("bug", "f00"));
    let milestone = milestone_record(
        7,
        GhMilestone {
            id: 1,
            number: 2,
            title: s("v1"),
            state: s("open"),
            description: None,
            open_issues: 3,
            closed_issues: 4,
            due_on: some("d"),
            created_at: s("c"),
            updated_at: s("u"),
            closed_at: None,
            html_url: None,
        },
    );
    assert_eq!((milestone.number, milestone.open_issues, milestone.closed_issues), (2, 3, 4));
    assert_eq!(milestone.due_on.as_deref(), Some("d"));
    let release = release_record(
        7,
        GhRelease {
            id: 1,
            tag_name: s("v1"),
            name: None,
            draft: false,
            prerelease: true,
            body: None,
            author: actor("ann"),
            created_at: s("c"),
            published_at: some("p"),
            html_url: None,
        },
    );
    assert_eq!((release.tag_name.as_str(), release.prerelease), ("v1", true));
    assert_eq!(release.author_login.as_deref(), Some("ann"));
    let branch = branch_record(
        7,
        GhBranch { name: s("main"), commit: GhBranchCommit { sha: s("abc") }, protected: true },
    );
    assert_eq!((branch.commit_sha.as_str(), branch.protected), ("abc", true));
    let tag = tag_record(7, GhTag { name: s("v1"), commit: GhBranchCommit { sha: s("def") } });
    assert_eq!((tag.repo_id, tag.name.as_str(), tag.commit_sha.as_str()), (7, "v1", "def"));
    let contributor = contributor_record(
        7,
        GhContributor {
            id: 5,
            login: s("ann"),
            contributions: 6,
            user_type: s("User"),
            avatar_url: None,
            html_url: None,
        },
    );
    assert_eq!((contributor.user_id, contributor.contributions), (5, 6));
    let deployment = deployment_record(
        7,
        GhDeployment {
            id: 1,
            git_ref: s("main"),
            sha: s("abc"),
            environment: s("prod"),
            task: s("deploy"),
            description: None,
            creator: None,
            created_at: s("c"),
            updated_at: s("u"),
        },
    );
    assert_eq!((deployment.git_ref.as_str(), deployment.environment.as_str()), ("main", "prod"));
    assert_eq!(deployment.creator_login, None);
}

#[test]
fn a_workflow_run_without_an_attempt_is_on_its_first() {
    let run = |attempt| GhWorkflowRun {
        id: 1,
        workflow_id: 2,
        run_number: 3,
        run_attempt: attempt,
        name: None,
        event: s("push"),
        status: None,
        conclusion: some("success"),
        head_branch: None,
        head_sha: s("abc"),
        actor: actor("ann"),
        created_at: s("c"),
        updated_at: s("u"),
        html_url: None,
    };
    assert_eq!(workflow_run_record(7, run(None)).run_attempt, 1);
    let row = workflow_run_record(7, run(Some(4)));
    assert_eq!((row.workflow_id, row.run_number, row.run_attempt), (2, 3, 4));
    assert_eq!(row.actor_login.as_deref(), Some("ann"));
}

fn job(attempt: Option<i64>, steps: Option<Value>) -> GhWorkflowJob {
    GhWorkflowJob {
        id: 1,
        run_id: 2,
        run_attempt: attempt,
        name: s("build"),
        status: None,
        conclusion: None,
        head_sha: s("abc"),
        runner_name: None,
        started_at: None,
        completed_at: None,
        html_url: None,
        steps,
    }
}

#[test]
fn the_steps_of_a_job_are_kept_as_compact_text() {
    let row = workflow_job_record(7, job(None, Some(json("[ {\"name\": \"a\\\"b\"}, 1 ]"))));
    assert_eq!(row.steps_json.as_deref(), Some("[{\"name\":\"a\\\"b\"},1]"));
    assert_eq!((row.run_id, row.run_attempt), (2, 1));
    let row = workflow_job_record(7, job(Some(2), None));
    assert_eq!((row.steps_json, row.run_attempt), (None, 2));
}

#[test]
fn commits_take_their_dates_from_the_commit_and_their_logins_from_the_accounts() {
    let person = GhCommitPerson { date: some("d") };
    let row = commit_record(7, commit(None, Some(person)));
    assert_eq!((row.sha.as_str(), row.message.as_str()), ("abc", "fix"));
    assert_eq!((row.author_login.as_deref(), row.committer_login.as_deref()), (None, Some("bot")));
    assert_eq!((row.authored_at.as_deref(), row.committed_at.as_deref()), (Some("d"), None));
    assert_eq!((row.additions, row.deletions), (0, 0));
    let row = pull_request_commit_record(7, 8, commit(actor("ann"), Some(GhCommitPerson { date: None })));
    assert_eq!((row.repo_id, row.pull_number), (7, 8));
    assert_eq!((row.author_login.as_deref(), row.authored_at), (Some("ann"), None));
}

#[test]
fn files_belong_to_their_pull_request_or_commit() {
    let row = pull_request_file_record(7, 8, file());
    assert_eq!((row.pull_number, row.additions, row.deletions, row.changes), (8, 3, 4, 7));
    assert_eq!(row.previous_filename.as_deref(), Some("b.rs"));
    let row = commit_file_record(7, "abc", file());
    assert_eq!((row.commit_sha.as_str(), row.filename.as_str()), ("abc", "a.rs"));
    assert_eq!((row.status.as_str(), row.sha.as_deref()), ("renamed", Some("f00")));
}

#[test]
fn remarks_on_commits_become_rows() {
    let row = commit_comment_record(
        7,
        GhCommitComment {
            id: 1,
            user: actor("ann"),
            commit_id: s("abc"),
            path: None,
            position: Some(4),
            body: some("b"),
            created_at: s("c"),
            updated_at: s("u"),
            html_url: None,
        },
    );
    assert_eq!((row.commit_sha.as_str(), row.position), ("abc", Some(4)));
    let row = commit_status_record(
        7,
        "abc",
        GhCommitStatus {
            id: 1,
            state: s("success"),
            context: s("ci"),
            description: None,
            target_url: some("t"),
            creator: actor("bot"),
            created_at: s("c"),
            updated_at: s("u"),
        },
    );
    assert_eq!((row.commit_sha.as_str(), row.state.as_str()), ("abc", "success"));
    assert_eq!(row.creator_login.as_deref(), Some("bot"));
}

#[test]
fn events_reviews_and_reactions_become_rows() {
    let event = |issue| GhIssueEvent {
        id: 1,
        event: s("labeled"),
        actor: actor("ann"),
        label: some("bug"),
        assignee: None,
        milestone: some("v1"),
        commit_id: None,
        created_at: s("c"),
        issue,
    };
    let row = issue_event_record(7, event(Some(5)));
    assert_eq!((row.issue_number, row.event.as_str()), (5, "labeled"));
    assert_eq!((row.label_name.as_deref(), row.milestone_title.as_deref()), (Some("bug"), Some("v1")));
    assert_eq!((row.actor_login.as_deref(), row.assignee_login), (Some("ann"), None));
    assert_eq!(issue_event_record(7, event(None)).issue_number, 0);
    let row = review_record(
        7,
        8,
        GhReview {
            id: 1,
            user: None,
            state: s("APPROVED"),
            body: None,
            commit_id: some("abc"),
            submitted_at: some("t"),
            html_url: None,
        },
    );
    assert_eq!((row.pull_number, row.state.as_str()), (8, "APPROVED"));
    let row = issue_reaction_record(
        7,
        9,
        GhIssueReaction { id: 1, content: s("+1"), user: actor("ann"), created_at: s("c") },
    );
    assert_eq!((row.issue_number, row.content.as_str()), (9, "+1"));
    assert_eq!(row.user_login.as_deref(), Some("ann"));
}

#[test]
fn a_check_run_without_output_has_no_annotations() {
    let check = |app, output| GhCheckRun {
        id: 1,
        head_sha: s("abc"),
        name: s("lint"),
        status: None,
        conclusion: None,
        started_at: None,
        completed_at: None,
        html_url: None,
        details_url: None,
        check_suite: Some(6),
        app,
        output,
    };
    let row = check_run_record(7, check(None, None));
    assert_eq!((row.check_suite_id, row.annotations_count), (Some(6), 0));
    assert_eq!((row.app_slug, row.output_title), (None, None));
    let row = check_run_record(
        7,
        check(
            Some(GhCheckApp { slug: some("gha"), name: some("Actions") }),
            Some(GhCheckOutput { title: some("t"), summary: some("s"), annotations_count: 2 }),
        ),
    );
    assert_eq!((row.app_slug.as_deref(), row.app_name.as_deref()), (Some("gha"), Some("Actions")));
    assert_eq!((row.output_summary.as_deref(), row.annotations_count), (Some("s"), 2));
}

#[test]
fn a_thread_is_read_from_its_node() {
    let node = json(
        "{\"id\":\"T1\",\"isResolved\":true,\"isOutdated\":false,\"path\":\"a.rs\",\"line\":12,\
         \"resolvedBy\":{\"login\":\"ann\"},\"comments\":{\"totalCount\":3}}",
    );
    let row = review_thread_record(7, 8, &node).expect("it has an id");
    assert_eq!((row.id.as_str(), row.repo_id, row.pull_number), ("T1", 7, 8));
    assert!(row.is_resolved && !row.is_outdated);
    assert_eq!((row.path.as_deref(), row.line), (Some("a.rs"), Some(12)));
    assert_eq!((row.resolved_by.as_deref(), row.comments_count), (Some("ann"), 3));
}

#[test]
fn what_a_thread_leaves_out_has_a_default() {
    let row = review_thread_record(7, 8, &json("{\"id\":\"T1\",\"line\":\"x\"}")).expect("it has an id");
    assert!(!row.is_resolved && !row.is_outdated);
    assert_eq!((row.path, row.line, row.resolved_by, row.comments_count), (None, None, None, 0));
    assert!(review_thread_record(7, 8, &json("{\"id\":5}")).is_none());
    assert!(review_thread_record(7, 8, &json("{}")).is_none());
    assert!(review_thread_record(7, 8, &json("[1]")).is_none());
}

#[test]
fn a_timeline_entry_is_kept_verbatim() {
    let entry = json("{\"event\":\"closed\", \"created_at\":\"t\", \"actor\":{\"login\":\"ann\"}}");
    let row = issue_timeline_record(7, 9, 4, &entry);
    assert_eq!((row.repo_id, row.issue_number, row.position), (7, 9, 4));
    assert_eq!((row.event.as_str(), row.created_at.as_deref()), ("closed", Some("t")));
    assert_eq!(row.actor_login.as_deref(), Some("ann"));
    assert_eq!(serde_json::from_str::<Value>(&row.payload_json).expect("JSON"), entry);
    assert!(!row.payload_json.contains(' '));
}

#[test]
fn a_timeline_entry_falls_back_to_its_user() {
    let row = issue_timeline_record(7, 9, 0, &json("{\"user\":{\"login\":\"bob\"}}"));
    assert_eq!((row.event.as_str(), row.actor_login.as_deref()), ("unknown", Some("bob")));
    let both = json("{\"user\":{\"login\":\"bob\"},\"actor\":{\"login\":\"ann\"}}");
    assert_eq!(issue_timeline_record(7, 9, 0, &both).actor_login.as_deref(), Some("ann"));
    assert_eq!(issue_timeline_record(7, 9, 0, &Value::Null).payload_json, "null");
}

#[test]
fn timeline_positions_stop_at_the_greatest() {
    let fields = TimelineFields {
        event: None,
        created_at: None,
        actor: None,
        user: None,
        payload_json: s("{}"),
    };
    assert_eq!(timeline_row(1, 2, usize::MAX, fields).position, i64::MAX);
}
