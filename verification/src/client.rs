//! Requests to the API: where they go, and what their answers mean.

use crate::decimal;
use crate::error::{DomainError, ErrorView};
use crate::json;
use crate::text;
use crate::text::joined;
use serde_json::Value;
use vstd::prelude::*;
use vstd::string::*;

verus! {

/// Reviews and changed files are served only per pull request, so they are
/// fetched for the first few of the page, to keep the number of calls bounded.
pub const PER_PULL_SYNC_CAP: usize = 10;

/// Line counts and files of commits are served only per commit.
pub const PER_COMMIT_SYNC_CAP: usize = 10;

/// Jobs are served only per workflow run.
pub const PER_RUN_SYNC_CAP: usize = 10;

/// Reactions and timelines are served only per issue.
pub const PER_ISSUE_SYNC_CAP: usize = 10;

// ---------------------------------------------------------------------------
// URLs
// ---------------------------------------------------------------------------

/// The URL of a path under the base URL.
pub fn request_url(base: &str, path: &str) -> (out: String)
    ensures
        out@ == text::without_trailing_slashes(base@) + path@,
{
    joined(text::trim_end_slashes(base), path)
}

/// The URL that GraphQL is served at, for a base URL without trailing slashes:
/// beside the versioned root of an enterprise server, under any other base.
pub open spec fn graphql_beside(base: Seq<char>) -> Seq<char> {
    if "/api/v3"@.is_suffix_of(base) {
        base.take(base.len() - "/api/v3"@.len()) + "/api/graphql"@
    } else {
        base + "/graphql"@
    }
}

/// The URL that GraphQL is served at.
pub fn graphql_url(base: &str) -> (out: String)
    ensures
        out@ == graphql_beside(text::without_trailing_slashes(base@)),
{
    let trimmed = text::trim_end_slashes(base);
    match text::strip_suffix(trimmed, "/api/v3") {
        Some(root) => {
            assert("/api/v3"@.is_suffix_of(trimmed@)) by {
                assert(trimmed@.subrange(root@.len() as int, trimmed@.len() as int) =~= "/api/v3"@);
            }
            assert(trimmed@.take(root@.len() as int) =~= root@);
            joined(root, "/api/graphql")
        },
        None => joined(trimmed, "/graphql"),
    }
}

/// The agent that requests are sent as.
pub fn user_agent(version: &str) -> (out: String)
    ensures
        out@ == "cf-gears-github-mirror/"@ + version@,
{
    joined("cf-gears-github-mirror/", version)
}

/// What a request asks to be answered with.
pub const ACCEPTED: &'static str = "application/vnd.github+json";

/// The `Authorization` header of a request: the token as a bearer, where there
/// is one. Without a token there is no such header.
pub fn authorization(token: Option<&str>) -> (out: Option<String>)
    ensures
        json::text_of(out) == match token {
            Some(token) => Some("Bearer "@ + token@),
            None => None,
        },
{
    match token {
        Some(token) => Some(joined("Bearer ", token)),
        None => None,
    }
}

/// What a GraphQL query is sent as.
pub fn graphql_body(query: &str) -> (out: Value)
    ensures
        out == json::json_of_member("query"@, json::json_of_string(query@)),
        json::string_at(out, "query"@) == Some(query@),
{
    json::of_member("query", json::of_string(query))
}

// ---------------------------------------------------------------------------
// Requests
// ---------------------------------------------------------------------------

/// The listings of a repository, one page each.
#[derive(Debug, Clone, Copy, PartialEq, Eq, Structural)]
pub enum Page {
    Issues,
    Pulls,
    Commits,
    Comments,
    ReviewComments,
    Labels,
    Milestones,
    Releases,
    Branches,
    Contributors,
    WorkflowRuns,
    Deployments,
    IssueEvents,
    CommitComments,
    Tags,
}

/// One request of a fetch.
#[derive(Debug)]
pub enum FetchRequest {
    Repository,
    Page(Page),
    IssueReactions(i64),
    IssueTimeline(i64),
    RunJobs(i64),
    Commit(String),
    CommitStatuses(String),
    CommitCheckRuns(String),
    PullReviews(i64),
    PullFiles(i64),
    PullCommits(i64),
    PullThreads(i64),
}

/// Where a request goes.
#[derive(Debug)]
pub enum Target {
    /// A path under the base URL.
    Get(String),
    /// A GraphQL query.
    Graphql(String),
}

#[verifier::ext_equal]
pub enum TargetView {
    Get(Seq<char>),
    Graphql(Seq<char>),
}

impl View for Target {
    type V = TargetView;

    open spec fn view(&self) -> TargetView {
        match self {
            Target::Get(path) => TargetView::Get(path@),
            Target::Graphql(query) => TargetView::Graphql(query@),
        }
    }
}

impl Page {
    pub open spec fn spec_suffix(self) -> Seq<char> {
        match self {
            Page::Issues => "/issues?state=all&per_page=50"@,
            Page::Pulls => "/pulls?state=all&per_page=50"@,
            Page::Commits => "/commits?per_page=50"@,
            Page::Comments => "/issues/comments?per_page=50"@,
            Page::ReviewComments => "/pulls/comments?per_page=50"@,
            Page::Labels => "/labels?per_page=50"@,
            Page::Milestones => "/milestones?state=all&per_page=50"@,
            Page::Releases => "/releases?per_page=50"@,
            Page::Branches => "/branches?per_page=50"@,
            Page::Contributors => "/contributors?per_page=50"@,
            Page::WorkflowRuns => "/actions/runs?per_page=50"@,
            Page::Deployments => "/deployments?per_page=50"@,
            Page::IssueEvents => "/issues/events?per_page=50"@,
            Page::CommitComments => "/comments?per_page=50"@,
            Page::Tags => "/tags?per_page=50"@,
        }
    }

    /// The page's path below the repository's.
    pub fn suffix(self) -> (out: &'static str)
        ensures
            out@ == self.spec_suffix(),
            self is Issues ==> out@ == "/issues?state=all&per_page=50"@,
            self is Pulls ==> out@ == "/pulls?state=all&per_page=50"@,
            self is Commits ==> out@ == "/commits?per_page=50"@,
            self is Comments ==> out@ == "/issues/comments?per_page=50"@,
            self is ReviewComments ==> out@ == "/pulls/comments?per_page=50"@,
            self is Labels ==> out@ == "/labels?per_page=50"@,
            self is Milestones ==> out@ == "/milestones?state=all&per_page=50"@,
            self is Releases ==> out@ == "/releases?per_page=50"@,
            self is Branches ==> out@ == "/branches?per_page=50"@,
            self is Contributors ==> out@ == "/contributors?per_page=50"@,
            self is WorkflowRuns ==> out@ == "/actions/runs?per_page=50"@,
            self is Deployments ==> out@ == "/deployments?per_page=50"@,
            self is IssueEvents ==> out@ == "/issues/events?per_page=50"@,
            self is CommitComments ==> out@ == "/comments?per_page=50"@,
            self is Tags ==> out@ == "/tags?per_page=50"@,
    {
        match self {
            Page::Issues => "/issues?state=all&per_page=50",
            Page::Pulls => "/pulls?state=all&per_page=50",
            Page::Commits => "/commits?per_page=50",
            Page::Comments => "/issues/comments?per_page=50",
            Page::ReviewComments => "/pulls/comments?per_page=50",
            Page::Labels => "/labels?per_page=50",
            Page::Milestones => "/milestones?state=all&per_page=50",
            Page::Releases => "/releases?per_page=50",
            Page::Branches => "/branches?per_page=50",
            Page::Contributors => "/contributors?per_page=50",
            Page::WorkflowRuns => "/actions/runs?per_page=50",
            Page::Deployments => "/deployments?per_page=50",
            Page::IssueEvents => "/issues/events?per_page=50",
            Page::CommitComments => "/comments?per_page=50",
            Page::Tags => "/tags?per_page=50",
        }
    }
}

/// The path of a repository.
pub open spec fn repo_path_of(owner: Seq<char>, name: Seq<char>) -> Seq<char> {
    "/repos/"@ + owner + "/"@ + name
}

fn repo_path(owner: &str, name: &str) -> (out: String)
    ensures
        out@ == repo_path_of(owner@, name@),
{
    joined(joined(joined("/repos/", owner).as_str(), "/").as_str(), name)
}

/// A path below the repository's, with something in the middle of it.
pub open spec fn path_through(
    owner: Seq<char>,
    name: Seq<char>,
    before: Seq<char>,
    middle: Seq<char>,
    after: Seq<char>,
) -> Seq<char> {
    repo_path_of(owner, name) + before + middle + after
}

fn path_with(owner: &str, name: &str, before: &str, middle: &str, after: &str) -> (out: String)
    ensures
        out@ == path_through(owner@, name@, before@, middle@, after@),
{
    let mut out = repo_path(owner, name);
    out.append(before);
    out.append(middle);
    out.append(after);
    out
}

/// The query for the review threads of a pull request.
pub open spec fn threads_query(owner: Seq<char>, name: Seq<char>, pull_number: int) -> Seq<char> {
    "query { repository(owner: \""@ + owner + "\", name: \""@ + name
        + "\") { pullRequest(number: "@ + decimal::integer_text(pull_number)
        + ") { reviewThreads(first: 50) { nodes { id isResolved isOutdated path line resolvedBy { login } comments(first: 1) { totalCount } } } } } }"@
}

/// See [`threads_query`].
pub fn review_threads_query(owner: &str, name: &str, pull_number: i64) -> (out: String)
    ensures
        out@ == threads_query(owner@, name@, pull_number as int),
{
    let number = decimal::i64_text(pull_number);
    let mut out = joined("query { repository(owner: \"", owner);
    out.append("\", name: \"");
    out.append(name);
    out.append("\") { pullRequest(number: ");
    out.append(number.as_str());
    out.append(
        ") { reviewThreads(first: 50) { nodes { id isResolved isOutdated path line resolvedBy { login } comments(first: 1) { totalCount } } } } } }",
    );
    out
}

/// Where a request about a repository goes.
pub open spec fn target_of(request: FetchRequest, owner: Seq<char>, name: Seq<char>) -> TargetView {
    match request {
        FetchRequest::Repository => TargetView::Get(repo_path_of(owner, name)),
        FetchRequest::Page(page) => TargetView::Get(repo_path_of(owner, name) + page.spec_suffix()),
        FetchRequest::IssueReactions(number) => TargetView::Get(
            path_through(
                owner,
                name,
                "/issues/"@,
                decimal::integer_text(number as int),
                "/reactions?per_page=50"@,
            ),
        ),
        FetchRequest::IssueTimeline(number) => TargetView::Get(
            path_through(
                owner,
                name,
                "/issues/"@,
                decimal::integer_text(number as int),
                "/timeline?per_page=50"@,
            ),
        ),
        FetchRequest::RunJobs(id) => TargetView::Get(
            path_through(
                owner,
                name,
                "/actions/runs/"@,
                decimal::integer_text(id as int),
                "/jobs?per_page=50"@,
            ),
        ),
        FetchRequest::Commit(sha) => TargetView::Get(
            path_through(owner, name, "/commits/"@, sha@, ""@),
        ),
        FetchRequest::CommitStatuses(sha) => TargetView::Get(
            path_through(owner, name, "/commits/"@, sha@, "/statuses?per_page=50"@),
        ),
        FetchRequest::CommitCheckRuns(sha) => TargetView::Get(
            path_through(owner, name, "/commits/"@, sha@, "/check-runs?per_page=50"@),
        ),
        FetchRequest::PullReviews(number) => TargetView::Get(
            path_through(
                owner,
                name,
                "/pulls/"@,
                decimal::integer_text(number as int),
                "/reviews?per_page=50"@,
            ),
        ),
        FetchRequest::PullFiles(number) => TargetView::Get(
            path_through(
                owner,
                name,
                "/pulls/"@,
                decimal::integer_text(number as int),
                "/files?per_page=50"@,
            ),
        ),
        FetchRequest::PullCommits(number) => TargetView::Get(
            path_through(
                owner,
                name,
                "/pulls/"@,
                decimal::integer_text(number as int),
                "/commits?per_page=50"@,
            ),
        ),
        FetchRequest::PullThreads(number) => TargetView::Graphql(
            threads_query(owner, name, number as int),
        ),
    }
}

fn numbered(owner: &str, name: &str, before: &str, number: i64, after: &str) -> (out: Target)
    ensures
        out@ == TargetView::Get(
            path_through(owner@, name@, before@, decimal::integer_text(number as int), after@),
        ),
{
    let digits = decimal::i64_text(number);
    Target::Get(path_with(owner, name, before, digits.as_str(), after))
}

impl FetchRequest {
    /// Where the request goes.
    pub fn target(&self, owner: &str, name: &str) -> (out: Target)
        ensures
            out@ == target_of(*self, owner@, name@),
    {
        match self {
            FetchRequest::Repository => Target::Get(repo_path(owner, name)),
            FetchRequest::Page(page) => Target::Get(
                joined(repo_path(owner, name).as_str(), page.suffix()),
            ),
            FetchRequest::IssueReactions(number) => numbered(
                owner,
                name,
                "/issues/",
                *number,
                "/reactions?per_page=50",
            ),
            FetchRequest::IssueTimeline(number) => numbered(
                owner,
                name,
                "/issues/",
                *number,
                "/timeline?per_page=50",
            ),
            FetchRequest::RunJobs(id) => numbered(
                owner,
                name,
                "/actions/runs/",
                *id,
                "/jobs?per_page=50",
            ),
            FetchRequest::Commit(sha) => Target::Get(
                path_with(owner, name, "/commits/", sha.as_str(), ""),
            ),
            FetchRequest::CommitStatuses(sha) => Target::Get(
                path_with(owner, name, "/commits/", sha.as_str(), "/statuses?per_page=50"),
            ),
            FetchRequest::CommitCheckRuns(sha) => Target::Get(
                path_with(owner, name, "/commits/", sha.as_str(), "/check-runs?per_page=50"),
            ),
            FetchRequest::PullReviews(number) => numbered(
                owner,
                name,
                "/pulls/",
                *number,
                "/reviews?per_page=50",
            ),
            FetchRequest::PullFiles(number) => numbered(
                owner,
                name,
                "/pulls/",
                *number,
                "/files?per_page=50",
            ),
            FetchRequest::PullCommits(number) => numbered(
                owner,
                name,
                "/pulls/",
                *number,
                "/commits?per_page=50",
            ),
            FetchRequest::PullThreads(number) => Target::Graphql(
                review_threads_query(owner, name, *number),
            ),
        }
    }
}

// ---------------------------------------------------------------------------
// Answers
// ---------------------------------------------------------------------------

/// The standard reason phrase of a status code, where there is one.
pub uninterp spec fn http_reason(code: u16) -> Option<Seq<char>>;

/// `http::StatusCode::canonical_reason` of the status with that code: its
/// standard reason phrase, where there is one. Codes outside 100 to 999 are no
/// status codes.
#[verifier::external_body]
fn canonical_reason(code: u16) -> (out: Option<&'static str>)
    requires
        100 <= code <= 999,
    ensures
        match out {
            Some(reason) => http_reason(code) == Some(reason@),
            None => http_reason(code) is None,
        },
{
    http::StatusCode::from_u16(code).ok()?.canonical_reason()
}

/// A status in words: its code, and its reason phrase.
pub open spec fn status_words(code: u16, reason: Option<Seq<char>>) -> Seq<char> {
    decimal::natural_text(code as nat) + " "@ + match reason {
        Some(reason) => reason,
        None => "<unknown status code>"@,
    }
}

/// See [`status_words`].
pub fn in_words(code: u16, reason: Option<&str>) -> (out: String)
    ensures
        out@ == status_words(
            code,
            match reason {
                Some(reason) => Some(reason@),
                None => None,
            },
        ),
{
    let digits = decimal::u64_text(code as u64);
    let reason = match reason {
        Some(reason) => reason,
        None => "<unknown status code>",
    };
    joined(joined(digits.as_str(), " ").as_str(), reason)
}

fn status_text(code: u16) -> (out: String)
    requires
        100 <= code <= 999,
    ensures
        out@ == status_words(code, http_reason(code)),
{
    in_words(code, canonical_reason(code))
}

pub open spec fn is_success(code: u16) -> bool {
    200 <= code < 300
}

/// What the status of an answer means: success, an unknown resource, or a
/// failure.
pub fn check_status(code: u16, path: &str) -> (out: Result<(), DomainError>)
    requires
        100 <= code <= 999,
    ensures
        out is Ok <==> is_success(code),
        out is Err ==> out->Err_0@ == if code == 404 {
            ErrorView::NotFound
        } else {
            ErrorView::Internal(
                "GitHub responded with "@ + status_words(code, http_reason(code)) + " for "@
                    + path@,
            )
        },
{
    if code == 404 {
        return Err(DomainError::NotFound);
    }
    if 200 <= code && code < 300 {
        return Ok(());
    }
    let opening = joined("GitHub responded with ", status_text(code).as_str());
    Err(DomainError::Internal(joined(joined(opening.as_str(), " for ").as_str(), path)))
}

/// What the status of a GraphQL answer means.
pub fn check_graphql_status(code: u16) -> (out: Result<(), DomainError>)
    requires
        100 <= code <= 999,
    ensures
        out is Ok <==> is_success(code),
        out is Err ==> out->Err_0@ == ErrorView::Internal(
            "GitHub GraphQL responded with "@ + status_words(code, http_reason(code)),
        ),
{
    if 200 <= code && code < 300 {
        return Ok(());
    }
    Err(DomainError::Internal(joined("GitHub GraphQL responded with ", status_text(code).as_str())))
}

/// The errors a GraphQL answer reports, if it reports any.
pub open spec fn graphql_errors(body: Value) -> Option<Seq<Value>> {
    match json::member_of(body, "errors"@) {
        Some(errors) => match json::json_array(errors) {
            Some(errors) => if errors.len() > 0 {
                Some(errors)
            } else {
                None
            },
            None => None,
        },
        None => None,
    }
}

/// A GraphQL answer that reports errors is a failure.
pub fn check_graphql_body(body: &Value) -> (out: Result<(), DomainError>)
    ensures
        out is Ok <==> graphql_errors(*body) is None,
        out is Err ==> out->Err_0@ == ErrorView::Internal(
            "GitHub GraphQL errors: "@ + json::json_debug(graphql_errors(*body)->0),
        ),
{
    match json::get(body, "errors") {
        Some(errors) => match json::as_array(errors) {
            Some(errors) => {
                if errors.len() > 0 {
                    return Err(
                        DomainError::Internal(
                            joined("GitHub GraphQL errors: ", json::debug(errors).as_str()),
                        ),
                    );
                }
            },
            None => {},
        },
        None => {},
    }
    Ok(())
}

/// The stages at which a request can fail before its answer is read.
#[derive(Debug, Clone, Copy, PartialEq, Eq, Structural)]
pub enum Leg {
    BuildClient,
    Send,
    Decode,
    SendGraphql,
    DecodeGraphql,
}

impl Leg {
    pub open spec fn spec_words(self) -> Seq<char> {
        match self {
            Leg::BuildClient => "failed to build HTTP client: "@,
            Leg::Send => "GitHub request failed: "@,
            Leg::Decode => "GitHub response decode failed: "@,
            Leg::SendGraphql => "GitHub GraphQL request failed: "@,
            Leg::DecodeGraphql => "GitHub GraphQL decode failed: "@,
        }
    }

    /// The error of a failure at this stage.
    pub fn failed(self, words: &str) -> (out: DomainError)
        ensures
            out@ == ErrorView::Internal(self.spec_words() + words@),
    {
        let opening = match self {
            Leg::BuildClient => "failed to build HTTP client: ",
            Leg::Send => "GitHub request failed: ",
            Leg::Decode => "GitHub response decode failed: ",
            Leg::SendGraphql => "GitHub GraphQL request failed: ",
            Leg::DecodeGraphql => "GitHub GraphQL decode failed: ",
        };
        DomainError::Internal(joined(opening, words))
    }
}

} // verus!
