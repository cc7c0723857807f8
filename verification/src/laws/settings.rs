//! How the mirror is configured, measured, guarded and documented.

use crate::chat_engine::docs;
use crate::chat_engine::docs::OperationSpec;
use crate::chat_engine::owner_guard;
use crate::config;
use crate::config::Compression;
use crate::context::SecurityContext;
use crate::json;
use crate::metrics;
use crate::metrics::Outcome;
use crate::rate_limit::headers::RateLimitHeaders;
use crate::scope::{CollectionMode, ScopeConfig};
use crate::text;
use serde_json::Value;
use vstd::prelude::*;
use vstd::string::*;

verus! {

// ---------------------------------------------------------------------------
// Configuration
// ---------------------------------------------------------------------------

/// Bodies are kept as they are, or compressed by gzip or zstd; there is no other
/// way.
pub proof fn compression_is_one_of_three(name: Seq<char>)
    ensures
        config::compression_named("none"@) == Some(Compression::Off),
        config::compression_named("gzip"@) == Some(Compression::Gzip),
        config::compression_named("zstd"@) == Some(Compression::Zstd),
        name != "none"@ && name != "gzip"@ && name != "zstd"@ ==> config::compression_named(name)
            is None,
{
    reveal_strlit("none");
    reveal_strlit("gzip");
    reveal_strlit("zstd");
    assert("none"@[0] == 'n');
    assert("gzip"@[0] == 'g');
    assert("zstd"@[0] == 'z');
}

/// Unless configured otherwise a sync collects every object, and the reactions,
/// timelines and actions of open ones.
pub proof fn shipped_scope_adds_open_timelines()
    ensures
        ({
            let scope = config::shipped_scope();
            &&& scope.objects.pull_requests
            &&& scope.objects.issues
            &&& scope.objects.commits
            &&& scope.objects.labels
            &&& scope.objects.milestones
            &&& scope.objects.releases
            &&& scope.objects.branches
            &&& scope.objects.github_actions
            &&& scope.collection.reactions == CollectionMode::Open
            &&& scope.collection.timeline == CollectionMode::Open
            &&& scope.collection.actions == CollectionMode::Open
            &&& scope.objects == ScopeConfig::basic().objects
        }),
{
}

/// A base URL that does not parse is refused with the reason; one that does is
/// refused unless its scheme is http or https.
pub proof fn base_url_is_http_or_https(base: Seq<char>, scheme: Seq<char>, reason: Seq<char>)
    ensures
        config::base_url_fault(base, Err(reason)) == Some(
            "`"@ + base + "` is not a valid URL: "@ + reason,
        ),
        config::base_url_fault(base, Ok("http"@)) is None,
        config::base_url_fault(base, Ok("https"@)) is None,
        scheme != "http"@ && scheme != "https"@ ==> config::base_url_fault(base, Ok(scheme))
            == Some("`"@ + base + "` must use http or https, not `"@ + scheme + "`"@),
{
}

/// A result shows the text it holds.
pub proof fn results_show_their_texts(shown: String)
    ensures
        config::texts_of(Ok(shown)) == Ok::<_, Seq<char>>(shown@),
        config::texts_of(Err(shown)) == Err::<Seq<char>, _>(shown@),
{
}

// ---------------------------------------------------------------------------
// Metrics
// ---------------------------------------------------------------------------

/// The metrics and the outcomes they count are called this.
pub proof fn metrics_are_named_in_these_words()
    ensures
        Outcome::Fresh.spec_name() == "fresh"@,
        Outcome::NotModified.spec_name() == "not_modified"@,
        Outcome::RateLimited.spec_name() == "rate_limited"@,
        Outcome::Failed.spec_name() == "failed"@,
        metrics::METER_NAME@ == "github-mirror"@,
        metrics::REQUESTS@ == "github_mirror_github_requests_total"@,
        metrics::REQUEST_DURATION@ == "github_mirror_github_request_duration_seconds"@,
        metrics::RESPONSE_BYTES@ == "github_mirror_github_response_bytes_total"@,
        metrics::RATE_LIMIT_REMAINING@ == "github_mirror_github_rate_limit_remaining"@,
{
}

/// What is left is reported for the pool that the headers name, or the core one.
pub proof fn quota_is_reported_for_its_pool(seen: RateLimitHeaders)
    ensures
        seen.resource is Some ==> metrics::pool_of(seen) == seen.resource->0@,
        seen.resource is None ==> metrics::pool_of(seen) == "core"@,
{
}

// ---------------------------------------------------------------------------
// Sessions of the chat engine
// ---------------------------------------------------------------------------

/// A session belongs to the user and the tenant it was stored for, and to nobody
/// where either cannot be read.
pub proof fn session_belongs_to_its_user_and_tenant(
    ctx: SecurityContext,
    user: u128,
    tenant: u128,
)
    ensures
        owner_guard::owns(ctx, Some(user), Some(tenant)) <==> user == ctx.subject_id && tenant
            == ctx.subject_tenant_id,
        !owner_guard::owns(ctx, None, Some(tenant)),
        !owner_guard::owns(ctx, Some(user), None),
        !owner_guard::owns(ctx, None, None),
{
}

// ---------------------------------------------------------------------------
// Documents
// ---------------------------------------------------------------------------

/// An operation is recorded behind the others, unless one of its method and path
/// is there already.
pub proof fn first_operation_of_a_path_is_recorded(
    operations: Seq<OperationSpec>,
    one: OperationSpec,
    i: int,
)
    ensures
        (forall|k: int|
            0 <= k < operations.len() ==> (#[trigger] operations[k]).method@ != one.method@
                || operations[k].path@ != one.path@) ==> docs::with_operation(operations, one)
            == operations.push(one),
        0 <= i < operations.len() && operations[i].method@ == one.method@ && operations[i].path@
            == one.path@ ==> docs::with_operation(operations, one) == operations,
{
}

/// A schema is recorded behind the others, unless one of its name is there
/// already; a list of schemas is recorded from its first to its last.
pub proof fn first_schema_of_a_name_is_recorded(
    schemas: Seq<(String, Value)>,
    further: Seq<(String, Value)>,
    one: (String, Value),
    i: int,
)
    ensures
        docs::with_schemas(schemas, Seq::empty()) == schemas,
        ({
            let before = docs::with_schemas(schemas, further);
            &&& (forall|k: int|
                0 <= k < before.len() ==> (#[trigger] before[k]).0@ != one.0@)
                ==> docs::with_schemas(schemas, further.push(one)) == before.push(one)
            &&& 0 <= i < before.len() && before[i].0@ == one.0@ ==> docs::with_schemas(
                schemas,
                further.push(one),
            ) == before
        }),
{
    assert(further.push(one).drop_last() =~= further);
}

/// The prefix in front of the documentation's path is what precedes its last
/// place; a path without it has none.
pub proof fn prefix_precedes_the_documentation(path: Seq<char>, at: int)
    ensures
        text::last_occurrence(path, "/chat-engine/"@, at) ==> docs::prefix_in(path) == path.take(
            at,
        ),
        !text::contains_text(path, "/chat-engine/"@) ==> docs::prefix_in(path).len() == 0,
        docs::DOCS_BASE_PATH@ == "/chat-engine/"@,
{
    if text::last_occurrence(path, "/chat-engine/"@, at) {
        assert(text::occurs_at(path, "/chat-engine/"@, at));
        let chosen = choose|place: int| text::last_occurrence(path, "/chat-engine/"@, place);
        assert(text::last_occurrence(path, "/chat-engine/"@, chosen));
        assert(text::occurs_at(path, "/chat-engine/"@, chosen));
        assert(chosen == at);
    }
}

/// A document that is an object names one server, at the prefix, where there is
/// one; any other document is served as it is.
pub proof fn document_names_its_server(document: Value, prefix: Seq<char>)
    ensures
        prefix.len() == 0 ==> docs::with_server(document, prefix) == document,
        json::json_object(document) is None ==> docs::with_server(document, prefix) == document,
        prefix.len() > 0 && json::json_object(document) is Some ==> docs::with_server(
            document,
            prefix,
        ) == json::json_with_member(
            document,
            "servers"@,
            json::json_of_item(json::json_of_member("url"@, json::json_of_string(prefix))),
        ),
{
}

/// A document that cannot be written is served as an empty object.
pub proof fn unwritten_document_is_an_empty_object(written: Seq<char>)
    ensures
        docs::text_or_empty_object(Some(written)) == written,
        docs::text_or_empty_object(None) == "{}"@,
{
}

} // verus!
