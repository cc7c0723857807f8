//! The gear's own OpenAPI document and the page that renders it.
//!
//! The gateway publishes one document for everything a host mounts. This
//! module publishes the one of a single gear, under [`DOCS_BASE_PATH`].
//!
//! Scoping is done by observation: [`TeeRegistry`] keeps a private copy of
//! every operation and schema that passes through it on the way to the host,
//! so that the copy holds what this gear registered and nothing else.

use crate::json;
use crate::text;
use crate::text::same;
use serde_json::Value;
use vstd::prelude::*;
use vstd::string::*;

verus! {

/// Path that both documentation routes live under.
pub const DOCS_BASE_PATH: &'static str = "/chat-engine/";

/// The API reference page.
///
/// `./openapi` is relative: the page is served beside the document, so the
/// browser resolves it under whatever prefix the gateway mounts the gear at.
pub const DOCS_PAGE: &'static str = r#"<!DOCTYPE html>
<html>
<head>
  <meta charset="utf-8"/>
  <title>Chat Engine API</title>
  <script src="https://unpkg.com/@stoplight/elements@latest/web-components.min.js"></script>
  <link rel="stylesheet" href="https://unpkg.com/@stoplight/elements@latest/styles.min.css">
</head>
<body>
  <elements-api apiDescriptionUrl="./openapi" router="hash" layout="sidebar"></elements-api>
</body>
</html>"#;

// ---------------------------------------------------------------------------
// Registry
// ---------------------------------------------------------------------------

/// An operation of the API.
#[derive(Debug, Clone)]
pub struct OperationSpec {
    pub method: String,
    pub path: String,
}

/// What one gear registered. Operations and schemas stand in the order of
/// their first registration; the first registration of a name wins.
#[derive(Debug)]
pub struct GearRegistry {
    pub operations: Vec<OperationSpec>,
    pub schemas: Vec<(String, Value)>,
}

/// The operation is among the registered ones.
pub open spec fn has_operation(
    operations: Seq<OperationSpec>,
    method: Seq<char>,
    path: Seq<char>,
) -> bool {
    exists|i: int|
        0 <= i < operations.len() && (#[trigger] operations[i]).method@ == method
            && operations[i].path@ == path
}

/// The operations with a further one; the first of a method and path wins.
pub open spec fn with_operation(
    operations: Seq<OperationSpec>,
    spec: OperationSpec,
) -> Seq<OperationSpec> {
    if has_operation(operations, spec.method@, spec.path@) {
        operations
    } else {
        operations.push(spec)
    }
}

/// A schema of that name is among the registered ones.
pub open spec fn has_schema(schemas: Seq<(String, Value)>, name: Seq<char>) -> bool {
    exists|i: int| 0 <= i < schemas.len() && (#[trigger] schemas[i]).0@ == name
}

/// The schemas with a list of further ones; the first of a name wins.
pub open spec fn with_schemas(
    schemas: Seq<(String, Value)>,
    further: Seq<(String, Value)>,
) -> Seq<(String, Value)>
    decreases further.len(),
{
    if further.len() == 0 {
        schemas
    } else {
        let before = with_schemas(schemas, further.drop_last());
        if has_schema(before, further.last().0@) {
            before
        } else {
            before.push(further.last())
        }
    }
}

impl GearRegistry {
    /// Nothing registered.
    pub fn new() -> (out: Self)
        ensures
            out.operations@.len() == 0,
            out.schemas@.len() == 0,
    {
        GearRegistry { operations: Vec::new(), schemas: Vec::new() }
    }

    fn holds_operation(&self, spec: &OperationSpec) -> (out: bool)
        ensures
            out == has_operation(self.operations@, spec.method@, spec.path@),
    {
        let mut i: usize = 0;
        while i < self.operations.len()
            invariant
                i <= self.operations@.len(),
                forall|j: int|
                    0 <= j < i ==> !((#[trigger] self.operations@[j]).method@ == spec.method@
                        && self.operations@[j].path@ == spec.path@),
            decreases self.operations@.len() - i,
        {
            if same(self.operations[i].method.as_str(), spec.method.as_str()) && same(
                self.operations[i].path.as_str(),
                spec.path.as_str(),
            ) {
                return true;
            }
            i = i + 1;
        }
        false
    }

    fn holds_schema(&self, name: &str) -> (out: bool)
        ensures
            out == has_schema(self.schemas@, name@),
    {
        let mut i: usize = 0;
        while i < self.schemas.len()
            invariant
                i <= self.schemas@.len(),
                forall|j: int| 0 <= j < i ==> (#[trigger] self.schemas@[j]).0@ != name@,
            decreases self.schemas@.len() - i,
        {
            if same(self.schemas[i].0.as_str(), name) {
                return true;
            }
            i = i + 1;
        }
        false
    }
}

/// Registry decorator that records what passes through it.
///
/// Each call hands back what is to be forwarded to the host's registry, which
/// owns duplicate detection and answers for the name of a schema.
#[derive(Debug)]
pub struct TeeRegistry {
    gear: GearRegistry,
}

impl TeeRegistry {
    /// What was registered through this decorator.
    pub closed spec fn recorded(&self) -> GearRegistry {
        self.gear
    }

    /// A decorator that nothing has passed through.
    pub fn new() -> (out: Self)
        ensures
            out.recorded().operations@.len() == 0,
            out.recorded().schemas@.len() == 0,
    {
        TeeRegistry { gear: GearRegistry::new() }
    }

    /// What was registered through this decorator.
    pub fn gear_registry(&self) -> (out: &GearRegistry)
        ensures
            *out == self.recorded(),
    {
        &self.gear
    }

    /// Records an operation; the operation to forward.
    pub fn register_operation(&mut self, spec: OperationSpec) -> (out: OperationSpec)
        ensures
            out.method@ == spec.method@,
            out.path@ == spec.path@,
            final(self).recorded().schemas == old(self).recorded().schemas,
            final(self).recorded().operations@ == with_operation(
                old(self).recorded().operations@,
                spec,
            ),
    {
        let forwarded = OperationSpec { method: spec.method.clone(), path: spec.path.clone() };
        if !self.gear.holds_operation(&spec) {
            self.gear.operations.push(spec);
        }
        forwarded
    }

    /// Records the schemas a type brings along; the name and the schemas to
    /// forward. The host's registry answers with the name that it keeps.
    pub fn ensure_schema_raw(&mut self, root_name: &str, schemas: Vec<(String, Value)>) -> (out: (
        String,
        Vec<(String, Value)>,
    ))
        ensures
            out.0@ == root_name@,
            out.1 == schemas,
            final(self).recorded().operations == old(self).recorded().operations,
            final(self).recorded().schemas@ == with_schemas(
                old(self).recorded().schemas@,
                schemas@,
            ),
    {
        let ghost before = self.gear.schemas@;
        let ghost operations = self.gear.operations;
        let mut i: usize = 0;
        while i < schemas.len()
            invariant
                i <= schemas@.len(),
                self.gear.operations == operations,
                self.gear.schemas@ == with_schemas(before, schemas@.take(i as int)),
            decreases schemas@.len() - i,
        {
            assert(schemas@.take(i + 1).drop_last() =~= schemas@.take(i as int));
            if !self.gear.holds_schema(schemas[i].0.as_str()) {
                let entry = (schemas[i].0.clone(), json::copy(&schemas[i].1));
                self.gear.schemas.push(entry);
            }
            i = i + 1;
        }
        assert(schemas@.take(i as int) =~= schemas@);
        (root_name.to_owned(), schemas)
    }
}

// ---------------------------------------------------------------------------
// Document
// ---------------------------------------------------------------------------

/// Title, version and description of a document.
#[derive(Debug, Clone)]
pub struct OpenApiInfo {
    pub title: String,
    pub version: String,
    pub description: String,
}

/// The head of the gear's document. It names no server: the mount prefix is
/// configuration of the gateway.
pub fn document_info(version: &str) -> (out: OpenApiInfo)
    ensures
        out.title@ == "Chat Engine API"@,
        out.version@ == version@,
        out.description@
            == "REST surface of the Chat Engine gear: session types, session lifecycle, messages and SSE streaming, variants, reactions, search, session intelligence, export and sharing."@,
{
    OpenApiInfo {
        title: "Chat Engine API".to_owned(),
        version: version.to_owned(),
        description:
            "REST surface of the Chat Engine gear: session types, session lifecycle, messages and SSE streaming, variants, reactions, search, session intelligence, export and sharing.".to_owned(),
    }
}

/// The gateway's mount prefix in a request path: what precedes the last
/// [`DOCS_BASE_PATH`] in it, nothing when it is not there.
pub open spec fn prefix_in(path: Seq<char>) -> Seq<char> {
    if text::contains_text(path, DOCS_BASE_PATH@) {
        path.take(choose|at: int| text::last_occurrence(path, DOCS_BASE_PATH@, at))
    } else {
        Seq::empty()
    }
}

/// Splits the gateway's mount prefix off a request path.
///
/// `/cf/chat-engine/openapi` gives `/cf`; `/chat-engine/docs` gives nothing.
pub fn mount_prefix(request_path: &str) -> (out: &str)
    ensures
        out@ == prefix_in(request_path@),
{
    proof {
        reveal_strlit("");
    }
    match text::rfind(request_path, DOCS_BASE_PATH) {
        Some(index) => {
            let ghost at = choose|at: int|
                text::last_occurrence(request_path@, DOCS_BASE_PATH@, at);
            assert(text::last_occurrence(request_path@, DOCS_BASE_PATH@, index as int));
            assert(at == index);
            let prefix = request_path.substring_char(0, index);
            assert(prefix@ =~= request_path@.take(index as int));
            prefix
        },
        None => {
            assert(""@ =~= Seq::<char>::empty());
            ""
        },
    }
}

/// Whatever mounts the gear's path, the prefix in front of it is found, as
/// long as the path does not occur again further on.
pub proof fn prefix_is_what_precedes_the_base_path(prefix: Seq<char>, rest: Seq<char>)
    requires
        forall|at: int|
            #[trigger] text::occurs_at(prefix + DOCS_BASE_PATH@ + rest, DOCS_BASE_PATH@, at) ==> at
                <= prefix.len(),
    ensures
        prefix_in(prefix + DOCS_BASE_PATH@ + rest) == prefix,
{
    let path = prefix + DOCS_BASE_PATH@ + rest;
    let start = prefix.len() as int;
    assert(path.subrange(start, start + DOCS_BASE_PATH@.len()) =~= DOCS_BASE_PATH@);
    assert(text::occurs_at(path, DOCS_BASE_PATH@, start));
    assert(text::last_occurrence(path, DOCS_BASE_PATH@, start));
    let at = choose|at: int| text::last_occurrence(path, DOCS_BASE_PATH@, at);
    assert(at == start);
    assert(path.take(start) =~= prefix);
}

/// A document with its one server entry; unchanged when the prefix is empty,
/// or when the document is no JSON object.
pub open spec fn with_server(document: Value, prefix: Seq<char>) -> Value {
    if prefix.len() > 0 && json::json_object(document) is Some {
        json::json_with_member(
            document,
            "servers"@,
            json::json_of_item(json::json_of_member("url"@, json::json_of_string(prefix))),
        )
    } else {
        document
    }
}

/// The text of a document; an empty object where it cannot be written.
pub open spec fn text_or_empty_object(text: Option<Seq<char>>) -> Seq<char> {
    match text {
        Some(text) => text,
        None => "{}"@,
    }
}

/// The text written, or an empty object when writing failed.
pub fn or_empty_object(written: Option<String>) -> (out: String)
    ensures
        out@ == text_or_empty_object(json::text_of(written)),
{
    match written {
        Some(text) => text,
        None => "{}".to_owned(),
    }
}

/// A document with its one server entry.
pub fn insert_server(document: &Value, prefix: &str) -> (out: Value)
    ensures
        out == with_server(*document, prefix@),
        prefix@.len() > 0 && json::json_object(*document) is Some ==> json::json_object(out) == Some(
            json::json_object(*document)->0.insert(
                "servers"@,
                json::json_of_item(json::json_of_member("url"@, json::json_of_string(prefix@))),
            ),
        ),
{
    let mut out = json::copy(document);
    if prefix.unicode_len() > 0 && json::is_object(&out) {
        let server = json::of_member("url", json::of_string(prefix));
        json::insert(&mut out, "servers", json::of_item(server));
    }
    out
}

/// The gear's own document, built once and served as text.
#[derive(Debug)]
pub struct GearOpenApiDoc {
    /// The document without a server entry. None means that building it
    /// failed, or has not happened.
    pub document: Option<Value>,
    /// The text of the document with its server entry. The prefix is fixed for
    /// the lifetime of the process, so the first request settles it.
    pub rendered: Option<String>,
}

impl Default for GearOpenApiDoc {
    fn default() -> (out: Self)
        ensures
            out.document is None,
            out.rendered is None,
    {
        GearOpenApiDoc { document: None, rendered: None }
    }
}

impl GearOpenApiDoc {
    /// Takes the document over, unless there is one already, or building it
    /// failed.
    pub fn build<E>(&mut self, built: Result<Value, E>)
        ensures
            final(self).rendered == old(self).rendered,
            final(self).document == if old(self).document is None && built is Ok {
                Some(built->Ok_0)
            } else {
                old(self).document
            },
    {
        match built {
            Ok(document) => {
                if self.document.is_none() {
                    self.document = Some(document);
                }
            },
            Err(_) => {},
        }
    }

    /// The text of the document for a request that arrived at `request_path`,
    /// the full path as the client sent it. What precedes [`DOCS_BASE_PATH`]
    /// in it becomes the document's single server entry.
    ///
    /// `None` when there is no document.
    pub fn render(&mut self, request_path: &str) -> (out: Option<String>)
        ensures
            final(self).document == old(self).document,
            out is Some <==> old(self).document is Some,
            old(self).document is None || old(self).rendered is Some ==> final(self).rendered
                == old(self).rendered,
            old(self).document is Some && old(self).rendered is None ==> final(self).rendered is Some
                && final(self).rendered->0@ == text_or_empty_object(
                json::json_pretty(with_server(old(self).document->0, prefix_in(request_path@))),
            ),
            out is Some ==> final(self).rendered is Some && out->0@ == final(self).rendered->0@,
    {
        let document = match &self.document {
            Some(document) => document,
            None => return None,
        };
        if self.rendered.is_none() {
            let served = insert_server(document, mount_prefix(request_path));
            self.rendered = Some(or_empty_object(json::pretty(&served)));
        }
        match &self.rendered {
            Some(text) => Some(text.clone()),
            None => None,
        }
    }
}

} // verus!
