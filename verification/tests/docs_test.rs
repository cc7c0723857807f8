use github_mirror::chat_engine::docs::{
    mount_prefix, GearOpenApiDoc, OperationSpec, TeeRegistry, DOCS_PAGE,
};
use serde_json::Value;

fn object(members: Vec<(&str, Value)>) -> Value {
    let mut out = serde_json::Map::new();
    for (key, member) in members {
        out.insert(key.to_owned(), member);
    }
    Value::Object(out)
}

fn text(value: &str) -> Value {
    Value::String(value.to_owned())
}

/// Minimal document with one path, enough to exercise `render`.
fn document() -> Value {
    object(vec![
        ("openapi", text("3.1.0")),
        (
            "paths",
            object(vec![(
                "/chat-engine/v1/sessions",
                object(vec![("post", object(vec![("responses", object(vec![]))]))]),
            )]),
        ),
    ])
}

fn built_doc() -> GearOpenApiDoc {
    let mut doc = GearOpenApiDoc::default();
    doc.build::<String>(Ok(document()));
    doc
}

fn spec(path: &str) -> OperationSpec {
    OperationSpec { method: "GET".to_owned(), path: path.to_owned() }
}

#[test]
fn tee_forwards_operations_to_the_host() {
    let mut tee = TeeRegistry::new();
    let forwarded = tee.register_operation(spec("/chat-engine/v1/sessions"));
    assert_eq!(
        [format!("{}:{}", forwarded.method, forwarded.path)],
        ["GET:/chat-engine/v1/sessions"]
    );
}

#[test]
fn tee_keeps_a_private_copy_of_what_passed_through() {
    let mut tee = TeeRegistry::new();
    tee.register_operation(spec("/chat-engine/v1/sessions"));
    tee.register_operation(spec("/chat-engine/v1/messages/{id}"));

    let recorded: Vec<String> =
        tee.gear_registry().operations.iter().map(|entry| entry.path.clone()).collect();

    assert_eq!(recorded.len(), 2);
    assert!(recorded.contains(&"/chat-engine/v1/sessions".to_owned()));
    assert!(recorded.contains(&"/chat-engine/v1/messages/{id}".to_owned()));
}

#[test]
fn tee_private_copy_excludes_what_other_gears_registered() {
    let mut elsewhere = TeeRegistry::new();
    elsewhere.register_operation(spec("/credstore/v1/secrets"));

    let mut tee = TeeRegistry::new();
    tee.register_operation(spec("/chat-engine/v1/sessions"));

    let recorded: Vec<String> =
        tee.gear_registry().operations.iter().map(|entry| entry.path.clone()).collect();
    assert_eq!(recorded, ["/chat-engine/v1/sessions"]);
}

#[test]
fn tee_records_an_operation_once() {
    let mut tee = TeeRegistry::new();
    tee.register_operation(spec("/chat-engine/v1/sessions"));
    tee.register_operation(spec("/chat-engine/v1/sessions"));
    assert_eq!(tee.gear_registry().operations.len(), 1);
}

/// Host registry stand-in that records what is forwarded to it.
struct RecordingHost {
    schemas: Vec<String>,
}

impl RecordingHost {
    fn ensure_schema_raw(&mut self, root_name: String, _schemas: Vec<(String, Value)>) -> String {
        self.schemas.push(root_name.clone());
        root_name
    }
}

#[test]
fn tee_forwards_schemas_to_the_host_and_returns_its_name() {
    let mut host = RecordingHost { schemas: Vec::new() };
    let mut tee = TeeRegistry::new();

    let (root_name, schemas) = tee.ensure_schema_raw("SessionDto", Vec::new());
    let name = host.ensure_schema_raw(root_name, schemas);

    assert_eq!(name, "SessionDto");
    assert_eq!(host.schemas, ["SessionDto"]);
}

#[test]
fn tee_records_schemas_the_first_of_a_name() {
    let mut tee = TeeRegistry::new();
    let first = vec![
        ("SessionDto".to_owned(), text("first")),
        ("UserDto".to_owned(), text("user")),
        ("SessionDto".to_owned(), text("second")),
    ];
    let (_, forwarded) = tee.ensure_schema_raw("SessionDto", first.clone());
    assert_eq!(forwarded, first);
    tee.ensure_schema_raw("UserDto", vec![("UserDto".to_owned(), text("again"))]);
    let schemas = &tee.gear_registry().schemas;
    assert_eq!(schemas.len(), 2);
    assert_eq!(schemas[0], ("SessionDto".to_owned(), text("first")));
    assert_eq!(schemas[1], ("UserDto".to_owned(), text("user")));
}

#[test]
fn mount_prefix_is_whatever_precedes_the_gear_base_path() {
    assert_eq!(mount_prefix("/cf/chat-engine/v1/openapi"), "/cf");
    assert_eq!(mount_prefix("/chat-engine/v1/openapi"), "");
    assert_eq!(mount_prefix("/a/b/chat-engine/v1/docs"), "/a/b");
}

#[test]
fn mount_prefix_falls_back_to_empty_for_unexpected_paths() {
    assert_eq!(mount_prefix("/somewhere/else"), "");
}

#[test]
fn mount_prefix_takes_the_last_base_path() {
    assert_eq!(mount_prefix("/chat-engine/x/chat-engine/docs"), "/chat-engine/x");
    assert_eq!(mount_prefix("/chat-engine"), "");
    assert_eq!(mount_prefix(""), "");
}

#[test]
fn render_reports_unavailable_until_built() {
    let mut doc = GearOpenApiDoc::default();

    assert!(doc.render("/cf/chat-engine/v1/openapi").is_none());
}

#[test]
fn render_injects_the_mount_prefix_as_the_server() {
    let mut doc = built_doc();

    let rendered = doc.render("/cf/chat-engine/v1/openapi").expect("rendered");
    let parsed: Value = serde_json::from_str(&rendered).expect("valid JSON");

    assert_eq!(parsed["servers"], Value::Array(vec![object(vec![("url", text("/cf"))])]));
}

#[test]
fn render_omits_servers_when_mounted_at_the_root() {
    let mut doc = built_doc();

    let rendered = doc.render("/chat-engine/v1/openapi").expect("rendered");
    let parsed: Value = serde_json::from_str(&rendered).expect("valid JSON");

    assert!(parsed.get("servers").is_none());
}

#[test]
fn the_first_request_settles_the_server() {
    let mut doc = built_doc();
    let first = doc.render("/cf/chat-engine/v1/openapi");
    let second = doc.render("/other/chat-engine/v1/openapi");
    assert!(first.is_some());
    assert_eq!(first, second);
}

#[test]
fn building_twice_keeps_the_first_document() {
    let mut doc = built_doc();
    doc.build::<String>(Ok(Value::Null));
    assert_eq!(doc.document, Some(document()));
}

#[test]
fn a_failed_build_leaves_no_document() {
    let mut doc = GearOpenApiDoc::default();
    doc.build::<String>(Err("no".to_owned()));
    assert!(doc.document.is_none());
}

#[test]
fn a_document_that_is_no_object_gets_no_server() {
    let mut doc = GearOpenApiDoc::default();
    doc.build::<String>(Ok(Value::Array(vec![text("a")])));
    let rendered = doc.render("/cf/chat-engine/v1/openapi").expect("rendered");
    assert_eq!(rendered, "[\n  \"a\"\n]");
}

#[test]
fn docs_page_points_at_the_sibling_document() {
    // Relative, so the page works under any gateway `prefix_path`.
    assert!(DOCS_PAGE.contains(r#"apiDescriptionUrl="./openapi""#));
}
