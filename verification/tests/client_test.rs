use github_mirror::client::{authorization, graphql_body, graphql_url, ACCEPTED};

#[test]
fn github_com_serves_graphql_beside_its_rest_root() {
    assert_eq!(graphql_url("https://api.github.com"), "https://api.github.com/graphql");
    assert_eq!(graphql_url("https://api.github.com/"), "https://api.github.com/graphql");
}

#[test]
fn an_enterprise_server_serves_graphql_under_api_not_under_v3() {
    assert_eq!(graphql_url("https://ghe.local/api/v3"), "https://ghe.local/api/graphql");
    assert_eq!(graphql_url("https://ghe.local/api/v3/"), "https://ghe.local/api/graphql");
}

#[test]
fn any_other_base_keeps_graphql_under_it() {
    assert_eq!(graphql_url("http://127.0.0.1:8080"), "http://127.0.0.1:8080/graphql");
}

#[test]
fn a_token_is_sent_as_a_bearer_and_no_token_is_not_sent() {
    assert_eq!(authorization(Some("t0k3n")).as_deref(), Some("Bearer t0k3n"));
    assert_eq!(authorization(Some("")).as_deref(), Some("Bearer "));
    assert_eq!(authorization(None), None);
    assert_eq!(ACCEPTED, "application/vnd.github+json");
}

#[test]
fn a_graphql_query_is_sent_under_its_name() {
    assert_eq!(graphql_body("{ a }").to_string(), r#"{"query":"{ a }"}"#);
}
