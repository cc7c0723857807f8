use github_mirror::endpoints::{
    page_rows, register_item_routes, register_repo_routes, register_routes, register_user_routes,
    window, Endpoint, EndpointQuery, PathNames, Window, API_TAG, DEFAULT_PER_PAGE, MAX_PER_PAGE,
    PAGE_DOC, PER_PAGE_DOC,
};
use github_mirror::config::default_scope;
use github_mirror::context::SecurityContext;
use github_mirror::service::access::{Action, Resource};
use github_mirror::service::queries::{ODataQuery, Selector, Service, ServiceConfig};

#[test]
fn every_endpoint_is_registered_once() {
    let routes = register_routes();
    assert_eq!(routes.len(), 29);
    for (i, one) in routes.iter().enumerate() {
        for other in &routes[i + 1..] {
            assert_ne!(one, other);
            assert_ne!(one.path(), other.path());
            assert_ne!(one.operation_id(), other.operation_id());
        }
    }
}

#[test]
fn user_routes_come_first() {
    assert_eq!(
        register_user_routes(),
        [Endpoint::GetAuthenticatedUser, Endpoint::ListUserRepos]
    );
    assert_eq!(register_routes()[..2], register_user_routes()[..]);
    assert!(register_item_routes().contains(&Endpoint::GetIssue));
}

#[test]
fn an_endpoint_is_described() {
    let issues = Endpoint::ListIssues;
    assert_eq!(issues.path(), "/repos/{owner}/{name}/issues");
    assert_eq!(issues.operation_id(), "github_mirror.list_issues");
    assert_eq!(issues.summary(), "List issues (GitHub-compatible)");
    let response = issues.response();
    assert!(response.array);
    assert_eq!(response.schema, "IssueDto");
    assert_eq!(response.description, "GitHub-shaped list of issues");
    assert_eq!(issues.query_params(), [("page", PAGE_DOC), ("per_page", PER_PAGE_DOC)]);
    assert_eq!(issues.path_params(), [("owner", "Repo owner login"), ("name", "Repo name")]);
    assert_eq!(issues.errors(), [400, 401, 403, 404, 500]);
}

#[test]
fn one_thing_is_not_paged() {
    assert!(Endpoint::GetCommit.query_params().is_empty());
    assert!(!Endpoint::GetCommit.response().array);
    assert_eq!(Endpoint::GetCommit.path_params()[2], ("sha", "Commit SHA"));
    assert!(Endpoint::GetAuthenticatedUser.path_params().is_empty());
    assert_eq!(Endpoint::GetAuthenticatedUser.errors(), [401, 403, 500]);
    assert_eq!(Endpoint::ListUserRepos.errors(), [400, 401, 403, 500]);
}

#[test]
fn the_second_page_holds_the_next_rows() {
    let rows = vec!["repo10", "repo11", "repo12", "repo13"];
    assert_eq!(page_rows(rows.clone(), window(Some(2), Some(2))), ["repo12", "repo13"]);
    assert_eq!(page_rows(rows.clone(), window(None, Some(3))), ["repo10", "repo11", "repo12"]);
    assert_eq!(page_rows(rows.clone(), window(Some(2), Some(3))), ["repo13"]);
    assert!(page_rows(rows.clone(), window(Some(3), Some(3))).is_empty());
    assert_eq!(page_rows(rows.clone(), window(None, None)), rows);
}

#[test]
fn pages_are_bounded() {
    assert_eq!(window(None, None), Window { skip: 0, take: DEFAULT_PER_PAGE });
    assert_eq!(window(Some(0), Some(0)), Window { skip: 0, take: 1 });
    assert_eq!(window(Some(3), Some(1000)), Window { skip: 200, take: MAX_PER_PAGE });
    assert_eq!(window(Some(u64::MAX), Some(100)), Window { skip: u64::MAX, take: 100 });
    assert!(page_rows(vec![1], window(Some(u64::MAX), Some(100))).is_empty());
}

#[test]
fn every_endpoint_answers_get_to_authenticated_callers() {
    for endpoint in register_routes() {
        assert_eq!((endpoint.method(), endpoint.authenticated()), ("GET", true));
        let operation = endpoint.operation();
        assert_eq!((operation.method, operation.authenticated), ("GET", true));
        assert_eq!((operation.path, operation.tag), (endpoint.path(), API_TAG));
        assert_eq!(operation.operation_id, endpoint.operation_id());
        assert_eq!(operation.errors, endpoint.errors());
    }
    assert_eq!(register_repo_routes().len(), 8);
}

#[test]
fn an_endpoint_asks_for_what_its_path_names() {
    let config = ServiceConfig { api_base_url: "https://x".to_owned(), scope: default_scope() };
    let service = Service::new(config);
    let ctx = SecurityContext { subject_id: 1, subject_tenant_id: 2 };
    let at = PathNames {
        owner: "acme".to_owned(),
        name: "widget".to_owned(),
        number: 12,
        sha: "abc".to_owned(),
        run_id: 9,
    };
    let query = ODataQuery { limit: Some(5) };
    let asked = |endpoint: Endpoint| endpoint.query(&service, &ctx, &at, &query);
    assert!(matches!(asked(Endpoint::GetAuthenticatedUser), EndpointQuery::Identity));
    assert!(matches!(asked(Endpoint::ListUserRepos), EndpointQuery::Repositories));
    assert!(matches!(asked(Endpoint::GetRepo), EndpointQuery::Repository(_)));
    match asked(Endpoint::GetCommit) {
        EndpointQuery::Row(plan) => {
            assert_eq!(plan.access.resource, Resource::Commit);
            assert!(matches!(plan.selector, Selector::OfCommit(ref sha) if sha == "abc"));
        }
        other => panic!("{other:?}"),
    }
    match asked(Endpoint::ListWorkflowJobs) {
        EndpointQuery::Rows(plan) => {
            assert_eq!(plan.access.resource, Resource::WorkflowJob);
            assert_eq!((plan.access.action, plan.limit), (Action::List, 5));
            assert_eq!(plan.full_name, "acme/widget");
            assert!(matches!(plan.selector, Selector::OfRun(9)));
        }
        other => panic!("{other:?}"),
    }
    for endpoint in register_item_routes() {
        assert!(!matches!(asked(endpoint), EndpointQuery::Rows(_)));
    }
}
