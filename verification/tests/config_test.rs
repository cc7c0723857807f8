use github_mirror::config::{checked_base_url, Compression, GithubMirrorConfig};
use github_mirror::error::DomainError;
use github_mirror::scope::CollectionMode;

fn with_token(token: &str) -> GithubMirrorConfig {
    GithubMirrorConfig { github_token: Some(token.to_owned()), ..GithubMirrorConfig::default() }
}

fn with_base(url: &str) -> GithubMirrorConfig {
    GithubMirrorConfig { api_base_url: url.to_owned(), ..GithubMirrorConfig::default() }
}

#[test]
fn default_points_at_public_github_api() {
    let cfg = GithubMirrorConfig::default();
    assert_eq!(cfg.api_base_url, "https://api.github.com");
}

#[test]
fn defaults_are_the_shipped_ones() {
    let cfg = GithubMirrorConfig::default();
    assert_eq!(cfg.max_concurrent_syncs, 4);
    assert_eq!(cfg.max_concurrent_requests, 8);
    assert_eq!(cfg.cache_compression, "gzip");
    assert_eq!(cfg.scope.collection.timeline, CollectionMode::Open);
    assert_eq!(cfg.resolved_compression().unwrap(), Compression::Gzip);
}

#[test]
fn a_literal_token_is_returned_as_is() {
    let cfg = with_token("ghp_literal");
    let expanded: Result<String, String> = Ok("ghp_literal".to_owned());
    assert_eq!(cfg.resolved_token(expanded).unwrap().as_deref(), Some("ghp_literal"));
}

#[test]
fn no_token_stays_none() {
    let cfg = GithubMirrorConfig::default();
    let expanded: Result<String, String> = Ok("ignored".to_owned());
    assert_eq!(cfg.resolved_token(expanded).unwrap(), None);
}

#[test]
fn a_variable_reference_falls_back_to_its_default() {
    let cfg = with_token("${GH_MIRROR_UNSET_TOKEN:-ghp_from_default}");
    let expanded: Result<String, String> = Ok("ghp_from_default".to_owned());
    assert_eq!(
        cfg.resolved_token(expanded).unwrap().as_deref(),
        Some("ghp_from_default"),
        "the config must read the variable, not the literal text"
    );
}

#[test]
fn an_unset_variable_with_an_empty_default_means_no_token() {
    let cfg = with_token("${GH_MIRROR_UNSET_TOKEN:-}");
    let expanded: Result<String, String> = Ok(String::new());
    assert_eq!(
        cfg.resolved_token(expanded).unwrap(),
        None,
        "an empty expansion must sync unauthenticated, not send an empty header"
    );
}

#[test]
fn an_unset_variable_without_a_default_fails_loudly() {
    let cfg = with_token("${GH_MIRROR_MISSING_TOKEN}");
    let expanded: Result<String, String> = Err("GH_MIRROR_MISSING_TOKEN is not set".to_owned());
    assert!(
        cfg.resolved_token(expanded).is_err(),
        "a typo in the variable name must not silently drop the token"
    );
}

#[test]
fn a_valid_base_url_passes_validation() {
    let cfg = GithubMirrorConfig::default();
    assert_eq!(cfg.resolved_api_base_url().unwrap(), "https://api.github.com");
    assert_eq!(with_base("http://127.0.0.1:8080").resolved_api_base_url().unwrap(), "http://127.0.0.1:8080");
}

#[test]
fn a_base_url_that_is_not_a_url_fails_validation() {
    let cfg = with_base("not a url at all");
    let err = cfg.resolved_api_base_url().unwrap_err();
    assert!(
        matches!(err, DomainError::Validation { ref field, .. } if field == "api_base_url"),
        "expected a Validation error on api_base_url, got {err:?}"
    );
    match err {
        DomainError::Validation { message, .. } => assert_eq!(
            message,
            "`not a url at all` is not a valid URL: relative URL without a base"
        ),
        other => panic!("{other:?}"),
    }
}

#[test]
fn a_non_http_base_url_scheme_fails_validation() {
    let cfg = with_base("ftp://api.github.com");
    let err = cfg.resolved_api_base_url().unwrap_err();
    assert!(
        matches!(err, DomainError::Validation { ref message, .. } if message.contains("http")),
        "expected the error to name the allowed schemes, got {err:?}"
    );
    match err {
        DomainError::Validation { message, .. } => assert_eq!(
            message,
            "`ftp://api.github.com` must use http or https, not `ftp`"
        ),
        other => panic!("{other:?}"),
    }
}

#[test]
fn a_parsed_base_url_is_judged_by_its_scheme() {
    assert_eq!(checked_base_url("x", Ok("https".to_owned())).unwrap(), "x");
    assert!(checked_base_url("x", Ok("HTTPS".to_owned())).is_err());
    assert!(checked_base_url("x", Err("why".to_owned())).is_err());
}

#[test]
fn compression_modes_are_read_by_name() {
    assert_eq!(Compression::parse("none").unwrap(), Compression::Off);
    assert_eq!(Compression::parse("gzip").unwrap(), Compression::Gzip);
    assert_eq!(Compression::parse("zstd").unwrap(), Compression::Zstd);
    let err = Compression::parse("brotli").unwrap_err();
    assert!(matches!(err, DomainError::Validation { ref field, .. } if field == "cache_compression"));
}

#[test]
fn no_sync_worker_is_read_as_one() {
    let cfg = GithubMirrorConfig { max_concurrent_syncs: 0, ..GithubMirrorConfig::default() };
    assert_eq!(cfg.sync_workers(), 1);
    assert_eq!(GithubMirrorConfig::default().sync_workers(), 4);
}
