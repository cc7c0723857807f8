//! Configuration of the mirror.

use crate::error::{DomainError, ErrorView};
use crate::scope::{CollectionMode, CollectionScope, ScopeConfig};
use crate::text::{joined, same};
use vstd::prelude::*;
use vstd::string::*;

verus! {

/// How the text of a URL parses: the scheme of the URL it is, or the words
/// that say why it is none.
pub uninterp spec fn url_scheme(text: Seq<char>) -> Result<Seq<char>, Seq<char>>;

/// A result with its texts as character sequences.
pub open spec fn texts_of(result: Result<String, String>) -> Result<Seq<char>, Seq<char>> {
    match result {
        Ok(text) => Ok(text@),
        Err(text) => Err(text@),
    }
}

/// `url::Url::parse`: the scheme of the parsed URL, or the text of the parse
/// error.
#[verifier::external_body]
fn parse_url(text: &str) -> (out: Result<String, String>)
    ensures
        texts_of(out) == url_scheme(text@),
{
    match url::Url::parse(text) {
        Ok(parsed) => Ok(parsed.scheme().to_owned()),
        Err(error) => Err(error.to_string()),
    }
}

/// How cached response bodies are stored.
#[derive(Debug, Clone, Copy, PartialEq, Eq, Structural)]
pub enum Compression {
    Off,
    Gzip,
    Zstd,
}

/// The mode a name stands for.
pub open spec fn compression_named(name: Seq<char>) -> Option<Compression> {
    if name == "none"@ {
        Some(Compression::Off)
    } else if name == "gzip"@ {
        Some(Compression::Gzip)
    } else if name == "zstd"@ {
        Some(Compression::Zstd)
    } else {
        None
    }
}

impl Compression {
    /// The mode a name stands for; a name that stands for none is refused.
    pub fn parse(name: &str) -> (out: Result<Self, DomainError>)
        ensures
            match out {
                Ok(mode) => compression_named(name@) == Some(mode),
                Err(error) => compression_named(name@) is None && error@
                    == (ErrorView::Validation {
                    field: "cache_compression"@,
                    message: "`"@ + name@ + "` is not one of none, gzip, zstd"@,
                }),
            },
    {
        if same(name, "none") {
            Ok(Compression::Off)
        } else if same(name, "gzip") {
            Ok(Compression::Gzip)
        } else if same(name, "zstd") {
            Ok(Compression::Zstd)
        } else {
            Err(
                DomainError::Validation {
                    field: "cache_compression".to_owned(),
                    message: joined(joined("`", name).as_str(), "` is not one of none, gzip, zstd"),
                },
            )
        }
    }
}

/// Configuration of the mirror.
#[derive(Debug, Clone)]
pub struct GithubMirrorConfig {
    pub api_base_url: String,
    /// Token used by sync, as configured: it may refer to the environment.
    /// Requests without a token work for public repositories at a much lower
    /// rate limit. See [`GithubMirrorConfig::resolved_token`].
    pub github_token: Option<String>,
    /// What a sync collects when the request does not say.
    pub scope: ScopeConfig,
    /// How cached response bodies are stored: `none`, `gzip` or `zstd`.
    pub cache_compression: String,
    /// How many repositories are synced at the same time. Zero is read as one:
    /// a queue with no worker would accept syncs and never run them.
    pub max_concurrent_syncs: usize,
    /// Ceiling on requests in flight across every running sync.
    pub max_concurrent_requests: usize,
}

/// Repositories synced at once when the configuration says nothing.
pub fn default_max_concurrent_syncs() -> (out: usize)
    ensures
        out == 4,
{
    4
}

/// Requests in flight at once when the configuration says nothing.
pub fn default_max_concurrent_requests() -> (out: usize)
    ensures
        out == 8,
{
    8
}

/// How cached bodies are stored when the configuration says nothing.
pub fn default_compression() -> (out: String)
    ensures
        out@ == "gzip"@,
{
    "gzip".to_owned()
}

/// The scope collected when nothing else is configured: the basic one, with
/// the timelines of open issues.
pub open spec fn shipped_scope() -> ScopeConfig {
    ScopeConfig {
        collection: CollectionScope {
            timeline: CollectionMode::Open,
            ..ScopeConfig::basic().collection
        },
        ..ScopeConfig::basic()
    }
}

/// See [`shipped_scope`].
pub fn default_scope() -> (out: ScopeConfig)
    ensures
        out == shipped_scope(),
{
    let mut scope = ScopeConfig::default();
    scope.collection.timeline = CollectionMode::Open;
    scope
}

/// The public API.
pub fn default_api_base_url() -> (out: String)
    ensures
        out@ == "https://api.github.com"@,
{
    "https://api.github.com".to_owned()
}

/// What is wrong with a base URL, given how its text parses; `None` when
/// nothing is.
pub open spec fn base_url_fault(base: Seq<char>, parsed: Result<Seq<char>, Seq<char>>) -> Option<
    Seq<char>,
> {
    match parsed {
        Err(reason) => Some("`"@ + base + "` is not a valid URL: "@ + reason),
        Ok(scheme) => if scheme == "http"@ || scheme == "https"@ {
            None
        } else {
            Some("`"@ + base + "` must use http or https, not `"@ + scheme + "`"@)
        },
    }
}

/// A base URL, checked against how its text parses.
pub fn checked_base_url(base: &str, parsed: Result<String, String>) -> (out: Result<
    String,
    DomainError,
>)
    ensures
        match out {
            Ok(url) => base_url_fault(base@, texts_of(parsed)) is None && url@ == base@,
            Err(error) => base_url_fault(base@, texts_of(parsed)) is Some && error@
                == (ErrorView::Validation {
                field: "api_base_url"@,
                message: base_url_fault(base@, texts_of(parsed))->0,
            }),
        },
{
    match parsed {
        Err(reason) => {
            let opening = joined(joined("`", base).as_str(), "` is not a valid URL: ");
            Err(
                DomainError::Validation {
                    field: "api_base_url".to_owned(),
                    message: joined(opening.as_str(), reason.as_str()),
                },
            )
        },
        Ok(scheme) => {
            if same(scheme.as_str(), "http") || same(scheme.as_str(), "https") {
                return Ok(base.to_owned());
            }
            let opening = joined(joined("`", base).as_str(), "` must use http or https, not `");
            Err(
                DomainError::Validation {
                    field: "api_base_url".to_owned(),
                    message: joined(joined(opening.as_str(), scheme.as_str()).as_str(), "`"),
                },
            )
        },
    }
}

impl GithubMirrorConfig {
    /// The configured compression mode. A mode that does not exist is refused
    /// here, so that a typo fails at startup rather than at the first write.
    pub fn resolved_compression(&self) -> (out: Result<Compression, DomainError>)
        ensures
            match out {
                Ok(mode) => compression_named(self.cache_compression@) == Some(mode),
                Err(error) => compression_named(self.cache_compression@) is None && error@
                    == (ErrorView::Validation {
                    field: "cache_compression"@,
                    message: "`"@ + self.cache_compression@
                        + "` is not one of none, gzip, zstd"@,
                }),
            },
    {
        Compression::parse(self.cache_compression.as_str())
    }

    /// The token to use, given what the configured one expands to. Without a
    /// configured token there is none; an empty expansion means no token; a
    /// failed expansion is an error.
    pub fn resolved_token<E>(&self, expanded: Result<String, E>) -> (out: Result<Option<String>, E>)
        ensures
            match self.github_token {
                None => out == Ok::<Option<String>, E>(None),
                Some(_) => match expanded {
                    Ok(token) => out == Ok::<Option<String>, E>(
                        if token@.len() == 0 {
                            None
                        } else {
                            Some(token)
                        },
                    ),
                    Err(error) => out == Err::<Option<String>, E>(error),
                },
            },
    {
        if self.github_token.is_none() {
            return Ok(None);
        }
        match expanded {
            Ok(token) => {
                if token.as_str().unicode_len() == 0 {
                    Ok(None)
                } else {
                    Ok(Some(token))
                }
            },
            Err(error) => Err(error),
        }
    }

    /// The configured base URL, when it is a URL with scheme `http` or `https`.
    pub fn resolved_api_base_url(&self) -> (out: Result<String, DomainError>)
        ensures
            ({
                let fault = base_url_fault(self.api_base_url@, url_scheme(self.api_base_url@));
                match out {
                    Ok(url) => fault is None && url@ == self.api_base_url@,
                    Err(error) => fault is Some && error@ == (ErrorView::Validation {
                        field: "api_base_url"@,
                        message: fault->0,
                    }),
                }
            }),
    {
        let parsed = parse_url(self.api_base_url.as_str());
        checked_base_url(self.api_base_url.as_str(), parsed)
    }

    /// How many syncs run at once: at least one.
    pub fn sync_workers(&self) -> (out: usize)
        ensures
            out == if self.max_concurrent_syncs == 0 {
                1
            } else {
                self.max_concurrent_syncs
            },
    {
        if self.max_concurrent_syncs == 0 {
            1
        } else {
            self.max_concurrent_syncs
        }
    }
}

impl Default for GithubMirrorConfig {
    fn default() -> (out: Self)
        ensures
            out.api_base_url@ == "https://api.github.com"@,
            out.github_token is None,
            out.scope == shipped_scope(),
            out.cache_compression@ == "gzip"@,
            out.max_concurrent_syncs == 4,
            out.max_concurrent_requests == 8,
    {
        GithubMirrorConfig {
            api_base_url: default_api_base_url(),
            github_token: None,
            scope: default_scope(),
            cache_compression: default_compression(),
            max_concurrent_syncs: default_max_concurrent_syncs(),
            max_concurrent_requests: default_max_concurrent_requests(),
        }
    }
}

/// The default compression is one of the modes.
pub proof fn default_compression_is_a_mode()
    ensures
        compression_named("gzip"@) == Some(Compression::Gzip),
{
    reveal_strlit("gzip");
    reveal_strlit("none");
    assert("gzip"@[0] != "none"@[0]);
}

} // verus!
