//! Which cached responses a clearing drops.
//!
//! A prefix stands for the URL itself and for what is below it. It ends at a
//! path or query boundary, so that it does not take along a repository whose
//! name merely begins with the same text.

use crate::client::request_url;
use crate::text;
use crate::text::joined;
use vstd::prelude::*;
use vstd::string::*;

verus! {

/// A character at which a prefix may end.
pub open spec fn is_boundary(c: char) -> bool {
    c == '/' || c == '?'
}

/// The URL is the prefix, or is below it.
pub open spec fn is_under(url: Seq<char>, prefix: Seq<char>) -> bool {
    &&& prefix.is_prefix_of(url)
    &&& url.len() == prefix.len() || is_boundary(url[prefix.len() as int])
}

/// Whether the URL is the prefix, or is below it.
pub fn under(url: &str, prefix: &str) -> (out: bool)
    ensures
        out == is_under(url@, prefix@),
{
    if !text::starts_with(url, prefix) {
        return false;
    }
    let length: usize = prefix.unicode_len();
    if url.unicode_len() == length {
        return true;
    }
    let next = url.get_char(length);
    next == '/' || next == '?'
}

/// One of the prefixes covers the URL.
pub open spec fn is_cleared(url: Seq<char>, prefixes: Seq<String>) -> bool {
    exists|i: int| 0 <= i < prefixes.len() && is_under(url, (#[trigger] prefixes[i])@)
}

/// Whether a clearing of the prefixes drops the response of the URL.
pub fn cleared(url: &str, prefixes: &Vec<String>) -> (out: bool)
    ensures
        out == is_cleared(url@, prefixes@),
{
    let mut i: usize = 0;
    while i < prefixes.len()
        invariant
            i <= prefixes@.len(),
            forall|j: int| 0 <= j < i ==> !is_under(url@, (#[trigger] prefixes@[j])@),
        decreases prefixes@.len() - i,
    {
        if under(url, prefixes[i].as_str()) {
            return true;
        }
        i = i + 1;
    }
    false
}

/// What precedes the name in the URLs of an owner's repositories.
pub open spec fn owner_stem(base: Seq<char>, owner: Seq<char>) -> Seq<char> {
    text::without_trailing_slashes(base) + ("/repos/"@ + owner + "/"@)
}

/// The prefix of an owner's responses, or of those of one of its repositories.
pub fn cache_prefix(base: &str, owner: &str, name: Option<&str>) -> (out: String)
    ensures
        out@ == match name {
            Some(name) => owner_stem(base@, owner@) + name@,
            None => text::without_trailing_slashes(base@) + ("/repos/"@ + owner@),
        },
{
    let path = joined("/repos/", owner);
    match name {
        Some(name) => {
            let path = joined(joined(path.as_str(), "/").as_str(), name);
            let out = request_url(base, path.as_str());
            assert(out@ =~= owner_stem(base@, owner@) + name@);
            out
        },
        None => request_url(base, path.as_str()),
    }
}

/// Clearing one repository leaves the responses of every other one: no URL is
/// below the prefixes of two repositories whose names are plain.
pub proof fn clearing_stops_at_the_repository(
    url: Seq<char>,
    stem: Seq<char>,
    one: Seq<char>,
    other: Seq<char>,
)
    requires
        is_under(url, stem + one),
        is_under(url, stem + other),
        forall|i: int| 0 <= i < one.len() ==> !is_boundary(#[trigger] one[i]),
        forall|i: int| 0 <= i < other.len() ==> !is_boundary(#[trigger] other[i]),
    ensures
        one == other,
{
    let both = stem + one;
    let also = stem + other;
    assert forall|i: int| 0 <= i < one.len() implies one[i] == url[stem.len() + i] by {
        assert(both[stem.len() + i] == one[i]);
        assert(url.take(both.len() as int)[stem.len() + i] == both[stem.len() + i]);
    }
    assert forall|i: int| 0 <= i < other.len() implies other[i] == url[stem.len() + i] by {
        assert(also[stem.len() + i] == other[i]);
        assert(url.take(also.len() as int)[stem.len() + i] == also[stem.len() + i]);
    }
    if one.len() < other.len() {
        assert(!is_boundary(other[one.len() as int]));
        assert(false);
    }
    if other.len() < one.len() {
        assert(!is_boundary(one[other.len() as int]));
        assert(false);
    }
    assert(one =~= other);
}

/// Clearing an owner clears each of its repositories.
pub proof fn clearing_an_owner_clears_its_repositories(
    url: Seq<char>,
    base: Seq<char>,
    owner: Seq<char>,
    name: Seq<char>,
)
    requires
        is_under(url, owner_stem(base, owner) + name),
    ensures
        is_under(url, text::without_trailing_slashes(base) + ("/repos/"@ + owner)),
{
    let stem = owner_stem(base, owner);
    let prefix = text::without_trailing_slashes(base) + ("/repos/"@ + owner);
    let whole = stem + name;
    reveal_strlit("/");
    assert(stem =~= prefix + "/"@);
    assert(whole[prefix.len() as int] == '/');
    assert forall|i: int| 0 <= i <= prefix.len() implies url[i] == whole[i] by {
        assert(url.take(whole.len() as int)[i] == whole[i]);
    }
    assert(url.take(prefix.len() as int) =~= prefix);
}

} // verus!
