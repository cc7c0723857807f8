//! What the mirror tells its consumers.

use crate::records::RepoRecord;
use crate::service::queries::MirrorStatus;
use crate::text::joined;
use vstd::prelude::*;
use vstd::string::*;

verus! {

/// A mirrored repository, as consumers see it.
#[derive(Debug)]
pub struct Repository {
    pub id: i64,
    pub owner: String,
    pub name: String,
    pub full_name: String,
    pub private: bool,
    pub description: Option<String>,
}

impl Repository {
    /// What consumers see of a stored repository.
    pub fn of(record: RepoRecord) -> (out: Self)
        ensures
            out == (Repository {
                id: record.id,
                owner: record.owner,
                name: record.name,
                full_name: record.full_name,
                private: record.private,
                description: record.description,
            }),
    {
        Repository {
            id: record.id,
            owner: record.owner,
            name: record.name,
            full_name: record.full_name,
            private: record.private,
            description: record.description,
        }
    }
}

/// Where a repository can be cloned from: what is stored, or the public address
/// of its full name where nothing is.
pub open spec fn served_clone_url(record: RepoRecord) -> Seq<char> {
    match record.clone_url {
        Some(url) => url@,
        None => "https://github.com/"@ + record.full_name@ + ".git"@,
    }
}

/// See [`served_clone_url`].
pub fn clone_url(record: &RepoRecord) -> (out: String)
    ensures
        out@ == served_clone_url(*record),
{
    match &record.clone_url {
        Some(url) => url.clone(),
        None => joined(
            joined("https://github.com/", record.full_name.as_str()).as_str(),
            ".git",
        ),
    }
}

/// The answer of the health endpoint.
#[derive(Debug)]
pub struct GithubMirrorHealthDto {
    pub gear: String,
    pub version: String,
    pub api_base_url: String,
}

impl From<MirrorStatus> for GithubMirrorHealthDto {
    fn from(status: MirrorStatus) -> (out: Self)
        ensures
            out.gear == status.gear,
            out.version == status.version,
            out.api_base_url == status.api_base_url,
    {
        GithubMirrorHealthDto {
            gear: status.gear,
            version: status.version,
            api_base_url: status.api_base_url,
        }
    }
}

impl vstd::std_specs::convert::FromSpecImpl<MirrorStatus> for GithubMirrorHealthDto {
    open spec fn obeys_from_spec() -> bool {
        true
    }

    open spec fn from_spec(status: MirrorStatus) -> Self {
        GithubMirrorHealthDto {
            gear: status.gear,
            version: status.version,
            api_base_url: status.api_base_url,
        }
    }
}

} // verus!
