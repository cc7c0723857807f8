//! Errors of the mirror and how they are answered.

use crate::text;
use crate::text::joined;
use vstd::prelude::*;
use vstd::string::*;

verus! {

/// What can go wrong in a mirror operation.
#[derive(Debug, Clone)]
pub enum DomainError {
    /// The thing asked for is not mirrored, or unknown upstream.
    NotFound,
    /// A value was refused.
    Validation { field: String, message: String },
    /// The policy denies access.
    Forbidden(String),
    /// An upstream or programming failure.
    Internal(String),
    /// A storage failure.
    Database(String),
}

/// A [`DomainError`] with its texts as character sequences.
#[verifier::ext_equal]
pub enum ErrorView {
    NotFound,
    Validation { field: Seq<char>, message: Seq<char> },
    Forbidden(Seq<char>),
    Internal(Seq<char>),
    Database(Seq<char>),
}

impl View for DomainError {
    type V = ErrorView;

    open spec fn view(&self) -> ErrorView {
        match self {
            DomainError::NotFound => ErrorView::NotFound,
            DomainError::Validation { field, message } => ErrorView::Validation {
                field: field@,
                message: message@,
            },
            DomainError::Forbidden(message) => ErrorView::Forbidden(message@),
            DomainError::Internal(message) => ErrorView::Internal(message@),
            DomainError::Database(message) => ErrorView::Database(message@),
        }
    }
}

/// A storage error worth another attempt: the database was locked by another
/// writer.
pub open spec fn transient(error: ErrorView) -> bool {
    match error {
        ErrorView::Database(message) => text::contains_text(message, "database is locked"@),
        _ => false,
    }
}

/// The words an error is recorded in.
pub open spec fn error_text(error: ErrorView) -> Seq<char> {
    match error {
        ErrorView::NotFound => "not found"@,
        ErrorView::Validation { field, message } => field + ": "@ + message,
        ErrorView::Forbidden(message) => message,
        ErrorView::Internal(message) => message,
        ErrorView::Database(message) => message,
    }
}

impl DomainError {
    /// An [`DomainError::Internal`] with these words.
    pub fn internal(message: &str) -> (out: Self)
        ensures
            out@ == ErrorView::Internal(message@),
    {
        DomainError::Internal(message.to_owned())
    }

    /// Whether another attempt may succeed.
    pub fn is_transient(&self) -> (out: bool)
        ensures
            out == transient(self@),
    {
        match self {
            DomainError::Database(message) => text::contains(message.as_str(), "database is locked"),
            _ => false,
        }
    }

    /// The words the error is recorded in.
    pub fn message(&self) -> (out: String)
        ensures
            out@ == error_text(self@),
    {
        match self {
            DomainError::NotFound => "not found".to_owned(),
            DomainError::Validation { field, message } => joined(
                joined(field.as_str(), ": ").as_str(),
                message.as_str(),
            ),
            DomainError::Forbidden(message) => message.clone(),
            DomainError::Internal(message) => message.clone(),
            DomainError::Database(message) => message.clone(),
        }
    }
}

/// How a failed request is answered.
#[derive(Debug, Clone)]
pub enum CanonicalError {
    /// `404`: the resource is not there, or not for this caller.
    NotFound { detail: String, resource: String },
    /// `400`: one field was refused.
    InvalidArgument { field: String, description: String, reason: String },
    /// `500`.
    Internal { detail: String },
}

/// A [`CanonicalError`] with its texts as character sequences.
#[verifier::ext_equal]
pub enum CanonicalView {
    NotFound { detail: Seq<char>, resource: Seq<char> },
    InvalidArgument { field: Seq<char>, description: Seq<char>, reason: Seq<char> },
    Internal { detail: Seq<char> },
}

impl View for CanonicalError {
    type V = CanonicalView;

    open spec fn view(&self) -> CanonicalView {
        match self {
            CanonicalError::NotFound { detail, resource } => CanonicalView::NotFound {
                detail: detail@,
                resource: resource@,
            },
            CanonicalError::InvalidArgument { field, description, reason } =>
                CanonicalView::InvalidArgument {
                field: field@,
                description: description@,
                reason: reason@,
            },
            CanonicalError::Internal { detail } => CanonicalView::Internal { detail: detail@ },
        }
    }
}

/// The answer to an error. A denied request is answered like one for a
/// repository that is not there.
pub open spec fn answer_to(error: ErrorView) -> CanonicalView {
    match error {
        ErrorView::NotFound => CanonicalView::NotFound {
            detail: "Repo not found"@,
            resource: "repository"@,
        },
        ErrorView::Validation { field, message } => CanonicalView::InvalidArgument {
            field,
            description: message,
            reason: "VALIDATION_ERROR"@,
        },
        ErrorView::Forbidden(_) => CanonicalView::NotFound {
            detail: "Repo not found or not accessible"@,
            resource: "repository"@,
        },
        ErrorView::Internal(message) => CanonicalView::Internal { detail: message },
        ErrorView::Database(message) => CanonicalView::Internal { detail: message },
    }
}

/// The type of the resource that repository errors are about.
#[derive(Debug, Clone, Copy)]
pub struct RepositoryError;

impl RepositoryError {
    /// The id of the resource type.
    pub fn type_id() -> (out: &'static str)
        ensures
            out@ == "cf.core.github_mirror.repository.v1~"@,
    {
        "cf.core.github_mirror.repository.v1~"
    }

    /// The answer to an error.
    pub fn answer(error: DomainError) -> (out: CanonicalError)
        ensures
            out@ == answer_to(error@),
    {
        match error {
            DomainError::NotFound => CanonicalError::NotFound {
                detail: "Repo not found".to_owned(),
                resource: "repository".to_owned(),
            },
            DomainError::Validation { field, message } => CanonicalError::InvalidArgument {
                field,
                description: message,
                reason: "VALIDATION_ERROR".to_owned(),
            },
            DomainError::Forbidden(_) => CanonicalError::NotFound {
                detail: "Repo not found or not accessible".to_owned(),
                resource: "repository".to_owned(),
            },
            DomainError::Internal(message) => CanonicalError::Internal { detail: message },
            DomainError::Database(message) => CanonicalError::Internal { detail: message },
        }
    }
}

impl From<DomainError> for CanonicalError {
    fn from(error: DomainError) -> (out: Self)
        ensures
            out@ == answer_to(error@),
    {
        RepositoryError::answer(error)
    }
}

/// An answer is stated by its view alone, in the contract of the conversion.
impl vstd::std_specs::convert::FromSpecImpl<DomainError> for CanonicalError {
    open spec fn obeys_from_spec() -> bool {
        false
    }

    open spec fn from_spec(error: DomainError) -> Self {
        choose|out: CanonicalError| out@ == answer_to(error@)
    }
}

/// Being denied is answered as not found, and says nothing of why: whatever the
/// two messages are, the answers are the same.
pub proof fn denial_reads_as_not_found(one: Seq<char>, other: Seq<char>)
    ensures
        answer_to(ErrorView::NotFound) is NotFound,
        answer_to(ErrorView::Forbidden(one)) is NotFound,
        answer_to(ErrorView::Forbidden(one)) == answer_to(ErrorView::Forbidden(other)),
{
}

/// A refused field is answered as a bad request about that field, and every
/// other error that is neither an absence nor a denial as a fault of the mirror.
pub proof fn answers_keep_the_kind_of_error(field: Seq<char>, message: Seq<char>)
    ensures
        answer_to(ErrorView::Validation { field, message }) == (CanonicalView::InvalidArgument {
            field,
            description: message,
            reason: "VALIDATION_ERROR"@,
        }),
        answer_to(ErrorView::Internal(message)) is Internal,
        answer_to(ErrorView::Database(message)) is Internal,
{
}

} // verus!
