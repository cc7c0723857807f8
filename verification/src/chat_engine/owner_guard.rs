//! Session ownership for authenticated callers.
//!
//! A policy that constrains the tenant alone lets any subject of a tenant read
//! or change another subject's session. Session access is restricted to the
//! owning user within the owning tenant, and [`ensure_session_owner`] keeps
//! that invariant before any policy decision, which can then only narrow
//! access further.
//!
//! A mismatch is reported as not found, so that a caller cannot tell someone
//! else's session from one that does not exist.

use crate::context::SecurityContext;
use vstd::prelude::*;
use vstd::string::*;

verus! {

/// The UUID a text stands for, as a 128-bit number; `None` when it stands for
/// none.
pub uninterp spec fn uuid_in(text: Seq<char>) -> Option<u128>;

/// `uuid::Uuid::parse_str`: the UUID a text stands for, as a 128-bit number,
/// or `None` when the text is malformed.
#[verifier::external_body]
fn parse_uuid(text: &str) -> (out: Option<u128>)
    ensures
        out == uuid_in(text@),
{
    match uuid::Uuid::parse_str(text) {
        Ok(id) => Some(id.as_u128()),
        Err(_) => None,
    }
}

/// A stored session, as far as ownership is concerned.
#[derive(Debug, Clone)]
pub struct Session {
    pub session_id: u128,
    /// Owning tenant, a UUID in text form.
    pub tenant_id: String,
    /// Owning user, a UUID in text form.
    pub user_id: String,
}

/// Errors of the chat engine.
#[derive(Debug, Clone)]
pub enum ChatEngineError {
    /// No such entity, or none for this caller.
    NotFound { entity: String, id: u128 },
}

impl ChatEngineError {
    /// An entity is not there for this caller.
    pub fn not_found(entity: &str, id: u128) -> (out: Self)
        ensures
            out->entity@ == entity@,
            out->id == id,
    {
        ChatEngineError::NotFound { entity: entity.to_owned(), id }
    }
}

/// The owner pair, as parsed, is the caller's.
pub open spec fn owns(ctx: SecurityContext, user: Option<u128>, tenant: Option<u128>) -> bool {
    user == Some(ctx.subject_id) && tenant == Some(ctx.subject_tenant_id)
}

/// The guard on an owner pair that was parsed already.
pub fn ensure_owner_pair(
    ctx: &SecurityContext,
    session_id: u128,
    user: Option<u128>,
    tenant: Option<u128>,
) -> (out: Result<(), ChatEngineError>)
    ensures
        out is Ok <==> owns(*ctx, user, tenant),
        out is Err ==> out->Err_0->entity@ == "session"@ && out->Err_0->id == session_id,
{
    let user_matches = match user {
        Some(id) => id == ctx.subject_id,
        None => false,
    };
    let tenant_matches = match tenant {
        Some(id) => id == ctx.subject_tenant_id,
        None => false,
    };
    if user_matches && tenant_matches {
        return Ok(());
    }
    Err(ChatEngineError::not_found("session", session_id))
}

/// Fails unless `ctx` is the owner of `session`.
///
/// Both halves of the owner pair are compared as UUIDs. A stored value that is
/// no UUID belongs to nobody: there is no fall-back to comparing texts, which
/// could match on case or padding.
pub fn ensure_session_owner(ctx: &SecurityContext, session: &Session) -> (out: Result<
    (),
    ChatEngineError,
>)
    ensures
        out is Ok <==> owns(*ctx, uuid_in(session.user_id@), uuid_in(session.tenant_id@)),
        out is Err ==> out->Err_0->entity@ == "session"@ && out->Err_0->id == session.session_id,
{
    let user = parse_uuid(session.user_id.as_str());
    let tenant = parse_uuid(session.tenant_id.as_str());
    ensure_owner_pair(ctx, session.session_id, user, tenant)
}

/// A session whose stored owner is no UUID is owned by nobody.
pub proof fn malformed_owner_fails_closed(
    ctx: SecurityContext,
    user: Option<u128>,
    tenant: Option<u128>,
)
    requires
        user is None || tenant is None,
    ensures
        !owns(ctx, user, tenant),
{
}

/// A session has one owner: whoever differs in user or tenant is not it.
pub proof fn only_one_caller_owns_a_session(
    owner: SecurityContext,
    other: SecurityContext,
    user: Option<u128>,
    tenant: Option<u128>,
)
    requires
        owns(owner, user, tenant),
    ensures
        owns(other, user, tenant) <==> other == owner,
{
}

} // verus!
