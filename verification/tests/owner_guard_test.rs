use github_mirror::chat_engine::owner_guard::{
    ensure_owner_pair, ensure_session_owner, ChatEngineError, Session,
};
use github_mirror::context::SecurityContext;
use uuid::Uuid;

fn session(tenant_id: Uuid, user_id: Uuid) -> Session {
    Session {
        session_id: Uuid::new_v4().as_u128(),
        tenant_id: tenant_id.to_string(),
        user_id: user_id.to_string(),
    }
}

fn ctx(subject_id: Uuid, tenant_id: Uuid) -> SecurityContext {
    SecurityContext {
        subject_id: subject_id.as_u128(),
        subject_tenant_id: tenant_id.as_u128(),
    }
}

#[test]
fn owner_passes() {
    let tenant = Uuid::new_v4();
    let user = Uuid::new_v4();
    ensure_session_owner(&ctx(user, tenant), &session(tenant, user))
        .expect("the owning subject must pass the guard");
}

/// The regression this guard exists for: a same-tenant stranger. The PDP's
/// tenant-only constraint admits this caller, so the gear must reject it.
#[test]
fn same_tenant_stranger_is_not_found() {
    let tenant = Uuid::new_v4();
    let row = session(tenant, Uuid::new_v4());
    let err = ensure_session_owner(&ctx(Uuid::new_v4(), tenant), &row)
        .expect_err("a foreign user_id must not reach the session");
    let ChatEngineError::NotFound { entity, id } = err;
    assert_eq!(entity, "session");
    assert_eq!(id, row.session_id);
}

/// Same subject id in a different tenant: covers the unconstrained-allow case
/// where the PDP returns no tenant clamp at all.
#[test]
fn cross_tenant_same_subject_is_not_found() {
    let user = Uuid::new_v4();
    let err = ensure_session_owner(&ctx(user, Uuid::new_v4()), &session(Uuid::new_v4(), user))
        .expect_err("a foreign tenant must not reach the session");
    assert!(matches!(err, ChatEngineError::NotFound { .. }));
}

/// A corrupt (non-UUID) owner value must fail closed rather than fall back to
/// a string comparison.
#[test]
fn non_uuid_owner_fails_closed() {
    let tenant = Uuid::new_v4();
    let user = Uuid::new_v4();
    let mut row = session(tenant, user);
    row.user_id = "not-a-uuid".to_owned();
    let err = ensure_session_owner(&ctx(user, tenant), &row)
        .expect_err("an unparseable owner id must fail closed");
    assert!(matches!(err, ChatEngineError::NotFound { .. }));
}

#[test]
fn owners_are_compared_as_uuids_not_as_texts() {
    let row = Session {
        session_id: 7,
        tenant_id: "67E55044-10B1-426F-9247-BB680E5FE0C8".to_owned(),
        user_id: "67e5504410b1426f9247bb680e5fe0c8".to_owned(),
    };
    let id = 0x67e55044_10b1_426f_9247_bb680e5fe0c8_u128;
    let caller = SecurityContext { subject_id: id, subject_tenant_id: id };
    assert!(ensure_session_owner(&caller, &row).is_ok());
}

#[test]
fn an_owner_pair_must_match_in_both_halves() {
    let caller = SecurityContext { subject_id: 1, subject_tenant_id: 2 };
    assert!(ensure_owner_pair(&caller, 9, Some(1), Some(2)).is_ok());
    assert!(ensure_owner_pair(&caller, 9, Some(1), Some(1)).is_err());
    assert!(ensure_owner_pair(&caller, 9, Some(2), Some(2)).is_err());
    assert!(ensure_owner_pair(&caller, 9, None, Some(2)).is_err());
    assert!(ensure_owner_pair(&caller, 9, Some(1), None).is_err());
}
