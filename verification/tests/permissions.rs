use docaccess::controller::{
    get_document_users, grant_document_permission, remove_document_permission,
    update_document_permission, CreatePermissionPayload, UpdatePermissionPayload,
};
use docaccess::engine::{can_access, grant, revoke, update_role};
use docaccess::error::MutationError;
use docaccess::lifecycle::{create_document, get_document};
use docaccess::role::{Capability, Role};
use docaccess::store::{delete_role, find_role, list_users_with_role_for_document, Store};

fn store_with_roles() -> (Store, i32) {
    // user 1 owner, user 2 editor, user 3 viewer, user 9 no role
    let mut s = Store::new();
    let doc = create_document(&mut s, 1, "doc".to_string(), "c".to_string(), 1)
        .expect("create failed");
    grant(&mut s, doc.id, 2, Role::Editor, 2).expect("grant failed");
    grant(&mut s, doc.id, 3, Role::Viewer, 3).expect("grant failed");
    (s, doc.id)
}

#[test]
fn test_lattice_monotonicity() {
    let (s, d) = store_with_roles();
    // viewer
    assert!(can_access(&s, 3, d, Capability::View));
    assert!(!can_access(&s, 3, d, Capability::Edit));
    assert!(!can_access(&s, 3, d, Capability::Own));
    // editor
    assert!(can_access(&s, 2, d, Capability::View));
    assert!(can_access(&s, 2, d, Capability::Edit));
    assert!(!can_access(&s, 2, d, Capability::Own));
    // owner
    assert!(can_access(&s, 1, d, Capability::View));
    assert!(can_access(&s, 1, d, Capability::Edit));
    assert!(can_access(&s, 1, d, Capability::Own));
}

#[test]
fn test_no_role_denial() {
    let (s, d) = store_with_roles();
    assert!(!can_access(&s, 9, d, Capability::View));
    assert!(!can_access(&s, 9, d, Capability::Edit));
    assert!(!can_access(&s, 9, d, Capability::Own));
}

#[test]
fn test_self_downgrade_rejected() {
    let (mut s, d) = store_with_roles();
    let r = update_document_permission(
        &mut s,
        1,
        d,
        UpdatePermissionPayload { user_id: 1, role: Role::Editor },
    );
    assert_eq!(r, Err(MutationError::SelfDowngradeError));
    assert_eq!(find_role(&s, d, 1), Some(Role::Owner));
}

#[test]
fn test_self_revocation_rejected() {
    let (mut s, d) = store_with_roles();
    let r = remove_document_permission(&mut s, 1, d, 1);
    assert_eq!(r, Err(MutationError::SelfRevocationError));
    assert_eq!(find_role(&s, d, 1), Some(Role::Owner));
}

#[test]
fn test_self_update_to_owner_allowed() {
    let (mut s, d) = store_with_roles();
    let r = update_document_permission(
        &mut s,
        1,
        d,
        UpdatePermissionPayload { user_id: 1, role: Role::Owner },
    );
    assert_eq!(r, Ok(()));
    assert_eq!(find_role(&s, d, 1), Some(Role::Owner));
}

#[test]
fn test_grant_idempotence() {
    let mut s = Store::new();
    let doc = create_document(&mut s, 1, "doc".to_string(), "c".to_string(), 1)
        .expect("create failed");
    grant(&mut s, doc.id, 5, Role::Editor, 2).expect("grant failed");
    grant(&mut s, doc.id, 5, Role::Editor, 3).expect("grant failed");
    let users = list_users_with_role_for_document(&s, doc.id);
    let matching: Vec<&(i32, Role)> = users.iter().filter(|e| e.0 == 5).collect();
    assert_eq!(matching.len(), 1);
    assert_eq!(*matching[0], (5, Role::Editor));
}

#[test]
fn test_grant_replaces_existing_role() {
    let (mut s, d) = store_with_roles();
    grant(&mut s, d, 3, Role::Editor, 9).expect("grant failed");
    assert_eq!(find_role(&s, d, 3), Some(Role::Editor));
    let users = list_users_with_role_for_document(&s, d);
    assert_eq!(users.iter().filter(|e| e.0 == 3).count(), 1);
}

#[test]
fn test_grant_then_revoke_then_view() {
    // owner o creates d; grants viewer to v; v reads; o revokes v; v is denied
    let mut s = Store::new();
    let o = 1;
    let v = 2;
    let doc = create_document(&mut s, o, "d".to_string(), "c".to_string(), 1)
        .expect("create failed");
    let granted = grant_document_permission(
        &mut s,
        o,
        doc.id,
        CreatePermissionPayload { user_id: v, role: Role::Viewer },
        2,
    );
    assert_eq!(granted, Ok(()));
    assert!(get_document(&s, v, doc.id).is_ok());
    let revoked = remove_document_permission(&mut s, o, doc.id, v);
    assert_eq!(revoked, Ok(()));
    let read = get_document(&s, v, doc.id);
    assert!(matches!(read, Err(docaccess::error::ReadError::PermissionDeniedError)));
}

#[test]
fn test_non_owner_cannot_grant() {
    // user 2 holds editor role; the own-capability pre-check denies the grant
    // and no row is created for the grantee
    let (mut s, d) = store_with_roles();
    let r = grant_document_permission(
        &mut s,
        2,
        d,
        CreatePermissionPayload { user_id: 8, role: Role::Viewer },
        9,
    );
    assert_eq!(r, Err(MutationError::PermissionDeniedError));
    assert_eq!(find_role(&s, d, 8), None);
    let users = list_users_with_role_for_document(&s, d);
    assert!(users.iter().all(|e| e.0 != 8));
}

#[test]
fn test_update_permission_target_not_found() {
    let (mut s, d) = store_with_roles();
    let r = update_document_permission(
        &mut s,
        1,
        d,
        UpdatePermissionPayload { user_id: 42, role: Role::Viewer },
    );
    assert_eq!(r, Err(MutationError::TargetNotFoundError));
}

#[test]
fn test_remove_permission_target_not_found() {
    let (mut s, d) = store_with_roles();
    let r = remove_document_permission(&mut s, 1, d, 42);
    assert_eq!(r, Err(MutationError::TargetNotFoundError));
}

#[test]
fn test_update_permission_requires_owner() {
    let (mut s, d) = store_with_roles();
    let r = update_document_permission(
        &mut s,
        2,
        d,
        UpdatePermissionPayload { user_id: 3, role: Role::Editor },
    );
    assert_eq!(r, Err(MutationError::PermissionDeniedError));
    assert_eq!(find_role(&s, d, 3), Some(Role::Viewer));
}

#[test]
fn test_owner_updates_other_role() {
    let (mut s, d) = store_with_roles();
    let r = update_document_permission(
        &mut s,
        1,
        d,
        UpdatePermissionPayload { user_id: 3, role: Role::Editor },
    );
    assert_eq!(r, Ok(()));
    assert_eq!(find_role(&s, d, 3), Some(Role::Editor));
}

#[test]
fn test_engine_update_role_direct() {
    let (mut s, d) = store_with_roles();
    assert_eq!(
        update_role(&mut s, d, 1, 1, Role::Viewer),
        Err(MutationError::SelfDowngradeError)
    );
    assert_eq!(
        update_role(&mut s, d, 1, 7, Role::Viewer),
        Err(MutationError::TargetNotFoundError)
    );
    assert_eq!(update_role(&mut s, d, 1, 2, Role::Viewer), Ok(()));
    assert_eq!(find_role(&s, d, 2), Some(Role::Viewer));
}

#[test]
fn test_engine_revoke_direct() {
    let (mut s, d) = store_with_roles();
    assert_eq!(revoke(&mut s, d, 1, 1), Err(MutationError::SelfRevocationError));
    assert_eq!(revoke(&mut s, d, 1, 7), Err(MutationError::TargetNotFoundError));
    assert_eq!(revoke(&mut s, d, 1, 2), Ok(()));
    assert_eq!(find_role(&s, d, 2), None);
}

#[test]
fn test_delete_role_reports_existence() {
    let (mut s, d) = store_with_roles();
    assert!(delete_role(&mut s, d, 3));
    assert!(!delete_role(&mut s, d, 3));
}

#[test]
fn test_list_users_for_document() {
    let (s, d) = store_with_roles();
    let mut users = list_users_with_role_for_document(&s, d);
    users.sort_by_key(|e| e.0);
    assert_eq!(users, vec![(1, Role::Owner), (2, Role::Editor), (3, Role::Viewer)]);
}

#[test]
fn test_list_users_empty_document() {
    let s = Store::new();
    let users = list_users_with_role_for_document(&s, 12345);
    assert!(users.is_empty());
}

#[test]
fn test_get_document_users_requires_view() {
    let (s, d) = store_with_roles();
    assert!(get_document_users(&s, 3, d).is_ok());
    assert_eq!(
        get_document_users(&s, 9, d),
        Err(MutationError::PermissionDeniedError)
    );
}
