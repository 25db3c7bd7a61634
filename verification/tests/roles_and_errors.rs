use docaccess::error::{api_error_of_mutation, Error, MutationError};
use docaccess::project::{apply_project_update, owns_project, Project, UpdateProjectPayload};
use docaccess::role::{decide_access, role_satisfies, Capability, Role};
use docaccess::text::{is_blank, parse_role, role_name};

#[test]
fn test_role_satisfies_lattice() {
    for r in [Role::Viewer, Role::Editor, Role::Owner] {
        assert!(role_satisfies(r, Capability::View));
    }
    assert!(!role_satisfies(Role::Viewer, Capability::Edit));
    assert!(role_satisfies(Role::Editor, Capability::Edit));
    assert!(role_satisfies(Role::Owner, Capability::Edit));
    assert!(!role_satisfies(Role::Viewer, Capability::Own));
    assert!(!role_satisfies(Role::Editor, Capability::Own));
    assert!(role_satisfies(Role::Owner, Capability::Own));
}

#[test]
fn test_decide_access_denies_without_role() {
    assert!(!decide_access(None, Capability::View));
    assert!(!decide_access(None, Capability::Edit));
    assert!(!decide_access(None, Capability::Own));
    assert!(decide_access(Some(Role::Viewer), Capability::View));
}

#[test]
fn test_parse_role_round_trip() {
    for r in [Role::Viewer, Role::Editor, Role::Owner] {
        assert_eq!(parse_role(role_name(r)), Some(r));
    }
}

#[test]
fn test_parse_role_rejects_unknown() {
    assert_eq!(parse_role("admin"), None);
    assert_eq!(parse_role(""), None);
    assert_eq!(parse_role("Owner"), None);
    assert_eq!(parse_role("viewer "), None);
}

#[test]
fn test_is_blank() {
    assert!(is_blank(""));
    assert!(is_blank("   "));
    assert!(is_blank(" \t\r\n"));
    assert!(!is_blank("a"));
    assert!(!is_blank(" a "));
}

#[test]
fn test_error_status_and_label() {
    assert_eq!(Error::PermissionDeniedError.status_and_label(), (403, "PERMISSION_DENIED"));
    assert_eq!(Error::AuthError.status_and_label(), (401, "AUTHENTICATION_REQUIRED"));
    assert_eq!(Error::EmailAlreadyExistsError.status_and_label(), (409, "EMAIL_ALREADY_EXISTS"));
    assert_eq!(Error::PermissionError.status_and_label(), (500, "PERMISSION_ERROR"));
    assert_eq!(Error::DatabaseError.status_and_label(), (500, "DATABASE_ERROR"));
    assert_eq!(
        Error::DocumentCreationError.status_and_label(),
        (500, "DOCUMENT_CREATION_ERROR")
    );
    assert_eq!(
        Error::DatabaseConnectionError.status_and_label(),
        (500, "UNHANDLED_SERVER_ERROR")
    );
    assert_eq!(
        Error::DocumentNotFoundError.status_and_label(),
        (500, "UNHANDLED_CLIENT_ERROR")
    );
    assert_eq!(Error::LoginFailError.status_and_label(), (500, "UNHANDLED_CLIENT_ERROR"));
}

#[test]
fn test_api_error_of_mutation() {
    assert_eq!(
        api_error_of_mutation(MutationError::PermissionDeniedError),
        Error::PermissionDeniedError
    );
    assert_eq!(api_error_of_mutation(MutationError::SelfDowngradeError), Error::PermissionError);
    assert_eq!(api_error_of_mutation(MutationError::SelfRevocationError), Error::PermissionError);
    assert_eq!(api_error_of_mutation(MutationError::TargetNotFoundError), Error::PermissionError);
}

fn sample_project() -> Project {
    Project {
        id: 9,
        name: "Project for Update Test".to_string(),
        description: Some("old description".to_string()),
        owner_id: 4,
        created_at: 100,
        updated_at: 100,
    }
}

#[test]
fn test_owns_project() {
    let p = sample_project();
    assert!(owns_project(&p, 4));
    assert!(!owns_project(&p, 5));
}

#[test]
fn test_apply_project_update_both_fields() {
    let p = sample_project();
    let q = apply_project_update(
        &p,
        UpdateProjectPayload {
            name: Some("Updated Project Name".to_string()),
            description: Some("Updated project description".to_string()),
        },
        200,
    );
    assert_eq!(q.name, "Updated Project Name");
    assert_eq!(q.description.as_deref(), Some("Updated project description"));
    assert_eq!(q.id, 9);
    assert_eq!(q.owner_id, 4);
    assert_eq!(q.created_at, 100);
    assert_eq!(q.updated_at, 200);
}

#[test]
fn test_apply_project_update_keeps_absent_fields() {
    let p = sample_project();
    let q = apply_project_update(&p, UpdateProjectPayload { name: None, description: None }, 300);
    assert_eq!(q.name, "Project for Update Test");
    assert_eq!(q.description.as_deref(), Some("old description"));
    assert_eq!(q.updated_at, 300);
}

#[test]
fn test_apply_project_update_name_only() {
    let p = sample_project();
    let q = apply_project_update(
        &p,
        UpdateProjectPayload { name: Some("Updated Name".to_string()), description: None },
        301,
    );
    assert_eq!(q.name, "Updated Name");
    assert_eq!(q.description.as_deref(), Some("old description"));
}
