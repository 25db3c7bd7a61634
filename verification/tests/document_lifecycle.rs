use docaccess::error::{CreationError, ReadError, UpdateError};
use docaccess::lifecycle::{create_document, get_document, update_document};
use docaccess::role::Role;
use docaccess::store::{find_role, Store};

#[test]
fn test_get_nonexistent_document() {
    let s = Store::new();
    let r = get_document(&s, 1, 99999);
    assert!(matches!(r, Err(ReadError::NotFoundError)));
}

#[test]
fn test_update_nonexistent_document() {
    let mut s = Store::new();
    let r = update_document(
        &mut s,
        1,
        99999,
        "Updated Name".to_string(),
        "Updated content".to_string(),
        10,
    );
    assert!(matches!(r, Err(UpdateError::NotFoundError)));
}

#[test]
fn test_create_document_empty_name() {
    let mut s = Store::new();
    let r = create_document(
        &mut s,
        1,
        "".to_string(),
        "Test document with empty name".to_string(),
        10,
    );
    assert!(matches!(r, Err(CreationError::InvalidNameError)));
    assert_eq!(s.docs.len(), 0);
    assert_eq!(s.perms.len(), 0);
}

#[test]
fn test_update_document_empty_name() {
    let mut s = Store::new();
    let doc = create_document(
        &mut s,
        1,
        "Document for Empty Name Update Test".to_string(),
        "c".to_string(),
        10,
    )
    .expect("Failed to create test document");
    let r = update_document(
        &mut s,
        1,
        doc.id,
        "".to_string(),
        "Updated content with empty name".to_string(),
        11,
    );
    assert!(matches!(r, Err(UpdateError::InvalidNameError)));
    let unchanged = get_document(&s, 1, doc.id).expect("document still readable");
    assert_eq!(unchanged.name, "Document for Empty Name Update Test");
    assert_eq!(unchanged.content, "c");
    assert_eq!(unchanged.updated_at, 10);
}

#[test]
fn test_unauthorized_access() {
    let mut s = Store::new();
    let doc = create_document(&mut s, 10, "Private".to_string(), "c".to_string(), 1)
        .expect("create failed");
    let r = get_document(&s, 11, doc.id);
    assert!(matches!(r, Err(ReadError::PermissionDeniedError)));
}

#[test]
fn test_create_document_seeds_owner() {
    let mut s = Store::new();
    let doc =
        create_document(&mut s, 7, "x".to_string(), "".to_string(), 5).expect("create failed");
    assert_eq!(find_role(&s, doc.id, 7), Some(Role::Owner));
}

#[test]
fn test_create_document_fields_and_fresh_ids() {
    let mut s = Store::new();
    let d1 = create_document(&mut s, 3, "first".to_string(), "body one".to_string(), 100)
        .expect("create failed");
    let d2 = create_document(&mut s, 4, "second".to_string(), "body two".to_string(), 200)
        .expect("create failed");
    assert_eq!(d1.id, 1);
    assert_eq!(d2.id, 2);
    assert_eq!(d1.name, "first");
    assert_eq!(d1.content, "body one");
    assert_eq!(d1.user_id, 3);
    assert_eq!(d1.created_at, 100);
    assert_eq!(d1.updated_at, 100);
    assert_eq!(d2.user_id, 4);
}

#[test]
fn test_whitespace_only_name_rejected() {
    let mut s = Store::new();
    let r = create_document(&mut s, 1, "   \t\n".to_string(), "c".to_string(), 10);
    assert!(matches!(r, Err(CreationError::InvalidNameError)));
}

#[test]
fn test_update_document_changes_name_and_timestamp() {
    let mut s = Store::new();
    let doc = create_document(&mut s, 5, "old name".to_string(), "old body".to_string(), 50)
        .expect("create failed");
    let updated = update_document(
        &mut s,
        5,
        doc.id,
        "new name".to_string(),
        "new body".to_string(),
        60,
    )
    .expect("update failed");
    assert_eq!(updated.name, "new name");
    assert_eq!(updated.content, "new body");
    assert_eq!(updated.created_at, 50);
    assert_eq!(updated.updated_at, 60);
    assert_eq!(updated.user_id, 5);
    let read = get_document(&s, 5, doc.id).expect("read failed");
    assert_eq!(read.name, "new name");
    assert_eq!(read.updated_at, 60);
}

#[test]
fn test_editor_can_update_but_not_viewer() {
    let mut s = Store::new();
    let doc = create_document(&mut s, 1, "shared".to_string(), "c".to_string(), 1)
        .expect("create failed");
    docaccess::engine::grant(&mut s, doc.id, 2, Role::Editor, 2).expect("grant failed");
    docaccess::engine::grant(&mut s, doc.id, 3, Role::Viewer, 3).expect("grant failed");
    let by_editor = update_document(&mut s, 2, doc.id, "edited".to_string(), "e".to_string(), 4);
    assert!(by_editor.is_ok());
    let by_viewer = update_document(&mut s, 3, doc.id, "viewed".to_string(), "v".to_string(), 5);
    assert!(matches!(by_viewer, Err(UpdateError::PermissionDeniedError)));
}

#[test]
fn test_concurrent_updates() {
    // Two racing updates serialize at the store: both succeed, and the stored
    // name afterwards is always exactly one of the submitted values.
    let mut s = Store::new();
    let doc = create_document(
        &mut s,
        1,
        "Document for Concurrent Update Test".to_string(),
        "c".to_string(),
        1,
    )
    .expect("Failed to create test document");
    let r1 = update_document(
        &mut s,
        1,
        doc.id,
        "Updated Name 1".to_string(),
        "Updated content 1".to_string(),
        2,
    );
    let r2 = update_document(
        &mut s,
        1,
        doc.id,
        "Updated Name 2".to_string(),
        "Updated content 2".to_string(),
        3,
    );
    assert!(r1.is_ok());
    assert!(r2.is_ok());
    let read = get_document(&s, 1, doc.id).expect("Failed to read document");
    assert!(read.name == "Updated Name 1" || read.name == "Updated Name 2");
}

#[test]
fn test_create_document_id_space_exhausted() {
    let mut s = Store { docs: Vec::new(), perms: Vec::new(), next_doc_id: i32::MAX };
    let r = create_document(&mut s, 1, "x".to_string(), "c".to_string(), 1);
    assert!(matches!(r, Err(CreationError::StoreError)));
    assert_eq!(s.docs.len(), 0);
}
