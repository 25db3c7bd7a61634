use docaccess::auth::resolve;

#[test]
fn test_resolve_well_formed_token() {
    assert_eq!(resolve("user-42.1699999999.signature"), Some(42));
    assert_eq!(resolve("user-1.a.b"), Some(1));
    assert_eq!(resolve("user-2147483647.x.y"), Some(i32::MAX));
}

#[test]
fn test_resolve_token_without_dots() {
    assert_eq!(resolve("user-7"), Some(7));
}

#[test]
fn test_resolve_rejects_malformed_tokens() {
    assert_eq!(resolve(""), None);
    assert_eq!(resolve("user-"), None);
    assert_eq!(resolve("user-.exp.sign"), None);
    assert_eq!(resolve("admin-5.exp.sign"), None);
    assert_eq!(resolve("user-12a.exp.sign"), None);
    assert_eq!(resolve("user--5.exp.sign"), None);
    assert_eq!(resolve("uSer-5.exp.sign"), None);
}

#[test]
fn test_resolve_rejects_oversized_identity() {
    assert_eq!(resolve("user-2147483648.x.y"), None);
    assert_eq!(resolve("user-99999999999999999999.x.y"), None);
}

#[test]
fn test_resolve_leading_zeros() {
    assert_eq!(resolve("user-007.exp.sign"), Some(7));
}
