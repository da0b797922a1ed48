use openlibrary_api::auth::{login_succeeded, AuthRequest};

#[test]
fn auth_request_carries_the_credentials() {
    let a = AuthRequest::new("access-key".to_string(), "secret-key".to_string());
    assert_eq!(a.access, "access-key");
    assert_eq!(a.secret, "secret-key");
}

#[test]
fn only_status_200_means_login_succeeded() {
    assert!(login_succeeded(200));
    assert!(!login_succeeded(302));
    assert!(!login_succeeded(403));
    assert!(!login_succeeded(500));
}
