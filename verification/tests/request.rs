use replica_proxy::auth::{AuthFailure, AuthenticatedIdentity, Credential, VerificationKey};
use replica_proxy::request::Request;

fn identity(text: &str) -> AuthenticatedIdentity {
    AuthenticatedIdentity::new(text.as_bytes().to_vec())
}

#[test]
fn a_new_request_carries_no_identity() {
    let request = Request::new("insert".to_string());
    assert!(!request.is_authenticated());
    assert_eq!(request.identity, None);
    assert_eq!(request.message, "insert");
}

#[test]
fn attaching_an_identity_leaves_the_message_alone() {
    let mut request = Request::new(vec![1u8, 2, 3]);
    request.attach_identity(identity("full_access"));
    assert!(request.is_authenticated());
    assert_eq!(request.identity, Some(identity("full_access")));
    assert_eq!(request.message, vec![1u8, 2, 3]);
}

#[test]
fn a_later_identity_replaces_an_earlier_one() {
    let mut request = Request::new(0u8);
    request.attach_identity(identity("read_only"));
    request.attach_identity(identity("full_access"));
    assert_eq!(request.into_parts(), (Some(identity("full_access")), 0u8));
}

#[test]
fn a_request_comes_apart_as_it_was_put_together() {
    assert_eq!(Request::new(42u64).into_parts(), (None, 42u64));
}

#[test]
fn opaque_values_keep_what_they_were_made_of() {
    assert_eq!(Credential::new(b"token".to_vec()).as_bytes().as_slice(), b"token");
    assert_eq!(identity("anonymous").as_bytes().as_slice(), b"anonymous");
    assert_eq!(VerificationKey::new("K".to_string()).as_str(), "K");
    assert_eq!(AuthFailure::new("no".to_string()).reason(), "no");
}
