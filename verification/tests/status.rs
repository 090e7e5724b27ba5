use replica_proxy::auth::AuthFailure;
use replica_proxy::status::{GateError, RoutingError, StatusCode};

#[test]
fn routing_errors_are_invalid_arguments() {
    for e in [
        RoutingError::MissingNamespace,
        RoutingError::UndecodableNamespace,
        RoutingError::InvalidNamespace,
    ] {
        assert_eq!(GateError::Routing(e).code(), StatusCode::InvalidArgument);
    }
}

#[test]
fn a_failed_lookup_is_an_internal_error() {
    assert_eq!(GateError::LookupFailure.code(), StatusCode::Internal);
    assert_eq!(
        GateError::LookupFailure.message(),
        "error fetching the verification key of a namespace"
    );
}

#[test]
fn an_authentication_failure_keeps_the_words_of_the_strategy() {
    let e = GateError::Authentication(AuthFailure::new("token expired".to_string()));
    assert_eq!(e.code(), StatusCode::Unauthenticated);
    assert_eq!(e.message(), "token expired");
}

#[test]
fn routing_errors_say_what_is_wrong() {
    assert_eq!(
        GateError::Routing(RoutingError::MissingNamespace).message(),
        "missing namespace metadata"
    );
    assert_eq!(
        GateError::Routing(RoutingError::UndecodableNamespace).message(),
        "namespace metadata cannot be decoded"
    );
    assert_eq!(GateError::Routing(RoutingError::InvalidNamespace).message(), "invalid namespace");
}
