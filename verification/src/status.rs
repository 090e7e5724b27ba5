//! The errors with which the proxy turns a request away, and the status under
//! which the caller of the RPC sees each.

use vstd::prelude::*;
use crate::auth::AuthFailure;

verus! {

/// Why no namespace could be read from a request's routing metadata.
#[derive(Clone, Copy, Debug, PartialEq, Eq, Structural)]
pub enum RoutingError {
    /// The request carries no routing entry.
    MissingNamespace,
    /// The routing entry is there, but its encoding could not be undone.
    UndecodableNamespace,
    /// The routing entry does not hold a namespace name.
    InvalidNamespace,
}

/// The class of a status, as the caller of the RPC sees it.
#[derive(Clone, Copy, Debug, PartialEq, Eq, Structural)]
pub enum StatusCode {
    InvalidArgument,
    Internal,
    Unauthenticated,
}

/// Why the proxy did not let a request through.
#[derive(Debug, PartialEq, Eq)]
pub enum GateError {
    /// The request names no namespace, though it has to.
    Routing(RoutingError),
    /// The namespace store could not be asked for the namespace's key. What
    /// went wrong in the store is not passed on.
    LookupFailure,
    /// The strategy turned the caller away. The failure is the strategy's,
    /// untouched.
    Authentication(AuthFailure),
}

impl GateError {
    /// The class of status that stands for this error.
    pub open spec fn spec_code(&self) -> StatusCode {
        match *self {
            GateError::Routing(_) => StatusCode::InvalidArgument,
            GateError::LookupFailure => StatusCode::Internal,
            GateError::Authentication(_) => StatusCode::Unauthenticated,
        }
    }

    /// The text that goes with the status.
    pub open spec fn spec_message(&self) -> Seq<char> {
        match *self {
            GateError::Routing(RoutingError::MissingNamespace) => "missing namespace metadata"@,
            GateError::Routing(RoutingError::UndecodableNamespace) => "namespace metadata cannot be decoded"@,
            GateError::Routing(RoutingError::InvalidNamespace) => "invalid namespace"@,
            GateError::LookupFailure => "error fetching the verification key of a namespace"@,
            GateError::Authentication(failure) => failure@,
        }
    }

    #[verifier::when_used_as_spec(spec_code)]
    pub fn code(&self) -> (code: StatusCode)
        ensures
            code == self.spec_code(),
    {
        match self {
            GateError::Routing(_) => StatusCode::InvalidArgument,
            GateError::LookupFailure => StatusCode::Internal,
            GateError::Authentication(_) => StatusCode::Unauthenticated,
        }
    }

    pub fn message(&self) -> (message: String)
        ensures
            message@ == self.spec_message(),
    {
        match self {
            GateError::Routing(RoutingError::MissingNamespace) => "missing namespace metadata".to_owned(),
            GateError::Routing(RoutingError::UndecodableNamespace) => "namespace metadata cannot be decoded".to_owned(),
            GateError::Routing(RoutingError::InvalidNamespace) => "invalid namespace".to_owned(),
            GateError::LookupFailure => "error fetching the verification key of a namespace".to_owned(),
            GateError::Authentication(failure) => failure.reason().to_owned(),
        }
    }
}

} // verus!
