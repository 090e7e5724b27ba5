//! The envelope in which a request passes the proxy.

use vstd::prelude::*;
use crate::auth::AuthenticatedIdentity;

verus! {

/// A request on its way to the primary: the message that the caller sent, and
/// the place where the verified identity of the caller is attached.
///
/// The proxy writes the identity and nothing else. It never touches the
/// message.
#[derive(Debug, PartialEq, Eq)]
pub struct Request<T> {
    /// The verified identity of the caller, once it is attached.
    pub identity: Option<AuthenticatedIdentity>,
    /// What the caller sent.
    pub message: T,
}

impl<T> Request<T> {
    /// Wraps a message as it came in: nobody has vouched for its sender yet.
    pub fn new(message: T) -> (request: Request<T>)
        ensures
            request == (Request { identity: None, message }),
    {
        Request { identity: None, message }
    }

    /// Stamps the verified identity of the caller on the request, so that the
    /// primary need not verify the caller again. An identity that was there
    /// before is replaced.
    pub fn attach_identity(&mut self, identity: AuthenticatedIdentity)
        ensures
            final(self).identity == Some(identity),
            final(self).message == old(self).message,
    {
        self.identity = Some(identity);
    }

    /// Whether somebody has vouched for the sender of this request.
    pub fn is_authenticated(&self) -> (yes: bool)
        ensures
            yes == self.identity is Some,
    {
        self.identity.is_some()
    }

    /// Takes the request apart, for the transport to send.
    pub fn into_parts(self) -> (parts: (Option<AuthenticatedIdentity>, T))
        ensures
            parts == (self.identity, self.message),
    {
        (self.identity, self.message)
    }
}

} // verus!
