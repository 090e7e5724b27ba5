//! What a verification strategy is given, and what it gives back.

use vstd::prelude::*;
use crate::namespace::NamespaceName;

verus! {

/// The proof of identity that a caller sent along, as it was found in the
/// request's metadata. The proxy never looks inside.
#[derive(Debug, PartialEq, Eq)]
pub struct Credential {
    bytes: Vec<u8>,
}

impl View for Credential {
    type V = Seq<u8>;

    closed spec fn view(&self) -> Seq<u8> {
        self.bytes@
    }
}

impl Credential {
    pub fn new(bytes: Vec<u8>) -> (credential: Credential)
        ensures
            credential@ == bytes@,
    {
        Credential { bytes }
    }

    pub fn as_bytes(&self) -> (bytes: &Vec<u8>)
        ensures
            bytes@ == self@,
    {
        &self.bytes
    }
}

/// The key against which the callers of one namespace are verified.
#[derive(Debug, PartialEq, Eq)]
pub struct VerificationKey {
    material: String,
}

impl View for VerificationKey {
    type V = Seq<char>;

    closed spec fn view(&self) -> Seq<char> {
        self.material@
    }
}

impl VerificationKey {
    pub fn new(material: String) -> (key: VerificationKey)
        ensures
            key@ == material@,
    {
        VerificationKey { material }
    }

    pub fn as_str(&self) -> (material: &str)
        ensures
            material@ == self@,
    {
        self.material.as_str()
    }
}

/// A caller whom a strategy has verified. It is made for one request and
/// travels with that request to the primary, which trusts it.
#[derive(Debug, PartialEq, Eq)]
pub struct AuthenticatedIdentity {
    claims: Vec<u8>,
}

impl View for AuthenticatedIdentity {
    type V = Seq<u8>;

    closed spec fn view(&self) -> Seq<u8> {
        self.claims@
    }
}

impl AuthenticatedIdentity {
    pub fn new(claims: Vec<u8>) -> (identity: AuthenticatedIdentity)
        ensures
            identity@ == claims@,
    {
        AuthenticatedIdentity { claims }
    }

    pub fn as_bytes(&self) -> (claims: &Vec<u8>)
        ensures
            claims@ == self@,
    {
        &self.claims
    }
}

/// Why a strategy turned a caller away, in the strategy's own words.
#[derive(Debug, PartialEq, Eq)]
pub struct AuthFailure {
    reason: String,
}

impl View for AuthFailure {
    type V = Seq<char>;

    closed spec fn view(&self) -> Seq<char> {
        self.reason@
    }
}

impl AuthFailure {
    pub fn new(reason: String) -> (failure: AuthFailure)
        ensures
            failure@ == reason@,
    {
        AuthFailure { reason }
    }

    pub fn reason(&self) -> (reason: &str)
        ensures
            reason@ == self@,
    {
        self.reason.as_str()
    }
}

/// All that a strategy learns of a request. It lives for one decision.
#[derive(Debug, PartialEq, Eq)]
pub struct AuthContext {
    /// The namespace that the request is meant for; none when namespaces are
    /// disabled.
    pub namespace: Option<NamespaceName>,
    /// The caller's credential, if the request carries one. Whether a request
    /// without one is acceptable is for the strategy to say.
    pub credential: Option<Credential>,
}

/// What a strategy says of a caller.
pub type Verdict = Result<AuthenticatedIdentity, AuthFailure>;

/// A way to verify callers.
///
/// Nothing is required of a strategy, and nothing is promised in its name. A
/// strategy may look at the clock or at anything else, so what it says of one
/// context may differ from call to call; `may_decide` names whatever it can
/// say.
pub trait AuthStrategy {
    /// Whether this strategy can give `verdict` when it is asked about
    /// `context`. A strategy that says nothing of itself can give any.
    open spec fn may_decide(&self, context: AuthContext, verdict: Verdict) -> bool {
        true
    }

    /// Verifies the caller that `context` describes.
    fn authenticate(&self, context: &AuthContext) -> (verdict: Verdict)
        ensures
            self.may_decide(*context, verdict),
    ;
}

/// A strategy that verifies the callers of one namespace against that
/// namespace's key.
pub trait NamespaceStrategy: AuthStrategy + Sized {
    /// Whether this strategy is one that `for_key` makes for `key`. Of a
    /// strategy that says nothing of itself this is not known to fail.
    open spec fn made_for(&self, key: VerificationKey) -> bool {
        true
    }

    /// The strategy that verifies against `key`.
    fn for_key(key: VerificationKey) -> (strategy: Self)
        ensures
            strategy.made_for(key),
    ;
}

} // verus!
