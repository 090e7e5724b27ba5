//! What the namespace store can answer when asked for the verification key of
//! a namespace, and which strategy each answer calls for.

use vstd::prelude::*;
use crate::auth::VerificationKey;

verus! {

/// What a lookup that ran to its end has found.
#[derive(Debug, PartialEq, Eq)]
pub enum KeyLookup {
    /// The namespace has a key of its own.
    Present(VerificationKey),
    /// The namespace exists and has no key of its own.
    Absent,
    /// No such namespace was ever created.
    NoSuchNamespace,
}

/// The answer to a lookup. That the store could not be asked is kept apart
/// from everything the store can say.
#[derive(Debug, PartialEq, Eq)]
pub enum NamespaceLookupOutcome {
    /// The store answered.
    Completed(KeyLookup),
    /// The store could not be asked, or could not answer.
    Failed,
}

/// What a store reports when it hands back an error instead of a namespace.
#[derive(Clone, Copy, Debug, PartialEq, Eq, Structural)]
pub enum StoreError {
    NamespaceDoesntExist,
    Other,
}

/// The strategy that verifies the caller of a request.
#[derive(Debug, PartialEq, Eq)]
pub enum StrategyChoice {
    /// Verification against the key of the request's namespace.
    NamespaceScoped(VerificationKey),
    /// The policy of the whole deployment.
    Global,
}

/// How a store's raw answer reads as an outcome. The outer layer is the
/// store's attempt to reach the namespace, the inner one the reading of the
/// key from it. Only an outer "does not exist" is an answer; every other error
/// is a failure of the lookup itself.
pub open spec fn classify(
    raw: Result<Result<Option<VerificationKey>, StoreError>, StoreError>,
) -> NamespaceLookupOutcome {
    match raw {
        Ok(Ok(Some(key))) => NamespaceLookupOutcome::Completed(KeyLookup::Present(key)),
        Ok(Ok(None)) => NamespaceLookupOutcome::Completed(KeyLookup::Absent),
        Err(StoreError::NamespaceDoesntExist) => NamespaceLookupOutcome::Completed(
            KeyLookup::NoSuchNamespace,
        ),
        Err(StoreError::Other) => NamespaceLookupOutcome::Failed,
        Ok(Err(_)) => NamespaceLookupOutcome::Failed,
    }
}

/// The strategy that an outcome calls for; none where the lookup failed.
pub open spec fn selection(outcome: NamespaceLookupOutcome) -> Option<StrategyChoice> {
    match outcome {
        NamespaceLookupOutcome::Completed(KeyLookup::Present(key)) => Some(
            StrategyChoice::NamespaceScoped(key),
        ),
        NamespaceLookupOutcome::Completed(KeyLookup::Absent) => Some(StrategyChoice::Global),
        NamespaceLookupOutcome::Completed(KeyLookup::NoSuchNamespace) => Some(
            StrategyChoice::Global,
        ),
        NamespaceLookupOutcome::Failed => None,
    }
}

impl NamespaceLookupOutcome {
    /// Reads a store's raw answer.
    pub fn from_store_result(
        raw: Result<Result<Option<VerificationKey>, StoreError>, StoreError>,
    ) -> (outcome: NamespaceLookupOutcome)
        ensures
            outcome == classify(raw),
    {
        match raw {
            Ok(Ok(Some(key))) => NamespaceLookupOutcome::Completed(KeyLookup::Present(key)),
            Ok(Ok(None)) => NamespaceLookupOutcome::Completed(KeyLookup::Absent),
            Err(StoreError::NamespaceDoesntExist) => NamespaceLookupOutcome::Completed(
                KeyLookup::NoSuchNamespace,
            ),
            Err(StoreError::Other) => NamespaceLookupOutcome::Failed,
            Ok(Err(_)) => NamespaceLookupOutcome::Failed,
        }
    }

    /// Picks the strategy that this outcome calls for.
    pub fn select_strategy(self) -> (choice: Option<StrategyChoice>)
        ensures
            choice == selection(self),
    {
        match self {
            NamespaceLookupOutcome::Completed(KeyLookup::Present(key)) => Some(
                StrategyChoice::NamespaceScoped(key),
            ),
            NamespaceLookupOutcome::Completed(KeyLookup::Absent) => Some(StrategyChoice::Global),
            NamespaceLookupOutcome::Completed(KeyLookup::NoSuchNamespace) => Some(
                StrategyChoice::Global,
            ),
            NamespaceLookupOutcome::Failed => None,
        }
    }
}

} // verus!
