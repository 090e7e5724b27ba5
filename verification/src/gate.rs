//! The forwarding decision: one small state machine for each request.
//!
//! A request enters at `Start`. The machine reads its namespace, waits for the
//! namespace's key to be looked up, waits for the verdict of the strategy that
//! the lookup called for, and then lets the request through. Each state but
//! the first and the last two waits for one thing that only the outside can
//! do; `pending` says which. The outside does it and reports with an event.
//!
//! ```text
//! Start -> NamespaceResolved -> KeyLookupDone -> Authenticated -> Forwarded
//!    \            \                  \
//!     +------------+------------------+--> Failed
//! ```
//!
//! With namespaces disabled there is no key to look up, and the machine goes from
//! `Start` straight to `KeyLookupDone`.

use vstd::prelude::*;
use crate::auth::{AuthContext, AuthStrategy, AuthenticatedIdentity, Credential, NamespaceStrategy, Verdict};
use crate::lookup::{selection, NamespaceLookupOutcome, StrategyChoice};
use crate::namespace::{extract_namespace, extraction, NamespaceHeader, NamespaceName};
use crate::request::Request;
use crate::status::GateError;

verus! {

/// Where a request stands on its way through the proxy.
#[derive(Debug, PartialEq, Eq)]
pub enum GateState {
    /// Nothing has been read of the request yet.
    Start,
    /// The request names a namespace. The key of that namespace is being
    /// looked up.
    NamespaceResolved { namespace: NamespaceName, credential: Option<Credential> },
    /// It is settled which strategy verifies the caller. The strategy is at
    /// work on `context`.
    KeyLookupDone { context: AuthContext, strategy: StrategyChoice },
    /// The caller is verified. The request can be stamped and handed over.
    Authenticated { identity: AuthenticatedIdentity },
    /// The request, stamped, has been handed to the primary.
    Forwarded,
    /// The request was turned away. It never reaches the primary.
    Failed { error: GateError },
}

/// What the outside reports to the machine.
#[derive(Debug, PartialEq, Eq)]
pub enum GateEvent {
    /// A request has come in, with these entries in its metadata.
    Arrived { namespace: NamespaceHeader, credential: Option<Credential> },
    /// The namespace store has answered, or has failed to.
    LookupFinished { outcome: NamespaceLookupOutcome },
    /// The strategy has spoken.
    Verified { verdict: Verdict },
}

/// What a state waits for.
#[derive(Clone, Copy, Debug, PartialEq, Eq, Structural)]
pub enum GateAction {
    /// Hand over a request.
    Receive,
    /// Ask the namespace store for the key of the state's namespace.
    LookupKey,
    /// Have the state's strategy verify the state's context.
    Authenticate,
    /// Stamp the request and send it to the primary.
    Forward,
    /// Answer the caller with the state's error.
    Reject,
    /// Nothing is left to do.
    Done,
}

/// The state in which a verdict leaves a request: verified, or turned away
/// with the strategy's own failure.
pub open spec fn concluded(verdict: Verdict) -> GateState {
    match verdict {
        Ok(identity) => GateState::Authenticated { identity },
        Err(failure) => GateState::Failed { error: GateError::Authentication(failure) },
    }
}

/// The state that follows `state` when `event` is reported.
///
/// Each state takes the one event that answers what it waits for. Any other
/// event leaves it as it is; so does every event in a state that waits for
/// nothing.
pub open spec fn transition(disable_namespaces: bool, state: GateState, event: GateEvent) -> GateState {
    match (state, event) {
        (GateState::Start, GateEvent::Arrived { namespace, credential }) => match extraction(
            disable_namespaces,
            namespace,
        ) {
            Ok(Some(name)) => GateState::NamespaceResolved { namespace: name, credential },
            Ok(None) => GateState::KeyLookupDone {
                context: AuthContext { namespace: None, credential },
                strategy: StrategyChoice::Global,
            },
            Err(e) => GateState::Failed { error: GateError::Routing(e) },
        },
        (
            GateState::NamespaceResolved { namespace, credential },
            GateEvent::LookupFinished { outcome },
        ) => match selection(outcome) {
            Some(strategy) => GateState::KeyLookupDone {
                context: AuthContext { namespace: Some(namespace), credential },
                strategy,
            },
            None => GateState::Failed { error: GateError::LookupFailure },
        },
        (GateState::KeyLookupDone { .. }, GateEvent::Verified { verdict }) => concluded(verdict),
        (state, _) => state,
    }
}

/// What becomes of a state and of a request when the request is offered for
/// forwarding: a verified caller's request goes out stamped, any other stays
/// behind.
pub open spec fn forwarding<T>(state: GateState, request: Request<T>) -> (GateState, Option<Request<T>>) {
    match state {
        GateState::Authenticated { identity } => (
            GateState::Forwarded,
            Some(Request { identity: Some(identity), message: request.message }),
        ),
        other => (other, None),
    }
}

impl GateState {
    /// What this state waits for.
    pub open spec fn spec_pending(&self) -> GateAction {
        match *self {
            GateState::Start => GateAction::Receive,
            GateState::NamespaceResolved { .. } => GateAction::LookupKey,
            GateState::KeyLookupDone { .. } => GateAction::Authenticate,
            GateState::Authenticated { .. } => GateAction::Forward,
            GateState::Forwarded => GateAction::Done,
            GateState::Failed { .. } => GateAction::Reject,
        }
    }

    #[verifier::when_used_as_spec(spec_pending)]
    pub fn pending(&self) -> (action: GateAction)
        ensures
            action == self.spec_pending(),
    {
        match self {
            GateState::Start => GateAction::Receive,
            GateState::NamespaceResolved { .. } => GateAction::LookupKey,
            GateState::KeyLookupDone { .. } => GateAction::Authenticate,
            GateState::Authenticated { .. } => GateAction::Forward,
            GateState::Forwarded => GateAction::Done,
            GateState::Failed { .. } => GateAction::Reject,
        }
    }

    /// The namespace whose key is being looked up, if one is.
    pub fn namespace(&self) -> (namespace: Option<&NamespaceName>)
        ensures
            namespace == match *self {
                GateState::NamespaceResolved { namespace, .. } => Some(&namespace),
                _ => None,
            },
    {
        match self {
            GateState::NamespaceResolved { namespace, .. } => Some(namespace),
            _ => None,
        }
    }

    /// The error with which the request was turned away, if it was.
    pub fn error(&self) -> (error: Option<&GateError>)
        ensures
            error == match *self {
                GateState::Failed { error } => Some(&error),
                _ => None,
            },
    {
        match self {
            GateState::Failed { error } => Some(error),
            _ => None,
        }
    }

    /// Offers `request` for forwarding. It comes back stamped with the
    /// caller's identity if the caller is verified, and the state moves on to
    /// `Forwarded`. In every other state nothing comes back and nothing
    /// changes: there is nothing to send.
    pub fn forward<T>(self, request: Request<T>) -> (r: (GateState, Option<Request<T>>))
        ensures
            r == forwarding(self, request),
    {
        match self {
            GateState::Authenticated { identity } => {
                let mut request = request;
                request.attach_identity(identity);
                (GateState::Forwarded, Some(request))
            },
            other => (other, None),
        }
    }
}

/// The machine of one service. All it knows is whether the service tells
/// namespaces apart.
#[derive(Clone, Copy, Debug, PartialEq, Eq, Structural)]
pub struct ForwardingGate {
    pub disable_namespaces: bool,
}

impl ForwardingGate {
    pub fn new(disable_namespaces: bool) -> (made: ForwardingGate)
        ensures
            made.disable_namespaces == disable_namespaces,
    {
        ForwardingGate { disable_namespaces }
    }

    /// Takes `state` to the state that follows it on `event`.
    pub fn step(&self, state: GateState, event: GateEvent) -> (next: GateState)
        ensures
            next == transition(self.disable_namespaces, state, event),
    {
        match (state, event) {
            (GateState::Start, GateEvent::Arrived { namespace, credential }) => {
                match extract_namespace(self.disable_namespaces, namespace) {
                    Ok(Some(name)) => GateState::NamespaceResolved { namespace: name, credential },
                    Ok(None) => GateState::KeyLookupDone {
                        context: AuthContext { namespace: None, credential },
                        strategy: StrategyChoice::Global,
                    },
                    Err(e) => GateState::Failed { error: GateError::Routing(e) },
                }
            },
            (
                GateState::NamespaceResolved { namespace, credential },
                GateEvent::LookupFinished { outcome },
            ) => {
                match outcome.select_strategy() {
                    Some(strategy) => GateState::KeyLookupDone {
                        context: AuthContext { namespace: Some(namespace), credential },
                        strategy,
                    },
                    None => GateState::Failed { error: GateError::LookupFailure },
                }
            },
            (GateState::KeyLookupDone { .. }, GateEvent::Verified { verdict }) => {
                match verdict {
                    Ok(identity) => GateState::Authenticated { identity },
                    Err(failure) => GateState::Failed { error: GateError::Authentication(failure) },
                }
            },
            (state, _) => state,
        }
    }

    /// Has the strategy that `state` waits for verify the caller, and takes
    /// the state on with the verdict. The callers of a namespace with a key
    /// are verified by an `N` made for that key, all others by `global`. The
    /// strategy is asked once, about the context of the state.
    ///
    /// Nothing is known of a strategy's verdict beforehand. Whatever it is,
    /// the state that comes back is the one in which that verdict leaves the
    /// request, as `step` would give it. A state that waits for no verdict
    /// comes back unchanged, and no strategy is asked.
    pub fn authenticate<N: NamespaceStrategy, G: AuthStrategy>(
        &self,
        state: GateState,
        global: &G,
    ) -> (next: GateState)
        ensures
            state matches GateState::KeyLookupDone { context, strategy: StrategyChoice::Global }
                ==> exists|verdict: Verdict| #[trigger]
                global.may_decide(context, verdict) && next == concluded(verdict),
            state matches GateState::KeyLookupDone {
                context,
                strategy: StrategyChoice::NamespaceScoped(key),
            } ==> exists|scoped: N, verdict: Verdict|
                scoped.made_for(key) && #[trigger] scoped.may_decide(context, verdict) && next
                    == concluded(verdict),
            !(state is KeyLookupDone) ==> next == state,
    {
        match state {
            GateState::KeyLookupDone { context, strategy } => {
                let verdict = match strategy {
                    StrategyChoice::NamespaceScoped(key) => {
                        let scoped = N::for_key(key);
                        let verdict = scoped.authenticate(&context);
                        assert(scoped.made_for(key) && scoped.may_decide(context, verdict));
                        verdict
                    },
                    StrategyChoice::Global => global.authenticate(&context),
                };
                let ghost said = verdict;
                let next = match verdict {
                    Ok(identity) => GateState::Authenticated { identity },
                    Err(failure) => GateState::Failed { error: GateError::Authentication(failure) },
                };
                assert(next == concluded(said));
                next
            },
            other => other,
        }
    }
}

} // verus!
