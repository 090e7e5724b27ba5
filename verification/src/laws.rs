//! What holds of every request, whatever the outside answers.
//!
//! The namespace store and the strategies are not part of this library. What
//! they would say if asked is a parameter here, and each law holds for all
//! that they could say.

use vstd::prelude::*;
use crate::auth::{AuthContext, Credential, AuthenticatedIdentity, VerificationKey, Verdict};
use crate::gate::{concluded, forwarding, transition, GateEvent, GateState};
use crate::lookup::{KeyLookup, NamespaceLookupOutcome, StrategyChoice};
use crate::namespace::{well_formed_namespace, NamespaceHeader, NamespaceName};
use crate::request::Request;
use crate::status::{GateError, StatusCode};

verus! {

/// What the outside would answer to one request, if it were asked.
pub struct Answers {
    /// The store, asked for the key of the request's namespace.
    pub lookup: NamespaceLookupOutcome,
    /// The strategy of the namespace's key, asked for its verdict.
    pub scoped: Verdict,
    /// The strategy of the deployment, asked for its verdict.
    pub global: Verdict,
}

/// The event with which the outside answers what `state` waits for. There is
/// none where the state waits for nothing that the outside decides.
pub open spec fn answer(state: GateState, answers: Answers) -> Option<GateEvent> {
    match state {
        GateState::NamespaceResolved { .. } => Some(
            GateEvent::LookupFinished { outcome: answers.lookup },
        ),
        GateState::KeyLookupDone { strategy: StrategyChoice::NamespaceScoped(_), .. } => Some(
            GateEvent::Verified { verdict: answers.scoped },
        ),
        GateState::KeyLookupDone { strategy: StrategyChoice::Global, .. } => Some(
            GateEvent::Verified { verdict: answers.global },
        ),
        _ => None,
    }
}

/// The state after the outside has answered what `state` waits for.
pub open spec fn advance(disable_namespaces: bool, state: GateState, answers: Answers) -> GateState {
    match answer(state, answers) {
        Some(event) => transition(disable_namespaces, state, event),
        None => state,
    }
}

/// The states through which a request passes, from `Start` to the state in
/// which its fate is settled. A state in which the request rests while
/// nothing is asked is listed again.
pub open spec fn passage(
    disable_namespaces: bool,
    namespace: NamespaceHeader,
    credential: Option<Credential>,
    answers: Answers,
) -> Seq<GateState> {
    let arrived = transition(
        disable_namespaces,
        GateState::Start,
        GateEvent::Arrived { namespace, credential },
    );
    let looked_up = advance(disable_namespaces, arrived, answers);
    let verified = advance(disable_namespaces, looked_up, answers);
    seq![GateState::Start, arrived, looked_up, verified]
}

/// Whether the namespace store is asked in one of `states`.
pub open spec fn asks_store(states: Seq<GateState>) -> bool {
    exists|i: int| 0 <= i < states.len() && #[trigger] states[i] is NamespaceResolved
}

/// Whether a strategy is asked in one of `states`, and whether it is the one
/// for a namespace's key (`scoped`) or the deployment's.
pub open spec fn asks_strategy(states: Seq<GateState>, scoped: bool) -> bool {
    exists|i: int|
        0 <= i < states.len() && (#[trigger] states[i] matches GateState::KeyLookupDone {
            strategy,
            ..
        } && (strategy is NamespaceScoped) == scoped)
}

/// Whether a request is let through in one of `states`.
pub open spec fn lets_through(states: Seq<GateState>) -> bool {
    exists|i: int| 0 <= i < states.len() && #[trigger] states[i] is Authenticated
}

/// A passage ends settled: the caller is verified, or the request is turned
/// away. Nothing is left to ask.
pub proof fn passage_settles(
    disable_namespaces: bool,
    namespace: NamespaceHeader,
    credential: Option<Credential>,
    answers: Answers,
)
    ensures
        ({
            let end = passage(disable_namespaces, namespace, credential, answers).last();
            (end is Authenticated || end is Failed) && answer(end, answers) is None
        }),
{
}

/// With namespaces disabled the store is never asked, no strategy of a
/// namespace's key is asked, and the request fares as the deployment's
/// strategy says: that strategy is given no namespace and the request's
/// credential.
pub proof fn disabled_namespaces_leave_it_to_the_global_strategy(
    namespace: NamespaceHeader,
    credential: Option<Credential>,
    answers: Answers,
)
    ensures
        ({
            let states = passage(true, namespace, credential, answers);
            &&& !asks_store(states)
            &&& !asks_strategy(states, true)
            &&& states[1] == (GateState::KeyLookupDone {
                context: AuthContext { namespace: None, credential },
                strategy: StrategyChoice::Global,
            })
            &&& states.last() == concluded(answers.global)
        }),
{
}

/// A caller whom the strategy of the namespace's key accepts is verified,
/// whatever the deployment's strategy would have said: that one is not asked.
pub proof fn the_key_of_a_namespace_decides(
    name: Vec<u8>,
    credential: Option<Credential>,
    key: VerificationKey,
    identity: AuthenticatedIdentity,
    answers: Answers,
)
    requires
        well_formed_namespace(name@),
        answers.lookup == NamespaceLookupOutcome::Completed(KeyLookup::Present(key)),
        answers.scoped == Ok::<AuthenticatedIdentity, crate::auth::AuthFailure>(identity),
    ensures
        ({
            let states = passage(false, NamespaceHeader::Value(name), credential, answers);
            &&& states.last() == GateState::Authenticated { identity }
            &&& !asks_strategy(states, false)
            &&& states[2] == (GateState::KeyLookupDone {
                context: AuthContext { namespace: NamespaceName::parse(name), credential },
                strategy: StrategyChoice::NamespaceScoped(key),
            })
        }),
{
    NamespaceName::parse_is_exact(name);
}

/// Whatever the strategy of a namespace's key says, the request fares
/// accordingly, and the deployment's strategy is not asked.
pub proof fn a_namespace_with_a_key_never_asks_the_global_strategy(
    name: Vec<u8>,
    credential: Option<Credential>,
    key: VerificationKey,
    answers: Answers,
)
    requires
        well_formed_namespace(name@),
        answers.lookup == NamespaceLookupOutcome::Completed(KeyLookup::Present(key)),
    ensures
        ({
            let states = passage(false, NamespaceHeader::Value(name), credential, answers);
            &&& states.last() == concluded(answers.scoped)
            &&& !asks_strategy(states, false)
        }),
{
    NamespaceName::parse_is_exact(name);
}

/// A namespace without a key, and one that does not exist, fare as the
/// deployment's strategy says.
pub proof fn without_a_key_the_global_strategy_decides(
    name: Vec<u8>,
    credential: Option<Credential>,
    answers: Answers,
)
    requires
        well_formed_namespace(name@),
        answers.lookup == NamespaceLookupOutcome::Completed(KeyLookup::Absent) || answers.lookup
            == NamespaceLookupOutcome::Completed(KeyLookup::NoSuchNamespace),
    ensures
        ({
            let states = passage(false, NamespaceHeader::Value(name), credential, answers);
            &&& states.last() == concluded(answers.global)
            &&& !asks_strategy(states, true)
            &&& states[2] == (GateState::KeyLookupDone {
                context: AuthContext { namespace: NamespaceName::parse(name), credential },
                strategy: StrategyChoice::Global,
            })
        }),
{
    NamespaceName::parse_is_exact(name);
}

/// Where the lookup itself fails the request is turned away with an internal
/// error. No strategy is asked, and the request is never let through: offered
/// for forwarding in any state of its passage, it stays behind.
pub proof fn a_failed_lookup_is_an_internal_error<T>(
    name: Vec<u8>,
    credential: Option<Credential>,
    answers: Answers,
    request: Request<T>,
)
    requires
        well_formed_namespace(name@),
        answers.lookup == NamespaceLookupOutcome::Failed,
    ensures
        ({
            let states = passage(false, NamespaceHeader::Value(name), credential, answers);
            &&& states.last() == GateState::Failed { error: GateError::LookupFailure }
            &&& GateError::LookupFailure.spec_code() == StatusCode::Internal
            &&& !asks_strategy(states, true)
            &&& !asks_strategy(states, false)
            &&& !lets_through(states)
            &&& forall|i: int|
                0 <= i < states.len() ==> (#[trigger] forwarding(states[i], request)).1 is None
        }),
{
    NamespaceName::parse_is_exact(name);
}

/// A request that is turned away at any point is never let through.
pub proof fn a_rejected_request_is_never_let_through<T>(
    disable_namespaces: bool,
    namespace: NamespaceHeader,
    credential: Option<Credential>,
    answers: Answers,
    request: Request<T>,
)
    requires
        passage(disable_namespaces, namespace, credential, answers).last() is Failed,
    ensures
        ({
            let states = passage(disable_namespaces, namespace, credential, answers);
            &&& !lets_through(states)
            &&& forall|i: int|
                0 <= i < states.len() ==> (#[trigger] forwarding(states[i], request)).1 is None
        }),
{
}

/// A request leaves for the primary exactly when its caller is verified. It
/// then carries the caller's identity, and its message is the one that came
/// in.
pub proof fn only_verified_requests_leave<T>(state: GateState, request: Request<T>)
    ensures
        forwarding(state, request).1 is Some <==> state is Authenticated,
        forwarding(state, request).1 matches Some(sent) ==> sent.identity is Some
            && state == (GateState::Authenticated { identity: sent.identity->0 })
            && sent.message == request.message && forwarding(state, request).0
            == GateState::Forwarded,
        forwarding(state, request).1 is None ==> forwarding(state, request).0 == state,
{
}

/// A caller becomes verified in one way only: by an accepting verdict,
/// reported while a strategy was at work.
pub proof fn verified_only_by_verdict(disable_namespaces: bool, state: GateState, event: GateEvent)
    requires
        transition(disable_namespaces, state, event) is Authenticated,
        !(state is Authenticated),
    ensures
        state is KeyLookupDone,
        event matches GateEvent::Verified { verdict: Ok(identity) } && transition(
            disable_namespaces,
            state,
            event,
        ) == (GateState::Authenticated { identity }),
{
}

/// Nothing moves a request that has been forwarded or turned away.
pub proof fn settled_states_stay(disable_namespaces: bool, state: GateState, event: GateEvent)
    requires
        state is Forwarded || state is Failed,
    ensures
        transition(disable_namespaces, state, event) == state,
{
}

} // verus!
