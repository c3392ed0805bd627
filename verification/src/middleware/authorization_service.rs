//! Authorization of requests by API key.
//!
//! A request is admitted only when it presents an API key, as visible text
//! in its `API_KEY` header, and that key is stored: the key's last use is
//! then recorded and the request passes on to the wrapped service. A request
//! without such a header is answered `401 Unauthorized` at once, and one whose
//! key is not stored is answered so after the lookup; neither reaches the
//! wrapped service. The lookup, the update and the forwarding are the
//! server's work; this module decides, one event at a time, what it does next.

use vstd::prelude::*;
use crate::middleware::{presented_key, presented_api_key};

verus! {

/// Where an authorization stands.
#[derive(Debug, Clone, Copy, PartialEq, Eq, Structural)]
pub enum AuthorizationState {
    /// Nothing seen yet.
    AwaitingRequest,
    /// The presented key is being looked up.
    AwaitingKeyLookup,
    /// The key with this id matched; its last use is being recorded.
    AwaitingLastUsedUpdate { key_id: u32 },
    /// The request was passed on to the wrapped service.
    Admitted,
    /// The request was answered `401 Unauthorized`.
    Rejected,
}

/// What the server reports back.
#[derive(Debug)]
pub enum AuthorizationEvent {
    /// A request arrived, with the raw value of its API-key header, if any.
    RequestArrived { api_key: Option<Vec<u8>> },
    /// The lookup of the presented key ended: the id of the stored key it
    /// names, or nothing when no stored key matched or the lookup failed.
    KeyLookedUp { key_id: Option<u32> },
    /// The stored key's last use was recorded.
    LastUsedUpdated,
}

/// What the server is to do next.
#[derive(Debug)]
pub enum AuthorizationAction {
    /// Look up the stored API key whose text is `key`.
    LookUpKey { key: String },
    /// Record now as the last use of the stored key `key_id`.
    UpdateLastUsed { key_id: u32 },
    /// Pass the request on to the wrapped service and return its response.
    Forward,
    /// Answer the request with this status and body.
    Respond { status: u16, body: String },
    /// Nothing: the event was not the one awaited.
    Wait,
}

/// An event, with its byte and text contents as sequences.
pub enum AuthorizationEventView {
    RequestArrived { api_key: Option<Seq<u8>> },
    KeyLookedUp { key_id: Option<u32> },
    LastUsedUpdated,
}

/// An action, with its text contents as sequences.
pub enum AuthorizationActionView {
    LookUpKey { key: Seq<char> },
    UpdateLastUsed { key_id: u32 },
    Forward,
    Respond { status: u16, body: Seq<char> },
    Wait,
}

impl View for AuthorizationEvent {
    type V = AuthorizationEventView;

    open spec fn view(&self) -> AuthorizationEventView {
        match self {
            AuthorizationEvent::RequestArrived { api_key } => AuthorizationEventView::RequestArrived {
                api_key: match api_key {
                    Some(bytes) => Some(bytes@),
                    None => None,
                },
            },
            AuthorizationEvent::KeyLookedUp { key_id } => AuthorizationEventView::KeyLookedUp {
                key_id: *key_id,
            },
            AuthorizationEvent::LastUsedUpdated => AuthorizationEventView::LastUsedUpdated,
        }
    }
}

impl View for AuthorizationAction {
    type V = AuthorizationActionView;

    open spec fn view(&self) -> AuthorizationActionView {
        match self {
            AuthorizationAction::LookUpKey { key } => AuthorizationActionView::LookUpKey { key: key@ },
            AuthorizationAction::UpdateLastUsed { key_id } => AuthorizationActionView::UpdateLastUsed {
                key_id: *key_id,
            },
            AuthorizationAction::Forward => AuthorizationActionView::Forward,
            AuthorizationAction::Respond { status, body } => AuthorizationActionView::Respond {
                status: *status,
                body: body@,
            },
            AuthorizationAction::Wait => AuthorizationActionView::Wait,
        }
    }
}

/// The status with which an unauthorized request is answered.
pub open spec fn unauthorized_status() -> u16 {
    401
}

/// The body with which an unauthorized request is answered.
pub open spec fn unauthorized_body() -> Seq<char> {
    "Unauthorized"@
}

/// The authorization rule: the next state and action after an event.
pub open spec fn next(
    state: AuthorizationState,
    event: AuthorizationEventView,
) -> (AuthorizationState, AuthorizationActionView) {
    match (state, event) {
        (AuthorizationState::AwaitingRequest, AuthorizationEventView::RequestArrived { api_key }) =>
            match presented_key(api_key) {
            Some(key) => (AuthorizationState::AwaitingKeyLookup, AuthorizationActionView::LookUpKey { key }),
            None => (
                AuthorizationState::Rejected,
                AuthorizationActionView::Respond {
                    status: unauthorized_status(),
                    body: unauthorized_body(),
                },
            ),
        },
        (AuthorizationState::AwaitingKeyLookup, AuthorizationEventView::KeyLookedUp { key_id }) => match key_id {
            Some(id) => (
                AuthorizationState::AwaitingLastUsedUpdate { key_id: id },
                AuthorizationActionView::UpdateLastUsed { key_id: id },
            ),
            None => (
                AuthorizationState::Rejected,
                AuthorizationActionView::Respond {
                    status: unauthorized_status(),
                    body: unauthorized_body(),
                },
            ),
        },
        (AuthorizationState::AwaitingLastUsedUpdate { .. }, AuthorizationEventView::LastUsedUpdated) => (
            AuthorizationState::Admitted,
            AuthorizationActionView::Forward,
        ),
        _ => (state, AuthorizationActionView::Wait),
    }
}

/// The state reached and the actions taken, one per event, when the events
/// arrive in order from `start`.
pub open spec fn run(
    start: AuthorizationState,
    events: Seq<AuthorizationEventView>,
) -> (AuthorizationState, Seq<AuthorizationActionView>)
    decreases events.len(),
{
    if events.len() == 0 {
        (start, Seq::empty())
    } else {
        let (before, actions) = run(start, events.drop_last());
        let (after, action) = next(before, events.last());
        (after, actions.push(action))
    }
}

impl AuthorizationState {
    /// The state of an authorization that has seen nothing yet.
    pub fn new() -> (state: AuthorizationState)
        ensures
            state == AuthorizationState::AwaitingRequest,
    {
        AuthorizationState::AwaitingRequest
    }

    /// Whether the authorization has ended, admitted or rejected.
    pub fn is_finished(&self) -> (finished: bool)
        ensures
            finished <==> (*self is Admitted || *self is Rejected),
    {
        match self {
            AuthorizationState::Admitted | AuthorizationState::Rejected => true,
            _ => false,
        }
    }

    /// Takes in an event and says what to do next.
    pub fn step(&mut self, event: AuthorizationEvent) -> (action: AuthorizationAction)
        ensures
            (*final(self), action@) == next(*old(self), event@),
    {
        match (*self, event) {
            (AuthorizationState::AwaitingRequest, AuthorizationEvent::RequestArrived { api_key }) => {
                let key = match &api_key {
                    Some(bytes) => presented_api_key(Some(bytes.as_slice())),
                    None => presented_api_key(None),
                };
                match key {
                    Some(key) => {
                        *self = AuthorizationState::AwaitingKeyLookup;
                        AuthorizationAction::LookUpKey { key }
                    },
                    None => {
                        *self = AuthorizationState::Rejected;
                        AuthorizationAction::Respond {
                            status: 401,
                            body: String::from_str("Unauthorized"),
                        }
                    },
                }
            },
            (AuthorizationState::AwaitingKeyLookup, AuthorizationEvent::KeyLookedUp { key_id }) => {
                match key_id {
                    Some(id) => {
                        *self = AuthorizationState::AwaitingLastUsedUpdate { key_id: id };
                        AuthorizationAction::UpdateLastUsed { key_id: id }
                    },
                    None => {
                        *self = AuthorizationState::Rejected;
                        AuthorizationAction::Respond {
                            status: 401,
                            body: String::from_str("Unauthorized"),
                        }
                    },
                }
            },
            (AuthorizationState::AwaitingLastUsedUpdate { .. }, AuthorizationEvent::LastUsedUpdated) => {
                *self = AuthorizationState::Admitted;
                AuthorizationAction::Forward
            },
            _ => AuthorizationAction::Wait,
        }
    }
}


/// Some event before position `k` found a stored key, and the
/// action taken on it recorded that key's last use.
pub open spec fn recorded_found_key(
    events: Seq<AuthorizationEventView>,
    actions: Seq<AuthorizationActionView>,
    k: int,
) -> bool {
    exists|j: int|
        0 <= j < k && #[trigger] actions[j] is UpdateLastUsed && events[j]
            == (AuthorizationEventView::KeyLookedUp { key_id: Some(actions[j]->UpdateLastUsed_key_id) })
}

/// What holds of every run from a fresh authorization, whatever the events.
pub open spec fn run_is_sound(
    events: Seq<AuthorizationEventView>,
    actions: Seq<AuthorizationActionView>,
) -> bool {
    &&& actions.len() == events.len()
    &&& forall|k: int|
        0 <= k < actions.len() && #[trigger] actions[k] is Forward ==> recorded_found_key(
            events,
            actions,
            k,
        )
    &&& forall|k: int|
        0 <= k < actions.len() && #[trigger] actions[k] is UpdateLastUsed ==> events[k]
            == (AuthorizationEventView::KeyLookedUp { key_id: Some(actions[k]->UpdateLastUsed_key_id) })
    &&& forall|k: int|
        0 <= k < actions.len() && #[trigger] actions[k] is LookUpKey ==> {
            &&& events[k] is RequestArrived
            &&& presented_key(events[k]->RequestArrived_api_key) == Some(actions[k]->LookUpKey_key)
        }
    &&& forall|j: int, k: int|
        0 <= j < k < actions.len() && (#[trigger] actions[j] is Forward || actions[j] is Respond)
            ==> #[trigger] actions[k] is Wait
}

proof fn lemma_run_invariant(events: Seq<AuthorizationEventView>)
    ensures
        ({
            let (state, actions) = run(AuthorizationState::AwaitingRequest, events);
            &&& run_is_sound(events, actions)
            &&& (state is AwaitingRequest || state is AwaitingKeyLookup) ==> forall|k: int|
                0 <= k < actions.len() ==> !(#[trigger] actions[k] is Forward)
                    && !(actions[k] is Respond)
            &&& state is AwaitingLastUsedUpdate ==> {
                &&& recorded_found_key(events, actions, events.len() as int)
                &&& exists|j: int|
                    0 <= j < events.len() && #[trigger] events[j] == (AuthorizationEventView::KeyLookedUp {
                        key_id: Some(state->key_id),
                    }) && actions[j] == (AuthorizationActionView::UpdateLastUsed {
                        key_id: state->key_id,
                    })
                &&& forall|k: int|
                    0 <= k < actions.len() ==> !(#[trigger] actions[k] is Forward)
                        && !(actions[k] is Respond)
            }
            &&& state is Admitted ==> forall|k: int|
                0 <= k < actions.len() ==> !(#[trigger] actions[k] is Respond)
            &&& state is Rejected ==> forall|k: int|
                0 <= k < actions.len() ==> !(#[trigger] actions[k] is Forward)
        }),
    decreases events.len(),
{
    if events.len() > 0 {
        let prefix = events.drop_last();
        lemma_run_invariant(prefix);
        let (before, earlier) = run(AuthorizationState::AwaitingRequest, prefix);
        let (after, action) = next(before, events.last());
        let actions = earlier.push(action);
        assert(run(AuthorizationState::AwaitingRequest, events) == (after, actions));
        let n: int = prefix.len() as int;
        assert forall|k: int| 0 <= k < n implies #[trigger] actions[k] == earlier[k] && events[k]
            == prefix[k] by {}
        assert(actions[n] == action && events[n] == events.last());
        if before is AwaitingLastUsedUpdate {
            let j = choose|j: int|
                0 <= j < prefix.len() && #[trigger] prefix[j] == (AuthorizationEventView::KeyLookedUp {
                    key_id: Some(before->key_id),
                }) && earlier[j] == (AuthorizationActionView::UpdateLastUsed {
                    key_id: before->key_id,
                });
            assert(events[j] == prefix[j] && actions[j] == earlier[j]);
            assert(recorded_found_key(events, actions, n));
            assert(exists|j: int|
                0 <= j < events.len() && #[trigger] events[j] == (AuthorizationEventView::KeyLookedUp {
                    key_id: Some(before->key_id),
                }) && actions[j] == (AuthorizationActionView::UpdateLastUsed {
                    key_id: before->key_id,
                }));
        }
        if after is AwaitingLastUsedUpdate && !(before is AwaitingLastUsedUpdate) {
            assert(events[n] == (AuthorizationEventView::KeyLookedUp { key_id: Some(after->key_id) }));
            assert(actions[n] == (AuthorizationActionView::UpdateLastUsed { key_id: after->key_id }));
            assert(recorded_found_key(events, actions, events.len() as int));
        }
        assert forall|k: int|
            0 <= k < actions.len() && #[trigger] actions[k] is Forward implies recorded_found_key(
                events,
                actions,
                k,
            ) by {
            if k < n {
                let j = choose|j: int|
                    0 <= j < k && #[trigger] earlier[j] is UpdateLastUsed && prefix[j]
                        == (AuthorizationEventView::KeyLookedUp {
                        key_id: Some(earlier[j]->UpdateLastUsed_key_id),
                    });
                assert(events[j] == prefix[j] && actions[j] == earlier[j]);
            }
        }
    }
}

/// Law: from a fresh authorization, whatever events arrive, only a key that
/// the request presents as visible text in its header is looked up; a
/// request is passed on only after a lookup found its key and that key's last
/// use was recorded; a last use is recorded only for a key the lookup found;
/// and a request is passed on or answered at most once, never both.
pub proof fn lemma_forward_only_after_recorded_key(events: Seq<AuthorizationEventView>)
    ensures
        run_is_sound(events, run(AuthorizationState::AwaitingRequest, events).1),
{
    lemma_run_invariant(events);
}

/// Law: a request without a key in its header, or with one that is not
/// visible text, is answered `401 Unauthorized` at once, with no lookup, and
/// is never passed on. A request that presents a key is looked up by it; when
/// that key is stored, its last use is recorded and the request is passed on;
/// otherwise the request is answered `401 Unauthorized` and never passed on.
pub proof fn lemma_authorization_outcome(api_key: Option<Seq<u8>>, key_id: Option<u32>)
    ensures
        unauthorized_status() == 401,
        unauthorized_body() == "Unauthorized"@,
        ({
            let events = seq![
                AuthorizationEventView::RequestArrived { api_key },
                AuthorizationEventView::KeyLookedUp { key_id },
                AuthorizationEventView::LastUsedUpdated,
            ];
            let reject = AuthorizationActionView::Respond {
                status: unauthorized_status(),
                body: unauthorized_body(),
            };
            run(AuthorizationState::AwaitingRequest, events) == match presented_key(api_key) {
                None => (
                    AuthorizationState::Rejected,
                    seq![reject, AuthorizationActionView::Wait, AuthorizationActionView::Wait],
                ),
                Some(key) => match key_id {
                    Some(id) => (
                        AuthorizationState::Admitted,
                        seq![
                            AuthorizationActionView::LookUpKey { key },
                            AuthorizationActionView::UpdateLastUsed { key_id: id },
                            AuthorizationActionView::Forward,
                        ],
                    ),
                    None => (
                        AuthorizationState::Rejected,
                        seq![
                            AuthorizationActionView::LookUpKey { key },
                            reject,
                            AuthorizationActionView::Wait,
                        ],
                    ),
                },
            }
        }),
{
    let events = seq![
        AuthorizationEventView::RequestArrived { api_key },
        AuthorizationEventView::KeyLookedUp { key_id },
        AuthorizationEventView::LastUsedUpdated,
    ];
    assert(events.drop_last().drop_last().drop_last() =~= Seq::<AuthorizationEventView>::empty());
    assert(events.drop_last().drop_last() =~= seq![events[0]]);
    assert(events.drop_last() =~= seq![events[0], events[1]]);
    let r0 = run(AuthorizationState::AwaitingRequest, events.drop_last().drop_last().drop_last());
    let r1 = run(AuthorizationState::AwaitingRequest, events.drop_last().drop_last());
    let r2 = run(AuthorizationState::AwaitingRequest, events.drop_last());
    let r3 = run(AuthorizationState::AwaitingRequest, events);
    assert(r1.1 =~= r0.1.push(next(r0.0, events[0]).1));
    assert(r2.1 =~= r1.1.push(next(r1.0, events[1]).1));
    assert(r3.1 =~= r2.1.push(next(r2.0, events[2]).1));
}

} // verus!
