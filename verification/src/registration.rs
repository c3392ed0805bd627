//! Registration of a user together with an API key for it.
//!
//! The user is stored first; when that fails, the failure is handed back.
//! Otherwise a key is issued to the stored user (see
//! `database::api_keys`), and the stored user is handed back. A key that
//! cannot be issued fails the registration. The storing is the server's
//! work; this module decides what it does next.

use vstd::prelude::*;
use crate::database::api_keys::key_not_saved;
use crate::models::{ApiKey, NewUser, User};

verus! {

/// Where a registration stands.
#[derive(Debug)]
pub enum RegistrationState {
    /// The new user is being stored.
    AwaitingUser,
    /// This stored user's key is being stored.
    AwaitingApiKey { user: User },
    /// The registration ended.
    Finished,
}

/// What the server reports back; `E` is its storage error.
#[derive(Debug)]
#[allow(inconsistent_fields)]
pub enum RegistrationEvent<E> {
    /// Storing the user ended, with the stored user or an error.
    UserStored { result: Result<User, E> },
    /// Issuing the key ended, with the stored key or an error.
    ApiKeyStored { result: Result<ApiKey, E> },
}

/// What the server is to do next.
#[derive(Debug)]
pub enum RegistrationAction<E> {
    /// Store this user.
    StoreUser { new_user: NewUser },
    /// Issue a key to the user `user_id`.
    IssueKey { user_id: u32 },
    /// The registration ended with this result.
    Finish { result: Result<User, E> },
    /// Give up with this reason.
    Fail { reason: String },
    /// Nothing: the event was not the one awaited.
    Wait,
}

/// An action with its texts as sequences.
pub enum RegistrationActionView<E> {
    StoreUser { new_user: NewUser },
    IssueKey { user_id: u32 },
    Finish { result: Result<User, E> },
    Fail { reason: Seq<char> },
    Wait,
}

impl<E> View for RegistrationAction<E> {
    type V = RegistrationActionView<E>;

    open spec fn view(&self) -> RegistrationActionView<E> {
        match self {
            RegistrationAction::StoreUser { new_user } => RegistrationActionView::StoreUser {
                new_user: *new_user,
            },
            RegistrationAction::IssueKey { user_id } => RegistrationActionView::IssueKey {
                user_id: *user_id,
            },
            RegistrationAction::Finish { result } => RegistrationActionView::Finish { result: *result },
            RegistrationAction::Fail { reason } => RegistrationActionView::Fail { reason: reason@ },
            RegistrationAction::Wait => RegistrationActionView::Wait,
        }
    }
}

/// The registration rule: the next state and action after an event.
pub open spec fn next<E>(state: RegistrationState, event: RegistrationEvent<E>) -> (
    RegistrationState,
    RegistrationActionView<E>,
) {
    match (state, event) {
        (RegistrationState::AwaitingUser, RegistrationEvent::UserStored { result }) => match result {
            Ok(user) => (
                RegistrationState::AwaitingApiKey { user },
                RegistrationActionView::IssueKey { user_id: user.id },
            ),
            Err(error) => (
                RegistrationState::Finished,
                RegistrationActionView::Finish { result: Err(error) },
            ),
        },
        (RegistrationState::AwaitingApiKey { user }, RegistrationEvent::ApiKeyStored { result }) =>
            match result {
            Ok(_) => (RegistrationState::Finished, RegistrationActionView::Finish { result: Ok(user) }),
            Err(_) => (RegistrationState::Finished, RegistrationActionView::Fail { reason: key_not_saved() }),
        },
        _ => (state, RegistrationActionView::Wait),
    }
}

/// The state reached and the actions taken, one per event, when the events
/// arrive in order from `start`.
pub open spec fn run<E>(start: RegistrationState, events: Seq<RegistrationEvent<E>>) -> (
    RegistrationState,
    Seq<RegistrationActionView<E>>,
)
    decreases events.len(),
{
    if events.len() == 0 {
        (start, Seq::empty())
    } else {
        let (before, actions) = run(start, events.drop_last());
        let (after, action) = next(before, events.last());
        (after, actions.push(action))
    }
}

impl RegistrationState {
    /// Starts registering this user: the first thing to do is store it.
    pub fn begin<E>(new_user: NewUser) -> (result: (RegistrationState, RegistrationAction<E>))
        ensures
            result.0 is AwaitingUser,
            result.1@ == (RegistrationActionView::<E>::StoreUser { new_user }),
    {
        (RegistrationState::AwaitingUser, RegistrationAction::StoreUser { new_user })
    }

    /// Whether the registration has ended.
    pub fn is_finished(&self) -> (finished: bool)
        ensures
            finished <==> *self is Finished,
    {
        match self {
            RegistrationState::Finished => true,
            _ => false,
        }
    }

    /// Takes in an event and says what to do next.
    pub fn step<E>(self, event: RegistrationEvent<E>) -> (result: (RegistrationState, RegistrationAction<E>))
        ensures
            (result.0, result.1@) == next(self, event),
    {
        match (self, event) {
            (RegistrationState::AwaitingUser, RegistrationEvent::UserStored { result }) => match result {
                Ok(user) => {
                    let user_id = user.id;
                    (RegistrationState::AwaitingApiKey { user }, RegistrationAction::IssueKey { user_id })
                },
                Err(error) => (
                    RegistrationState::Finished,
                    RegistrationAction::Finish { result: Err(error) },
                ),
            },
            (RegistrationState::AwaitingApiKey { user }, RegistrationEvent::ApiKeyStored { result }) => {
                match result {
                    Ok(_) => (RegistrationState::Finished, RegistrationAction::Finish { result: Ok(user) }),
                    Err(_) => (
                        RegistrationState::Finished,
                        RegistrationAction::Fail {
                            reason: String::from_str("Error while saving api key"),
                        },
                    ),
                }
            },
            (state, _) => (state, RegistrationAction::Wait),
        }
    }
}


/// Some event before position `k` reported this user stored, and the action
/// taken on it asked for a key to be issued to it.
pub open spec fn issued_key_to<E>(
    events: Seq<RegistrationEvent<E>>,
    actions: Seq<RegistrationActionView<E>>,
    k: int,
    user: User,
) -> bool {
    exists|j: int|
        0 <= j < k && #[trigger] events[j] == (RegistrationEvent::<E>::UserStored { result: Ok(user) })
            && actions[j] == (RegistrationActionView::<E>::IssueKey { user_id: user.id })
}

/// Nothing has ended the registration yet.
pub open spec fn nothing_ended<E>(actions: Seq<RegistrationActionView<E>>) -> bool {
    forall|k: int|
        0 <= k < actions.len() ==> !(#[trigger] actions[k] is Finish) && !(actions[k] is Fail)
}

/// What holds of every run of a registration, whatever the events.
pub open spec fn run_is_sound<E>(
    events: Seq<RegistrationEvent<E>>,
    actions: Seq<RegistrationActionView<E>>,
) -> bool {
    &&& actions.len() == events.len()
    &&& forall|k: int|
        0 <= k < actions.len() && #[trigger] actions[k] is Finish && actions[k]->Finish_result is Ok
            ==> {
            &&& events[k] is ApiKeyStored
            &&& events[k]->ApiKeyStored_result is Ok
            &&& issued_key_to(events, actions, k, actions[k]->Finish_result->Ok_0)
        }
    &&& forall|j: int, k: int|
        0 <= j < k < actions.len() && (#[trigger] actions[j] is Finish || actions[j] is Fail)
            ==> #[trigger] actions[k] is Wait
}

proof fn lemma_run_invariant<E>(events: Seq<RegistrationEvent<E>>)
    ensures
        ({
            let (state, actions) = run(RegistrationState::AwaitingUser, events);
            &&& run_is_sound(events, actions)
            &&& state is AwaitingUser ==> nothing_ended(actions)
            &&& state is AwaitingApiKey ==> {
                &&& nothing_ended(actions)
                &&& issued_key_to(events, actions, events.len() as int, state->user)
            }
        }),
    decreases events.len(),
{
    if events.len() > 0 {
        let prefix = events.drop_last();
        lemma_run_invariant(prefix);
        let (before, earlier) = run(RegistrationState::AwaitingUser, prefix);
        let (after, action) = next(before, events.last());
        let actions = earlier.push(action);
        assert(run(RegistrationState::AwaitingUser, events) == (after, actions));
        let n: int = prefix.len() as int;
        assert forall|k: int| 0 <= k < n implies #[trigger] actions[k] == earlier[k] && events[k]
            == prefix[k] by {}
        assert(actions[n] == action && events[n] == events.last());
        assert forall|k: int, user: User|
            0 <= k <= n && issued_key_to(prefix, earlier, k, user) implies issued_key_to(
            events,
            actions,
            k,
            user,
        ) by {
            let j = choose|j: int|
                0 <= j < k && #[trigger] prefix[j] == (RegistrationEvent::<E>::UserStored {
                    result: Ok(user),
                }) && earlier[j] == (RegistrationActionView::<E>::IssueKey { user_id: user.id });
            assert(events[j] == prefix[j]);
        }
        if after is AwaitingApiKey && before is AwaitingUser {
            assert(issued_key_to(events, actions, n + 1, after->user));
        }
    }
}

/// Law: whatever events arrive, a registration hands back a user only after
/// that user was reported stored, a key was asked to be issued to it, and the
/// key was reported issued; and once it has ended, it does nothing more.
pub proof fn lemma_registration_is_sound<E>(events: Seq<RegistrationEvent<E>>)
    ensures
        run_is_sound(events, run(RegistrationState::AwaitingUser, events).1),
{
    lemma_run_invariant(events);
}

/// Law: registering a user stores it; an error in doing so is handed back
/// as it is. Otherwise a key is issued to the stored user's id, and then the
/// stored user is handed back, or, when the key cannot be issued, the
/// registration fails with "Error while saving api key".
pub proof fn lemma_registration_outcome<E>(
    stored_user: Result<User, E>,
    stored_key: Result<ApiKey, E>,
)
    ensures
        ({
            let events = seq![
                RegistrationEvent::UserStored { result: stored_user },
                RegistrationEvent::ApiKeyStored { result: stored_key },
            ];
            let actions = run(RegistrationState::AwaitingUser, events).1;
            match stored_user {
                Err(error) => actions == seq![
                    RegistrationActionView::Finish { result: Err(error) },
                    RegistrationActionView::Wait,
                ],
                Ok(user) => actions == seq![
                    RegistrationActionView::<E>::IssueKey { user_id: user.id },
                    match stored_key {
                        Ok(_) => RegistrationActionView::<E>::Finish { result: Ok(user) },
                        Err(_) => RegistrationActionView::<E>::Fail { reason: key_not_saved() },
                    },
                ],
            }
        }),
{
    let events = seq![
        RegistrationEvent::UserStored { result: stored_user },
        RegistrationEvent::ApiKeyStored { result: stored_key },
    ];
    let e1 = events.drop_last();
    let e0 = e1.drop_last();
    assert(e0 =~= Seq::<RegistrationEvent<E>>::empty());
    assert(e1 =~= seq![events[0]]);
    let r0 = run(RegistrationState::AwaitingUser, e0);
    let r1 = run(RegistrationState::AwaitingUser, e1);
    let r2 = run(RegistrationState::AwaitingUser, events);
    assert(r1.1 =~= r0.1.push(next(r0.0, events[0]).1));
    assert(r2.1 =~= r1.1.push(next(r1.0, events[1]).1));
}

} // verus!
