//! Issuing an API key to a user.
//!
//! A key is drawn at random; an empty key is drawn again. The drawn key is
//! checked against the stored keys and drawn again while it is in use. An
//! unused key is stored for the user, and the stored key is handed back. A
//! check or a store that fails gives up the issuing. The drawing, checking
//! and storing are the server's work; this module decides what it does next.

use vstd::prelude::*;
use crate::models::{ApiKey, NewApiKey};
use crate::text::{is_alphanumeric_char, random_alphanumeric_text};

verus! {

/// The number of characters in a drawn key.
pub const KEY_LENGTH: usize = 32;

/// Draws a key: `KEY_LENGTH` random ASCII letters or digits.
pub fn generate_api_key() -> (key: String)
    ensures
        key@.len() == KEY_LENGTH,
        forall|i: int| 0 <= i < KEY_LENGTH ==> is_alphanumeric_char(#[trigger] key@[i]),
{
    random_alphanumeric_text(KEY_LENGTH)
}

/// The reason given when an issued key cannot be checked or stored.
pub open spec fn key_not_saved() -> Seq<char> {
    "Error while saving api key"@
}

/// Where the issuing of a key to the user `user_id` stands.
#[derive(Debug)]
pub enum KeyIssuanceState {
    /// A key is being drawn.
    AwaitingKey { user_id: u32 },
    /// The drawn key is being checked against the stored keys.
    AwaitingCheck { user_id: u32, key: String },
    /// The key is being stored.
    AwaitingStore,
    /// The key was issued, or the issuing gave up.
    Finished,
}

/// A state with its key as a sequence.
pub enum KeyIssuanceStateView {
    AwaitingKey { user_id: u32 },
    AwaitingCheck { user_id: u32, key: Seq<char> },
    AwaitingStore,
    Finished,
}

impl View for KeyIssuanceState {
    type V = KeyIssuanceStateView;

    open spec fn view(&self) -> KeyIssuanceStateView {
        match self {
            KeyIssuanceState::AwaitingKey { user_id } => KeyIssuanceStateView::AwaitingKey {
                user_id: *user_id,
            },
            KeyIssuanceState::AwaitingCheck { user_id, key } => KeyIssuanceStateView::AwaitingCheck {
                user_id: *user_id,
                key: key@,
            },
            KeyIssuanceState::AwaitingStore => KeyIssuanceStateView::AwaitingStore,
            KeyIssuanceState::Finished => KeyIssuanceStateView::Finished,
        }
    }
}

/// What the server reports back; `E` is its storage error.
#[derive(Debug)]
pub enum KeyIssuanceEvent<E> {
    /// A key was drawn.
    KeyDrawn { key: String },
    /// The check of the drawn key ended: whether a stored key has its text,
    /// or an error.
    KeyChecked { in_use: Result<bool, E> },
    /// Storing the key ended, with the stored key or an error.
    KeyStored { result: Result<ApiKey, E> },
}

/// An event with its key as a sequence.
pub enum KeyIssuanceEventView<E> {
    KeyDrawn { key: Seq<char> },
    KeyChecked { in_use: Result<bool, E> },
    KeyStored { result: Result<ApiKey, E> },
}

impl<E> View for KeyIssuanceEvent<E> {
    type V = KeyIssuanceEventView<E>;

    open spec fn view(&self) -> KeyIssuanceEventView<E> {
        match self {
            KeyIssuanceEvent::KeyDrawn { key } => KeyIssuanceEventView::KeyDrawn { key: key@ },
            KeyIssuanceEvent::KeyChecked { in_use } => KeyIssuanceEventView::KeyChecked { in_use: *in_use },
            KeyIssuanceEvent::KeyStored { result } => KeyIssuanceEventView::KeyStored { result: *result },
        }
    }
}

/// What the server is to do next.
#[derive(Debug)]
pub enum KeyIssuanceAction {
    /// Draw a key with `generate_api_key`.
    DrawKey,
    /// Check whether a stored key has this text.
    CheckUnused { key: String },
    /// Store this key.
    StoreKey { new_api_key: NewApiKey },
    /// The key was issued as this stored key.
    Issued { api_key: ApiKey },
    /// Give up with this reason.
    Fail { reason: String },
    /// Nothing: the event was not the one awaited.
    Wait,
}

/// An action with its texts as sequences.
pub enum KeyIssuanceActionView {
    DrawKey,
    CheckUnused { key: Seq<char> },
    StoreKey { key: Seq<char>, user_id: u32 },
    Issued { api_key: ApiKey },
    Fail { reason: Seq<char> },
    Wait,
}

impl View for KeyIssuanceAction {
    type V = KeyIssuanceActionView;

    open spec fn view(&self) -> KeyIssuanceActionView {
        match self {
            KeyIssuanceAction::DrawKey => KeyIssuanceActionView::DrawKey,
            KeyIssuanceAction::CheckUnused { key } => KeyIssuanceActionView::CheckUnused { key: key@ },
            KeyIssuanceAction::StoreKey { new_api_key } => KeyIssuanceActionView::StoreKey {
                key: new_api_key.key@,
                user_id: new_api_key.user_id,
            },
            KeyIssuanceAction::Issued { api_key } => KeyIssuanceActionView::Issued { api_key: *api_key },
            KeyIssuanceAction::Fail { reason } => KeyIssuanceActionView::Fail { reason: reason@ },
            KeyIssuanceAction::Wait => KeyIssuanceActionView::Wait,
        }
    }
}

/// The issuing rule: the next state and action after an event.
pub open spec fn next<E>(state: KeyIssuanceStateView, event: KeyIssuanceEventView<E>) -> (
    KeyIssuanceStateView,
    KeyIssuanceActionView,
) {
    match (state, event) {
        (KeyIssuanceStateView::AwaitingKey { user_id }, KeyIssuanceEventView::KeyDrawn { key }) =>
            if key.len() == 0 {
            (KeyIssuanceStateView::AwaitingKey { user_id }, KeyIssuanceActionView::DrawKey)
        } else {
            (
                KeyIssuanceStateView::AwaitingCheck { user_id, key },
                KeyIssuanceActionView::CheckUnused { key },
            )
        },
        (KeyIssuanceStateView::AwaitingCheck { user_id, key }, KeyIssuanceEventView::KeyChecked { in_use }) =>
            match in_use {
            Ok(false) => (KeyIssuanceStateView::AwaitingStore, KeyIssuanceActionView::StoreKey { key, user_id }),
            Ok(true) => (KeyIssuanceStateView::AwaitingKey { user_id }, KeyIssuanceActionView::DrawKey),
            Err(_) => (KeyIssuanceStateView::Finished, KeyIssuanceActionView::Fail { reason: key_not_saved() }),
        },
        (KeyIssuanceStateView::AwaitingStore, KeyIssuanceEventView::KeyStored { result }) => match result {
            Ok(api_key) => (KeyIssuanceStateView::Finished, KeyIssuanceActionView::Issued { api_key }),
            Err(_) => (KeyIssuanceStateView::Finished, KeyIssuanceActionView::Fail { reason: key_not_saved() }),
        },
        _ => (state, KeyIssuanceActionView::Wait),
    }
}

/// The state reached and the actions taken, one per event, when the events
/// arrive in order from `start`.
pub open spec fn run<E>(start: KeyIssuanceStateView, events: Seq<KeyIssuanceEventView<E>>) -> (
    KeyIssuanceStateView,
    Seq<KeyIssuanceActionView>,
)
    decreases events.len(),
{
    if events.len() == 0 {
        (start, Seq::empty())
    } else {
        let (before, actions) = run(start, events.drop_last());
        let (after, action) = next(before, events.last());
        (after, actions.push(action))
    }
}

impl KeyIssuanceState {
    /// Starts issuing a key to the user `user_id`: the first thing to do is
    /// draw one.
    pub fn begin(user_id: u32) -> (result: (KeyIssuanceState, KeyIssuanceAction))
        ensures
            result.0@ == (KeyIssuanceStateView::AwaitingKey { user_id }),
            result.1@ == KeyIssuanceActionView::DrawKey,
    {
        (KeyIssuanceState::AwaitingKey { user_id }, KeyIssuanceAction::DrawKey)
    }

    /// Whether the issuing has ended.
    pub fn is_finished(&self) -> (finished: bool)
        ensures
            finished <==> self@ is Finished,
    {
        match self {
            KeyIssuanceState::Finished => true,
            _ => false,
        }
    }

    /// Takes in an event and says what to do next.
    pub fn step<E>(self, event: KeyIssuanceEvent<E>) -> (result: (KeyIssuanceState, KeyIssuanceAction))
        ensures
            (result.0@, result.1@) == next(self@, event@),
    {
        match (self, event) {
            (KeyIssuanceState::AwaitingKey { user_id }, KeyIssuanceEvent::KeyDrawn { key }) => {
                if key.as_str().is_empty() {
                    (KeyIssuanceState::AwaitingKey { user_id }, KeyIssuanceAction::DrawKey)
                } else {
                    let checked = key.clone();
                    (
                        KeyIssuanceState::AwaitingCheck { user_id, key },
                        KeyIssuanceAction::CheckUnused { key: checked },
                    )
                }
            },
            (KeyIssuanceState::AwaitingCheck { user_id, key }, KeyIssuanceEvent::KeyChecked { in_use }) => {
                match in_use {
                    Ok(false) => (
                        KeyIssuanceState::AwaitingStore,
                        KeyIssuanceAction::StoreKey { new_api_key: NewApiKey { key, user_id } },
                    ),
                    Ok(true) => (KeyIssuanceState::AwaitingKey { user_id }, KeyIssuanceAction::DrawKey),
                    Err(_) => (
                        KeyIssuanceState::Finished,
                        KeyIssuanceAction::Fail {
                            reason: String::from_str("Error while saving api key"),
                        },
                    ),
                }
            },
            (KeyIssuanceState::AwaitingStore, KeyIssuanceEvent::KeyStored { result }) => match result {
                Ok(api_key) => (KeyIssuanceState::Finished, KeyIssuanceAction::Issued { api_key }),
                Err(_) => (
                    KeyIssuanceState::Finished,
                    KeyIssuanceAction::Fail { reason: String::from_str("Error while saving api key") },
                ),
            },
            (state, _) => (state, KeyIssuanceAction::Wait),
        }
    }
}


/// Every action strictly between positions `j` and `k` is a wait.
pub open spec fn quiet_between(actions: Seq<KeyIssuanceActionView>, j: int, k: int) -> bool {
    forall|i: int| j < i < k ==> #[trigger] actions[i] is Wait
}

/// The key was drawn at some position before `k`, checked there, and nothing
/// happened since.
pub open spec fn last_checked<E>(
    events: Seq<KeyIssuanceEventView<E>>,
    actions: Seq<KeyIssuanceActionView>,
    k: int,
    key: Seq<char>,
) -> bool {
    exists|j: int|
        0 <= j < k && #[trigger] events[j] == (KeyIssuanceEventView::<E>::KeyDrawn { key })
            && actions[j] == (KeyIssuanceActionView::CheckUnused { key }) && quiet_between(actions, j, k)
}

/// A key was asked to be stored at some position before `k`, and nothing
/// happened since.
pub open spec fn last_stored(actions: Seq<KeyIssuanceActionView>, k: int) -> bool {
    exists|j: int| 0 <= j < k && #[trigger] actions[j] is StoreKey && quiet_between(actions, j, k)
}

/// Nothing has ended the issuing yet.
pub open spec fn nothing_ended(actions: Seq<KeyIssuanceActionView>) -> bool {
    forall|k: int|
        0 <= k < actions.len() ==> !(#[trigger] actions[k] is Issued) && !(actions[k] is Fail)
}

/// What holds of every run of the issuing of a key to the user `user_id`,
/// whatever the events.
pub open spec fn run_is_sound<E>(
    user_id: u32,
    events: Seq<KeyIssuanceEventView<E>>,
    actions: Seq<KeyIssuanceActionView>,
) -> bool {
    &&& actions.len() == events.len()
    &&& forall|k: int|
        0 <= k < actions.len() && #[trigger] actions[k] is CheckUnused ==> {
            &&& actions[k]->CheckUnused_key.len() > 0
            &&& events[k] == (KeyIssuanceEventView::<E>::KeyDrawn { key: actions[k]->CheckUnused_key })
        }
    &&& forall|k: int|
        0 <= k < actions.len() && #[trigger] actions[k] is StoreKey ==> {
            &&& actions[k]->StoreKey_user_id == user_id
            &&& actions[k]->StoreKey_key.len() > 0
            &&& events[k] is KeyChecked
            &&& events[k]->KeyChecked_in_use == Ok::<bool, E>(false)
            &&& last_checked(events, actions, k, actions[k]->StoreKey_key)
        }
    &&& forall|k: int|
        0 <= k < actions.len() && #[trigger] actions[k] is Issued ==> {
            &&& events[k] == (KeyIssuanceEventView::<E>::KeyStored {
                result: Ok(actions[k]->Issued_api_key),
            })
            &&& last_stored(actions, k)
        }
    &&& forall|j: int, k: int|
        0 <= j < k < actions.len() && (#[trigger] actions[j] is Issued || actions[j] is Fail)
            ==> #[trigger] actions[k] is Wait
}

proof fn lemma_run_invariant<E>(user_id: u32, events: Seq<KeyIssuanceEventView<E>>)
    ensures
        ({
            let (state, actions) = run(KeyIssuanceStateView::AwaitingKey { user_id }, events);
            let n: int = events.len() as int;
            &&& run_is_sound(user_id, events, actions)
            &&& match state {
                KeyIssuanceStateView::AwaitingKey { user_id: u } => u == user_id && nothing_ended(actions),
                KeyIssuanceStateView::AwaitingCheck { user_id: u, key } => {
                    &&& u == user_id
                    &&& key.len() > 0
                    &&& last_checked(events, actions, n, key)
                    &&& nothing_ended(actions)
                },
                KeyIssuanceStateView::AwaitingStore => last_stored(actions, n) && nothing_ended(actions),
                KeyIssuanceStateView::Finished => true,
            }
        }),
    decreases events.len(),
{
    let start = KeyIssuanceStateView::AwaitingKey { user_id };
    if events.len() > 0 {
        let prefix = events.drop_last();
        lemma_run_invariant(user_id, prefix);
        let (before, earlier) = run(start, prefix);
        let (after, action) = next(before, events.last());
        let actions = earlier.push(action);
        assert(run(start, events) == (after, actions));
        let n: int = prefix.len() as int;
        assert forall|k: int| 0 <= k < n implies #[trigger] actions[k] == earlier[k] && events[k]
            == prefix[k] by {}
        assert(actions[n] == action && events[n] == events.last());
        assert forall|k: int, key: Seq<char>|
            0 <= k <= n && last_checked(prefix, earlier, k, key) implies last_checked(events, actions, k, key) by {
            let j = choose|j: int|
                0 <= j < k && #[trigger] prefix[j] == (KeyIssuanceEventView::<E>::KeyDrawn { key })
                    && earlier[j] == (KeyIssuanceActionView::CheckUnused { key }) && quiet_between(earlier, j, k);
            assert(events[j] == prefix[j]);
            assert(quiet_between(actions, j, k));
        }
        assert forall|k: int| 0 <= k <= n && last_stored(earlier, k) implies last_stored(actions, k) by {
            let j = choose|j: int| 0 <= j < k && #[trigger] earlier[j] is StoreKey && quiet_between(earlier, j, k);
            assert(actions[j] == earlier[j]);
            assert(quiet_between(actions, j, k));
        }
        if action is Wait {
            if before is AwaitingCheck {
                let key = before->AwaitingCheck_key;
                let j = choose|j: int|
                    0 <= j < n && #[trigger] events[j] == (KeyIssuanceEventView::<E>::KeyDrawn { key })
                        && actions[j] == (KeyIssuanceActionView::CheckUnused { key }) && quiet_between(actions, j, n);
                assert(quiet_between(actions, j, n + 1));
                assert(last_checked(events, actions, n + 1, key));
            }
            if before is AwaitingStore {
                let j = choose|j: int| 0 <= j < n && #[trigger] actions[j] is StoreKey && quiet_between(actions, j, n);
                assert(quiet_between(actions, j, n + 1));
                assert(last_stored(actions, n + 1));
            }
        }
        if after is AwaitingCheck && action is CheckUnused {
            assert(quiet_between(actions, n, n + 1));
            assert(last_checked(events, actions, n + 1, after->AwaitingCheck_key));
        }
        if action is StoreKey {
            assert(quiet_between(actions, n, n + 1));
            assert(last_stored(actions, n + 1));
        }
    }
}

/// Law: whatever events arrive, the issuing of a key to a user checks only
/// non-empty keys that were just drawn; it stores a key only for that user,
/// only a non-empty key, and only right after the check of that very key
/// reported that no stored key has its text; it hands back a key only as it
/// was reported stored right after it was asked to be stored; and once it
/// has ended, it does nothing more.
pub proof fn lemma_key_issuance_is_sound<E>(user_id: u32, events: Seq<KeyIssuanceEventView<E>>)
    ensures
        run_is_sound(user_id, events, run(KeyIssuanceStateView::AwaitingKey { user_id }, events).1),
{
    lemma_run_invariant(user_id, events);
}

/// Law: a drawn key that is empty is drawn again. A non-empty drawn key is
/// checked; when no stored key has its text it is stored for the user and
/// then handed back as stored, or the issuing gives up when it cannot be
/// stored; when it is in use, another key is drawn; when the check fails,
/// the issuing gives up.
pub proof fn lemma_key_issuance_outcome<E>(
    user_id: u32,
    key: Seq<char>,
    in_use: Result<bool, E>,
    stored: Result<ApiKey, E>,
)
    ensures
        ({
            let events = seq![
                KeyIssuanceEventView::KeyDrawn { key },
                KeyIssuanceEventView::KeyChecked { in_use },
                KeyIssuanceEventView::KeyStored { result: stored },
            ];
            let actions = run(KeyIssuanceStateView::AwaitingKey { user_id }, events).1;
            let wait = KeyIssuanceActionView::Wait;
            let fail = KeyIssuanceActionView::Fail { reason: key_not_saved() };
            if key.len() == 0 {
                actions == seq![KeyIssuanceActionView::DrawKey, wait, wait]
            } else {
                actions == match in_use {
                    Ok(false) => seq![
                        KeyIssuanceActionView::CheckUnused { key },
                        KeyIssuanceActionView::StoreKey { key, user_id },
                        match stored {
                            Ok(api_key) => KeyIssuanceActionView::Issued { api_key },
                            Err(_) => fail,
                        },
                    ],
                    Ok(true) => seq![
                        KeyIssuanceActionView::CheckUnused { key },
                        KeyIssuanceActionView::DrawKey,
                        wait,
                    ],
                    Err(_) => seq![KeyIssuanceActionView::CheckUnused { key }, fail, wait],
                }
            }
        }),
{
    let start = KeyIssuanceStateView::AwaitingKey { user_id };
    let events = seq![
        KeyIssuanceEventView::<E>::KeyDrawn { key },
        KeyIssuanceEventView::KeyChecked { in_use },
        KeyIssuanceEventView::KeyStored { result: stored },
    ];
    assert(events.drop_last().drop_last().drop_last() =~= Seq::<KeyIssuanceEventView<E>>::empty());
    assert(events.drop_last().drop_last() =~= seq![events[0]]);
    assert(events.drop_last() =~= seq![events[0], events[1]]);
    let r0 = run(start, events.drop_last().drop_last().drop_last());
    let r1 = run(start, events.drop_last().drop_last());
    let r2 = run(start, events.drop_last());
    let r3 = run(start, events);
    assert(r1.1 =~= r0.1.push(next(r0.0, events[0]).1));
    assert(r2.1 =~= r1.1.push(next(r1.0, events[1]).1));
    assert(r3.1 =~= r2.1.push(next(r2.0, events[2]).1));
}

} // verus!
