use api_gateway::models::{ApiKey, NewUser, User};
use api_gateway::database::api_keys::{
    generate_api_key, KeyIssuanceAction, KeyIssuanceEvent, KeyIssuanceState, KEY_LENGTH,
};
use api_gateway::registration::{RegistrationAction, RegistrationEvent, RegistrationState};

fn stored_user(id: u32, name: &str, email: &str) -> User {
    User {
        id,
        name: String::from(name),
        email: String::from(email),
        created_at: chrono::NaiveDateTime::default(),
        updated_at: None,
    }
}

fn stored_key(id: u32, key: &str, user_id: u32) -> ApiKey {
    ApiKey {
        id,
        key: String::from(key),
        user_id,
        created_at: chrono::NaiveDateTime::default(),
        last_used_at: None,
        updated_at: None,
    }
}

/// Issues a key to a user against a store of keys held in `keys`.
fn issue_key(user_id: u32, keys: &mut Vec<ApiKey>) -> ApiKey {
    let (mut state, mut action) = KeyIssuanceState::begin(user_id);
    loop {
        let event: KeyIssuanceEvent<String> = match action {
            KeyIssuanceAction::DrawKey => KeyIssuanceEvent::KeyDrawn { key: generate_api_key() },
            KeyIssuanceAction::CheckUnused { key } => KeyIssuanceEvent::KeyChecked {
                in_use: Ok(keys.iter().any(|k| k.key == key)),
            },
            KeyIssuanceAction::StoreKey { new_api_key } => {
                let stored = stored_key(keys.len() as u32 + 1, &new_api_key.key, new_api_key.user_id);
                keys.push(stored_key(stored.id, &stored.key, stored.user_id));
                KeyIssuanceEvent::KeyStored { result: Ok(stored) }
            }
            KeyIssuanceAction::Issued { api_key } => return api_key,
            other => panic!("unexpected {:?}", other),
        };
        let (next, next_action) = state.step(event);
        state = next;
        action = next_action;
    }
}

/// Registers a user against a store that hands out id 41, issuing its key
/// into `keys`, and returns every action together with the registered user.
fn register_into(name: &str, email: &str, keys: &mut Vec<ApiKey>) -> (Vec<RegistrationAction<String>>, Option<User>) {
    let new_user = NewUser { name: String::from(name), email: String::from(email) };
    let (mut state, first) = RegistrationState::begin::<String>(new_user);
    let mut actions = vec![first];
    let keys_before = keys.len();
    let mut registered = None;
    loop {
        let event = match actions.last().unwrap() {
            RegistrationAction::StoreUser { new_user } => RegistrationEvent::UserStored {
                result: Ok(stored_user(41, &new_user.name, &new_user.email)),
            },
            RegistrationAction::IssueKey { user_id } => {
                RegistrationEvent::ApiKeyStored { result: Ok(issue_key(*user_id, keys)) }
            }
            _ => break,
        };
        let (next, action) = state.step(event);
        state = next;
        actions.push(action);
    }
    if let Some(RegistrationAction::Finish { result: Ok(user) }) = actions.pop() {
        registered = Some(user);
    }
    assert_eq!(keys.len(), keys_before + 1);
    assert_eq!(keys[keys.len() - 1].user_id, 41);
    (actions, registered)
}

fn register(name: &str, email: &str) -> (Vec<RegistrationAction<String>>, Option<User>) {
    register_into(name, email, &mut Vec::new())
}

#[test]
fn lib_test_can_store_a_user() {
    let (_, user) = register("test user", "test@user.com");
    let user = user.unwrap();
    assert_eq!(user.name, "test user");
    assert_eq!(user.email, "test@user.com");
}

#[test]
fn create_user_with_api_key_test_can_store_a_user() {
    let name = "test user";
    let email = "test@user.com";
    let (actions, user) = register(name, email);
    let user = user.unwrap();
    assert_eq!(user.name, name);
    assert_eq!(user.email, email);
    let keys = actions.iter().filter(|a| matches!(a, RegistrationAction::IssueKey { .. })).count();
    assert_eq!(keys, 1);
}

#[test]
fn store_user_with_api_key_test_can_store_a_user() {
    let name = "test user";
    let email = "test@user.com";
    let (actions, user) = register(name, email);
    let user = user.unwrap();
    assert_eq!(user.name, name);
    assert_eq!(user.email, email);
    let keys = actions.iter().filter(|a| matches!(a, RegistrationAction::IssueKey { .. })).count();
    assert_eq!(keys, 1);
}

#[test]
fn test_create_user_with_api_key_test_can_store_a_user() {
    let name = "test user";
    let email = "test@user.com";
    let (actions, user) = register(name, email);
    let user = user.unwrap();
    assert_eq!(user.name, name);
    assert_eq!(user.email, email);
    let keys = actions.iter().filter(|a| matches!(a, RegistrationAction::IssueKey { .. })).count();
    assert_eq!(keys, 1);
}

#[test]
fn test_stores_an_api_key_with_the_user() {
    let mut keys = Vec::new();
    let (actions, user) = register_into("example_user", "user@example.com", &mut keys);
    let user = user.unwrap();
    assert!(matches!(actions[1], RegistrationAction::IssueKey { user_id } if user_id == user.id));
    let api_key = keys.iter().find(|k| k.user_id == user.id).unwrap();
    assert_ne!(api_key.key, "");
}

#[test]
fn every_user_gets_its_own_key() {
    let mut keys = Vec::new();
    register_into("a", "a@x", &mut keys);
    register_into("b", "b@x", &mut keys);
    assert_eq!(keys.len(), 2);
    assert_ne!(keys[0].key, keys[1].key);
    for key in &keys {
        assert_eq!(key.key.chars().count(), KEY_LENGTH);
        assert!(key.key.chars().all(|c| c.is_ascii_alphanumeric()));
    }
}

#[test]
fn drawn_key_in_use_or_empty_is_drawn_again() {
    let (state, _) = KeyIssuanceState::begin(5);
    let (state, action) = state.step::<String>(KeyIssuanceEvent::KeyDrawn { key: String::new() });
    assert!(matches!(action, KeyIssuanceAction::DrawKey));
    let (state, action) = state.step::<String>(KeyIssuanceEvent::KeyDrawn { key: String::from("taken") });
    match &action {
        KeyIssuanceAction::CheckUnused { key } => assert_eq!(key, "taken"),
        other => panic!("unexpected {:?}", other),
    }
    let (state, action) = state.step::<String>(KeyIssuanceEvent::KeyChecked { in_use: Ok(true) });
    assert!(matches!(action, KeyIssuanceAction::DrawKey));
    let (state, _) = state.step::<String>(KeyIssuanceEvent::KeyDrawn { key: String::from("fresh") });
    let (state, action) = state.step::<String>(KeyIssuanceEvent::KeyChecked { in_use: Ok(false) });
    match &action {
        KeyIssuanceAction::StoreKey { new_api_key } => {
            assert_eq!(new_api_key.key, "fresh");
            assert_eq!(new_api_key.user_id, 5);
        }
        other => panic!("unexpected {:?}", other),
    }
    let (state, action) = state.step::<String>(KeyIssuanceEvent::KeyStored { result: Ok(stored_key(3, "fresh", 5)) });
    match action {
        KeyIssuanceAction::Issued { api_key } => assert_eq!(api_key.key, "fresh"),
        other => panic!("unexpected {:?}", other),
    }
    assert!(state.is_finished());
}

#[test]
fn failing_key_check_or_store_gives_up() {
    let (state, _) = KeyIssuanceState::begin(5);
    let (state, _) = state.step::<String>(KeyIssuanceEvent::KeyDrawn { key: String::from("k") });
    let (_, action) = state.step::<String>(KeyIssuanceEvent::KeyChecked { in_use: Err(String::from("down")) });
    match action {
        KeyIssuanceAction::Fail { reason } => assert_eq!(reason, "Error while saving api key"),
        other => panic!("unexpected {:?}", other),
    }
    let (state, _) = KeyIssuanceState::begin(5);
    let (state, _) = state.step::<String>(KeyIssuanceEvent::KeyDrawn { key: String::from("k") });
    let (state, _) = state.step::<String>(KeyIssuanceEvent::KeyChecked { in_use: Ok(false) });
    let (_, action) = state.step::<String>(KeyIssuanceEvent::KeyStored { result: Err(String::from("dup")) });
    assert!(matches!(action, KeyIssuanceAction::Fail { .. }));
}

#[test]
fn storage_error_of_the_user_is_handed_back() {
    let new_user = NewUser { name: String::from("a"), email: String::from("b") };
    let (state, _) = RegistrationState::begin::<String>(new_user);
    let (state, action) = state.step(RegistrationEvent::UserStored { result: Err(String::from("duplicate")) });
    match action {
        RegistrationAction::Finish { result: Err(e) } => assert_eq!(e, "duplicate"),
        other => panic!("unexpected {:?}", other),
    }
    assert!(state.is_finished());
}

#[test]
fn key_that_cannot_be_stored_fails_the_registration() {
    let new_user = NewUser { name: String::from("a"), email: String::from("b") };
    let (state, _) = RegistrationState::begin::<String>(new_user);
    let (state, _) = state.step::<String>(RegistrationEvent::UserStored { result: Ok(stored_user(2, "a", "b")) });
    let (state, action) = state.step(RegistrationEvent::ApiKeyStored { result: Err(String::from("down")) });
    match action {
        RegistrationAction::Fail { reason } => assert_eq!(reason, "Error while saving api key"),
        other => panic!("unexpected {:?}", other),
    }
    assert!(state.is_finished());
}

#[test]
fn out_of_order_events_are_ignored() {
    let new_user = NewUser { name: String::from("a"), email: String::from("b") };
    let (state, _) = RegistrationState::begin::<String>(new_user);
    let (state, action) = state.step::<String>(RegistrationEvent::ApiKeyStored { result: Ok(stored_key(1, "k", 1)) });
    assert!(matches!(action, RegistrationAction::Wait));
    assert!(matches!(state, RegistrationState::AwaitingUser));
}
