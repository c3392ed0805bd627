use api_gateway::middleware::authorization_service::{
    AuthorizationAction, AuthorizationEvent, AuthorizationState,
};
use api_gateway::middleware::{header_value_to_str, presented_api_key, printed_api_key, API_KEY_NAME};

/// Drives one authorization through the server's three reports.
fn authorize(header: Option<&[u8]>, found: Option<u32>) -> (AuthorizationState, Vec<AuthorizationAction>) {
    let mut state = AuthorizationState::new();
    let mut actions = Vec::new();
    actions.push(state.step(AuthorizationEvent::RequestArrived { api_key: header.map(|h| h.to_vec()) }));
    actions.push(state.step(AuthorizationEvent::KeyLookedUp { key_id: found }));
    actions.push(state.step(AuthorizationEvent::LastUsedUpdated));
    (state, actions)
}

#[test]
fn test_allows_request_with_valid_api_key() {
    let (state, actions) = authorize(Some(b"something"), Some(7));
    match &actions[0] {
        AuthorizationAction::LookUpKey { key } => assert_eq!(key, "something"),
        other => panic!("unexpected {:?}", other),
    }
    assert!(matches!(actions[1], AuthorizationAction::UpdateLastUsed { key_id: 7 }));
    assert!(matches!(actions[2], AuthorizationAction::Forward));
    assert_eq!(state, AuthorizationState::Admitted);
}

#[test]
fn test_does_not_allow_request_with_invalid_api_key() {
    let (state, actions) = authorize(Some(b"invalid key"), None);
    match &actions[0] {
        AuthorizationAction::LookUpKey { key } => assert_eq!(key, "invalid key"),
        other => panic!("unexpected {:?}", other),
    }
    match &actions[1] {
        AuthorizationAction::Respond { status, body } => {
            assert_eq!(*status, 401);
            assert_eq!(body, "Unauthorized");
        }
        other => panic!("unexpected {:?}", other),
    }
    assert!(matches!(actions[2], AuthorizationAction::Wait));
    assert_eq!(state, AuthorizationState::Rejected);
}

fn assert_rejected_at_once(header: Option<&[u8]>) {
    // Even when the lookup would report a stored key, a request without a
    // readable key is answered 401 before any lookup.
    let (state, actions) = authorize(header, Some(1));
    match &actions[0] {
        AuthorizationAction::Respond { status, body } => {
            assert_eq!(*status, 401);
            assert_eq!(body, "Unauthorized");
        }
        other => panic!("unexpected {:?}", other),
    }
    assert!(matches!(actions[1], AuthorizationAction::Wait));
    assert!(matches!(actions[2], AuthorizationAction::Wait));
    assert_eq!(state, AuthorizationState::Rejected);
}

#[test]
fn missing_header_is_rejected_without_lookup() {
    assert_rejected_at_once(None);
}

#[test]
fn unprintable_header_is_rejected_without_lookup() {
    assert_rejected_at_once(Some(&[b'k', 0x7f, b'y']));
    assert_rejected_at_once(Some(&[0xc3, 0xa9]));
}

#[test]
fn forwarding_never_happens_without_the_lookup() {
    let mut state = AuthorizationState::new();
    assert!(matches!(state.step(AuthorizationEvent::LastUsedUpdated), AuthorizationAction::Wait));
    assert!(matches!(
        state.step(AuthorizationEvent::KeyLookedUp { key_id: Some(1) }),
        AuthorizationAction::Wait
    ));
    assert_eq!(state, AuthorizationState::AwaitingRequest);
    assert!(!state.is_finished());
}

#[test]
fn rejected_request_stays_rejected() {
    let (mut state, _) = authorize(Some(b"nope"), None);
    assert!(state.is_finished());
    assert!(matches!(state.step(AuthorizationEvent::LastUsedUpdated), AuthorizationAction::Wait));
    assert_eq!(state, AuthorizationState::Rejected);
}

#[test]
fn header_text_accepts_tabs_and_printable_ascii() {
    assert_eq!(header_value_to_str(b"a\tb ~"), Some(String::from("a\tb ~")));
    assert_eq!(header_value_to_str(b""), Some(String::new()));
    assert_eq!(header_value_to_str(&[b'a', 10]), None);
    assert_eq!(header_value_to_str(&[0xc3, 0xa9]), None);
    assert_eq!(presented_api_key(Some(&[0x80])), None);
    assert_eq!(presented_api_key(None), None);
    assert_eq!(presented_api_key(Some(b"key")), Some(String::from("key")));
    assert_eq!(printed_api_key(Some(&[0x80])), "Invalid");
    assert_eq!(printed_api_key(None), "None");
    assert_eq!(printed_api_key(Some(b"key")), "key");
    assert_eq!(API_KEY_NAME, "API_KEY");
}
