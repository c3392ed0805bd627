use api_gateway::middleware::logger::{LoggerAction, LoggerEvent, LoggerState, BODY_LIMIT};
use api_gateway::models::LogType;
use api_gateway::middleware::authorization_service::{AuthorizationAction, AuthorizationEvent, AuthorizationState};

/// Drives the logging of one request through the server's four reports.
fn log_request(
    method: &str,
    uri: &str,
    header: Option<&[u8]>,
    status: u16,
    elapsed_micros: u128,
    body: Option<Vec<u8>>,
    found: Option<u32>,
) -> Vec<LoggerAction> {
    let mut state = LoggerState::new(String::from(method), String::from(uri), header);
    let events = vec![
        LoggerEvent::ResponseReady { status, elapsed_micros },
        LoggerEvent::BodyCollected { body },
        LoggerEvent::KeyLookedUp { key_id: found },
        LoggerEvent::LogWritten,
    ];
    let mut actions = Vec::new();
    for event in events {
        let (next, action) = state.step(event);
        state = next;
        actions.push(action);
    }
    assert!(state.is_finished());
    actions
}

#[test]
fn layer_test_saves_request_details_to_db() {
    let actions = log_request("GET", "/sample-endpoints", Some(b"something"), 200, 1234, Some(vec![]), Some(3));
    assert!(matches!(actions[0], LoggerAction::CollectBody { limit: 1000 }));
    match &actions[1] {
        LoggerAction::LookUpKey { key } => assert_eq!(key, "something"),
        other => panic!("unexpected {:?}", other),
    }
    match &actions[2] {
        LoggerAction::WriteLog { entry } => {
            assert_eq!(entry.api_key_id, 3);
            assert_eq!(entry.method, "GET");
            assert_eq!(entry.uri, String::from("/sample-endpoints"));
            assert_eq!(entry.status, 200);
            assert_eq!(entry.type_, u8::from(LogType::INFO));
            assert_eq!(entry.error_message, None);
            assert_eq!(entry.duration_in_microseconds, 1234);
        }
        other => panic!("unexpected {:?}", other),
    }
    match &actions[3] {
        LoggerAction::Respond { status, body } => {
            assert_eq!(*status, 200);
            assert!(body.is_empty());
        }
        other => panic!("unexpected {:?}", other),
    }
}

#[test]
fn test_saves_error_request_details_to_db() {
    let message = "This is a secret internal error";
    let actions = log_request("GET", "/fail", Some(b"something"), 500, 10, Some(message.as_bytes().to_vec()), Some(4));
    match &actions[2] {
        LoggerAction::WriteLog { entry } => {
            assert_eq!(entry.method, "GET");
            assert_eq!(entry.uri, String::from("/fail"));
            assert_eq!(entry.status, 500);
            assert_eq!(entry.type_, u8::from(LogType::ERROR));
            assert_eq!(entry.error_message.clone().unwrap(), String::from("This is a secret internal error"));
        }
        other => panic!("unexpected {:?}", other),
    }
    match &actions[3] {
        LoggerAction::Respond { status, body } => {
            assert_eq!(*status, 500);
            assert_eq!(body, message.as_bytes());
        }
        other => panic!("unexpected {:?}", other),
    }
}

#[test]
fn test_does_not_throw_error_with_authorization_middleware_between_and_no_api_key() {
    // The authorization inside sees a request without a key and answers it.
    let mut auth = AuthorizationState::new();
    let (status, body) = match auth.step(AuthorizationEvent::RequestArrived { api_key: None }) {
        AuthorizationAction::Respond { status, body } => (status, body),
        other => panic!("unexpected {:?}", other),
    };
    assert_eq!(status, 401);
    // The logger outside looks up the text "None" for a request without a
    // key, finds no stored key with it, writes nothing and passes the answer on.
    let actions = log_request("GET", "/sample-endpoints", None, status, 5, Some(body.into_bytes()), None);
    match &actions[1] {
        LoggerAction::LookUpKey { key } => assert_eq!(key, "None"),
        other => panic!("unexpected {:?}", other),
    }
    match &actions[2] {
        LoggerAction::Respond { status, body } => {
            assert_eq!(*status, 401);
            assert_eq!(body, b"Unauthorized");
        }
        other => panic!("unexpected {:?}", other),
    }
    assert!(matches!(actions[3], LoggerAction::Wait));
}

#[test]
fn request_with_unfound_key_is_passed_on_unlogged() {
    let actions = log_request("GET", "/users", Some(b"unknown"), 200, 5, Some(b"[]".to_vec()), None);
    match &actions[1] {
        LoggerAction::LookUpKey { key } => assert_eq!(key, "unknown"),
        other => panic!("unexpected {:?}", other),
    }
    match &actions[2] {
        LoggerAction::Respond { status, body } => {
            assert_eq!(*status, 200);
            assert_eq!(body, b"[]");
        }
        other => panic!("unexpected {:?}", other),
    }
}

#[test]
fn error_body_that_is_not_utf8_fails_the_request() {
    let actions = log_request("GET", "/fail", None, 500, 1, Some(vec![0xff, 0xfe]), Some(1));
    match &actions[1] {
        LoggerAction::Fail { reason } => assert_eq!(reason, "Body is not valid UTF-8"),
        other => panic!("unexpected {:?}", other),
    }
    assert!(matches!(actions[2], LoggerAction::Wait));
    assert!(matches!(actions[3], LoggerAction::Wait));
}

#[test]
fn non_error_body_need_not_be_utf8() {
    let actions = log_request("POST", "/users", Some(b"k"), 201, 1, Some(vec![0xff]), Some(2));
    match &actions[2] {
        LoggerAction::WriteLog { entry } => assert_eq!(entry.error_message, None),
        other => panic!("unexpected {:?}", other),
    }
    match &actions[3] {
        LoggerAction::Respond { status, body } => {
            assert_eq!(*status, 201);
            assert_eq!(body, &vec![0xff]);
        }
        other => panic!("unexpected {:?}", other),
    }
}

#[test]
fn uncollectable_body_fails_the_request() {
    let actions = log_request("GET", "/big", None, 200, 1, None, None);
    match &actions[1] {
        LoggerAction::Fail { reason } => assert_eq!(reason, "Failed to collect body bytes"),
        other => panic!("unexpected {:?}", other),
    }
}

#[test]
fn duration_keeps_the_low_64_bits() {
    let elapsed: u128 = (1u128 << 64) + 5;
    let actions = log_request("GET", "/", Some(b"k"), 200, elapsed, Some(vec![]), Some(1));
    match &actions[2] {
        LoggerAction::WriteLog { entry } => assert_eq!(entry.duration_in_microseconds, 5),
        other => panic!("unexpected {:?}", other),
    }
    assert_eq!(BODY_LIMIT, 1000);
}

use api_gateway::middleware::basic_logger::{BasicLoggerAction, BasicLoggerEvent, BasicLoggerState};

fn basic_log(header: Option<&[u8]>, found: Option<u32>, written: bool) -> Vec<BasicLoggerAction> {
    let mut state = BasicLoggerState::new(String::from("GET"), String::from("/users"), header);
    let mut actions = Vec::new();
    for event in [
        BasicLoggerEvent::ResponseReady { status: 200, elapsed_millis: 12 },
        BasicLoggerEvent::KeyLookedUp { key_id: found },
        BasicLoggerEvent::LogWritten { written },
    ] {
        let (next, action) = state.step(event);
        state = next;
        actions.push(action);
    }
    assert!(state.is_finished());
    actions
}

#[test]
fn logger_test_saves_request_details_to_db() {
    let actions = basic_log(Some(b"something"), Some(6), true);
    match &actions[0] {
        BasicLoggerAction::LookUpKey { key } => assert_eq!(key, "something"),
        other => panic!("unexpected {:?}", other),
    }
    match &actions[1] {
        BasicLoggerAction::WriteLog { entry } => {
            assert_eq!(entry.method, "GET");
            assert_eq!(entry.uri, String::from("/users"));
            assert_eq!(entry.status, 200);
            assert_eq!(entry.api_key_id, 6);
            assert_eq!(entry.duration_in_microseconds, 12);
        }
        other => panic!("unexpected {:?}", other),
    }
    assert!(matches!(actions[2], BasicLoggerAction::PassResponse));
}

#[test]
fn basic_logging_fails_without_a_stored_key_or_a_write() {
    let actions = basic_log(Some(b"k"), None, true);
    match &actions[1] {
        BasicLoggerAction::Fail { reason } => assert_eq!(reason, "DB interaction failed"),
        other => panic!("unexpected {:?}", other),
    }
    assert!(matches!(actions[2], BasicLoggerAction::Wait));
    let actions = basic_log(Some(b"k"), Some(1), false);
    match &actions[2] {
        BasicLoggerAction::Fail { reason } => assert_eq!(reason, "database result is error"),
        other => panic!("unexpected {:?}", other),
    }
}

#[test]
fn error_message_decodes_multibyte_text() {
    let body = "échec".as_bytes().to_vec();
    let actions = log_request("GET", "/fail", Some(b"k"), 500, 1, Some(body.clone()), Some(1));
    match &actions[2] {
        LoggerAction::WriteLog { entry } => assert_eq!(entry.error_message.as_deref(), Some("échec")),
        other => panic!("unexpected {:?}", other),
    }
    match &actions[3] {
        LoggerAction::Respond { body: returned, .. } => assert_eq!(returned, &body),
        other => panic!("unexpected {:?}", other),
    }
}

#[test]
fn requests_without_a_readable_key_are_looked_up_by_placeholder_text() {
    let actions = log_request("GET", "/users", None, 200, 1, Some(vec![]), Some(8));
    match &actions[1] {
        LoggerAction::LookUpKey { key } => assert_eq!(key, "None"),
        other => panic!("unexpected {:?}", other),
    }
    match &actions[2] {
        LoggerAction::WriteLog { entry } => assert_eq!(entry.api_key_id, 8),
        other => panic!("unexpected {:?}", other),
    }
    let actions = log_request("GET", "/users", Some(&[0x01]), 200, 1, Some(vec![]), None);
    match &actions[1] {
        LoggerAction::LookUpKey { key } => assert_eq!(key, "Invalid"),
        other => panic!("unexpected {:?}", other),
    }
    let actions = basic_log(None, Some(2), true);
    match &actions[0] {
        BasicLoggerAction::LookUpKey { key } => assert_eq!(key, "None"),
        other => panic!("unexpected {:?}", other),
    }
    assert!(matches!(actions[1], BasicLoggerAction::WriteLog { .. }));
    assert!(matches!(actions[2], BasicLoggerAction::PassResponse));
}
