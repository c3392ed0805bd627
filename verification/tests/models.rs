use api_gateway::models::{Log, LogType, User};

fn log(id: u32, key: u32) -> Log {
    Log {
        id,
        api_key_id: key,
        method: String::from("GET"),
        uri: String::from("/users"),
        status: 200,
        type_: 0,
        error_message: None,
        duration_in_microseconds: 1,
        created_at: chrono::NaiveDateTime::default(),
    }
}

#[test]
fn log_types_are_stored_as_zero_and_one() {
    assert_eq!(u8::from(LogType::INFO), 0);
    assert_eq!(u8::from(LogType::ERROR), 1);
    assert_eq!(LogType::INFO.code(), 0);
    assert_eq!(LogType::ERROR.code(), 1);
}

#[test]
fn stored_codes_read_back() {
    assert_eq!(LogType::from_code(0), Ok(LogType::INFO));
    assert_eq!(LogType::from_code(1), Ok(LogType::ERROR));
    let err = LogType::from_code(2).unwrap_err();
    assert_eq!(err.code, 2);
    assert_eq!(err.message(), "Unrecognized value for LogType");
    for t in [LogType::INFO, LogType::ERROR] {
        assert_eq!(LogType::from_code(u8::from(t)), Ok(t));
    }
}

#[test]
fn log_type_follows_status() {
    assert_eq!(LogType::for_status(500), LogType::ERROR);
    assert_eq!(LogType::for_status(200), LogType::INFO);
    assert_eq!(LogType::for_status(501), LogType::INFO);
    assert_eq!(LogType::INFO.name(), "INFO");
    assert_eq!(LogType::ERROR.name(), "ERROR");
}

#[test]
fn user_logs_are_the_key_logs_in_order() {
    let logs = User::logs_from_keys(vec![vec![log(1, 1), log(2, 1)], vec![], vec![log(3, 2)]]);
    let ids: Vec<u32> = logs.iter().map(|l| l.id).collect();
    assert_eq!(ids, vec![1, 2, 3]);
    assert!(User::logs_from_keys(vec![]).is_empty());
}
