//! Records of the gateway's tables and the log-type code stored with each log.

use vstd::prelude::*;

verus! {

/// `chrono::NaiveDateTime`, a point in time without a zone, as the database
/// stores it. It is declared so that records can hold it; nothing is assumed
/// of its values, which the logic only carries from one record to another.
#[verifier::external_type_specification]
#[verifier::external_body]
pub struct ExNaiveDateTime(chrono::NaiveDateTime);

/// A registered user.
#[derive(Debug)]
pub struct User {
    pub id: u32,
    pub name: String,
    pub email: String,
    pub created_at: chrono::NaiveDateTime,
    pub updated_at: Option<chrono::NaiveDateTime>,
}

/// The fields of a user to be registered.
#[derive(Debug)]
pub struct NewUser {
    pub name: String,
    pub email: String,
}

/// The fields of an API key to be stored for a user.
#[derive(Debug)]
pub struct NewApiKey {
    pub key: String,
    pub user_id: u32,
}

/// A stored API key.
#[derive(Debug)]
pub struct ApiKey {
    pub id: u32,
    pub key: String,
    pub user_id: u32,
    pub created_at: chrono::NaiveDateTime,
    pub last_used_at: Option<chrono::NaiveDateTime>,
    pub updated_at: Option<chrono::NaiveDateTime>,
}

/// The fields of a request log to be stored.
#[derive(Debug)]
pub struct NewLog {
    pub api_key_id: u32,
    pub method: String,
    pub uri: String,
    pub status: u16,
    pub type_: u8,
    pub error_message: Option<String>,
    pub duration_in_microseconds: u64,
}

/// A stored request log.
#[derive(Debug)]
pub struct Log {
    pub id: u32,
    pub api_key_id: u32,
    pub method: String,
    pub uri: String,
    pub status: u16,
    pub type_: u8,
    pub error_message: Option<String>,
    pub duration_in_microseconds: u64,
    pub created_at: chrono::NaiveDateTime,
}

/// The logs of a user's keys, one list per key, as sequences.
pub open spec fn logs_per_key(per_key: Seq<Vec<Log>>) -> Seq<Seq<Log>> {
    per_key.map_values(|logs: Vec<Log>| logs@)
}

impl User {
    /// All logs of a user, given the logs of each of its keys in the order of
    /// the keys: the lists one after another.
    pub fn logs_from_keys(per_key: Vec<Vec<Log>>) -> (logs: Vec<Log>)
        ensures
            logs@ == logs_per_key(per_key@).flatten(),
    {
        let ghost whole = logs_per_key(per_key@);
        let mut rest = per_key;
        let mut logs: Vec<Log> = Vec::new();
        while rest.len() > 0
            invariant
                whole.flatten() == logs@ + logs_per_key(rest@).flatten(),
            decreases rest.len(),
        {
            let ghost before = rest@;
            let mut first = rest.remove(0);
            assert(logs_per_key(before) =~= seq![first@] + logs_per_key(rest@));
            assert(logs_per_key(before).drop_first() =~= logs_per_key(rest@));
            logs.append(&mut first);
        }
        assert(logs_per_key(rest@) =~= Seq::<Seq<Log>>::empty());
        assert(logs@ + Seq::<Log>::empty() =~= logs@);
        logs
    }
}

/// A request log to be stored, with its texts as sequences.
pub struct NewLogView {
    pub api_key_id: u32,
    pub method: Seq<char>,
    pub uri: Seq<char>,
    pub status: u16,
    pub type_: u8,
    pub error_message: Option<Seq<char>>,
    pub duration_in_microseconds: u64,
}

/// An optional text as an optional sequence of characters.
pub open spec fn opt_text(text: Option<String>) -> Option<Seq<char>> {
    match text {
        Some(s) => Some(s@),
        None => None,
    }
}

impl View for NewLog {
    type V = NewLogView;

    open spec fn view(&self) -> NewLogView {
        NewLogView {
            api_key_id: self.api_key_id,
            method: self.method@,
            uri: self.uri@,
            status: self.status,
            type_: self.type_,
            error_message: opt_text(self.error_message),
            duration_in_microseconds: self.duration_in_microseconds,
        }
    }
}

/// The kind of a logged request: `INFO` for ordinary responses, `ERROR` for
/// internal server errors.
#[derive(Debug, Clone, Copy, PartialEq, Eq, Structural)]
pub enum LogType {
    INFO,
    ERROR,
}

/// The number under which a log type is stored in the `type_` column.
pub open spec fn log_type_code(t: LogType) -> u8 {
    match t {
        LogType::INFO => 0,
        LogType::ERROR => 1,
    }
}

/// The log type a stored code stands for, if any.
pub open spec fn log_type_of_code(code: u8) -> Option<LogType> {
    if code == 0 {
        Some(LogType::INFO)
    } else if code == 1 {
        Some(LogType::ERROR)
    } else {
        None
    }
}

impl From<LogType> for u8 {
    fn from(log_type: LogType) -> (code: u8) {
        match log_type {
            LogType::INFO => 0,
            LogType::ERROR => 1,
        }
    }
}

impl vstd::std_specs::convert::FromSpecImpl<LogType> for u8 {
    open spec fn obeys_from_spec() -> bool {
        true
    }

    open spec fn from_spec(log_type: LogType) -> u8 {
        log_type_code(log_type)
    }
}

/// A stored code that names no log type.
#[derive(Debug, Clone, Copy, PartialEq, Eq, Structural)]
pub struct UnrecognizedLogType {
    pub code: u8,
}

impl UnrecognizedLogType {
    /// The text with which a stored code that names no log type is refused.
    pub fn message(&self) -> (text: String)
        ensures
            text@ == "Unrecognized value for LogType"@,
    {
        String::from_str("Unrecognized value for LogType")
    }
}

/// The log type of a response with the given status: `ERROR` for an internal
/// server error (500), `INFO` for any other.
pub open spec fn log_type_for_status(status: u16) -> LogType {
    if status == 500 {
        LogType::ERROR
    } else {
        LogType::INFO
    }
}

/// The name under which a log type is printed.
pub open spec fn log_type_name(t: LogType) -> Seq<char> {
    match t {
        LogType::INFO => "INFO"@,
        LogType::ERROR => "ERROR"@,
    }
}

impl LogType {
    /// The log type of a response with the given status.
    pub fn for_status(status: u16) -> (t: LogType)
        ensures
            t == log_type_for_status(status),
            t == LogType::ERROR <==> status == 500,
            t == LogType::INFO <==> status != 500,
    {
        if status == 500 {
            LogType::ERROR
        } else {
            LogType::INFO
        }
    }

    /// The name under which this log type is printed.
    pub fn name(self) -> (name: String)
        ensures
            name@ == log_type_name(self),
    {
        match self {
            LogType::INFO => String::from_str("INFO"),
            LogType::ERROR => String::from_str("ERROR"),
        }
    }

    /// The code stored for this log type.
    pub fn code(self) -> (code: u8)
        ensures
            code == log_type_code(self),
    {
        u8::from(self)
    }

    /// Reads a stored code back: `0` is `INFO`, `1` is `ERROR`, any other code
    /// is refused.
    pub fn from_code(code: u8) -> (result: Result<LogType, UnrecognizedLogType>)
        ensures
            result is Ok <==> log_type_of_code(code) is Some,
            result matches Ok(t) ==> log_type_of_code(code) == Some(t),
            result matches Err(e) ==> e.code == code,
    {
        if code == 0 {
            Ok(LogType::INFO)
        } else if code == 1 {
            Ok(LogType::ERROR)
        } else {
            Err(UnrecognizedLogType { code })
        }
    }
}

/// Law: a response is logged as `ERROR` exactly when its status is 500 (an
/// internal server error); every other status, 4xx ones included, is logged
/// as `INFO`, and stored as code 0, while a 500 is stored as code 1.
pub proof fn lemma_error_only_for_internal_server_error(status: u16)
    ensures
        (log_type_for_status(status) == LogType::ERROR) == (status == 500),
        (log_type_for_status(status) == LogType::INFO) == (status != 500),
        log_type_code(log_type_for_status(status)) == (if status == 500 { 1u8 } else { 0u8 }),
{
}

/// A log type survives being stored and read back.
pub proof fn lemma_log_type_code_round_trip(t: LogType)
    ensures
        log_type_of_code(log_type_code(t)) == Some(t),
{
}

/// A code that reads back as a log type is the code stored for it.
pub proof fn lemma_log_type_code_injective(code: u8)
    ensures
        log_type_of_code(code) matches Some(t) ==> log_type_code(t) == code,
{
}

} // verus!
