//! A plainer request logging, without log types or error messages.
//!
//! Once the wrapped service has answered, the request's API-key text is
//! looked up (the `API_KEY` header's text, `"None"` when the header is absent,
//! `"Invalid"` when its value is not visible text) and a log is written for
//! the stored key with that text, with the method, URI, status and elapsed
//! time in milliseconds; the response is then handed back as it is. A
//! request whose key text matches no stored key, or whose log cannot be
//! written, fails.

use vstd::prelude::*;
use crate::middleware::{printed_key, printed_api_key};

verus! {

/// A log as this form of logging writes it.
#[derive(Debug)]
pub struct BasicLog {
    pub api_key_id: u32,
    pub method: String,
    pub uri: String,
    pub status: u16,
    /// The elapsed time, in milliseconds despite the column's name.
    pub duration_in_microseconds: u64,
}

/// A log with its texts as sequences.
pub struct BasicLogView {
    pub api_key_id: u32,
    pub method: Seq<char>,
    pub uri: Seq<char>,
    pub status: u16,
    pub duration_in_microseconds: u64,
}

impl View for BasicLog {
    type V = BasicLogView;

    open spec fn view(&self) -> BasicLogView {
        BasicLogView {
            api_key_id: self.api_key_id,
            method: self.method@,
            uri: self.uri@,
            status: self.status,
            duration_in_microseconds: self.duration_in_microseconds,
        }
    }
}

/// Where the logging of a request stands.
#[derive(Debug)]
pub enum BasicLoggerState {
    /// The wrapped service has not answered yet.
    AwaitingResponse { method: String, uri: String, api_key: String },
    /// The presented key is being looked up.
    AwaitingKeyLookup { method: String, uri: String, status: u16, duration: u64 },
    /// The log is being written.
    AwaitingLogWrite,
    /// The response has been handed back, or the request failed.
    Finished,
}

/// A state with its texts as sequences.
pub enum BasicLoggerStateView {
    AwaitingResponse { method: Seq<char>, uri: Seq<char>, api_key: Seq<char> },
    AwaitingKeyLookup { method: Seq<char>, uri: Seq<char>, status: u16, duration: u64 },
    AwaitingLogWrite,
    Finished,
}

impl View for BasicLoggerState {
    type V = BasicLoggerStateView;

    open spec fn view(&self) -> BasicLoggerStateView {
        match self {
            BasicLoggerState::AwaitingResponse { method, uri, api_key } =>
                BasicLoggerStateView::AwaitingResponse {
                    method: method@,
                    uri: uri@,
                    api_key: api_key@,
                },
            BasicLoggerState::AwaitingKeyLookup { method, uri, status, duration } =>
                BasicLoggerStateView::AwaitingKeyLookup {
                method: method@,
                uri: uri@,
                status: *status,
                duration: *duration,
            },
            BasicLoggerState::AwaitingLogWrite => BasicLoggerStateView::AwaitingLogWrite,
            BasicLoggerState::Finished => BasicLoggerStateView::Finished,
        }
    }
}

/// What the server reports back.
#[derive(Debug, Clone, Copy, PartialEq, Eq, Structural)]
pub enum BasicLoggerEvent {
    /// The wrapped service answered with this status, this many
    /// milliseconds after the request arrived.
    ResponseReady { status: u16, elapsed_millis: u128 },
    /// The lookup of the presented key ended: the id of the stored key it
    /// names, or nothing when no stored key matched or the lookup failed.
    KeyLookedUp { key_id: Option<u32> },
    /// The log write ended, successfully or not.
    LogWritten { written: bool },
}

/// What the server is to do next.
#[derive(Debug)]
pub enum BasicLoggerAction {
    /// Look up the stored API key whose text is `key`.
    LookUpKey { key: String },
    /// Write this log.
    WriteLog { entry: BasicLog },
    /// Hand the response back as it is.
    PassResponse,
    /// Give up on the request with this reason.
    Fail { reason: String },
    /// Nothing: the event was not the one awaited.
    Wait,
}

/// An action with its texts as sequences.
pub enum BasicLoggerActionView {
    LookUpKey { key: Seq<char> },
    WriteLog { entry: BasicLogView },
    PassResponse,
    Fail { reason: Seq<char> },
    Wait,
}

impl View for BasicLoggerAction {
    type V = BasicLoggerActionView;

    open spec fn view(&self) -> BasicLoggerActionView {
        match self {
            BasicLoggerAction::LookUpKey { key } => BasicLoggerActionView::LookUpKey { key: key@ },
            BasicLoggerAction::WriteLog { entry } => BasicLoggerActionView::WriteLog { entry: entry@ },
            BasicLoggerAction::PassResponse => BasicLoggerActionView::PassResponse,
            BasicLoggerAction::Fail { reason } => BasicLoggerActionView::Fail { reason: reason@ },
            BasicLoggerAction::Wait => BasicLoggerActionView::Wait,
        }
    }
}

/// The reason given when the request's key text matches no stored key.
pub open spec fn interaction_failed() -> Seq<char> {
    "DB interaction failed"@
}

/// The reason given when the log cannot be written.
pub open spec fn write_failed() -> Seq<char> {
    "database result is error"@
}

/// The logging rule: the next state and action after an event.
pub open spec fn next(state: BasicLoggerStateView, event: BasicLoggerEvent) -> (
    BasicLoggerStateView,
    BasicLoggerActionView,
) {
    match (state, event) {
        (
            BasicLoggerStateView::AwaitingResponse { method, uri, api_key },
            BasicLoggerEvent::ResponseReady { status, elapsed_millis },
        ) => (
            BasicLoggerStateView::AwaitingKeyLookup {
                method,
                uri,
                status,
                duration: elapsed_millis as u64,
            },
            BasicLoggerActionView::LookUpKey { key: api_key },
        ),
        (
            BasicLoggerStateView::AwaitingKeyLookup { method, uri, status, duration },
            BasicLoggerEvent::KeyLookedUp { key_id },
        ) => match key_id {
            Some(id) => (
                BasicLoggerStateView::AwaitingLogWrite,
                BasicLoggerActionView::WriteLog {
                    entry: BasicLogView {
                        api_key_id: id,
                        method,
                        uri,
                        status,
                        duration_in_microseconds: duration,
                    },
                },
            ),
            None => (
                BasicLoggerStateView::Finished,
                BasicLoggerActionView::Fail { reason: interaction_failed() },
            ),
        },
        (BasicLoggerStateView::AwaitingLogWrite, BasicLoggerEvent::LogWritten { written }) => (
            BasicLoggerStateView::Finished,
            if written {
                BasicLoggerActionView::PassResponse
            } else {
                BasicLoggerActionView::Fail { reason: write_failed() }
            },
        ),
        _ => (state, BasicLoggerActionView::Wait),
    }
}

/// The state in which the logging of a request starts.
pub open spec fn initial(method: Seq<char>, uri: Seq<char>, api_key: Option<Seq<u8>>) -> BasicLoggerStateView {
    BasicLoggerStateView::AwaitingResponse { method, uri, api_key: printed_key(api_key) }
}

impl BasicLoggerState {
    /// Starts logging a request with this method, URI and raw API-key header.
    pub fn new(method: String, uri: String, api_key: Option<&[u8]>) -> (state: BasicLoggerState)
        ensures
            state@ == initial(
                method@,
                uri@,
                match api_key {
                    Some(bytes) => Some(bytes@),
                    None => None,
                },
            ),
    {
        let api_key = printed_api_key(api_key);
        BasicLoggerState::AwaitingResponse { method, uri, api_key }
    }

    /// Whether the logging has ended.
    pub fn is_finished(&self) -> (finished: bool)
        ensures
            finished <==> self@ is Finished,
    {
        match self {
            BasicLoggerState::Finished => true,
            _ => false,
        }
    }

    /// Takes in an event and says what to do next.
    pub fn step(self, event: BasicLoggerEvent) -> (result: (BasicLoggerState, BasicLoggerAction))
        ensures
            (result.0@, result.1@) == next(self@, event),
    {
        match (self, event) {
            (
                BasicLoggerState::AwaitingResponse { method, uri, api_key },
                BasicLoggerEvent::ResponseReady { status, elapsed_millis },
            ) => (
                BasicLoggerState::AwaitingKeyLookup {
                    method,
                    uri,
                    status,
                    duration: elapsed_millis as u64,
                },
                BasicLoggerAction::LookUpKey { key: api_key },
            ),
            (
                BasicLoggerState::AwaitingKeyLookup { method, uri, status, duration },
                BasicLoggerEvent::KeyLookedUp { key_id },
            ) => match key_id {
                Some(id) => (
                    BasicLoggerState::AwaitingLogWrite,
                    BasicLoggerAction::WriteLog {
                        entry: BasicLog {
                            api_key_id: id,
                            method,
                            uri,
                            status,
                            duration_in_microseconds: duration,
                        },
                    },
                ),
                None => (
                    BasicLoggerState::Finished,
                    BasicLoggerAction::Fail { reason: String::from_str("DB interaction failed") },
                ),
            },
            (BasicLoggerState::AwaitingLogWrite, BasicLoggerEvent::LogWritten { written }) => (
                BasicLoggerState::Finished,
                if written {
                    BasicLoggerAction::PassResponse
                } else {
                    BasicLoggerAction::Fail { reason: String::from_str("database result is error") }
                },
            ),
            (state, _) => (state, BasicLoggerAction::Wait),
        }
    }
}

/// Law: a request is logged as follows. Once the wrapped service answers,
/// the request's API-key text is looked up. When a stored key has it, a log
/// for that key is written with the request's method and URI, the status,
/// and the elapsed milliseconds cut to 64 bits; the response is handed back
/// as it is once the write succeeds, and the request fails when it does not.
/// When no stored key has it, the request fails and nothing is written.
pub proof fn lemma_basic_logging_outcome(
    method: Seq<char>,
    uri: Seq<char>,
    api_key: Option<Seq<u8>>,
    status: u16,
    elapsed_millis: u128,
    key_id: Option<u32>,
    written: bool,
)
    ensures
        ({
            let s0 = initial(method, uri, api_key);
            let (s1, a1) = next(s0, BasicLoggerEvent::ResponseReady { status, elapsed_millis });
            let (s2, a2) = next(s1, BasicLoggerEvent::KeyLookedUp { key_id });
            let (s3, a3) = next(s2, BasicLoggerEvent::LogWritten { written });
            &&& s3 is Finished
            &&& a1 == BasicLoggerActionView::LookUpKey { key: printed_key(api_key) }
            &&& match key_id {
                Some(id) => {
                    &&& a2 == BasicLoggerActionView::WriteLog {
                        entry: BasicLogView {
                            api_key_id: id,
                            method,
                            uri,
                            status,
                            duration_in_microseconds: elapsed_millis as u64,
                        },
                    }
                    &&& a3 == if written {
                        BasicLoggerActionView::PassResponse
                    } else {
                        BasicLoggerActionView::Fail { reason: write_failed() }
                    }
                },
                None => {
                    &&& a2 == BasicLoggerActionView::Fail { reason: interaction_failed() }
                    &&& a3 == BasicLoggerActionView::Wait
                },
            }
        }),
{
}

} // verus!
