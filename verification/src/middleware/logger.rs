//! Logging of requests.
//!
//! Once the wrapped service has answered, the response body is collected, the
//! request's API key is looked up, and, when it names a stored key, a log of
//! the request is written for that key: its method, URI, status, duration,
//! and, for an internal server error, the response body as the error
//! message. The key looked up is the text of the request's `API_KEY` header:
//! `"None"` when the header is absent and `"Invalid"` when its value is not
//! visible text. The response then goes back to the client with its status
//! and body unchanged. The server does the collecting, looking up and writing; this
//! module decides, one event at a time, what it does next.

use vstd::prelude::*;
use vstd::utf8::{valid_utf8, decode_utf8};
use crate::middleware::{printed_key, printed_api_key};
use crate::models::{
    LogType, NewLog, NewLogView, log_type_code, log_type_for_status, opt_text,
};
use crate::text::utf8_string;

verus! {

/// The most bytes of a response body that are collected.
pub const BODY_LIMIT: usize = 1000;

/// What is known of a request's log before its key is looked up.
#[derive(Debug)]
pub struct PendingLog {
    pub method: String,
    pub uri: String,
    pub status: u16,
    pub log_type: LogType,
    pub error_message: Option<String>,
    pub duration_in_microseconds: u64,
}

/// A pending log with its texts as sequences.
pub struct PendingLogView {
    pub method: Seq<char>,
    pub uri: Seq<char>,
    pub status: u16,
    pub log_type: LogType,
    pub error_message: Option<Seq<char>>,
    pub duration_in_microseconds: u64,
}

impl View for PendingLog {
    type V = PendingLogView;

    open spec fn view(&self) -> PendingLogView {
        PendingLogView {
            method: self.method@,
            uri: self.uri@,
            status: self.status,
            log_type: self.log_type,
            error_message: opt_text(self.error_message),
            duration_in_microseconds: self.duration_in_microseconds,
        }
    }
}

/// Where the logging of a request stands.
#[derive(Debug)]
pub enum LoggerState {
    /// The wrapped service has not answered yet.
    AwaitingResponse { method: String, uri: String, api_key: String },
    /// The response's body is being collected.
    AwaitingBody {
        method: String,
        uri: String,
        api_key: String,
        status: u16,
        duration_in_microseconds: u64,
    },
    /// The request's key is being looked up.
    AwaitingKeyLookup { pending: PendingLog, body: Vec<u8> },
    /// The log is being written.
    AwaitingLogWrite { status: u16, body: Vec<u8> },
    /// The response has been handed back, or the request failed.
    Finished,
}

/// A logger state with its texts and bytes as sequences.
pub enum LoggerStateView {
    AwaitingResponse { method: Seq<char>, uri: Seq<char>, api_key: Seq<char> },
    AwaitingBody {
        method: Seq<char>,
        uri: Seq<char>,
        api_key: Seq<char>,
        status: u16,
        duration_in_microseconds: u64,
    },
    AwaitingKeyLookup { pending: PendingLogView, body: Seq<u8> },
    AwaitingLogWrite { status: u16, body: Seq<u8> },
    Finished,
}

impl View for LoggerState {
    type V = LoggerStateView;

    open spec fn view(&self) -> LoggerStateView {
        match self {
            LoggerState::AwaitingResponse { method, uri, api_key } => LoggerStateView::AwaitingResponse {
                method: method@,
                uri: uri@,
                api_key: api_key@,
            },
            LoggerState::AwaitingBody { method, uri, api_key, status, duration_in_microseconds } =>
                LoggerStateView::AwaitingBody {
                method: method@,
                uri: uri@,
                api_key: api_key@,
                status: *status,
                duration_in_microseconds: *duration_in_microseconds,
            },
            LoggerState::AwaitingKeyLookup { pending, body } => LoggerStateView::AwaitingKeyLookup {
                pending: pending@,
                body: body@,
            },
            LoggerState::AwaitingLogWrite { status, body } => LoggerStateView::AwaitingLogWrite {
                status: *status,
                body: body@,
            },
            LoggerState::Finished => LoggerStateView::Finished,
        }
    }
}

/// What the server reports back.
#[derive(Debug)]
pub enum LoggerEvent {
    /// The wrapped service answered with this status, this many microseconds
    /// after the request arrived.
    ResponseReady { status: u16, elapsed_micros: u128 },
    /// The response body was collected, or could not be within the limit.
    BodyCollected { body: Option<Vec<u8>> },
    /// The lookup of the request's key ended: the id of the stored key it
    /// names, or nothing when no stored key matched or the lookup failed.
    KeyLookedUp { key_id: Option<u32> },
    /// The log write ended, whether or not it succeeded.
    LogWritten,
}

/// An event with its bytes as sequences.
pub enum LoggerEventView {
    ResponseReady { status: u16, elapsed_micros: u128 },
    BodyCollected { body: Option<Seq<u8>> },
    KeyLookedUp { key_id: Option<u32> },
    LogWritten,
}

impl View for LoggerEvent {
    type V = LoggerEventView;

    open spec fn view(&self) -> LoggerEventView {
        match self {
            LoggerEvent::ResponseReady { status, elapsed_micros } => LoggerEventView::ResponseReady {
                status: *status,
                elapsed_micros: *elapsed_micros,
            },
            LoggerEvent::BodyCollected { body } => LoggerEventView::BodyCollected {
                body: match body {
                    Some(bytes) => Some(bytes@),
                    None => None,
                },
            },
            LoggerEvent::KeyLookedUp { key_id } => LoggerEventView::KeyLookedUp { key_id: *key_id },
            LoggerEvent::LogWritten => LoggerEventView::LogWritten,
        }
    }
}

/// What the server is to do next.
#[derive(Debug)]
pub enum LoggerAction {
    /// Collect at most `limit` bytes of the response body.
    CollectBody { limit: usize },
    /// Look up the stored API key whose text is `key`.
    LookUpKey { key: String },
    /// Write this log.
    WriteLog { entry: NewLog },
    /// Hand the response back with this status and body.
    Respond { status: u16, body: Vec<u8> },
    /// Give up on the request with this reason.
    Fail { reason: String },
    /// Nothing: the event was not the one awaited.
    Wait,
}

/// An action with its texts and bytes as sequences.
pub enum LoggerActionView {
    CollectBody { limit: usize },
    LookUpKey { key: Seq<char> },
    WriteLog { entry: NewLogView },
    Respond { status: u16, body: Seq<u8> },
    Fail { reason: Seq<char> },
    Wait,
}

impl View for LoggerAction {
    type V = LoggerActionView;

    open spec fn view(&self) -> LoggerActionView {
        match self {
            LoggerAction::CollectBody { limit } => LoggerActionView::CollectBody { limit: *limit },
            LoggerAction::LookUpKey { key } => LoggerActionView::LookUpKey { key: key@ },
            LoggerAction::WriteLog { entry } => LoggerActionView::WriteLog { entry: entry@ },
            LoggerAction::Respond { status, body } => LoggerActionView::Respond {
                status: *status,
                body: body@,
            },
            LoggerAction::Fail { reason } => LoggerActionView::Fail { reason: reason@ },
            LoggerAction::Wait => LoggerActionView::Wait,
        }
    }
}

/// The reason given when the body cannot be collected.
pub open spec fn body_not_collected() -> Seq<char> {
    "Failed to collect body bytes"@
}

/// The reason given when an error response's body is not text.
pub open spec fn body_not_utf8() -> Seq<char> {
    "Body is not valid UTF-8"@
}

/// The log of a request whose key was found with the given id.
pub open spec fn log_entry(pending: PendingLogView, key_id: u32) -> NewLogView {
    NewLogView {
        api_key_id: key_id,
        method: pending.method,
        uri: pending.uri,
        status: pending.status,
        type_: log_type_code(pending.log_type),
        error_message: pending.error_message,
        duration_in_microseconds: pending.duration_in_microseconds,
    }
}

/// The logging rule: the next state and action after an event.
pub open spec fn next(state: LoggerStateView, event: LoggerEventView) -> (
    LoggerStateView,
    LoggerActionView,
) {
    match (state, event) {
        (
            LoggerStateView::AwaitingResponse { method, uri, api_key },
            LoggerEventView::ResponseReady { status, elapsed_micros },
        ) => (
            LoggerStateView::AwaitingBody {
                method,
                uri,
                api_key,
                status,
                duration_in_microseconds: elapsed_micros as u64,
            },
            LoggerActionView::CollectBody { limit: BODY_LIMIT },
        ),
        (
            LoggerStateView::AwaitingBody { method, uri, api_key, status, duration_in_microseconds },
            LoggerEventView::BodyCollected { body },
        ) => match body {
            None => (LoggerStateView::Finished, LoggerActionView::Fail { reason: body_not_collected() }),
            Some(bytes) => if status == 500 && !valid_utf8(bytes) {
                (LoggerStateView::Finished, LoggerActionView::Fail { reason: body_not_utf8() })
            } else {
                (
                    LoggerStateView::AwaitingKeyLookup {
                        pending: PendingLogView {
                            method,
                            uri,
                            status,
                            log_type: log_type_for_status(status),
                            error_message: if status == 500 {
                                Some(decode_utf8(bytes))
                            } else {
                                None
                            },
                            duration_in_microseconds,
                        },
                        body: bytes,
                    },
                    LoggerActionView::LookUpKey { key: api_key },
                )
            },
        },
        (LoggerStateView::AwaitingKeyLookup { pending, body }, LoggerEventView::KeyLookedUp { key_id }) =>
            match key_id {
            Some(id) => (
                LoggerStateView::AwaitingLogWrite { status: pending.status, body },
                LoggerActionView::WriteLog { entry: log_entry(pending, id) },
            ),
            None => (
                LoggerStateView::Finished,
                LoggerActionView::Respond { status: pending.status, body },
            ),
        },
        (LoggerStateView::AwaitingLogWrite { status, body }, LoggerEventView::LogWritten) => (
            LoggerStateView::Finished,
            LoggerActionView::Respond { status, body },
        ),
        _ => (state, LoggerActionView::Wait),
    }
}

/// The state reached and the actions taken, one per event, when the events
/// arrive in order from `start`.
pub open spec fn run(start: LoggerStateView, events: Seq<LoggerEventView>) -> (
    LoggerStateView,
    Seq<LoggerActionView>,
)
    decreases events.len(),
{
    if events.len() == 0 {
        (start, Seq::empty())
    } else {
        let (before, actions) = run(start, events.drop_last());
        let (after, action) = next(before, events.last());
        (after, actions.push(action))
    }
}

/// The state in which the logging of a request starts.
pub open spec fn initial(method: Seq<char>, uri: Seq<char>, api_key: Option<Seq<u8>>) -> LoggerStateView {
    LoggerStateView::AwaitingResponse { method, uri, api_key: printed_key(api_key) }
}

impl LoggerState {
    /// Starts logging a request with this method, URI and raw API-key header.
    pub fn new(method: String, uri: String, api_key: Option<&[u8]>) -> (state: LoggerState)
        ensures
            state@ == initial(
                method@,
                uri@,
                match api_key {
                    Some(bytes) => Some(bytes@),
                    None => None,
                },
            ),
    {
        let api_key = printed_api_key(api_key);
        LoggerState::AwaitingResponse { method, uri, api_key }
    }

    /// Whether the logging has ended.
    pub fn is_finished(&self) -> (finished: bool)
        ensures
            finished <==> self@ is Finished,
    {
        match self {
            LoggerState::Finished => true,
            _ => false,
        }
    }

    /// Takes in an event and says what to do next.
    pub fn step(self, event: LoggerEvent) -> (result: (LoggerState, LoggerAction))
        ensures
            (result.0@, result.1@) == next(self@, event@),
    {
        match (self, event) {
            (
                LoggerState::AwaitingResponse { method, uri, api_key },
                LoggerEvent::ResponseReady { status, elapsed_micros },
            ) => (
                LoggerState::AwaitingBody {
                    method,
                    uri,
                    api_key,
                    status,
                    duration_in_microseconds: elapsed_micros as u64,
                },
                LoggerAction::CollectBody { limit: BODY_LIMIT },
            ),
            (
                LoggerState::AwaitingBody { method, uri, api_key, status, duration_in_microseconds },
                LoggerEvent::BodyCollected { body },
            ) => match body {
                None => (
                    LoggerState::Finished,
                    LoggerAction::Fail { reason: String::from_str("Failed to collect body bytes") },
                ),
                Some(bytes) => {
                    let error_message = if status == 500 {
                        match utf8_string(bytes.clone()) {
                            Some(text) => Some(text),
                            None => {
                                return (
                                    LoggerState::Finished,
                                    LoggerAction::Fail {
                                        reason: String::from_str("Body is not valid UTF-8"),
                                    },
                                );
                            },
                        }
                    } else {
                        None
                    };
                    let pending = PendingLog {
                        method,
                        uri,
                        status,
                        log_type: LogType::for_status(status),
                        error_message,
                        duration_in_microseconds,
                    };
                    (
                        LoggerState::AwaitingKeyLookup { pending, body: bytes },
                        LoggerAction::LookUpKey { key: api_key },
                    )
                },
            },
            (LoggerState::AwaitingKeyLookup { pending, body }, LoggerEvent::KeyLookedUp { key_id }) => {
                match key_id {
                    Some(id) => {
                        let entry = NewLog {
                            api_key_id: id,
                            method: pending.method,
                            uri: pending.uri,
                            status: pending.status,
                            type_: pending.log_type.code(),
                            error_message: pending.error_message,
                            duration_in_microseconds: pending.duration_in_microseconds,
                        };
                        (
                            LoggerState::AwaitingLogWrite { status: pending.status, body },
                            LoggerAction::WriteLog { entry },
                        )
                    },
                    None => (
                        LoggerState::Finished,
                        LoggerAction::Respond { status: pending.status, body },
                    ),
                }
            },
            (LoggerState::AwaitingLogWrite { status, body }, LoggerEvent::LogWritten) => (
                LoggerState::Finished,
                LoggerAction::Respond { status, body },
            ),
            (state, _) => (state, LoggerAction::Wait),
        }
    }
}


/// No response has been handed back and nothing has failed.
pub open spec fn nothing_ended(actions: Seq<LoggerActionView>) -> bool {
    forall|k: int|
        0 <= k < actions.len() ==> !(#[trigger] actions[k] is Respond) && !(actions[k] is Fail)
}

/// No log has been written.
pub open spec fn nothing_written(actions: Seq<LoggerActionView>) -> bool {
    forall|k: int| 0 <= k < actions.len() ==> !(#[trigger] actions[k] is WriteLog)
}

/// Some event before position `k` reported a response with this status,
/// after a time whose microseconds, cut to 64 bits, are `duration`.
pub open spec fn answered_with(
    events: Seq<LoggerEventView>,
    k: int,
    status: u16,
    duration: u64,
) -> bool {
    exists|j: int|
        0 <= j < k && #[trigger] events[j] is ResponseReady && events[j]->ResponseReady_status == status
            && events[j]->ResponseReady_elapsed_micros as u64 == duration
}

/// Some event before position `k` delivered this collected body.
pub open spec fn collected(events: Seq<LoggerEventView>, k: int, body: Seq<u8>) -> bool {
    exists|j: int| 0 <= j < k && #[trigger] events[j] == (LoggerEventView::BodyCollected { body: Some(body) })
}

/// A written log describes the request: its method and URI, a status and
/// duration that the wrapped service reported, the `ERROR` type and an error
/// message exactly for an internal server error.
pub open spec fn entry_describes(
    entry: NewLogView,
    method: Seq<char>,
    uri: Seq<char>,
    events: Seq<LoggerEventView>,
    k: int,
) -> bool {
    &&& entry.method == method
    &&& entry.uri == uri
    &&& entry.type_ == log_type_code(log_type_for_status(entry.status))
    &&& (entry.error_message is Some <==> entry.status == 500)
    &&& answered_with(events, k, entry.status, entry.duration_in_microseconds)
}

/// Some event before position `k` reported a response with this status.
pub open spec fn reported_status(events: Seq<LoggerEventView>, k: int, status: u16) -> bool {
    exists|j: int|
        0 <= j < k && #[trigger] events[j] is ResponseReady && events[j]->ResponseReady_status == status
}

/// What holds of every run of the logging of a request with this method,
/// URI and API-key text, whatever the events.
pub open spec fn run_is_sound(
    method: Seq<char>,
    uri: Seq<char>,
    api_key: Seq<char>,
    events: Seq<LoggerEventView>,
    actions: Seq<LoggerActionView>,
) -> bool {
    &&& actions.len() == events.len()
    &&& forall|k: int|
        0 <= k < actions.len() && #[trigger] actions[k] is Respond ==> {
            &&& collected(events, k + 1, actions[k]->Respond_body)
            &&& reported_status(events, k, actions[k]->Respond_status)
        }
    &&& forall|k: int|
        0 <= k < actions.len() && #[trigger] actions[k] is LookUpKey ==> api_key
            == actions[k]->LookUpKey_key
    &&& forall|k: int|
        0 <= k < actions.len() && #[trigger] actions[k] is WriteLog ==> {
            &&& events[k] == (LoggerEventView::KeyLookedUp {
                key_id: Some(actions[k]->WriteLog_entry.api_key_id),
            })
            &&& entry_describes(actions[k]->WriteLog_entry, method, uri, events, k)
        }
    &&& forall|j: int, k: int|
        0 <= j < k < actions.len() && (#[trigger] actions[j] is Respond || actions[j] is Fail)
            ==> #[trigger] actions[k] is Wait
}

/// How each state of a run relates to the events seen so far.
pub open spec fn state_fits(
    state: LoggerStateView,
    method: Seq<char>,
    uri: Seq<char>,
    api_key: Seq<char>,
    events: Seq<LoggerEventView>,
    actions: Seq<LoggerActionView>,
) -> bool {
    let n: int = events.len() as int;
    match state {
        LoggerStateView::AwaitingResponse { method: m, uri: u, api_key: k } => {
            &&& m == method
            &&& u == uri
            &&& k == api_key
            &&& nothing_ended(actions)
            &&& nothing_written(actions)
        },
        LoggerStateView::AwaitingBody { method: m, uri: u, api_key: k, status, duration_in_microseconds } => {
            &&& m == method
            &&& u == uri
            &&& k == api_key
            &&& answered_with(events, n, status, duration_in_microseconds)
            &&& nothing_ended(actions)
            &&& nothing_written(actions)
        },
        LoggerStateView::AwaitingKeyLookup { pending, body } => {
            &&& pending.method == method
            &&& pending.uri == uri
            &&& pending.log_type == log_type_for_status(pending.status)
            &&& (pending.error_message is Some <==> pending.status == 500)
            &&& answered_with(events, n, pending.status, pending.duration_in_microseconds)
            &&& collected(events, n, body)
            &&& nothing_ended(actions)
            &&& nothing_written(actions)
        },
        LoggerStateView::AwaitingLogWrite { status, body } => {
            &&& collected(events, n, body)
            &&& reported_status(events, n, status)
            &&& nothing_ended(actions)
        },
        LoggerStateView::Finished => true,
    }
}

proof fn lemma_run_invariant(
    method: Seq<char>,
    uri: Seq<char>,
    api_key: Seq<char>,
    events: Seq<LoggerEventView>,
)
    ensures
        ({
            let (state, actions) = run(
                LoggerStateView::AwaitingResponse { method, uri, api_key },
                events,
            );
            &&& run_is_sound(method, uri, api_key, events, actions)
            &&& state_fits(state, method, uri, api_key, events, actions)
        }),
    decreases events.len(),
{
    let start = LoggerStateView::AwaitingResponse { method, uri, api_key };
    if events.len() > 0 {
        let prefix = events.drop_last();
        lemma_run_invariant(method, uri, api_key, prefix);
        let (before, earlier) = run(start, prefix);
        let (after, action) = next(before, events.last());
        let actions = earlier.push(action);
        assert(run(start, events) == (after, actions));
        let n: int = prefix.len() as int;
        assert forall|k: int| 0 <= k < n implies #[trigger] actions[k] == earlier[k] && events[k]
            == prefix[k] by {}
        assert(actions[n] == action && events[n] == events.last());
        // Witnesses found among the earlier events stay witnesses.
        assert forall|k: int, status: u16, duration: u64|
            0 <= k <= n && answered_with(prefix, k, status, duration) implies answered_with(
            events,
            k,
            status,
            duration,
        ) by {
            let j = choose|j: int|
                0 <= j < k && #[trigger] prefix[j] is ResponseReady && prefix[j]->ResponseReady_status
                    == status && prefix[j]->ResponseReady_elapsed_micros as u64 == duration;
            assert(events[j] == prefix[j]);
        }
        assert forall|k: int, body: Seq<u8>|
            0 <= k <= n && collected(prefix, k, body) implies collected(events, k, body) by {
            let j = choose|j: int|
                0 <= j < k && #[trigger] prefix[j] == (LoggerEventView::BodyCollected { body: Some(body) });
            assert(events[j] == prefix[j]);
        }
        assert forall|k: int, status: u16|
            0 <= k <= n && reported_status(prefix, k, status) implies reported_status(events, k, status) by {
            let j = choose|j: int|
                0 <= j < k && #[trigger] prefix[j] is ResponseReady && prefix[j]->ResponseReady_status
                    == status;
            assert(events[j] == prefix[j]);
        }
        assert forall|k: int, status: u16, duration: u64|
            0 <= k <= n && answered_with(events, k, status, duration) implies reported_status(events, k, status) by {
            let j = choose|j: int|
                0 <= j < k && #[trigger] events[j] is ResponseReady && events[j]->ResponseReady_status
                    == status && events[j]->ResponseReady_elapsed_micros as u64 == duration;
        }
        match (before, events.last()) {
            (
                LoggerStateView::AwaitingResponse { .. },
                LoggerEventView::ResponseReady { status, elapsed_micros },
            ) => {
                assert(answered_with(events, n + 1, status, elapsed_micros as u64));
            },
            (LoggerStateView::AwaitingBody { status, duration_in_microseconds, .. }, LoggerEventView::BodyCollected { body }) => {
                assert(answered_with(events, n + 1, status, duration_in_microseconds));
                assert(reported_status(events, n + 1, status));
                if let Some(bytes) = body {
                    assert(collected(events, n + 1, bytes));
                }
            },
            (LoggerStateView::AwaitingKeyLookup { pending, body }, LoggerEventView::KeyLookedUp { key_id }) => {
                assert(collected(events, n, body));
                assert(collected(events, n + 1, body));
                assert(answered_with(events, n, pending.status, pending.duration_in_microseconds));
                assert(answered_with(events, n + 1, pending.status, pending.duration_in_microseconds));
                assert(reported_status(events, n + 1, pending.status));
            },
            (LoggerStateView::AwaitingLogWrite { status, body }, LoggerEventView::LogWritten) => {
                assert(collected(events, n, body));
                assert(reported_status(events, n, status));
            },
            _ => {},
        }
    }
}

/// Law: whatever events arrive, the logging of a request hands back only a
/// status that the wrapped service reported and a body it collected from
/// that service's response; it looks up only the request's API-key text
/// (the header's text, `"None"` or `"Invalid"`); it writes a log only right after the lookup found that key, for it, and
/// the log describes the request (its method and URI, a status and duration
/// that the service reported, the `ERROR` type and an error message exactly
/// for status 500); and after the response is handed back or the request
/// fails, it does nothing more.
pub proof fn lemma_logging_is_sound(
    method: Seq<char>,
    uri: Seq<char>,
    api_key: Option<Seq<u8>>,
    events: Seq<LoggerEventView>,
)
    ensures
        run_is_sound(
            method,
            uri,
            printed_key(api_key),
            events,
            run(initial(method, uri, api_key), events).1,
        ),
{
    lemma_run_invariant(method, uri, printed_key(api_key), events);
}

/// The log written for a request when its key is found with the given id.
pub open spec fn expected_entry(
    method: Seq<char>,
    uri: Seq<char>,
    status: u16,
    elapsed_micros: u128,
    body: Seq<u8>,
    key_id: u32,
) -> NewLogView {
    NewLogView {
        api_key_id: key_id,
        method,
        uri,
        status,
        type_: log_type_code(log_type_for_status(status)),
        error_message: if status == 500 {
            Some(decode_utf8(body))
        } else {
            None
        },
        duration_in_microseconds: elapsed_micros as u64,
    }
}

/// Law: a request is logged as follows. Once the wrapped service answers,
/// at most `BODY_LIMIT` bytes of the body are collected. An internal server
/// error whose body is not UTF-8 fails the request. Otherwise the request's
/// API-key text is looked up: the header's text, `"None"` when the header is
/// absent and `"Invalid"` when its value is not visible text. When a stored
/// key has that text, a log for it is written (the method, URI, status,
/// duration in microseconds, log type, and for status 500 the body as error
/// message) before the response is handed back, and when it is not, the
/// response is handed back with nothing written. The status and body handed
/// back are the ones the wrapped service answered with.
pub proof fn lemma_logging_outcome(
    method: Seq<char>,
    uri: Seq<char>,
    api_key: Option<Seq<u8>>,
    status: u16,
    elapsed_micros: u128,
    body: Seq<u8>,
    key_id: Option<u32>,
)
    ensures
        BODY_LIMIT == 1000,
        ({
            let events = seq![
                LoggerEventView::ResponseReady { status, elapsed_micros },
                LoggerEventView::BodyCollected { body: Some(body) },
                LoggerEventView::KeyLookedUp { key_id },
                LoggerEventView::LogWritten,
            ];
            let actions = run(initial(method, uri, api_key), events).1;
            let collect = LoggerActionView::CollectBody { limit: BODY_LIMIT };
            let respond = LoggerActionView::Respond { status, body };
            if status == 500 && !valid_utf8(body) {
                actions == seq![
                    collect,
                    LoggerActionView::Fail { reason: body_not_utf8() },
                    LoggerActionView::Wait,
                    LoggerActionView::Wait,
                ]
            } else {
                let lookup = LoggerActionView::LookUpKey { key: printed_key(api_key) };
                actions == match key_id {
                    Some(id) => seq![
                        collect,
                        lookup,
                        LoggerActionView::WriteLog {
                            entry: expected_entry(method, uri, status, elapsed_micros, body, id),
                        },
                        respond,
                    ],
                    None => seq![collect, lookup, respond, LoggerActionView::Wait],
                }
            }
        }),
{
    let start = initial(method, uri, api_key);
    let events = seq![
        LoggerEventView::ResponseReady { status, elapsed_micros },
        LoggerEventView::BodyCollected { body: Some(body) },
        LoggerEventView::KeyLookedUp { key_id },
        LoggerEventView::LogWritten,
    ];
    let e3 = events.drop_last();
    let e2 = e3.drop_last();
    let e1 = e2.drop_last();
    let e0 = e1.drop_last();
    assert(e0 =~= Seq::<LoggerEventView>::empty());
    assert(e1 =~= seq![events[0]]);
    assert(e2 =~= seq![events[0], events[1]]);
    assert(e3 =~= seq![events[0], events[1], events[2]]);
    let r0 = run(start, e0);
    let r1 = run(start, e1);
    let r2 = run(start, e2);
    let r3 = run(start, e3);
    let r4 = run(start, events);
    assert(r1.1 =~= r0.1.push(next(r0.0, events[0]).1));
    assert(r2.1 =~= r1.1.push(next(r1.0, events[1]).1));
    assert(r3.1 =~= r2.1.push(next(r2.0, events[2]).1));
    assert(r4.1 =~= r3.1.push(next(r3.0, events[3]).1));
}

} // verus!
