//! Log messages and their encoding as lines of a log file.
//!
//! A log file holds one JSON value per line. A message with a payload is an
//! object with a single key, the name of its kind; a message without one is
//! the name of its kind as a JSON string.

use vstd::prelude::*;
use vstd::string::*;
use crate::text::concat2;

verus! {

/// One event of an execution's log stream. A patch is held as its JSON
/// text.
#[derive(Debug)]
pub enum LogMsg {
    Stdout(String),
    Stderr(String),
    JsonPatch(String),
    SessionId(String),
    MessageId(String),
    Ready,
    Finished,
}

pub ghost enum LogMsgView {
    Stdout(Seq<char>),
    Stderr(Seq<char>),
    JsonPatch(Seq<char>),
    SessionId(Seq<char>),
    MessageId(Seq<char>),
    Ready,
    Finished,
}

impl View for LogMsg {
    type V = LogMsgView;

    open spec fn view(&self) -> LogMsgView {
        match self {
            LogMsg::Stdout(s) => LogMsgView::Stdout(s@),
            LogMsg::Stderr(s) => LogMsgView::Stderr(s@),
            LogMsg::JsonPatch(s) => LogMsgView::JsonPatch(s@),
            LogMsg::SessionId(s) => LogMsgView::SessionId(s@),
            LogMsg::MessageId(s) => LogMsgView::MessageId(s@),
            LogMsg::Ready => LogMsgView::Ready,
            LogMsg::Finished => LogMsgView::Finished,
        }
    }
}

impl Clone for LogMsg {
    fn clone(&self) -> (copy: Self)
        ensures
            copy@ == self@,
    {
        match self {
            LogMsg::Stdout(s) => LogMsg::Stdout(s.clone()),
            LogMsg::Stderr(s) => LogMsg::Stderr(s.clone()),
            LogMsg::JsonPatch(s) => LogMsg::JsonPatch(s.clone()),
            LogMsg::SessionId(s) => LogMsg::SessionId(s.clone()),
            LogMsg::MessageId(s) => LogMsg::MessageId(s.clone()),
            LogMsg::Ready => LogMsg::Ready,
            LogMsg::Finished => LogMsg::Finished,
        }
    }
}

/// The views of a list of messages, in the same order.
pub open spec fn msg_views(messages: Seq<LogMsg>) -> Seq<LogMsgView> {
    messages.map_values(|m: LogMsg| m@)
}

impl LogMsgView {
    /// Whether the message is raw output of the child: a line of its
    /// standard output or of its standard error.
    pub open spec fn is_output(self) -> bool {
        self is Stdout || self is Stderr
    }

    /// The text that is written as a JSON string when the message is
    /// encoded; none for a patch, which is JSON already, and for the
    /// messages without a payload.
    pub open spec fn text_payload(self) -> Option<Seq<char>> {
        match self {
            LogMsgView::Stdout(s) => Some(s),
            LogMsgView::Stderr(s) => Some(s),
            LogMsgView::SessionId(s) => Some(s),
            LogMsgView::MessageId(s) => Some(s),
            _ => None,
        }
    }

    /// The JSON value that encodes the message, given the JSON string that
    /// stands for its text payload.
    pub open spec fn json_with(self, payload_json: Seq<char>) -> Seq<char> {
        match self {
            LogMsgView::Stdout(_) => "{\"Stdout\":"@ + payload_json + "}"@,
            LogMsgView::Stderr(_) => "{\"Stderr\":"@ + payload_json + "}"@,
            LogMsgView::JsonPatch(patch) => "{\"JsonPatch\":"@ + patch + "}"@,
            LogMsgView::SessionId(_) => "{\"SessionId\":"@ + payload_json + "}"@,
            LogMsgView::MessageId(_) => "{\"MessageId\":"@ + payload_json + "}"@,
            LogMsgView::Ready => "\"Ready\""@,
            LogMsgView::Finished => "\"Finished\""@,
        }
    }
}

/// The JSON string literal that `serde_json` writes for a text: the text
/// in double quotes, escaped as JSON asks.
pub uninterp spec fn json_string_of(text: Seq<char>) -> Seq<char>;

/// The error type of `serde_json`.
#[verifier::external_type_specification]
#[verifier::external_body]
pub struct ExSerdeJsonError(serde_json::Error);

/// Serialises a string with `serde_json::to_string`. Where that succeeds,
/// the contract names the result: the JSON literal is a function of the
/// text alone. That it succeeds is not claimed.
#[verifier::external_body]
fn json_string(text: &str) -> (json: Result<String, serde_json::Error>)
    ensures
        json is Ok ==> json.unwrap()@ == json_string_of(text@),
{
    serde_json::to_string(text)
}

/// Why a message could not be written as a line.
#[derive(Clone, Copy, Debug, PartialEq, Eq, Structural)]
pub enum LogEncodeError {
    /// The serialiser refused the message's text.
    Serialize,
}

/// The line that stands for a message in a log file: its JSON value and a
/// line feed.
pub open spec fn log_line_with(msg: LogMsgView, payload_json: Seq<char>) -> Seq<char> {
    msg.json_with(payload_json) + "\n"@
}

/// Writes a message as a line of a log file, given the JSON string that
/// stands for its text payload. The payload is not read for a patch or a
/// message without text.
pub fn encode_log_line(msg: &LogMsg, payload_json: &str) -> (line: String)
    ensures
        line@ == log_line_with(msg@, payload_json@),
{
    let mut line = match msg {
        LogMsg::Stdout(_) => concat2("{\"Stdout\":", payload_json),
        LogMsg::Stderr(_) => concat2("{\"Stderr\":", payload_json),
        LogMsg::JsonPatch(patch) => concat2("{\"JsonPatch\":", patch.as_str()),
        LogMsg::SessionId(_) => concat2("{\"SessionId\":", payload_json),
        LogMsg::MessageId(_) => concat2("{\"MessageId\":", payload_json),
        LogMsg::Ready => { return concat2("\"Ready\"", "\n"); },
        LogMsg::Finished => { return concat2("\"Finished\"", "\n"); },
    };
    line.append("}");
    line.append("\n");
    line
}

/// The line that `append_log_message` adds to a log file for a message.
pub open spec fn log_line_of(msg: LogMsgView) -> Seq<char> {
    match msg.text_payload() {
        Some(text) => log_line_with(msg, json_string_of(text)),
        None => log_line_with(msg, Seq::empty()),
    }
}

/// Writes a message as the line to append to a log file: one JSON value,
/// ended by a line feed. A message whose text the serialiser refuses gives
/// an error; a patch and a message without text always give a line.
pub fn append_log_message(msg: &LogMsg) -> (line: Result<String, LogEncodeError>)
    ensures
        line is Ok ==> line.unwrap()@ == log_line_of(msg@),
        msg@.text_payload() is None ==> line is Ok,
{
    let text = match msg {
        LogMsg::Stdout(s) => s,
        LogMsg::Stderr(s) => s,
        LogMsg::SessionId(s) => s,
        LogMsg::MessageId(s) => s,
        _ => { return Ok(encode_log_line(msg, "")); },
    };
    match json_string(text.as_str()) {
        Ok(json) => Ok(encode_log_line(msg, json.as_str())),
        Err(_) => Err(LogEncodeError::Serialize),
    }
}

} // verus!
