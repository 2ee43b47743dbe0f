//! Base protocol types: ProtocolMessage, Request, Response, Event,
//! ErrorResponse and Cancel.
//!
//! On the wire a message is always inside a `Content-Length: N\r\n\r\n{json}`
//! frame; the framing is handled by the codec.

use crate::dap::types::Message;
use crate::json::JsonValue;
use vstd::prelude::*;

verus! {

/// The top-level protocol message, tagged by its `type` field.
#[derive(Debug, Clone)]
pub enum ProtocolMessage {
    Request(Request),
    Response(Response),
    Event(Event),
}

impl ProtocolMessage {
    /// Returns the `seq` number regardless of variant.
    pub fn seq(&self) -> (r: u64)
        ensures
            r == match self {
                ProtocolMessage::Request(q) => q.seq,
                ProtocolMessage::Response(q) => q.seq,
                ProtocolMessage::Event(e) => e.seq,
            },
    {
        match self {
            ProtocolMessage::Request(r) => r.seq,
            ProtocolMessage::Response(r) => r.seq,
            ProtocolMessage::Event(e) => e.seq,
        }
    }

    /// Returns `true` if this message is a request.
    pub fn is_request(&self) -> (r: bool)
        ensures
            r == (self is Request),
    {
        matches!(self, ProtocolMessage::Request(_))
    }

    /// Returns `true` if this message is a response.
    pub fn is_response(&self) -> (r: bool)
        ensures
            r == (self is Response),
    {
        matches!(self, ProtocolMessage::Response(_))
    }

    /// Returns `true` if this message is an event.
    pub fn is_event(&self) -> (r: bool)
        ensures
            r == (self is Event),
    {
        matches!(self, ProtocolMessage::Event(_))
    }

    /// Returns the command name for requests and responses, or `None` for events.
    pub fn command(&self) -> (r: Option<&str>)
        ensures
            match self {
                ProtocolMessage::Request(q) => r matches Some(c) && c@ == q.command@,
                ProtocolMessage::Response(q) => r matches Some(c) && c@ == q.command@,
                ProtocolMessage::Event(_) => r is None,
            },
    {
        match self {
            ProtocolMessage::Request(r) => Some(r.command.as_str()),
            ProtocolMessage::Response(r) => Some(r.command.as_str()),
            ProtocolMessage::Event(_) => None,
        }
    }
}

/// A client-to-adapter or adapter-to-client request.
#[derive(Debug, Clone)]
pub struct Request {
    /// Sequence number of the message.
    pub seq: u64,
    /// The command to execute.
    pub command: String,
    /// Object containing arguments for the command.
    pub arguments: Option<JsonValue>,
}

impl Request {
    /// Create a new request with the given sequence number and command.
    pub fn new(seq: u64, command: &str) -> (r: Self)
        ensures
            r.seq == seq,
            r.command@ == command@,
            r.arguments is None,
    {
        Request { seq, command: String::from_str(command), arguments: None }
    }
}

/// A response to a request.
#[derive(Debug, Clone)]
pub struct Response {
    /// Sequence number of the message.
    pub seq: u64,
    /// Sequence number of the corresponding request.
    pub request_seq: u64,
    /// Outcome of the request.
    pub success: bool,
    /// The command that was requested.
    pub command: String,
    /// Raw error in short form if `success` is false.
    pub message: Option<String>,
    /// Contains request result if success is true, or error details if false.
    pub body: Option<JsonValue>,
}

impl Response {
    /// Create a successful response.
    pub fn success(seq: u64, request_seq: u64, command: &str) -> (r: Self)
        ensures
            r.seq == seq,
            r.request_seq == request_seq,
            r.success,
            r.command@ == command@,
            r.message is None,
            r.body is None,
    {
        Response {
            seq,
            request_seq,
            success: true,
            command: String::from_str(command),
            message: None,
            body: None,
        }
    }

    /// Create an error response.
    pub fn error(seq: u64, request_seq: u64, command: &str, message: &str) -> (r: Self)
        ensures
            r.seq == seq,
            r.request_seq == request_seq,
            !r.success,
            r.command@ == command@,
            r.message matches Some(m) && m@ == message@,
            r.body is None,
    {
        Response {
            seq,
            request_seq,
            success: false,
            command: String::from_str(command),
            message: Some(String::from_str(message)),
            body: None,
        }
    }
}

/// A debug adapter initiated event.
#[derive(Debug, Clone)]
pub struct Event {
    /// Sequence number of the message.
    pub seq: u64,
    /// Type of event.
    pub event: String,
    /// Event-specific information.
    pub body: Option<JsonValue>,
}

impl Event {
    /// Create a new event with the given sequence number and event type.
    pub fn new(seq: u64, event: &str) -> (r: Self)
        ensures
            r.seq == seq,
            r.event@ == event@,
            r.body is None,
    {
        Event { seq, event: String::from_str(event), body: None }
    }
}

/// Body of a response when `success` is false.
#[derive(Debug, Clone)]
pub struct ErrorResponseBody {
    /// A structured error message.
    pub error: Option<Message>,
}

/// Arguments for the `cancel` request.
#[derive(Debug, Clone, Default)]
pub struct CancelArguments {
    /// The ID (attribute `seq`) of the request to cancel.
    pub request_id: Option<u64>,
    /// The ID (attribute `progressId`) of the progress to cancel.
    pub progress_id: Option<String>,
}

} // verus!
