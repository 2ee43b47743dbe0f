//! Error types of the DAP client, the debug session and the OpenOCD client,
//! with the messages they are reported by.

use crate::numtext::{decimal_chars, spec_decimal};
use crate::state::{spec_state_name, SessionState};
use crate::text::{join_strs, spec_join, string_of};
use vstd::prelude::*;
use vstd::string::*;

verus! {

// ── Outside error types ──────────────────────────────────────────────────

/// An I/O error, as std reports it.
#[verifier::external_type_specification]
#[verifier::external_body]
pub struct ExIoError(std::io::Error);

/// A JSON (de)serialization error, as `serde_json` reports it.
#[verifier::external_type_specification]
#[verifier::external_body]
pub struct ExJsonError(serde_json::Error);

/// The text of an I/O error.
///
/// Trusted: calls `<std::io::Error as Display>::fmt` through `to_string`; the
/// text may come from the operating system, so nothing is stated of it.
#[verifier::external_body]
pub(crate) fn io_error_text(e: &std::io::Error) -> (r: String) {
    e.to_string()
}

/// The text of a JSON error.
///
/// Trusted: calls `<serde_json::Error as Display>::fmt` through `to_string`;
/// nothing is stated of the text.
#[verifier::external_body]
pub(crate) fn json_error_text(e: &serde_json::Error) -> (r: String) {
    e.to_string()
}

/// What `format!("{:?}", o)` writes for an optional string.
pub uninterp spec fn spec_debug_opt_text(o: Option<Seq<char>>) -> Seq<char>;

/// The debug form of an optional string: `None` or `Some("...")` with the
/// string escaped.
///
/// Trusted: calls `<Option<String> as Debug>::fmt` through `format!`; the
/// contract only names the result, which depends on the value alone.
#[verifier::external_body]
fn debug_opt_text(o: &Option<String>) -> (r: String)
    ensures
        r@ == spec_debug_opt_text(
            match o {
                Some(s) => Some(s@),
                None => None,
            },
        ),
{
    format!("{:?}", o)
}

/// What `format!("{:?}", s)` writes for a string.
pub uninterp spec fn spec_debug_str_text(s: Seq<char>) -> Seq<char>;

/// The debug form of a string: the string in double quotes, with quotes,
/// backslashes and control characters escaped.
///
/// Trusted: calls `<str as Debug>::fmt` through `format!`; the contract only
/// names the result, which depends on the text alone.
#[verifier::external_body]
pub(crate) fn debug_str_text(s: &str) -> (r: String)
    ensures
        r@ == spec_debug_str_text(s@),
{
    format!("{:?}", s)
}

/// `prefix` followed by `rest`, as a new string.
fn concat2(prefix: &str, rest: &str) -> (r: String)
    ensures
        r@ == prefix@ + rest@,
{
    let mut s = String::from_str(prefix);
    s.append(rest);
    s
}

// ── DAP client errors ────────────────────────────────────────────────────

/// Errors that can occur during DAP client operations.
#[derive(Debug)]
pub enum DapClientError {
    /// Failed to spawn the debug adapter child process.
    SpawnFailed(String),
    /// The debug adapter process exited unexpectedly.
    ProcessExited(String),
    /// An operation was attempted without an active connection.
    NotConnected(String),
    /// A DAP request returned `success: false`.
    DapRequestFailed { command: String, message: String },
    /// A DAP protocol-level error (e.g. bad frame, missing header).
    DapProtocol(String),
    /// A timeout while waiting for a response.
    Timeout(String),
    /// IO error from the underlying transport.
    Io(std::io::Error),
    /// JSON serialization/deserialization error.
    Json(serde_json::Error),
}

/// The message of a DAP client error whose payload is text.
pub open spec fn spec_dap_client_message(e: DapClientError) -> Option<Seq<char>> {
    match e {
        DapClientError::SpawnFailed(s) => Some("Failed to spawn process: "@ + s@),
        DapClientError::ProcessExited(s) => Some("Process exited unexpectedly: "@ + s@),
        DapClientError::NotConnected(s) => Some("Not connected: "@ + s@),
        DapClientError::DapRequestFailed { command, message } => Some(
            "DAP request '"@ + command@ + "' failed: "@ + message@,
        ),
        DapClientError::DapProtocol(s) => Some("DAP protocol error: "@ + s@),
        DapClientError::Timeout(s) => Some("Timeout: "@ + s@),
        DapClientError::Io(_) => None,
        DapClientError::Json(_) => None,
    }
}

impl DapClientError {
    /// Create a `DapRequestFailed` error from a response.
    pub fn request_failed(command: &str, message: &str) -> (r: Self)
        ensures
            r matches DapClientError::DapRequestFailed { command: c, message: m } && c@ == command@
                && m@ == message@,
    {
        DapClientError::DapRequestFailed {
            command: String::from_str(command),
            message: String::from_str(message),
        }
    }

    /// Returns true if this error is a `NotConnected` error.
    pub fn is_not_connected(&self) -> (r: bool)
        ensures
            r == (self is NotConnected),
    {
        matches!(self, DapClientError::NotConnected(_))
    }

    /// The message this error is reported by.
    pub fn message(&self) -> (r: String)
        ensures
            spec_dap_client_message(*self) matches Some(m) ==> r@ == m,
            self is Io ==> r@.len() >= "IO error: "@.len() && r@.subrange(0, "IO error: "@.len() as int) == "IO error: "@,
            self is Json ==> r@.len() >= "JSON error: "@.len() && r@.subrange(0, "JSON error: "@.len() as int) == "JSON error: "@,
    {
        match self {
            DapClientError::SpawnFailed(s) => concat2("Failed to spawn process: ", s.as_str()),
            DapClientError::ProcessExited(s) => concat2("Process exited unexpectedly: ", s.as_str()),
            DapClientError::NotConnected(s) => concat2("Not connected: ", s.as_str()),
            DapClientError::DapRequestFailed { command, message } => {
                let mut r = concat2("DAP request '", command.as_str());
                r.append("' failed: ");
                r.append(message.as_str());
                r
            },
            DapClientError::DapProtocol(s) => concat2("DAP protocol error: ", s.as_str()),
            DapClientError::Timeout(s) => concat2("Timeout: ", s.as_str()),
            DapClientError::Io(e) => {
                let t = io_error_text(e);
                let r = concat2("IO error: ", t.as_str());
                assert(r@.subrange(0, "IO error: "@.len() as int) =~= "IO error: "@);
                r
            },
            DapClientError::Json(e) => {
                let t = json_error_text(e);
                let r = concat2("JSON error: ", t.as_str());
                assert(r@.subrange(0, "JSON error: "@.len() as int) =~= "JSON error: "@);
                r
            },
        }
    }
}

impl From<std::io::Error> for DapClientError {
    fn from(e: std::io::Error) -> (r: Self) {
        DapClientError::Io(e)
    }
}

impl vstd::std_specs::convert::FromSpecImpl<std::io::Error> for DapClientError {
    open spec fn obeys_from_spec() -> bool {
        true
    }

    open spec fn from_spec(e: std::io::Error) -> Self {
        DapClientError::Io(e)
    }
}

impl From<serde_json::Error> for DapClientError {
    fn from(e: serde_json::Error) -> (r: Self) {
        DapClientError::Json(e)
    }
}

impl vstd::std_specs::convert::FromSpecImpl<serde_json::Error> for DapClientError {
    open spec fn obeys_from_spec() -> bool {
        true
    }

    open spec fn from_spec(e: serde_json::Error) -> Self {
        DapClientError::Json(e)
    }
}

// ── Debug session errors ─────────────────────────────────────────────────

/// Errors that can occur during debug session operations.
#[derive(Debug)]
pub enum DebugSessionError {
    /// Wrapped error from the underlying DAP client.
    DapClient(DapClientError),
    /// An operation was attempted in an invalid session state.
    InvalidState { operation: String, current: SessionState, required: Vec<SessionState> },
    /// The context cache is stale and must be refreshed.
    StaleContext(Option<String>),
    /// A variable expansion depth limit was reached.
    ExpansionDepthExceeded(usize),
    /// An operation timed out.
    Timeout(String),
}

/// The message of an invalid-state error.
pub open spec fn spec_invalid_state_message(
    operation: Seq<char>,
    current: SessionState,
    required: Seq<SessionState>,
) -> Seq<char> {
    "invalid state for `"@ + operation + "`: current = "@ + spec_state_name(current)
        + ", requires one of ["@ + spec_join(required.map_values(|s: SessionState| spec_state_name(s)), ", "@)
        + "]"@
}

impl DebugSessionError {
    /// Whether this is the invalid-state error for `operation` in state
    /// `current`, listing the states `required`.
    pub open spec fn is_invalid_state(
        &self,
        operation: Seq<char>,
        current: SessionState,
        required: Seq<SessionState>,
    ) -> bool {
        &&& self matches DebugSessionError::InvalidState { operation: o, current: c, required: q }
        &&& o@ == operation
        &&& c == current
        &&& q@ == required
    }

    /// The message this error is reported by.
    pub fn message(&self) -> (r: String)
        ensures
            match self {
                DebugSessionError::DapClient(e) => spec_dap_client_message(*e) matches Some(m)
                    ==> r@ == "DAP client error: "@ + m,
                DebugSessionError::InvalidState { operation, current, required } => r@
                    == spec_invalid_state_message(operation@, *current, required@),
                DebugSessionError::StaleContext(area) => r@ == "context cache is stale for area: "@
                    + spec_debug_opt_text(
                    match area {
                        Some(s) => Some(s@),
                        None => None,
                    },
                ),
                DebugSessionError::ExpansionDepthExceeded(n) => r@
                    == "variable expansion depth limit reached (max "@ + spec_decimal(*n as nat)
                    + ")"@,
                DebugSessionError::Timeout(s) => r@ == "operation timed out: "@ + s@,
            },
    {
        match self {
            DebugSessionError::DapClient(e) => {
                let m = e.message();
                concat2("DAP client error: ", m.as_str())
            },
            DebugSessionError::InvalidState { operation, current, required } => {
                let mut r = concat2("invalid state for `", operation.as_str());
                r.append("`: current = ");
                r.append(current.as_str());
                r.append(", requires one of [");
                let mut names: Vec<&str> = Vec::new();
                let mut i: usize = 0;
                while i < required.len()
                    invariant
                        i <= required@.len(),
                        names@.len() == i,
                        forall|j: int|
                            0 <= j < i ==> #[trigger] names@[j]@ == spec_state_name(required@[j]),
                    decreases required@.len() - i,
                {
                    names.push(required[i].as_str());
                    i = i + 1;
                }
                assert(names@.map_values(|p: &str| p@) =~= required@.map_values(
                    |s: SessionState| spec_state_name(s),
                ));
                let joined = join_strs(&names, ", ");
                r.append(joined.as_str());
                r.append("]");
                r
            },
            DebugSessionError::StaleContext(area) => {
                let t = debug_opt_text(area);
                concat2("context cache is stale for area: ", t.as_str())
            },
            DebugSessionError::ExpansionDepthExceeded(n) => {
                let digits = string_of(&decimal_chars(*n as u64));
                let mut r = concat2("variable expansion depth limit reached (max ", digits.as_str());
                r.append(")");
                r
            },
            DebugSessionError::Timeout(s) => concat2("operation timed out: ", s.as_str()),
        }
    }
}

impl From<DapClientError> for DebugSessionError {
    fn from(e: DapClientError) -> (r: Self) {
        DebugSessionError::DapClient(e)
    }
}

impl vstd::std_specs::convert::FromSpecImpl<DapClientError> for DebugSessionError {
    open spec fn obeys_from_spec() -> bool {
        true
    }

    open spec fn from_spec(e: DapClientError) -> Self {
        DebugSessionError::DapClient(e)
    }
}

// ── OpenOCD client errors ────────────────────────────────────────────────

/// Errors that can occur during OpenOCD client operations.
#[derive(Debug)]
pub enum OpenOcdClientError {
    /// Failed to spawn the OpenOCD child process.
    SpawnFailed(String),
    /// The OpenOCD process is already running.
    AlreadyRunning,
    /// An operation was attempted without an active OpenOCD process.
    NotConnected(String),
    /// IO error from the underlying transport or file.
    Io(std::io::Error),
    /// A Tcl command timed out waiting for response.
    Timeout { command: String, timeout_ms: u64 },
    /// The OpenOCD process exited unexpectedly.
    ProcessExited(String),
}

impl OpenOcdClientError {
    /// The message this error is reported by.
    pub fn message(&self) -> (r: String)
        ensures
            match self {
                OpenOcdClientError::SpawnFailed(s) => r@ == "Failed to spawn OpenOCD: "@ + s@,
                OpenOcdClientError::AlreadyRunning => r@ == "OpenOCD is already running"@,
                OpenOcdClientError::NotConnected(s) => r@ == "OpenOCD is not running: "@ + s@,
                OpenOcdClientError::Io(_) => r@.len() >= "IO error: "@.len() && r@.subrange(
                    0,
                    "IO error: "@.len() as int,
                ) == "IO error: "@,
                OpenOcdClientError::Timeout { command, timeout_ms } => r@
                    == "Command timed out after "@ + spec_decimal(*timeout_ms as nat) + "ms: "@
                    + command@,
                OpenOcdClientError::ProcessExited(s) => r@ == "OpenOCD process exited: "@ + s@,
            },
    {
        match self {
            OpenOcdClientError::SpawnFailed(s) => concat2("Failed to spawn OpenOCD: ", s.as_str()),
            OpenOcdClientError::AlreadyRunning => String::from_str("OpenOCD is already running"),
            OpenOcdClientError::NotConnected(s) => concat2("OpenOCD is not running: ", s.as_str()),
            OpenOcdClientError::Io(e) => {
                let t = io_error_text(e);
                let r = concat2("IO error: ", t.as_str());
                assert(r@.subrange(0, "IO error: "@.len() as int) =~= "IO error: "@);
                r
            },
            OpenOcdClientError::Timeout { command, timeout_ms } => {
                let digits = string_of(&decimal_chars(*timeout_ms));
                let mut r = concat2("Command timed out after ", digits.as_str());
                r.append("ms: ");
                r.append(command.as_str());
                r
            },
            OpenOcdClientError::ProcessExited(s) => concat2("OpenOCD process exited: ", s.as_str()),
        }
    }
}

impl From<std::io::Error> for OpenOcdClientError {
    fn from(e: std::io::Error) -> (r: Self) {
        OpenOcdClientError::Io(e)
    }
}

impl vstd::std_specs::convert::FromSpecImpl<std::io::Error> for OpenOcdClientError {
    open spec fn obeys_from_spec() -> bool {
        true
    }

    open spec fn from_spec(e: std::io::Error) -> Self {
        OpenOcdClientError::Io(e)
    }
}

} // verus!
