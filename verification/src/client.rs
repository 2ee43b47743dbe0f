//! The decisions of the DAP client: adapter configuration, where an incoming
//! message goes, and what a response to a request amounts to.
//!
//! Spawning the adapter process and moving bytes over its pipes is I/O and
//! lives with the caller.

use crate::dap::base::{Event, ProtocolMessage, Response};
use crate::error::DapClientError;
use crate::json::JsonValue;
use vstd::prelude::*;
use vstd::string::*;

verus! {

/// Default maximum frame size: 4 MiB.
pub const DEFAULT_MAX_FRAME_SIZE: usize = 4194304;

/// The type of debug adapter, controlling behavioral differences
/// (e.g. whether the `launch` response is deferred).
#[derive(Debug, Clone, Copy, PartialEq, Eq, Structural)]
pub enum AdapterKind {
    /// codelldb: defers `launch` response until after `configurationDone`.
    Codelldb,
    /// GDB built-in DAP mode (`gdb -i dap`): responds to `launch` promptly.
    Gdb,
}

/// Configuration for spawning a debug adapter process.
#[derive(Debug, Clone)]
pub struct AdapterConfig {
    /// Path to the debug adapter binary (e.g. `"codelldb"`, `"gdb"`).
    pub path: String,
    /// The type of adapter (controls behavioral branching).
    pub kind: AdapterKind,
    /// Command-line arguments to pass to the adapter (e.g. `["-i", "dap"]` for GDB).
    pub args: Vec<String>,
}

/// Where a message read from the adapter goes.
pub enum MessageRoute {
    /// A response, for the request waiting under `request_seq`.
    ToWaiter { request_seq: u64, response: Response },
    /// An event, for the event channel.
    ToEvents(Event),
    /// A request from the adapter, which is not handled.
    Unexpected,
}

/// Route a message read from the adapter.
pub fn route_message(msg: ProtocolMessage) -> (r: MessageRoute)
    ensures
        match msg {
            ProtocolMessage::Response(resp) => r matches MessageRoute::ToWaiter {
                request_seq,
                response,
            } && request_seq == resp.request_seq && response == resp,
            ProtocolMessage::Event(e) => r matches MessageRoute::ToEvents(x) && x == e,
            ProtocolMessage::Request(_) => r is Unexpected,
        },
{
    match msg {
        ProtocolMessage::Response(response) => MessageRoute::ToWaiter {
            request_seq: response.request_seq,
            response,
        },
        ProtocolMessage::Event(event) => MessageRoute::ToEvents(event),
        ProtocolMessage::Request(_) => MessageRoute::Unexpected,
    }
}

/// The outcome of a request of `command` given its response: the body when
/// the adapter reports success, the adapter's message (or "unknown error")
/// when it does not.
pub fn response_body(response: Response, command: &str) -> (r: Result<
    Option<JsonValue>,
    DapClientError,
>)
    ensures
        response.success ==> r == Ok::<Option<JsonValue>, DapClientError>(response.body),
        !response.success ==> (r matches Err(DapClientError::DapRequestFailed { command: c, message: m })
            && c@ == command@ && m@ == (match response.message {
            Some(msg) => msg@,
            None => "unknown error"@,
        })),
{
    if !response.success {
        let message = match response.message {
            Some(m) => m,
            None => String::from_str("unknown error"),
        };
        return Err(DapClientError::DapRequestFailed { command: String::from_str(command), message });
    }
    Ok(response.body)
}

/// The text of the parent directory of a path.
pub uninterp spec fn spec_path_parent(path: Seq<char>) -> Option<Seq<char>>;

/// The parent directory of a path.
///
/// Trusted: calls `std::path::Path::parent` and displays the result as text;
/// the contract only names the result, which depends on the path alone.
#[verifier::external_body]
fn path_parent(path: &str) -> (r: Option<String>)
    ensures
        r matches Some(p) ==> spec_path_parent(path@) == Some(p@),
        r is None ==> spec_path_parent(path@) is None,
{
    std::path::Path::new(path).parent().map(|p| p.display().to_string())
}

/// The `PATH` value under which the adapter finds the liblldb library: the
/// library's directory, the platform separator, then the existing `PATH`.
/// `None` when the library path has no parent directory.
pub fn adapter_search_path(lib_lldb_path: &str, separator: &str, existing_path: &str) -> (r:
    Option<String>)
    ensures
        match spec_path_parent(lib_lldb_path@) {
            Some(dir) => r matches Some(p) && p@ == dir + separator@ + existing_path@,
            None => r is None,
        },
{
    match path_parent(lib_lldb_path) {
        Some(dir) => {
            let mut p = dir;
            p.append(separator);
            p.append(existing_path);
            Some(p)
        },
        None => None,
    }
}

} // verus!
