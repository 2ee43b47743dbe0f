//! Adapter-to-client (reverse) requests: `runInTerminal` and `startDebugging`.

use std::collections::HashMap;
use crate::dap::enums::{StartDebuggingRequestKind, TerminalKind};
use crate::json::JsonValue;
use vstd::prelude::*;

verus! {

// ── RunInTerminal ──────────────────────────────────────────────────

/// The `runInTerminal` reverse request asks the client to run a command in a terminal.
#[derive(Debug, Clone)]
pub struct RunInTerminalRequestArguments {
    /// What kind of terminal to launch.
    pub kind: Option<TerminalKind>,
    /// Title of the terminal.
    pub title: Option<String>,
    /// Working directory for the command.
    pub cwd: String,
    /// List of arguments. First argument is the command to run.
    pub args: Vec<String>,
    /// Environment variable key-value pairs. `null` values mean the variable
    /// should be removed.
    pub env: Option<HashMap<String, Option<String>>>,
    /// If true, arguments should not be escaped (shell interpretation requested).
    pub args_can_be_interpreted_by_shell: Option<bool>,
}

/// Response body for `runInTerminal`.
#[derive(Debug, Clone, Default)]
pub struct RunInTerminalResponse {
    /// Process ID of the terminal.
    pub process_id: Option<u64>,
    /// Process ID of the shell.
    pub shell_process_id: Option<u64>,
}

// ── StartDebugging ─────────────────────────────────────────────────

/// The `startDebugging` reverse request asks the client to start a new debug
/// session of the same type.
#[derive(Debug, Clone)]
pub struct StartDebuggingRequestArguments {
    /// Arguments for the new debug session (passed to `launch` or `attach`).
    pub configuration: HashMap<String, JsonValue>,
    /// Whether to launch or attach.
    pub request: super::enums::StartDebuggingRequestKind,
}

// ── Tests ──────────────────────────────────────────────────────────

} // verus!
