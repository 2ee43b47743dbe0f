//! The client-to-adapter DAP requests with their arguments and response bodies.
//!
//! Each request is a unit struct implementing [`DapRequest`], which binds the
//! command string to the argument and response types.

use crate::dap::enums::{DataBreakpointAccessType, EvaluateContext, ExceptionBreakMode, SteppingGranularity, VariableFilter};
use crate::dap::types::{Breakpoint, BreakpointLocation, CompletionItem, DataBreakpoint, DisassembledInstruction, ExceptionDetails, ExceptionFilterOptions, ExceptionOptions, FunctionBreakpoint, GotoTarget, InstructionBreakpoint, Module, Scope, Source, SourceBreakpoint, StackFrame, StackFrameFormat, StepInTarget, Thread, ValueFormat, Variable, VariablePresentationHint};
use crate::dap::capabilities::Capabilities;
use crate::json::{json_object_with_string, spec_json_object_with_string, JsonValue};
use vstd::prelude::*;

verus! {

// ── DapRequest trait ───────────────────────────────────────────────

/// Binds a DAP command to its argument and response types.
pub trait DapRequest {
    /// The type of the `arguments` field for this request.
    type Arguments;

    /// The type extracted from the response `body` on success.
    type Response;

    /// The command string sent over the wire (e.g. "launch", "setBreakpoints").
    fn command() -> &'static str;
}

// ── Helper: empty types for no-argument / no-response-body requests ─

/// The arguments of requests that take none.
#[derive(Debug, Clone, Default)]
pub struct NoArguments {}

/// The body of responses that carry none.
#[derive(Debug, Clone, Default)]
pub struct NoResponseBody {}

// ============================================================================
// 1. initialize
// ============================================================================

pub struct InitializeRequest;

impl DapRequest for InitializeRequest {
    type Arguments = InitializeRequestArguments;

    type Response = Capabilities;

    fn command() -> (r: &'static str)
        ensures
            r@ == "initialize"@,
    {
        "initialize"
    }
}

#[derive(Debug, Clone, Default)]
pub struct InitializeRequestArguments {
    /// ID of the client (e.g. "vscode").
    /// DAP spec uses "clientID" (uppercase ID), not "clientId" (camelCase default).
    pub client_id: Option<String>,
    /// Human-readable name of the client.
    pub client_name: Option<String>,
    /// ID of the debug adapter.
    /// DAP spec uses "adapterID" (uppercase ID), required field.
    pub adapter_id: Option<String>,
    /// ISO-639 locale (e.g. "en-US").
    pub locale: Option<String>,
    /// If true, all line numbers are 1-based (default true).
    pub lines_start_at1: Option<bool>,
    /// If true, all column numbers are 1-based (default true).
    pub columns_start_at1: Option<bool>,
    /// Format for paths ("path" or "uri").
    pub path_format: Option<String>,
    /// Client supports the `type` attribute for variables.
    pub supports_variable_type: Option<bool>,
    /// Client supports paging of variables.
    pub supports_variable_paging: Option<bool>,
    /// Client supports the `runInTerminal` request.
    pub supports_run_in_terminal_request: Option<bool>,
    /// Client supports memory references.
    pub supports_memory_references: Option<bool>,
    /// Client supports progress reporting.
    pub supports_progress_reporting: Option<bool>,
    /// Client supports the `invalidated` event.
    pub supports_invalidated_event: Option<bool>,
    /// Client supports the `memory` event.
    pub supports_memory_event: Option<bool>,
    /// Client supports shell interpretation in `runInTerminal`.
    pub supports_args_can_be_interpreted_by_shell: Option<bool>,
    /// Client supports the `startDebugging` request.
    pub supports_start_debugging_request: Option<bool>,
    /// Client supports ANSI styling in output.
    pub supports_ansi_styling: Option<bool>,
}


// ============================================================================
// 2. launch
// ============================================================================

pub struct LaunchRequest;

impl DapRequest for LaunchRequest {
    type Arguments = LaunchRequestArguments;

    type Response = NoResponseBody;

    fn command() -> (r: &'static str)
        ensures
            r@ == "launch"@,
    {
        "launch"
    }
}

#[derive(Debug, Clone, Default)]
pub struct LaunchRequestArguments {
    /// If true, launch without enabling debugging.
    pub no_debug: Option<bool>,
    /// Arbitrary data from a previous restarted session.
    pub __restart: Option<JsonValue>,
    /// Additional implementation-specific attributes are flattened.
    pub extra: JsonValue,
}

impl LaunchRequestArguments {
    /// Create launch arguments with a program path: the extra attributes are
    /// the object `{"program": program}`.
    pub fn with_program(program: &str) -> (r: Self)
        ensures
            r.no_debug is None,
            r.__restart is None,
            r.extra == spec_json_object_with_string("program"@, program@),
    {
        LaunchRequestArguments {
            no_debug: None,
            __restart: None,
            extra: json_object_with_string("program", program),
        }
    }
}


// ============================================================================
// 3. attach
// ============================================================================

pub struct AttachRequest;

impl DapRequest for AttachRequest {
    type Arguments = AttachRequestArguments;

    type Response = NoResponseBody;

    fn command() -> (r: &'static str)
        ensures
            r@ == "attach"@,
    {
        "attach"
    }
}

#[derive(Debug, Clone, Default)]
pub struct AttachRequestArguments {
    /// Arbitrary data from a previous restarted session.
    pub __restart: Option<JsonValue>,
    /// Additional implementation-specific attributes.
    pub extra: JsonValue,
}

// ============================================================================
// 4. restart
// ============================================================================

pub struct RestartRequest;

impl DapRequest for RestartRequest {
    type Arguments = RestartArguments;

    type Response = NoResponseBody;

    fn command() -> (r: &'static str)
        ensures
            r@ == "restart"@,
    {
        "restart"
    }
}

#[derive(Debug, Clone, Default)]
pub struct RestartArguments {
    /// Latest launch/attach configuration.
    pub arguments: Option<JsonValue>,
}

// ============================================================================
// 5. disconnect
// ============================================================================

pub struct DisconnectRequest;

impl DapRequest for DisconnectRequest {
    type Arguments = DisconnectArguments;

    type Response = NoResponseBody;

    fn command() -> (r: &'static str)
        ensures
            r@ == "disconnect"@,
    {
        "disconnect"
    }
}

#[derive(Debug, Clone, Default)]
pub struct DisconnectArguments {
    /// Whether this disconnect is part of a restart sequence.
    pub restart: Option<bool>,
    /// Whether to terminate the debuggee.
    pub terminate_debuggee: Option<bool>,
    /// Whether the debuggee should stay suspended.
    pub suspend_debuggee: Option<bool>,
}

// ============================================================================
// 6. terminate
// ============================================================================

pub struct TerminateRequest;

impl DapRequest for TerminateRequest {
    type Arguments = TerminateArguments;

    type Response = NoResponseBody;

    fn command() -> (r: &'static str)
        ensures
            r@ == "terminate"@,
    {
        "terminate"
    }
}

#[derive(Debug, Clone, Default)]
pub struct TerminateArguments {
    /// Whether this is part of a restart sequence.
    pub restart: Option<bool>,
}

// ============================================================================
// 7. configurationDone
// ============================================================================

pub struct ConfigurationDoneRequest;

impl DapRequest for ConfigurationDoneRequest {
    type Arguments = NoArguments;

    type Response = NoResponseBody;

    fn command() -> (r: &'static str)
        ensures
            r@ == "configurationDone"@,
    {
        "configurationDone"
    }
}

// ============================================================================
// 8. setBreakpoints
// ============================================================================

pub struct SetBreakpointsRequest;

impl DapRequest for SetBreakpointsRequest {
    type Arguments = SetBreakpointsArguments;

    type Response = SetBreakpointsResponse;

    fn command() -> (r: &'static str)
        ensures
            r@ == "setBreakpoints"@,
    {
        "setBreakpoints"
    }
}

#[derive(Debug)]
pub struct SetBreakpointsArguments {
    /// Source location.
    pub source: Source,
    /// Code locations of breakpoints.
    pub breakpoints: Option<Vec<SourceBreakpoint>>,
    /// Deprecated: code locations as line numbers.
    pub lines: Option<Vec<u64>>,
    /// Whether the underlying source was modified.
    pub source_modified: Option<bool>,
}

#[derive(Debug)]
pub struct SetBreakpointsResponse {
    /// The actual breakpoints after setting.
    pub breakpoints: Vec<Breakpoint>,
}

// ============================================================================
// 9. setFunctionBreakpoints
// ============================================================================

pub struct SetFunctionBreakpointsRequest;

impl DapRequest for SetFunctionBreakpointsRequest {
    type Arguments = SetFunctionBreakpointsArguments;

    type Response = SetFunctionBreakpointsResponse;

    fn command() -> (r: &'static str)
        ensures
            r@ == "setFunctionBreakpoints"@,
    {
        "setFunctionBreakpoints"
    }
}

#[derive(Debug, Clone)]
pub struct SetFunctionBreakpointsArguments {
    pub breakpoints: Vec<FunctionBreakpoint>,
}

#[derive(Debug)]
pub struct SetFunctionBreakpointsResponse {
    pub breakpoints: Vec<Breakpoint>,
}

// ============================================================================
// 10. setExceptionBreakpoints
// ============================================================================

pub struct SetExceptionBreakpointsRequest;

impl DapRequest for SetExceptionBreakpointsRequest {
    type Arguments = SetExceptionBreakpointsArguments;

    type Response = SetExceptionBreakpointsResponse;

    fn command() -> (r: &'static str)
        ensures
            r@ == "setExceptionBreakpoints"@,
    {
        "setExceptionBreakpoints"
    }
}

#[derive(Debug, Clone)]
pub struct SetExceptionBreakpointsArguments {
    pub filters: Vec<String>,
    pub filter_options: Option<Vec<ExceptionFilterOptions>>,
    pub exception_options: Option<Vec<ExceptionOptions>>,
}

#[derive(Debug, Default)]
pub struct SetExceptionBreakpointsResponse {
    pub breakpoints: Option<Vec<Breakpoint>>,
}

// ============================================================================
// 11. setDataBreakpoints
// ============================================================================

pub struct SetDataBreakpointsRequest;

impl DapRequest for SetDataBreakpointsRequest {
    type Arguments = SetDataBreakpointsArguments;

    type Response = SetDataBreakpointsResponse;

    fn command() -> (r: &'static str)
        ensures
            r@ == "setDataBreakpoints"@,
    {
        "setDataBreakpoints"
    }
}

#[derive(Debug, Clone)]
pub struct SetDataBreakpointsArguments {
    pub breakpoints: Vec<DataBreakpoint>,
}

#[derive(Debug)]
pub struct SetDataBreakpointsResponse {
    pub breakpoints: Vec<Breakpoint>,
}

// ============================================================================
// 12. setInstructionBreakpoints
// ============================================================================

pub struct SetInstructionBreakpointsRequest;

impl DapRequest for SetInstructionBreakpointsRequest {
    type Arguments = SetInstructionBreakpointsArguments;

    type Response = SetInstructionBreakpointsResponse;

    fn command() -> (r: &'static str)
        ensures
            r@ == "setInstructionBreakpoints"@,
    {
        "setInstructionBreakpoints"
    }
}

#[derive(Debug, Clone)]
pub struct SetInstructionBreakpointsArguments {
    pub breakpoints: Vec<InstructionBreakpoint>,
}

#[derive(Debug)]
pub struct SetInstructionBreakpointsResponse {
    pub breakpoints: Vec<Breakpoint>,
}

// ============================================================================
// 13. breakpointLocations
// ============================================================================

pub struct BreakpointLocationsRequest;

impl DapRequest for BreakpointLocationsRequest {
    type Arguments = BreakpointLocationsArguments;

    type Response = BreakpointLocationsResponse;

    fn command() -> (r: &'static str)
        ensures
            r@ == "breakpointLocations"@,
    {
        "breakpointLocations"
    }
}

#[derive(Debug)]
pub struct BreakpointLocationsArguments {
    pub source: Source,
    pub line: u64,
    pub column: Option<u64>,
    pub end_line: Option<u64>,
    pub end_column: Option<u64>,
}

#[derive(Debug, Clone)]
pub struct BreakpointLocationsResponse {
    pub breakpoints: Vec<BreakpointLocation>,
}

// ============================================================================
// 14. dataBreakpointInfo
// ============================================================================

pub struct DataBreakpointInfoRequest;

impl DapRequest for DataBreakpointInfoRequest {
    type Arguments = DataBreakpointInfoArguments;

    type Response = DataBreakpointInfoResponse;

    fn command() -> (r: &'static str)
        ensures
            r@ == "dataBreakpointInfo"@,
    {
        "dataBreakpointInfo"
    }
}

#[derive(Debug, Clone)]
pub struct DataBreakpointInfoArguments {
    pub variables_reference: Option<u64>,
    pub name: String,
    pub frame_id: Option<u64>,
    pub bytes: Option<u64>,
    pub as_address: Option<bool>,
    pub mode: Option<String>,
}

#[derive(Debug, Clone)]
pub struct DataBreakpointInfoResponse {
    pub data_id: Option<String>,
    pub description: String,
    pub access_types: Option<Vec<DataBreakpointAccessType>>,
    pub can_persist: Option<bool>,
}

// ============================================================================
// 15. continue
// ============================================================================

pub struct ContinueRequest;

impl DapRequest for ContinueRequest {
    type Arguments = ContinueArguments;

    type Response = ContinueResponse;

    fn command() -> (r: &'static str)
        ensures
            r@ == "continue"@,
    {
        "continue"
    }
}

#[derive(Debug, Clone)]
pub struct ContinueArguments {
    pub thread_id: u64,
    pub single_thread: Option<bool>,
}

#[derive(Debug, Clone, Default)]
pub struct ContinueResponse {
    pub all_threads_continued: Option<bool>,
}

// ============================================================================
// 16. next (step over)
// ============================================================================

pub struct NextRequest;

impl DapRequest for NextRequest {
    type Arguments = NextArguments;

    type Response = NoResponseBody;

    fn command() -> (r: &'static str)
        ensures
            r@ == "next"@,
    {
        "next"
    }
}

#[derive(Debug, Clone)]
pub struct NextArguments {
    pub thread_id: u64,
    pub single_thread: Option<bool>,
    pub granularity: Option<SteppingGranularity>,
}

// ============================================================================
// 17. stepIn
// ============================================================================

pub struct StepInRequest;

impl DapRequest for StepInRequest {
    type Arguments = StepInArguments;

    type Response = NoResponseBody;

    fn command() -> (r: &'static str)
        ensures
            r@ == "stepIn"@,
    {
        "stepIn"
    }
}

#[derive(Debug, Clone)]
pub struct StepInArguments {
    pub thread_id: u64,
    pub single_thread: Option<bool>,
    pub target_id: Option<u64>,
    pub granularity: Option<SteppingGranularity>,
}

// ============================================================================
// 18. stepOut
// ============================================================================

pub struct StepOutRequest;

impl DapRequest for StepOutRequest {
    type Arguments = StepOutArguments;

    type Response = NoResponseBody;

    fn command() -> (r: &'static str)
        ensures
            r@ == "stepOut"@,
    {
        "stepOut"
    }
}

#[derive(Debug, Clone)]
pub struct StepOutArguments {
    pub thread_id: u64,
    pub single_thread: Option<bool>,
    pub granularity: Option<SteppingGranularity>,
}

// ============================================================================
// 19. stepBack
// ============================================================================

pub struct StepBackRequest;

impl DapRequest for StepBackRequest {
    type Arguments = StepBackArguments;

    type Response = NoResponseBody;

    fn command() -> (r: &'static str)
        ensures
            r@ == "stepBack"@,
    {
        "stepBack"
    }
}

#[derive(Debug, Clone)]
pub struct StepBackArguments {
    pub thread_id: u64,
    pub single_thread: Option<bool>,
    pub granularity: Option<SteppingGranularity>,
}

// ============================================================================
// 20. reverseContinue
// ============================================================================

pub struct ReverseContinueRequest;

impl DapRequest for ReverseContinueRequest {
    type Arguments = ReverseContinueArguments;

    type Response = NoResponseBody;

    fn command() -> (r: &'static str)
        ensures
            r@ == "reverseContinue"@,
    {
        "reverseContinue"
    }
}

#[derive(Debug, Clone)]
pub struct ReverseContinueArguments {
    pub thread_id: u64,
    pub single_thread: Option<bool>,
}

// ============================================================================
// 21. restartFrame
// ============================================================================

pub struct RestartFrameRequest;

impl DapRequest for RestartFrameRequest {
    type Arguments = RestartFrameArguments;

    type Response = NoResponseBody;

    fn command() -> (r: &'static str)
        ensures
            r@ == "restartFrame"@,
    {
        "restartFrame"
    }
}

#[derive(Debug, Clone)]
pub struct RestartFrameArguments {
    pub frame_id: u64,
}

// ============================================================================
// 22. goto
// ============================================================================

pub struct GotoRequest;

impl DapRequest for GotoRequest {
    type Arguments = GotoArguments;

    type Response = NoResponseBody;

    fn command() -> (r: &'static str)
        ensures
            r@ == "goto"@,
    {
        "goto"
    }
}

#[derive(Debug, Clone)]
pub struct GotoArguments {
    pub thread_id: u64,
    pub target_id: u64,
}

// ============================================================================
// 23. pause
// ============================================================================

pub struct PauseRequest;

impl DapRequest for PauseRequest {
    type Arguments = PauseArguments;

    type Response = NoResponseBody;

    fn command() -> (r: &'static str)
        ensures
            r@ == "pause"@,
    {
        "pause"
    }
}

#[derive(Debug, Clone)]
pub struct PauseArguments {
    pub thread_id: u64,
}

// ============================================================================
// 24. stackTrace
// ============================================================================

pub struct StackTraceRequest;

impl DapRequest for StackTraceRequest {
    type Arguments = StackTraceArguments;

    type Response = StackTraceResponse;

    fn command() -> (r: &'static str)
        ensures
            r@ == "stackTrace"@,
    {
        "stackTrace"
    }
}

#[derive(Debug, Clone)]
pub struct StackTraceArguments {
    pub thread_id: u64,
    pub start_frame: Option<u64>,
    pub levels: Option<u64>,
    pub format: Option<StackFrameFormat>,
}

#[derive(Debug)]
pub struct StackTraceResponse {
    pub stack_frames: Vec<StackFrame>,
    pub total_frames: Option<u64>,
}

// ============================================================================
// 25. scopes
// ============================================================================

pub struct ScopesRequest;

impl DapRequest for ScopesRequest {
    type Arguments = ScopesArguments;

    type Response = ScopesResponse;

    fn command() -> (r: &'static str)
        ensures
            r@ == "scopes"@,
    {
        "scopes"
    }
}

#[derive(Debug, Clone)]
pub struct ScopesArguments {
    pub frame_id: u64,
}

#[derive(Debug)]
pub struct ScopesResponse {
    pub scopes: Vec<Scope>,
}

// ============================================================================
// 26. variables
// ============================================================================

pub struct VariablesRequest;

impl DapRequest for VariablesRequest {
    type Arguments = VariablesArguments;

    type Response = VariablesResponse;

    fn command() -> (r: &'static str)
        ensures
            r@ == "variables"@,
    {
        "variables"
    }
}

#[derive(Debug, Clone)]
pub struct VariablesArguments {
    pub variables_reference: u64,
    pub filter: Option<VariableFilter>,
    pub start: Option<u64>,
    pub count: Option<u64>,
    pub format: Option<ValueFormat>,
}

#[derive(Debug, Clone)]
pub struct VariablesResponse {
    pub variables: Vec<Variable>,
}

// ============================================================================
// 27. setVariable
// ============================================================================

pub struct SetVariableRequest;

impl DapRequest for SetVariableRequest {
    type Arguments = SetVariableArguments;

    type Response = SetVariableResponse;

    fn command() -> (r: &'static str)
        ensures
            r@ == "setVariable"@,
    {
        "setVariable"
    }
}

#[derive(Debug, Clone)]
pub struct SetVariableArguments {
    pub variables_reference: u64,
    pub name: String,
    pub value: String,
    pub format: Option<ValueFormat>,
}

#[derive(Debug, Clone)]
pub struct SetVariableResponse {
    pub value: String,
    pub var_type: Option<String>,
    pub variables_reference: Option<u64>,
    pub named_variables: Option<u64>,
    pub indexed_variables: Option<u64>,
    pub memory_reference: Option<String>,
    pub value_location_reference: Option<u64>,
}

// ============================================================================
// 28. source
// ============================================================================

pub struct SourceRequest;

impl DapRequest for SourceRequest {
    type Arguments = SourceArguments;

    type Response = SourceResponse;

    fn command() -> (r: &'static str)
        ensures
            r@ == "source"@,
    {
        "source"
    }
}

#[derive(Debug)]
pub struct SourceArguments {
    pub source: Option<Source>,
    pub source_reference: u64,
}

#[derive(Debug, Clone)]
pub struct SourceResponse {
    pub content: String,
    pub mime_type: Option<String>,
}

// ============================================================================
// 29. threads
// ============================================================================

pub struct ThreadsRequest;

impl DapRequest for ThreadsRequest {
    type Arguments = NoArguments;

    type Response = ThreadsResponse;

    fn command() -> (r: &'static str)
        ensures
            r@ == "threads"@,
    {
        "threads"
    }
}

#[derive(Debug, Clone)]
pub struct ThreadsResponse {
    pub threads: Vec<Thread>,
}

// ============================================================================
// 30. terminateThreads
// ============================================================================

pub struct TerminateThreadsRequest;

impl DapRequest for TerminateThreadsRequest {
    type Arguments = TerminateThreadsArguments;

    type Response = NoResponseBody;

    fn command() -> (r: &'static str)
        ensures
            r@ == "terminateThreads"@,
    {
        "terminateThreads"
    }
}

#[derive(Debug, Clone)]
pub struct TerminateThreadsArguments {
    pub thread_ids: Option<Vec<u64>>,
}

// ============================================================================
// 31. modules
// ============================================================================

pub struct ModulesRequest;

impl DapRequest for ModulesRequest {
    type Arguments = ModulesArguments;

    type Response = ModulesResponse;

    fn command() -> (r: &'static str)
        ensures
            r@ == "modules"@,
    {
        "modules"
    }
}

#[derive(Debug, Clone)]
pub struct ModulesArguments {
    pub start_module: Option<u64>,
    pub module_count: Option<u64>,
}

#[derive(Debug, Clone)]
pub struct ModulesResponse {
    pub modules: Vec<Module>,
    pub total_modules: Option<u64>,
}

// ============================================================================
// 32. loadedSources
// ============================================================================

pub struct LoadedSourcesRequest;

impl DapRequest for LoadedSourcesRequest {
    type Arguments = NoArguments;

    type Response = LoadedSourcesResponse;

    fn command() -> (r: &'static str)
        ensures
            r@ == "loadedSources"@,
    {
        "loadedSources"
    }
}

#[derive(Debug)]
pub struct LoadedSourcesResponse {
    pub sources: Vec<Source>,
}

// ============================================================================
// 33. evaluate
// ============================================================================

pub struct EvaluateRequest;

impl DapRequest for EvaluateRequest {
    type Arguments = EvaluateArguments;

    type Response = EvaluateResponse;

    fn command() -> (r: &'static str)
        ensures
            r@ == "evaluate"@,
    {
        "evaluate"
    }
}

#[derive(Debug)]
pub struct EvaluateArguments {
    pub expression: String,
    pub frame_id: Option<u64>,
    pub line: Option<u64>,
    pub column: Option<u64>,
    pub source: Option<Source>,
    pub context: Option<EvaluateContext>,
    pub format: Option<ValueFormat>,
}

#[derive(Debug, Clone)]
pub struct EvaluateResponse {
    pub result: String,
    pub var_type: Option<String>,
    pub presentation_hint: Option<VariablePresentationHint>,
    pub variables_reference: u64,
    pub named_variables: Option<u64>,
    pub indexed_variables: Option<u64>,
    pub memory_reference: Option<String>,
    pub value_location_reference: Option<u64>,
}

// ============================================================================
// 34. setExpression
// ============================================================================

pub struct SetExpressionRequest;

impl DapRequest for SetExpressionRequest {
    type Arguments = SetExpressionArguments;

    type Response = SetExpressionResponse;

    fn command() -> (r: &'static str)
        ensures
            r@ == "setExpression"@,
    {
        "setExpression"
    }
}

#[derive(Debug, Clone)]
pub struct SetExpressionArguments {
    pub expression: String,
    pub value: String,
    pub frame_id: Option<u64>,
    pub format: Option<ValueFormat>,
}

#[derive(Debug, Clone)]
pub struct SetExpressionResponse {
    pub value: String,
    pub var_type: Option<String>,
    pub presentation_hint: Option<VariablePresentationHint>,
    pub variables_reference: Option<u64>,
    pub named_variables: Option<u64>,
    pub indexed_variables: Option<u64>,
    pub memory_reference: Option<String>,
    pub value_location_reference: Option<u64>,
}

// ============================================================================
// 35. stepInTargets
// ============================================================================

pub struct StepInTargetsRequest;

impl DapRequest for StepInTargetsRequest {
    type Arguments = StepInTargetsArguments;

    type Response = StepInTargetsResponse;

    fn command() -> (r: &'static str)
        ensures
            r@ == "stepInTargets"@,
    {
        "stepInTargets"
    }
}

#[derive(Debug, Clone)]
pub struct StepInTargetsArguments {
    pub frame_id: u64,
}

#[derive(Debug, Clone)]
pub struct StepInTargetsResponse {
    pub targets: Vec<StepInTarget>,
}

// ============================================================================
// 36. gotoTargets
// ============================================================================

pub struct GotoTargetsRequest;

impl DapRequest for GotoTargetsRequest {
    type Arguments = GotoTargetsArguments;

    type Response = GotoTargetsResponse;

    fn command() -> (r: &'static str)
        ensures
            r@ == "gotoTargets"@,
    {
        "gotoTargets"
    }
}

#[derive(Debug)]
pub struct GotoTargetsArguments {
    pub source: Source,
    pub line: u64,
    pub column: Option<u64>,
}

#[derive(Debug, Clone)]
pub struct GotoTargetsResponse {
    pub targets: Vec<GotoTarget>,
}

// ============================================================================
// 37. completions
// ============================================================================

pub struct CompletionsRequest;

impl DapRequest for CompletionsRequest {
    type Arguments = CompletionsArguments;

    type Response = CompletionsResponse;

    fn command() -> (r: &'static str)
        ensures
            r@ == "completions"@,
    {
        "completions"
    }
}

#[derive(Debug, Clone)]
pub struct CompletionsArguments {
    pub frame_id: Option<u64>,
    pub text: String,
    pub column: u64,
    pub line: Option<u64>,
}

#[derive(Debug, Clone)]
pub struct CompletionsResponse {
    pub targets: Vec<CompletionItem>,
}

// ============================================================================
// 38. exceptionInfo
// ============================================================================

pub struct ExceptionInfoRequest;

impl DapRequest for ExceptionInfoRequest {
    type Arguments = ExceptionInfoArguments;

    type Response = ExceptionInfoResponse;

    fn command() -> (r: &'static str)
        ensures
            r@ == "exceptionInfo"@,
    {
        "exceptionInfo"
    }
}

#[derive(Debug, Clone)]
pub struct ExceptionInfoArguments {
    pub thread_id: u64,
}

#[derive(Debug)]
pub struct ExceptionInfoResponse {
    pub exception_id: String,
    pub description: Option<String>,
    pub break_mode: ExceptionBreakMode,
    pub details: Option<ExceptionDetails>,
}

// ============================================================================
// 39. readMemory
// ============================================================================

pub struct ReadMemoryRequest;

impl DapRequest for ReadMemoryRequest {
    type Arguments = ReadMemoryArguments;

    type Response = ReadMemoryResponse;

    fn command() -> (r: &'static str)
        ensures
            r@ == "readMemory"@,
    {
        "readMemory"
    }
}

#[derive(Debug, Clone)]
pub struct ReadMemoryArguments {
    pub memory_reference: String,
    pub offset: Option<i64>,
    pub count: u64,
}

#[derive(Debug, Clone, Default)]
pub struct ReadMemoryResponse {
    pub address: String,
    pub unreadable_bytes: Option<u64>,
    /// Base64 encoded bytes.
    pub data: Option<String>,
}

// ============================================================================
// 40. writeMemory
// ============================================================================

pub struct WriteMemoryRequest;

impl DapRequest for WriteMemoryRequest {
    type Arguments = WriteMemoryArguments;

    type Response = WriteMemoryResponse;

    fn command() -> (r: &'static str)
        ensures
            r@ == "writeMemory"@,
    {
        "writeMemory"
    }
}

#[derive(Debug, Clone)]
pub struct WriteMemoryArguments {
    pub memory_reference: String,
    pub offset: Option<i64>,
    pub allow_partial: Option<bool>,
    /// Base64 encoded bytes to write.
    pub data: String,
}

#[derive(Debug, Clone, Default)]
pub struct WriteMemoryResponse {
    pub offset: Option<i64>,
    pub bytes_written: Option<u64>,
}

// ============================================================================
// 41. disassemble
// ============================================================================

pub struct DisassembleRequest;

impl DapRequest for DisassembleRequest {
    type Arguments = DisassembleArguments;

    type Response = DisassembleResponse;

    fn command() -> (r: &'static str)
        ensures
            r@ == "disassemble"@,
    {
        "disassemble"
    }
}

#[derive(Debug, Clone)]
pub struct DisassembleArguments {
    pub memory_reference: String,
    pub offset: Option<i64>,
    pub instruction_offset: Option<i64>,
    pub instruction_count: u64,
    pub resolve_symbols: Option<bool>,
}

#[derive(Debug, Default)]
pub struct DisassembleResponse {
    pub instructions: Option<Vec<DisassembledInstruction>>,
}

// ============================================================================
// 42. locations
// ============================================================================

pub struct LocationsRequest;

impl DapRequest for LocationsRequest {
    type Arguments = LocationsArguments;

    type Response = LocationsResponse;

    fn command() -> (r: &'static str)
        ensures
            r@ == "locations"@,
    {
        "locations"
    }
}

#[derive(Debug, Clone)]
pub struct LocationsArguments {
    pub location_reference: u64,
}

#[derive(Debug, Default)]
pub struct LocationsResponse {
    pub source: Source,
    pub line: u64,
    pub column: Option<u64>,
    pub end_line: Option<u64>,
    pub end_column: Option<u64>,
}

// ── Tests ──────────────────────────────────────────────────────────

} // verus!
