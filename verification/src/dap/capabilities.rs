//! The capabilities a debug adapter announces in its `initialize` response.

use crate::dap::enums::ChecksumAlgorithm;
use crate::dap::types::{BreakpointMode, Checksum, ColumnDescriptor, ExceptionBreakpointsFilter};
use vstd::prelude::*;

verus! {

/// Information about the debug adapter's capabilities.
///
/// Almost every field is an `Option<bool>` because:
/// - The adapter may omit unsupported capabilities entirely.
/// - `false` is the default for all boolean capabilities per the spec.
/// - Some fields are non-boolean (lists of filters, columns, etc.).
#[derive(Debug, Clone, Default)]
pub struct Capabilities {
    /// The debug adapter supports the `configurationDone` request.
    pub supports_configuration_done_request: Option<bool>,

    /// The debug adapter supports function breakpoints.
    pub supports_function_breakpoints: Option<bool>,

    /// The debug adapter supports conditional breakpoints.
    pub supports_conditional_breakpoints: Option<bool>,

    /// The debug adapter supports breakpoints that break after a number of hits.
    pub supports_hit_conditional_breakpoints: Option<bool>,

    /// The debug adapter supports `evaluate` for hover contexts.
    pub supports_evaluate_for_hovers: Option<bool>,

    /// Available exception filter options for `setExceptionBreakpoints`.
    pub exception_breakpoint_filters: Option<Vec<ExceptionBreakpointsFilter>>,

    /// The debug adapter supports stepping backwards.
    pub supports_step_back: Option<bool>,

    /// The debug adapter supports setting a variable to a value.
    pub supports_set_variable: Option<bool>,

    /// The debug adapter supports restarting a frame.
    pub supports_restart_frame: Option<bool>,

    /// The debug adapter supports the `gotoTargets` request.
    pub supports_goto_targets_request: Option<bool>,

    /// The debug adapter supports the `stepInTargets` request.
    pub supports_step_in_targets_request: Option<bool>,

    /// The debug adapter supports the `completions` request.
    pub supports_completions_request: Option<bool>,

    /// Characters that trigger completion.
    pub completion_trigger_characters: Option<Vec<String>>,

    /// The debug adapter supports the `modules` request.
    pub supports_modules_request: Option<bool>,

    /// Additional columns supported by the modules view.
    pub additional_module_columns: Option<Vec<ColumnDescriptor>>,

    /// Checksum algorithms supported by the debug adapter.
    pub supported_checksum_algorithms: Option<Vec<ChecksumAlgorithm>>,

    /// The debug adapter supports the `restart` request.
    pub supports_restart_request: Option<bool>,

    /// The debug adapter supports exception options.
    pub supports_exception_options: Option<bool>,

    /// The debug adapter supports value formatting options.
    pub supports_value_formatting_options: Option<bool>,

    /// The debug adapter supports the `exceptionInfo` request.
    pub supports_exception_info_request: Option<bool>,

    /// The debug adapter supports the `terminateDebuggee` attribute on `disconnect`.
    pub support_terminate_debuggee: Option<bool>,

    /// The debug adapter supports the `suspendDebuggee` attribute on `disconnect`.
    pub support_suspend_debuggee: Option<bool>,

    /// The debug adapter supports delayed loading of parts of the stack.
    pub supports_delayed_stack_trace_loading: Option<bool>,

    /// The debug adapter supports the `loadedSources` request.
    pub supports_loaded_sources_request: Option<bool>,

    /// The debug adapter supports log points.
    pub supports_log_points: Option<bool>,

    /// The debug adapter supports the `terminateThreads` request.
    pub supports_terminate_threads_request: Option<bool>,

    /// The debug adapter supports the `setExpression` request.
    pub supports_set_expression: Option<bool>,

    /// The debug adapter supports the `terminate` request.
    pub supports_terminate_request: Option<bool>,

    /// The debug adapter supports data breakpoints.
    pub supports_data_breakpoints: Option<bool>,

    /// The debug adapter supports the `readMemory` request.
    pub supports_read_memory_request: Option<bool>,

    /// The debug adapter supports the `writeMemory` request.
    pub supports_write_memory_request: Option<bool>,

    /// The debug adapter supports the `disassemble` request.
    pub supports_disassemble_request: Option<bool>,

    /// The debug adapter supports the `cancel` request.
    pub supports_cancel_request: Option<bool>,

    /// The debug adapter supports the `breakpointLocations` request.
    pub supports_breakpoint_locations_request: Option<bool>,

    /// The debug adapter supports clipboard context for `evaluate`.
    pub supports_clipboard_context: Option<bool>,

    /// The debug adapter supports stepping granularities.
    pub supports_stepping_granularity: Option<bool>,

    /// The debug adapter supports instruction breakpoints.
    pub supports_instruction_breakpoints: Option<bool>,

    /// The debug adapter supports exception filter options.
    pub supports_exception_filter_options: Option<bool>,

    /// The debug adapter supports single-thread execution requests.
    pub supports_single_thread_execution_requests: Option<bool>,

    /// The debug adapter supports requesting byte counts for data breakpoints.
    pub supports_data_breakpoint_bytes: Option<bool>,

    /// Available breakpoint modes.
    pub breakpoint_modes: Option<Vec<BreakpointMode>>,

    /// The debug adapter supports ANSI styling in output.
    pub supports_ansi_styling: Option<bool>,
}

} // verus!
