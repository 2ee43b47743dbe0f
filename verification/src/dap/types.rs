//! DAP data types: sources, stack frames, scopes, variables, breakpoints and
//! the other structures that requests, responses and events carry.

use std::collections::HashMap;
use crate::dap::enums::{BreakpointModeApplicability, BreakpointReason, ChecksumAlgorithm, ColumnDescriptorType, CompletionItemType, DataBreakpointAccessType, ExceptionBreakMode, InstructionPresentationHint, ScopePresentationHint, SourcePresentationHint, StackFramePresentationHint, VariableAttribute, VariableKind, VariableVisibility};
use crate::json::JsonValue;
use vstd::prelude::*;

verus! {

// ── Message ────────────────────────────────────────────────────────

/// A structured message object. Used for error details and other user-visible messages.
#[derive(Debug, Clone)]
pub struct Message {
    /// Unique identifier for the message.
    pub id: u64,
    /// Format string. Variables can be used with `{name}`.
    pub format: String,
    /// Variables for format string substitution.
    pub variables: Option<HashMap<String, String>>,
    /// If true, send this message to telemetry.
    pub send_telemetry: Option<bool>,
    /// If true, show this message to the user.
    pub show_user: Option<bool>,
    /// URL for additional information.
    pub url: Option<String>,
    /// Label for the URL.
    pub url_label: Option<String>,
}

// ── Module ─────────────────────────────────────────────────────────

/// A module or shared library loaded into the debuggee.
#[derive(Debug, Clone)]
pub struct Module {
    /// Unique identifier for the module (number or string).
    pub id: ModuleId,
    /// A name for the module.
    pub name: String,
    /// Logical full path to the module.
    pub path: Option<String>,
    /// True if the module is optimized.
    pub is_optimized: Option<bool>,
    /// True if the module is considered user code.
    pub is_user_code: Option<bool>,
    /// Version information for the module.
    pub version: Option<String>,
    /// Description of symbol status.
    pub symbol_status: Option<String>,
    /// Logical full path to the symbol file.
    pub symbol_file_path: Option<String>,
    /// Module creation or modification timestamp (RFC 3339).
    pub date_time_stamp: Option<String>,
    /// Address range covered by this module.
    pub address_range: Option<String>,
}

/// A module ID can be either a number or a string.
#[derive(Debug, Clone, PartialEq, Eq)]
pub enum ModuleId {
    Number(u64),
    String(String),
}

// ── ColumnDescriptor ───────────────────────────────────────────────

/// Describes an additional column for the Modules view.
#[derive(Debug, Clone)]
pub struct ColumnDescriptor {
    /// Name of the attribute rendered in this column.
    pub attribute_name: String,
    /// Header UI label of the column.
    pub label: String,
    /// Format string for rendering values.
    pub format: Option<String>,
    /// Datatype of the column values.
    pub column_type: Option<ColumnDescriptorType>,
    /// Width of this column in characters.
    pub width: Option<u32>,
}

// ── Thread ─────────────────────────────────────────────────────────

/// A thread in the debuggee.
#[derive(Debug, Clone)]
pub struct Thread {
    /// Unique identifier for the thread.
    pub id: u64,
    /// Name of the thread.
    pub name: String,
}

// ── Source ─────────────────────────────────────────────────────────

/// A source file or location.
#[derive(Debug, Default)]
pub struct Source {
    /// Short name of the source.
    pub name: Option<String>,
    /// Path of the source to show in the UI.
    pub path: Option<String>,
    /// If > 0, the contents must be retrieved through the `source` request.
    pub source_reference: Option<u32>,
    /// Hint for how to present the source in the UI.
    pub presentation_hint: Option<SourcePresentationHint>,
    /// Origin of this source (e.g. "internal module").
    pub origin: Option<String>,
    /// Related sources.
    pub sources: Option<Vec<Source>>,
    /// Additional data persisted across debug sessions.
    pub adapter_data: Option<JsonValue>,
    /// Checksums associated with this file.
    pub checksums: Option<Vec<Checksum>>,
}

// ── StackFrame ─────────────────────────────────────────────────────

/// A stack frame in a debug session.
#[derive(Debug)]
pub struct StackFrame {
    /// Unique identifier for the frame across all threads.
    pub id: u64,
    /// Name of the frame (typically the method name).
    pub name: String,
    /// Source location of the frame.
    pub source: Option<Source>,
    /// Line within the source (0 if no source).
    pub line: u64,
    /// Start column position in UTF-16 code units.
    pub column: u64,
    /// End line of the range.
    pub end_line: Option<u64>,
    /// End column in UTF-16 code units.
    pub end_column: Option<u64>,
    /// Whether this frame can be restarted.
    pub can_restart: Option<bool>,
    /// Memory reference for the instruction pointer.
    pub instruction_pointer_reference: Option<String>,
    /// Module associated with this frame.
    pub module_id: Option<ModuleId>,
    /// Hint for UI presentation.
    pub presentation_hint: Option<StackFramePresentationHint>,
}

// ── Scope ──────────────────────────────────────────────────────────

/// A variable scope (e.g. arguments, locals, registers).
#[derive(Debug)]
pub struct Scope {
    /// Name of the scope.
    pub name: String,
    /// Hint for UI presentation.
    pub presentation_hint: Option<ScopePresentationHint>,
    /// Reference for retrieving child variables.
    pub variables_reference: u64,
    /// Number of named variables in this scope.
    pub named_variables: Option<u64>,
    /// Number of indexed variables in this scope.
    pub indexed_variables: Option<u64>,
    /// If true, retrieving children is expensive.
    pub expensive: bool,
    /// Source location for this scope.
    pub source: Option<Source>,
    /// Start line of the range.
    pub line: Option<u64>,
    /// Start column in UTF-16 code units.
    pub column: Option<u64>,
    /// End line of the range.
    pub end_line: Option<u64>,
    /// End column in UTF-16 code units.
    pub end_column: Option<u64>,
}

// ── Variable ───────────────────────────────────────────────────────

/// A variable in the debuggee.
#[derive(Debug, Clone)]
pub struct Variable {
    /// The variable's name.
    pub name: String,
    /// The variable's value (can be multi-line).
    pub value: String,
    /// The type of the variable's value.
    pub var_type: Option<String>,
    /// Presentation properties for the variable.
    pub presentation_hint: Option<VariablePresentationHint>,
    /// Evaluatable name usable in an `evaluate` request.
    pub evaluate_name: Option<String>,
    /// If > 0, children can be retrieved via `variables` request.
    pub variables_reference: u64,
    /// Number of named child variables.
    pub named_variables: Option<u64>,
    /// Number of indexed child variables.
    pub indexed_variables: Option<u64>,
    /// Memory reference associated with this variable.
    pub memory_reference: Option<String>,
    /// Reference for variable declaration location.
    pub declaration_location_reference: Option<u64>,
    /// Reference for value's declaration location.
    pub value_location_reference: Option<u64>,
}

// ── VariablePresentationHint ───────────────────────────────────────

/// Properties of a variable for UI presentation.
#[derive(Debug, Clone, Default)]
pub struct VariablePresentationHint {
    /// The kind of the variable.
    pub kind: Option<VariableKind>,
    /// Set of attributes of the variable.
    pub attributes: Option<Vec<VariableAttribute>>,
    /// Visibility of the variable.
    pub visibility: Option<VariableVisibility>,
    /// If true, clients can present the variable with a lazy evaluation gesture.
    pub lazy: Option<bool>,
}

// ── BreakpointLocation ─────────────────────────────────────────────

/// A possible location for a breakpoint.
#[derive(Debug, Clone)]
pub struct BreakpointLocation {
    /// Start line of the breakpoint location.
    pub line: u64,
    /// Start column in UTF-16 code units.
    pub column: Option<u64>,
    /// End line if the location covers a range.
    pub end_line: Option<u64>,
    /// End column if the location covers a range.
    pub end_column: Option<u64>,
}

// ── SourceBreakpoint ───────────────────────────────────────────────

/// Properties of a breakpoint to be set.
#[derive(Debug, Clone)]
pub struct SourceBreakpoint {
    /// The source line.
    pub line: u64,
    /// Start column in UTF-16 code units.
    pub column: Option<u64>,
    /// Expression for conditional breakpoints.
    pub condition: Option<String>,
    /// Expression for hit count conditional breakpoints.
    pub hit_condition: Option<String>,
    /// Log message for logpoints. Expressions in `{}` are interpolated.
    pub log_message: Option<String>,
    /// Breakpoint mode from Capabilities.
    pub mode: Option<String>,
}

// ── FunctionBreakpoint ─────────────────────────────────────────────

/// Properties of a function breakpoint to be set.
#[derive(Debug, Clone)]
pub struct FunctionBreakpoint {
    /// Name of the function.
    pub name: String,
    /// Expression for conditional breakpoints.
    pub condition: Option<String>,
    /// Expression for hit count conditional breakpoints.
    pub hit_condition: Option<String>,
}

// ── DataBreakpoint ─────────────────────────────────────────────────

/// Properties of a data breakpoint to be set.
#[derive(Debug, Clone)]
pub struct DataBreakpoint {
    /// ID representing the data (from `dataBreakpointInfo`).
    pub data_id: String,
    /// Access type of the data.
    pub access_type: Option<DataBreakpointAccessType>,
    /// Expression for conditional breakpoints.
    pub condition: Option<String>,
    /// Expression for hit count conditional breakpoints.
    pub hit_condition: Option<String>,
}

// ── InstructionBreakpoint ──────────────────────────────────────────

/// Properties of an instruction breakpoint to be set.
#[derive(Debug, Clone)]
pub struct InstructionBreakpoint {
    /// Instruction reference (memory or instruction pointer).
    pub instruction_reference: String,
    /// Offset from the instruction reference in bytes.
    pub offset: Option<i64>,
    /// Expression for conditional breakpoints.
    pub condition: Option<String>,
    /// Expression for hit count conditional breakpoints.
    pub hit_condition: Option<String>,
    /// Breakpoint mode from Capabilities.
    pub mode: Option<String>,
}

// ── Breakpoint ─────────────────────────────────────────────────────

/// Information about a breakpoint.
#[derive(Debug)]
pub struct Breakpoint {
    /// Identifier for the breakpoint.
    pub id: Option<u64>,
    /// If true, the breakpoint could be set (but not necessarily at the desired location).
    pub verified: bool,
    /// Message about the state of the breakpoint.
    pub message: Option<String>,
    /// Source where the breakpoint is located.
    pub source: Option<Source>,
    /// Start line of the actual range.
    pub line: Option<u64>,
    /// Start column in UTF-16 code units.
    pub column: Option<u64>,
    /// End line of the actual range.
    pub end_line: Option<u64>,
    /// End column in UTF-16 code units.
    pub end_column: Option<u64>,
    /// Memory reference to where the breakpoint is set.
    pub instruction_reference: Option<String>,
    /// Offset from instruction reference.
    pub offset: Option<i64>,
    /// Reason why the breakpoint may not be verified.
    pub reason: Option<BreakpointReason>,
}

// ── StepInTarget ───────────────────────────────────────────────────

/// A target into which a `stepIn` request can go.
#[derive(Debug, Clone)]
pub struct StepInTarget {
    /// Unique identifier for the step-in target.
    pub id: u64,
    /// Name shown in the UI.
    pub label: String,
    /// Line of the step-in target.
    pub line: Option<u64>,
    /// Column in UTF-16 code units.
    pub column: Option<u64>,
    /// End line of the range.
    pub end_line: Option<u64>,
    /// End column in UTF-16 code units.
    pub end_column: Option<u64>,
}

// ── GotoTarget ─────────────────────────────────────────────────────

/// A target for a `goto` request.
#[derive(Debug, Clone)]
pub struct GotoTarget {
    /// Unique identifier for the goto target.
    pub id: u64,
    /// Name shown in the UI.
    pub label: String,
    /// Line of the goto target.
    pub line: u64,
    /// Column in UTF-16 code units.
    pub column: Option<u64>,
    /// End line of the range.
    pub end_line: Option<u64>,
    /// End column in UTF-16 code units.
    pub end_column: Option<u64>,
    /// Memory reference for the instruction pointer.
    pub instruction_pointer_reference: Option<String>,
}

// ── CompletionItem ─────────────────────────────────────────────────

/// A completion suggestion for the `completions` request.
#[derive(Debug, Clone)]
pub struct CompletionItem {
    /// Label of this completion item (also the default insert text).
    pub label: String,
    /// If non-empty, inserted instead of the label.
    pub text: Option<String>,
    /// String used for sorting comparisons.
    pub sort_text: Option<String>,
    /// Additional info like type or symbol.
    pub detail: Option<String>,
    /// The item's type.
    pub item_type: Option<CompletionItemType>,
    /// Start position for insertion (in UTF-16 code units).
    pub start: Option<u64>,
    /// Number of characters to overwrite (in UTF-16 code units, default 0).
    pub length: Option<u64>,
    /// Start of new selection after insertion (in UTF-16 code units).
    pub selection_start: Option<u64>,
    /// Length of new selection (in UTF-16 code units, default 0).
    pub selection_length: Option<u64>,
}

// ── Checksum ───────────────────────────────────────────────────────

/// Checksum of a source file.
#[derive(Debug, Clone)]
pub struct Checksum {
    /// Algorithm used to calculate the checksum.
    pub algorithm: ChecksumAlgorithm,
    /// Value of the checksum, encoded as hex.
    pub checksum: String,
}

// ── ValueFormat ────────────────────────────────────────────────────

/// Formatting options for values.
#[derive(Debug, Clone, Default)]
pub struct ValueFormat {
    /// Display the value in hex.
    pub hex: Option<bool>,
}

// ── StackFrameFormat ───────────────────────────────────────────────

/// Formatting options for stack frames.
#[derive(Debug, Clone, Default)]
pub struct StackFrameFormat {
    /// Display the value in hex.
    pub hex: Option<bool>,
    /// Display parameters.
    pub parameters: Option<bool>,
    /// Display types of parameters.
    pub parameter_types: Option<bool>,
    /// Display names of parameters.
    pub parameter_names: Option<bool>,
    /// Display values of parameters.
    pub parameter_values: Option<bool>,
    /// Display the line number.
    pub line: Option<bool>,
    /// Display the module.
    pub module: Option<bool>,
    /// Include all stack frames including hidden ones.
    pub include_all: Option<bool>,
}

// ── ExceptionFilterOptions ─────────────────────────────────────────

/// An exception filter with options.
#[derive(Debug, Clone)]
pub struct ExceptionFilterOptions {
    /// ID of an exception filter from the `exceptionBreakpointFilters` capability.
    pub filter_id: String,
    /// Expression for conditional exceptions.
    pub condition: Option<String>,
    /// Breakpoint mode from Capabilities.
    pub mode: Option<String>,
}

// ── ExceptionOptions ───────────────────────────────────────────────

/// Configuration options for selected exceptions.
#[derive(Debug, Clone)]
pub struct ExceptionOptions {
    /// Path that selects exceptions in a tree.
    pub path: Option<Vec<ExceptionPathSegment>>,
    /// Condition for when a thrown exception should break.
    pub break_mode: ExceptionBreakMode,
}

// ── ExceptionPathSegment ───────────────────────────────────────────

/// A segment of an exception path.
#[derive(Debug, Clone)]
pub struct ExceptionPathSegment {
    /// If true, matches anything except the names provided.
    pub negate: Option<bool>,
    /// Names that should match or not match.
    pub names: Vec<String>,
}

// ── ExceptionDetails ───────────────────────────────────────────────

/// Details of an exception.
#[derive(Debug)]
pub struct ExceptionDetails {
    /// Message contained in the exception.
    pub message: Option<String>,
    /// Short type name of the exception object.
    pub short_type_name: Option<String>,
    /// Fully-qualified type name of the exception object.
    pub full_type_name: Option<String>,
    /// Expression to obtain the exception object.
    pub evaluate_name: Option<String>,
    /// Stack trace at the time the exception was thrown.
    pub stack_trace: Option<String>,
    /// Details of contained exceptions.
    pub inner_exception: Option<Vec<ExceptionDetails>>,
}

// ── DisassembledInstruction ────────────────────────────────────────

/// A disassembled instruction.
#[derive(Debug)]
pub struct DisassembledInstruction {
    /// The address in hex (prefixed with `0x`).
    pub address: String,
    /// Raw bytes in an implementation-defined format.
    pub instruction_bytes: Option<String>,
    /// Text representing the instruction.
    pub instruction: String,
    /// Name of the symbol at this instruction location.
    pub symbol: Option<String>,
    /// Source location corresponding to this instruction.
    pub location: Option<Source>,
    /// Line within the source.
    pub line: Option<u64>,
    /// Column within the line.
    pub column: Option<u64>,
    /// End line of the range.
    pub end_line: Option<u64>,
    /// End column of the range.
    pub end_column: Option<u64>,
    /// Hint for UI presentation.
    pub presentation_hint: Option<InstructionPresentationHint>,
}

// ── BreakpointMode ─────────────────────────────────────────────────

/// A breakpoint mode supported by the debug adapter.
#[derive(Debug, Clone)]
pub struct BreakpointMode {
    /// Internal ID of the mode.
    pub mode: String,
    /// Name shown in the UI.
    pub label: String,
    /// Help text.
    pub description: Option<String>,
    /// Types of breakpoint this mode applies to.
    pub applies_to: Vec<BreakpointModeApplicability>,
}

// ── ExceptionBreakpointsFilter ─────────────────────────────────────

/// An exception filter from the `exceptionBreakpointFilters` capability.
#[derive(Debug, Clone)]
pub struct ExceptionBreakpointsFilter {
    /// Internal ID of the filter option.
    pub filter: String,
    /// Name shown in the UI.
    pub label: String,
    /// Help text.
    pub description: Option<String>,
    /// Initial value (default false).
    pub default: Option<bool>,
    /// Whether a condition can be specified for this filter.
    pub supports_condition: Option<bool>,
    /// Help text for the condition.
    pub condition_description: Option<String>,
}

// ── MemoryRange ────────────────────────────────────────────────────

/// A memory range for event context.
#[derive(Debug, Clone)]
pub struct MemoryRange {
    /// Memory reference.
    pub memory_reference: String,
    /// Starting offset in bytes.
    pub offset: i64,
    /// Number of bytes.
    pub count: u64,
}

} // verus!
