//! String enums defined by the DAP specification.

use vstd::prelude::*;

verus! {

/// The access type for a data breakpoint.
#[derive(Debug, Clone, PartialEq, Eq)]
pub enum DataBreakpointAccessType {
    Read,
    Write,
    ReadWrite,
}

/// Stepping granularities for `next`, `stepIn`, `stepOut`, `stepBack`.
#[derive(Debug, Clone, PartialEq, Eq, Default)]
pub enum SteppingGranularity {
    #[default]
    Statement,
    Line,
    Instruction,
}

/// Completion item types returned by the `completions` request.
#[derive(Debug, Clone, PartialEq, Eq)]
pub enum CompletionItemType {
    Method,
    Function,
    Constructor,
    Field,
    Variable,
    Class,
    Interface,
    Module,
    Property,
    Unit,
    Value,
    Enum,
    Keyword,
    Snippet,
    Text,
    Color,
    File,
    Reference,
    Customcolor,
}

/// Checksum algorithms supported by the debug adapter.
#[derive(Debug, Clone, PartialEq, Eq)]
pub enum ChecksumAlgorithm {
    Md5,
    Sha1,
    Sha256,
    Timestamp,
}

/// The condition under which a thrown exception should result in a break.
#[derive(Debug, Clone, PartialEq, Eq)]
pub enum ExceptionBreakMode {
    Never,
    Always,
    Unhandled,
    UserUnhandled,
}

/// Logical areas that can be invalidated by the `invalidated` event.
#[derive(Debug, Clone, PartialEq, Eq)]
pub enum InvalidatedAreas {
    All,
    Stacks,
    Threads,
    Variables,
    /// Catch-all for unknown area values.
    Other(String),
}

/// Types of breakpoint that a BreakpointMode applies to.
#[derive(Debug, Clone, PartialEq, Eq)]
pub enum BreakpointModeApplicability {
    Source,
    Exception,
    Data,
    Instruction,
    /// Catch-all for unknown applicability values.
    Other(String),
}

/// The reason for a `stopped` event.
#[derive(Debug, Clone, PartialEq, Eq)]
pub enum StoppedReason {
    Step,
    Breakpoint,
    Exception,
    Pause,
    Entry,
    Goto,
    FunctionBreakpoint,
    DataBreakpoint,
    InstructionBreakpoint,
    /// Catch-all for unknown reason values.
    Other(String),
}

/// The reason for a `thread` event.
#[derive(Debug, Clone, PartialEq, Eq)]
pub enum ThreadReason {
    Started,
    Exited,
    Other(String),
}

/// The reason for a `breakpoint` event.
#[derive(Debug, Clone, PartialEq, Eq)]
pub enum BreakpointReason {
    Changed,
    New,
    Removed,
    Other(String),
}

/// The reason for a `module` event.
#[derive(Debug, Clone, PartialEq, Eq)]
pub enum ModuleReason {
    New,
    Changed,
    Removed,
}

/// The reason for a `loadedSource` event.
#[derive(Debug, Clone, PartialEq, Eq)]
pub enum LoadedSourceReason {
    New,
    Changed,
    Removed,
}

/// How a process was started in a `process` event.
#[derive(Debug, Clone, PartialEq, Eq)]
pub enum ProcessStartMethod {
    Launch,
    Attach,
    AttachForSuspendedLaunch,
}

/// The output category for an `output` event.
#[derive(Debug, Clone, PartialEq, Eq)]
pub enum OutputCategory {
    Console,
    Important,
    Stdout,
    Stderr,
    Telemetry,
    Other(String),
}

/// The output grouping for collapsing regions.
#[derive(Debug, Clone, PartialEq, Eq)]
pub enum OutputGroup {
    Start,
    StartCollapsed,
    End,
}

/// Presentation hint for a `Source` in the UI.
#[derive(Debug, Clone, PartialEq, Eq)]
pub enum SourcePresentationHint {
    Normal,
    Emphasize,
    Deemphasize,
}

/// Presentation hint for a `StackFrame` in the UI.
#[derive(Debug, Clone, PartialEq, Eq)]
pub enum StackFramePresentationHint {
    Normal,
    Label,
    Subtle,
}

/// Presentation hint for a `Scope` in the UI.
#[derive(Debug, Clone, PartialEq, Eq)]
pub enum ScopePresentationHint {
    Arguments,
    Locals,
    Registers,
    ReturnValue,
    Other(String),
}

/// The kind of a variable for presentation purposes.
#[derive(Debug, Clone, PartialEq, Eq)]
pub enum VariableKind {
    Property,
    Method,
    Class,
    Data,
    Event,
    BaseClass,
    InnerClass,
    Interface,
    MostDerivedClass,
    Virtual,
    DataBreakpoint,
    Other(String),
}

/// Variable attributes for presentation.
#[derive(Debug, Clone, PartialEq, Eq)]
pub enum VariableAttribute {
    Static,
    Constant,
    ReadOnly,
    RawString,
    HasObjectId,
    CanHaveObjectId,
    HasSideEffects,
    HasDataBreakpoint,
    Other(String),
}

/// Visibility of a variable.
#[derive(Debug, Clone, PartialEq, Eq)]
pub enum VariableVisibility {
    Public,
    Private,
    Protected,
    Internal,
    Final,
    Other(String),
}

/// The context in which an evaluate request is used.
#[derive(Debug, Clone, PartialEq, Eq)]
pub enum EvaluateContext {
    Watch,
    Repl,
    Hover,
    Clipboard,
    Variables,
    Other(String),
}

/// The filter for a `variables` request limiting child variables.
#[derive(Debug, Clone, PartialEq, Eq)]
pub enum VariableFilter {
    Indexed,
    Named,
}

/// The kind of terminal to launch for `runInTerminal`.
#[derive(Debug, Clone, PartialEq, Eq)]
pub enum TerminalKind {
    Integrated,
    External,
}

/// The type of debug session to start for `startDebugging`.
#[derive(Debug, Clone, PartialEq, Eq)]
pub enum StartDebuggingRequestKind {
    Launch,
    Attach,
}

/// Presentation hint for a `DisassembledInstruction`.
#[derive(Debug, Clone, PartialEq, Eq)]
pub enum InstructionPresentationHint {
    Normal,
    Invalid,
}

/// Data type for a column descriptor value.
#[derive(Debug, Clone, PartialEq, Eq)]
pub enum ColumnDescriptorType {
    String,
    Number,
    Boolean,
    UnixTimestampUTC,
}

} // verus!
