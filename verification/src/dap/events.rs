//! Bodies of the events a debug adapter sends.

use crate::dap::enums::{BreakpointReason, InvalidatedAreas, LoadedSourceReason, ModuleReason, OutputCategory, OutputGroup, ProcessStartMethod, StoppedReason, ThreadReason};
use crate::dap::types::{Breakpoint, Module, Source};
use crate::dap::capabilities::Capabilities;
use crate::json::JsonValue;
use vstd::prelude::*;

verus! {

// ── Initialized ────────────────────────────────────────────────────

/// Body of the `initialized` event. Has no fields — signals readiness to accept
/// configuration requests (setBreakpoints, setExceptionBreakpoints, etc.).
#[derive(Debug, Clone, Default)]
pub struct InitializedEventBody {}

// ── Stopped ────────────────────────────────────────────────────────

/// Body of the `stopped` event — execution stopped due to breakpoint, step, exception, etc.
#[derive(Debug, Clone)]
pub struct StoppedEventBody {
    /// Reason for the stop.
    pub reason: StoppedReason,
    /// Full reason text shown in UI (can be translated).
    pub description: Option<String>,
    /// The thread which was stopped.
    pub thread_id: Option<u64>,
    /// Hint to not change focus.
    pub preserve_focus_hint: Option<bool>,
    /// Additional information (e.g. exception name).
    pub text: Option<String>,
    /// If true, all threads have stopped.
    pub all_threads_stopped: Option<bool>,
    /// IDs of breakpoints that triggered the event.
    pub hit_breakpoint_ids: Option<Vec<u64>>,
}

// ── Continued ──────────────────────────────────────────────────────

/// Body of the `continued` event — execution has been resumed.
#[derive(Debug, Clone)]
pub struct ContinuedEventBody {
    /// The thread which was continued.
    pub thread_id: u64,
    /// If true, all threads were resumed.
    pub all_threads_continued: Option<bool>,
}

// ── Exited ─────────────────────────────────────────────────────────

/// Body of the `exited` event — the debuggee has exited.
#[derive(Debug, Clone)]
pub struct ExitedEventBody {
    /// Exit code returned from the debuggee.
    pub exit_code: u64,
}

// ── Terminated ─────────────────────────────────────────────────────

/// Body of the `terminated` event — the debug session has terminated.
#[derive(Debug, Clone, Default)]
pub struct TerminatedEventBody {
    /// Arbitrary object passed to `launch`/`attach` as `__restart`.
    pub restart: Option<JsonValue>,
}

// ── Thread ─────────────────────────────────────────────────────────

/// Body of the `thread` event — a thread has started or exited.
#[derive(Debug, Clone)]
pub struct ThreadEventBody {
    /// Reason for the event.
    pub reason: ThreadReason,
    /// The identifier of the thread.
    pub thread_id: u64,
}

// ── Output ─────────────────────────────────────────────────────────

/// Body of the `output` event — the target has produced output.
#[derive(Debug)]
pub struct OutputEventBody {
    /// Output category.
    pub category: Option<OutputCategory>,
    /// The output text (may contain ANSI escape sequences).
    pub output: String,
    /// Grouping for collapsing output regions.
    pub group: Option<OutputGroup>,
    /// Reference to structured output children.
    pub variables_reference: Option<u64>,
    /// Source location where output was produced.
    pub source: Option<Source>,
    /// Line where output was produced.
    pub line: Option<u64>,
    /// Column where output was produced (UTF-16 code units).
    pub column: Option<u64>,
    /// Additional data to report.
    pub data: Option<JsonValue>,
    /// Reference for value declaration location.
    pub location_reference: Option<u64>,
}

// ── Breakpoint ─────────────────────────────────────────────────────

/// Body of the `breakpoint` event — breakpoint state changed.
#[derive(Debug)]
pub struct BreakpointEventBody {
    /// Reason for the event.
    pub reason: BreakpointReason,
    /// The breakpoint with updated values.
    pub breakpoint: Breakpoint,
}

// ── Module ─────────────────────────────────────────────────────────

/// Body of the `module` event — module information changed.
#[derive(Debug, Clone)]
pub struct ModuleEventBody {
    /// Reason for the event.
    pub reason: ModuleReason,
    /// The new, changed, or removed module.
    pub module: Module,
}

// ── LoadedSource ───────────────────────────────────────────────────

/// Body of the `loadedSource` event — source file state changed.
#[derive(Debug)]
pub struct LoadedSourceEventBody {
    /// Reason for the event.
    pub reason: LoadedSourceReason,
    /// The new, changed, or removed source.
    pub source: Source,
}

// ── Process ────────────────────────────────────────────────────────

/// Body of the `process` event — a new process is being debugged.
#[derive(Debug, Clone)]
pub struct ProcessEventBody {
    /// Logical name of the process (e.g. full path to executable).
    pub name: String,
    /// OS process ID.
    pub system_process_id: Option<u64>,
    /// If true, the process is running on the same computer as the debug adapter.
    pub is_local_process: Option<bool>,
    /// How debugging was started.
    pub start_method: Option<ProcessStartMethod>,
    /// Size of a pointer or address in bits.
    pub pointer_size: Option<u32>,
}

// ── Capabilities ───────────────────────────────────────────────────

/// Body of the `capabilities` event — capabilities have changed.
#[derive(Debug, Clone)]
pub struct CapabilitiesEventBody {
    /// The set of updated capabilities. Only changed values need to be included.
    pub capabilities: Capabilities,
}

// ── ProgressStart ──────────────────────────────────────────────────


// ── ProgressUpdate ─────────────────────────────────────────────────


// ── ProgressEnd ────────────────────────────────────────────────────

/// Body of the `progressEnd` event — progress has ended.
#[derive(Debug, Clone)]
pub struct ProgressEndEventBody {
    /// ID from the initial ProgressStartEvent.
    pub progress_id: String,
    /// Final progress message.
    pub message: Option<String>,
}

// ── Invalidated ────────────────────────────────────────────────────

/// Body of the `invalidated` event — state needs to be re-fetched.
#[derive(Debug, Clone)]
pub struct InvalidatedEventBody {
    /// Set of logical areas that got invalidated.
    pub areas: Option<Vec<InvalidatedAreas>>,
    /// If specified, only refetch data related to this thread.
    pub thread_id: Option<u64>,
    /// If specified, only refetch data related to this stack frame.
    pub stack_frame_id: Option<u64>,
}

// ── Memory ─────────────────────────────────────────────────────────

/// Body of the `memory` event — memory range has been updated.
#[derive(Debug, Clone)]
pub struct MemoryEventBody {
    /// Memory reference of the updated range.
    pub memory_reference: String,
    /// Starting offset in bytes.
    pub offset: i64,
    /// Number of bytes updated.
    pub count: u64,
}

// ── Tests ──────────────────────────────────────────────────────────

} // verus!
