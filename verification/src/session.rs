//! The debug session: state machine, operation gating, event handling, path
//! mapping and the variable handle cache.
//!
//! The session follows `Disconnected → Connected → Initialized → Running ↔
//! Halted`. Every operation is gated on the current state; the requests that
//! an operation sends to the adapter are sent by the caller between the state
//! check and the matching `after_*` step, which records the outcome here.

use crate::cache::{
    entry_views, spec_insert, spec_insert_all, spec_lookup, spec_opt_str, spec_search, EntryView,
    VariableCacheView, VariableHandleCache, VariableHandleEntry,
};
use crate::client::AdapterKind;
use crate::dap::capabilities::Capabilities;
use crate::dap::types::Variable;
use crate::error::{debug_str_text, spec_debug_str_text, DebugSessionError};
use crate::gating::{spec_allowed_states, spec_is_allowed, ToolAvailability};
use crate::mapping::{
    spec_alias_map, spec_resolve_given, spec_reverse, PathMapper, PathMapperView,
};
use crate::state::{spec_can_transition, spec_valid_predecessors, HaltState, SessionState};
use crate::text::str_eq;
use std::collections::HashSet;
use vstd::prelude::*;
use vstd::string::*;

verus! {

broadcast use vstd::std_specs::hash::group_hash_axioms;

// ── Events ───────────────────────────────────────────────────────────────

/// What a `stopped` event reports.
#[derive(Debug, Clone)]
pub struct StopInfo {
    /// The reason for the stop, as text.
    pub reason: String,
    /// The thread that stopped, if given.
    pub thread_id: Option<u64>,
    /// Whether all threads stopped, if given.
    pub all_threads_stopped: Option<bool>,
    /// The breakpoints that were hit, if given.
    pub hit_breakpoint_ids: Option<Vec<u64>>,
}

/// The variant name of a known `stopped` reason, as the DAP wire text names
/// it; `None` for any other reason.
pub open spec fn spec_known_stop_reason(reason: Seq<char>) -> Option<Seq<char>> {
    if reason == "step"@ {
        Some("Step"@)
    } else if reason == "breakpoint"@ {
        Some("Breakpoint"@)
    } else if reason == "exception"@ {
        Some("Exception"@)
    } else if reason == "pause"@ {
        Some("Pause"@)
    } else if reason == "entry"@ {
        Some("Entry"@)
    } else if reason == "goto"@ {
        Some("Goto"@)
    } else if reason == "function breakpoint"@ {
        Some("FunctionBreakpoint"@)
    } else if reason == "data breakpoint"@ {
        Some("DataBreakpoint"@)
    } else if reason == "instruction breakpoint"@ {
        Some("InstructionBreakpoint"@)
    } else {
        None
    }
}

/// The text a `stopped` reason is recorded by: the variant name of a known
/// reason, and `Other(...)` around the debug form of any other.
pub open spec fn spec_stop_reason_text(reason: Seq<char>) -> Seq<char> {
    match spec_known_stop_reason(reason) {
        Some(t) => t,
        None => "Other("@ + spec_debug_str_text(reason) + ")"@,
    }
}

/// The text a `stopped` reason is recorded by.
pub fn stop_reason_text(reason: &str) -> (r: String)
    ensures
        r@ == spec_stop_reason_text(reason@),
{
    if str_eq(reason, "step") {
        String::from_str("Step")
    } else if str_eq(reason, "breakpoint") {
        String::from_str("Breakpoint")
    } else if str_eq(reason, "exception") {
        String::from_str("Exception")
    } else if str_eq(reason, "pause") {
        String::from_str("Pause")
    } else if str_eq(reason, "entry") {
        String::from_str("Entry")
    } else if str_eq(reason, "goto") {
        String::from_str("Goto")
    } else if str_eq(reason, "function breakpoint") {
        String::from_str("FunctionBreakpoint")
    } else if str_eq(reason, "data breakpoint") {
        String::from_str("DataBreakpoint")
    } else if str_eq(reason, "instruction breakpoint") {
        String::from_str("InstructionBreakpoint")
    } else {
        let d = debug_str_text(reason);
        let mut r = String::from_str("Other(");
        r.append(d.as_str());
        r.append(")");
        r
    }
}

/// A DAP event, as far as the session state machine reads it.
#[derive(Debug, Clone)]
pub enum SessionEvent {
    /// `initialized`
    Initialized,
    /// `stopped`
    Stopped(StopInfo),
    /// `continued`
    Continued,
    /// `terminated`
    Terminated,
    /// `exited`
    Exited,
    /// `thread`, with its `reason` and `thread_id` members when they are text
    /// and an unsigned integer.
    Thread { reason: Option<String>, thread_id: Option<u64> },
    /// Any other event (output, module, process, breakpoint, ...).
    Other,
}

/// Which kind of event a DAP event name denotes.
#[derive(Debug, Clone, Copy, PartialEq, Eq, Structural)]
pub enum SessionEventKind {
    Initialized,
    Stopped,
    Continued,
    Terminated,
    Exited,
    Thread,
    Other,
}

/// The kind of event named `name`.
pub open spec fn spec_event_kind(name: Seq<char>) -> SessionEventKind {
    if name == "initialized"@ {
        SessionEventKind::Initialized
    } else if name == "stopped"@ {
        SessionEventKind::Stopped
    } else if name == "continued"@ {
        SessionEventKind::Continued
    } else if name == "terminated"@ {
        SessionEventKind::Terminated
    } else if name == "exited"@ {
        SessionEventKind::Exited
    } else if name == "thread"@ {
        SessionEventKind::Thread
    } else {
        SessionEventKind::Other
    }
}

/// Classify a DAP event by its name.
pub fn event_kind(name: &str) -> (r: SessionEventKind)
    ensures
        r == spec_event_kind(name@),
{
    if str_eq(name, "initialized") {
        SessionEventKind::Initialized
    } else if str_eq(name, "stopped") {
        SessionEventKind::Stopped
    } else if str_eq(name, "continued") {
        SessionEventKind::Continued
    } else if str_eq(name, "terminated") {
        SessionEventKind::Terminated
    } else if str_eq(name, "exited") {
        SessionEventKind::Exited
    } else if str_eq(name, "thread") {
        SessionEventKind::Thread
    } else {
        SessionEventKind::Other
    }
}

/// What handling an event asks of the caller.
#[derive(Debug, Clone, Copy, PartialEq, Eq, Structural)]
pub struct EventOutcome {
    /// Whether the event affected the state machine (`false` for passthrough
    /// events that the caller handles itself).
    pub handled: bool,
    /// Whether the caller should shut the adapter connection down (best-effort).
    pub shutdown_client: bool,
}

/// How a request is sent to the adapter.
#[derive(Debug, Clone, Copy, PartialEq, Eq, Structural)]
pub enum RequestMode {
    /// Send and wait for the response.
    Blocking,
    /// Send without waiting for the response.
    FireAndForget,
}

// ── Model ────────────────────────────────────────────────────────────────

/// The abstract halt information.
pub struct HaltModel {
    pub stopped_threads: Set<u64>,
    pub all_threads_stopped: bool,
    pub last_stop_reason: Option<Seq<char>>,
    pub hit_breakpoint_ids: Seq<u64>,
}

/// The abstract halt information of a halt state.
pub open spec fn spec_halt_model(h: HaltState) -> HaltModel {
    HaltModel {
        stopped_threads: h.stopped_threads@,
        all_threads_stopped: h.all_threads_stopped,
        last_stop_reason: match h.last_stop_reason {
            Some(s) => Some(s@),
            None => None,
        },
        hit_breakpoint_ids: h.hit_breakpoint_ids@,
    }
}

/// The halt information with no stopped thread.
pub open spec fn spec_cleared_halt() -> HaltModel {
    HaltModel {
        stopped_threads: Set::empty(),
        all_threads_stopped: false,
        last_stop_reason: None,
        hit_breakpoint_ids: Seq::empty(),
    }
}

/// The halt information after a `stopped` event.
pub open spec fn spec_stopped_halt(info: StopInfo) -> HaltModel {
    HaltModel {
        stopped_threads: match info.thread_id {
            Some(t) => Set::empty().insert(t),
            None => Set::empty(),
        },
        all_threads_stopped: match info.all_threads_stopped {
            Some(b) => b,
            None => false,
        },
        last_stop_reason: Some(info.reason@),
        hit_breakpoint_ids: match info.hit_breakpoint_ids {
            Some(v) => v@,
            None => Seq::empty(),
        },
    }
}

/// The abstract content of a debug session.
pub struct SessionModel {
    pub state: SessionState,
    pub halt: HaltModel,
    pub capabilities: Option<Capabilities>,
    pub configuration_done: bool,
    pub adapter_kind: Option<AdapterKind>,
    pub paths: PathMapperView,
    pub cache: VariableCacheView,
}

/// The session with its state machine moved to `target`: the variable cache
/// is invalidated when execution leaves `Halted`.
pub open spec fn spec_after_transition(m: SessionModel, target: SessionState) -> SessionModel {
    SessionModel {
        state: target,
        halt: m.halt,
        capabilities: m.capabilities,
        configuration_done: m.configuration_done,
        adapter_kind: m.adapter_kind,
        paths: m.paths,
        cache: if m.state == SessionState::Halted && (target == SessionState::Running || target
            == SessionState::Disconnected) {
            VariableCacheView { lists: Seq::empty(), valid: false }
        } else {
            m.cache
        },
    }
}

/// The session with other halt information.
pub open spec fn spec_with_halt(m: SessionModel, h: HaltModel) -> SessionModel {
    SessionModel {
        state: m.state,
        halt: h,
        capabilities: m.capabilities,
        configuration_done: m.configuration_done,
        adapter_kind: m.adapter_kind,
        paths: m.paths,
        cache: m.cache,
    }
}

/// The outcome of attempting a transition from `pre` to `target` for
/// `reason`, reporting `ok` on success: either the transition happened, or
/// nothing changed and the invalid-state error names the legal predecessors.
pub open spec fn spec_transition_outcome<T>(
    pre: SessionModel,
    post: SessionModel,
    target: SessionState,
    reason: Seq<char>,
    r: Result<T, DebugSessionError>,
    ok: T,
) -> bool {
    if spec_can_transition(pre.state, target) {
        post == spec_after_transition(pre, target) && r == Ok::<T, DebugSessionError>(ok)
    } else {
        post == pre && (r matches Err(e) && e.is_invalid_state(
            reason,
            pre.state,
            spec_valid_predecessors(target),
        ))
    }
}

/// The outcome a handled event reports.
pub open spec fn spec_handled(shutdown_client: bool) -> EventOutcome {
    EventOutcome { handled: true, shutdown_client }
}

/// The outcome a passthrough event reports.
pub open spec fn spec_passthrough() -> EventOutcome {
    EventOutcome { handled: false, shutdown_client: false }
}

/// What handling `event` does to `pre`, giving `post` and result `r`.
pub open spec fn spec_handle_event(
    pre: SessionModel,
    event: SessionEvent,
    post: SessionModel,
    r: Result<EventOutcome, DebugSessionError>,
) -> bool {
    match event {
        SessionEvent::Initialized => if pre.state == SessionState::Initialized {
            post == pre && r == Ok::<EventOutcome, DebugSessionError>(spec_handled(false))
        } else {
            spec_transition_outcome(
                pre,
                post,
                SessionState::Initialized,
                "event:initialized"@,
                r,
                spec_handled(false),
            )
        },
        SessionEvent::Stopped(info) => spec_transition_outcome(
            spec_with_halt(pre, spec_stopped_halt(info)),
            post,
            SessionState::Halted,
            "event:stopped"@,
            r,
            spec_handled(false),
        ),
        SessionEvent::Continued => {
            let cleared = spec_with_halt(pre, spec_cleared_halt());
            if pre.state == SessionState::Running {
                post == cleared && r == Ok::<EventOutcome, DebugSessionError>(spec_handled(false))
            } else {
                spec_transition_outcome(
                    cleared,
                    post,
                    SessionState::Running,
                    "event:continued"@,
                    r,
                    spec_handled(false),
                )
            }
        },
        SessionEvent::Terminated => if pre.state == SessionState::Disconnected {
            post == pre && r == Ok::<EventOutcome, DebugSessionError>(spec_handled(true))
        } else {
            spec_transition_outcome(
                pre,
                post,
                SessionState::Disconnected,
                "event:terminated"@,
                r,
                spec_handled(true),
            )
        },
        SessionEvent::Exited => if pre.state == SessionState::Disconnected {
            post == pre && r == Ok::<EventOutcome, DebugSessionError>(spec_handled(true))
        } else {
            spec_transition_outcome(
                pre,
                post,
                SessionState::Disconnected,
                "event:exited"@,
                r,
                spec_handled(true),
            )
        },
        SessionEvent::Thread { reason, thread_id } => {
            &&& r == Ok::<EventOutcome, DebugSessionError>(spec_passthrough())
            &&& post == (match (reason, thread_id) {
                (Some(s), Some(t)) => if s@ == "exited"@ {
                    spec_with_halt(
                        pre,
                        HaltModel {
                            stopped_threads: pre.halt.stopped_threads.remove(t),
                            all_threads_stopped: pre.halt.all_threads_stopped,
                            last_stop_reason: pre.halt.last_stop_reason,
                            hit_breakpoint_ids: pre.halt.hit_breakpoint_ids,
                        },
                    )
                } else {
                    pre
                },
                _ => pre,
            })
        },
        SessionEvent::Other => post == pre && r == Ok::<EventOutcome, DebugSessionError>(
            spec_passthrough(),
        ),
    }
}

// ── The session ──────────────────────────────────────────────────────────

/// A debug session with state tracking, operation gating and event handling.
pub struct DebugSession {
    /// Current session state.
    state: SessionState,
    /// Detailed halt information (only meaningful when state is Halted).
    halt_state: HaltState,
    /// Capabilities returned by the initialize handshake.
    capabilities: Option<Capabilities>,
    /// Whether configurationDone has been sent.
    configuration_done: bool,
    /// Path mapper for AI relative ↔ system absolute path translation.
    path_mapper: PathMapper,
    /// Variable handle cache, invalidated when execution resumes.
    variable_cache: VariableHandleCache,
    /// The kind of debug adapter in use (set by `after_start`).
    adapter_kind: Option<AdapterKind>,
}

impl DebugSession {
    /// The abstract content of the session.
    pub closed spec fn model(&self) -> SessionModel {
        SessionModel {
            state: self.state,
            halt: spec_halt_model(self.halt_state),
            capabilities: self.capabilities,
            configuration_done: self.configuration_done,
            adapter_kind: self.adapter_kind,
            paths: self.path_mapper@,
            cache: self.variable_cache@,
        }
    }

    /// The session's internal consistency.
    pub closed spec fn wf(&self) -> bool {
        self.path_mapper.wf() && self.variable_cache.wf()
    }

    /// Create a new session, disconnected.
    pub fn new() -> (r: Self)
        ensures
            r.wf(),
            r.model().state == SessionState::Disconnected,
            r.model().halt == spec_cleared_halt(),
            r.model().capabilities is None,
            !r.model().configuration_done,
            r.model().adapter_kind is None,
            r.model().paths.aliases.len() == 0,
            r.model().paths.base_dirs.len() == 0,
            r.model().cache == (VariableCacheView { lists: Seq::empty(), valid: true }),
    {
        let r = DebugSession {
            state: SessionState::Disconnected,
            halt_state: HaltState {
                stopped_threads: HashSet::new(),
                all_threads_stopped: false,
                last_stop_reason: None,
                hit_breakpoint_ids: Vec::new(),
            },
            capabilities: None,
            configuration_done: false,
            path_mapper: PathMapper::new(),
            variable_cache: VariableHandleCache::new(),
            adapter_kind: None,
        };
        assert(r.model().halt.hit_breakpoint_ids =~= Seq::<u64>::empty());
        r
    }

    /// Returns the current session state.
    pub fn current_state(&self) -> (r: SessionState)
        ensures
            r == self.model().state,
    {
        self.state
    }

    /// Returns the kind of adapter currently in use (if started).
    pub fn adapter_kind(&self) -> (r: Option<AdapterKind>)
        ensures
            r == self.model().adapter_kind,
    {
        self.adapter_kind
    }

    /// Returns the capabilities (if initialized).
    pub fn capabilities(&self) -> (r: Option<&Capabilities>)
        ensures
            r == (match self.model().capabilities {
                Some(c) => Some(&c),
                None => None,
            }),
    {
        match &self.capabilities {
            Some(c) => Some(c),
            None => None,
        }
    }

    /// Returns the halt information.
    pub fn halt_state(&self) -> (r: &HaltState)
        ensures
            spec_halt_model(*r) == self.model().halt,
    {
        &self.halt_state
    }

    // ── Path mapping ─────────────────────────────────────────────────────

    /// Register a path alias (AI path → system absolute path).
    pub fn register_path_alias(&mut self, alias: &str, absolute_path: &str)
        requires
            old(self).wf(),
        ensures
            final(self).wf(),
            spec_alias_map(final(self).model().paths.aliases) == spec_alias_map(
                old(self).model().paths.aliases,
            ).insert(alias@, absolute_path@),
            final(self).model().paths.base_dirs == old(self).model().paths.base_dirs,
            final(self).model().state == old(self).model().state,
            final(self).model().cache == old(self).model().cache,
    {
        self.path_mapper.register_alias(alias, absolute_path);
    }

    /// Register a base directory for relative path resolution.
    pub fn register_base_dir(&mut self, dir: &str)
        requires
            old(self).wf(),
        ensures
            final(self).wf(),
            final(self).model().paths.aliases == old(self).model().paths.aliases,
            final(self).model().paths.base_dirs == old(self).model().paths.base_dirs.push(dir@),
            final(self).model().state == old(self).model().state,
            final(self).model().cache == old(self).model().cache,
    {
        self.path_mapper.register_base_dir(dir);
    }

    /// Resolve a path (potentially relative or aliased) to an absolute system
    /// path, given the index of the first base-directory candidate that exists.
    pub fn resolve_path_given(&self, path: &str, found: Option<usize>) -> (r: Option<String>)
        requires
            found matches Some(k) ==> k < self.model().paths.base_dirs.len(),
        ensures
            match r {
                Some(s) => spec_resolve_given(
                    self.model().paths,
                    path@,
                    crate::mapping::spec_opt_index(found),
                ) == Some(s@),
                None => spec_resolve_given(
                    self.model().paths,
                    path@,
                    crate::mapping::spec_opt_index(found),
                ) is None,
            },
    {
        self.path_mapper.resolve_given(path, found)
    }

    /// Resolve a path (potentially relative or aliased) to an absolute system path.
    pub fn resolve_path(&self, path: &str) -> (r: Option<String>)
        ensures
            exists|found: Option<int>|
                (found matches Some(k) ==> 0 <= k < self.model().paths.base_dirs.len()) && match r {
                    Some(s) => spec_resolve_given(self.model().paths, path@, found) == Some(s@),
                    None => spec_resolve_given(self.model().paths, path@, found) is None,
                },
    {
        let r = self.path_mapper.resolve(path);
        proof {
            let found = choose|found: Option<int>|
                (found matches Some(k) ==> 0 <= k < self.path_mapper@.base_dirs.len()) && match r {
                    Some(s) => spec_resolve_given(self.path_mapper@, path@, found) == Some(s@),
                    None => spec_resolve_given(self.path_mapper@, path@, found) is None,
                };
            assert((found matches Some(k) ==> 0 <= k < self.model().paths.base_dirs.len()) && match r {
                Some(s) => spec_resolve_given(self.model().paths, path@, found) == Some(s@),
                None => spec_resolve_given(self.model().paths, path@, found) is None,
            });
        }
        r
    }

    /// Reverse-resolve an absolute system path to the most specific registered alias.
    pub fn reverse_path(&self, absolute_path: &str) -> (r: Option<String>)
        ensures
            match r {
                Some(s) => spec_reverse(self.model().paths, absolute_path@) == Some(s@),
                None => spec_reverse(self.model().paths, absolute_path@) is None,
            },
    {
        self.path_mapper.reverse(absolute_path)
    }

    /// The path mapper.
    pub fn path_mapper(&self) -> (r: &PathMapper)
        ensures
            r@ == self.model().paths,
    {
        &self.path_mapper
    }

    // ── Variable handle cache ────────────────────────────────────────────

    /// Returns the variable handle cache.
    pub fn variable_cache(&self) -> (r: &VariableHandleCache)
        ensures
            r@ == self.model().cache,
    {
        &self.variable_cache
    }

    /// Cache a variable entry (typically called during context assembly).
    pub fn cache_variable(&mut self, entry: VariableHandleEntry)
        requires
            old(self).wf(),
        ensures
            final(self).wf(),
            final(self).model().cache.lists == spec_insert(old(self).model().cache.lists, entry@),
            final(self).model().cache.valid,
            final(self).model().state == old(self).model().state,
            final(self).model().paths == old(self).model().paths,
    {
        self.variable_cache.insert(entry);
    }

    /// Look up a variable handle by name, with optional frame/scope scoping.
    pub fn lookup_variable(&self, name: &str, frame_id: Option<u64>, scope_name: Option<&str>) -> (r:
        Option<VariableHandleEntry>)
        ensures
            match r {
                Some(x) => spec_lookup(
                    self.model().cache.lists,
                    name@,
                    frame_id,
                    spec_opt_str(scope_name),
                ) == Some(x@),
                None => spec_lookup(
                    self.model().cache.lists,
                    name@,
                    frame_id,
                    spec_opt_str(scope_name),
                ) is None,
            },
    {
        self.variable_cache.lookup(name, frame_id, scope_name)
    }

    /// Search the variable cache with a fuzzy query.
    pub fn search_variables(&self, query: &str, limit: usize) -> (r: Vec<VariableHandleEntry>)
        ensures
            entry_views(r@) == spec_search(self.model().cache.lists, query@, limit),
    {
        self.variable_cache.search(query, limit)
    }

    /// Populate the variable cache from a flat list of variables for a given
    /// frame/scope, captured at time `captured_at`.
    pub fn cache_variables(
        &mut self,
        variables: &[Variable],
        frame_id: Option<u64>,
        scope_name: Option<&str>,
        captured_at: u64,
    )
        requires
            old(self).wf(),
        ensures
            final(self).wf(),
            final(self).model().cache.lists == spec_insert_all(
                old(self).model().cache.lists,
                variables@.map_values(
                    |v: Variable| spec_entry_of(v, frame_id, spec_opt_str(scope_name), captured_at),
                ),
            ),
            final(self).model().cache.valid,
            final(self).model().state == old(self).model().state,
            final(self).model().paths == old(self).model().paths,
    {
        let mut entries: Vec<VariableHandleEntry> = Vec::new();
        let mut i: usize = 0;
        while i < variables.len()
            invariant
                i <= variables@.len(),
                entry_views(entries@) == variables@.take(i as int).map_values(
                    |v: Variable| spec_entry_of(v, frame_id, spec_opt_str(scope_name), captured_at),
                ),
            decreases variables@.len() - i,
        {
            let v = &variables[i];
            let e = VariableHandleEntry {
                variables_reference: v.variables_reference,
                name: v.name.clone(),
                frame_id,
                scope_name: match scope_name {
                    Some(s) => Some(String::from_str(s)),
                    None => None,
                },
                var_type: crate::cache::clone_opt_string(&v.var_type),
                named_variables: v.named_variables,
                indexed_variables: v.indexed_variables,
                captured_at,
            };
            assert(e@ == spec_entry_of(*v, frame_id, spec_opt_str(scope_name), captured_at));
            let ghost ev = entries@;
            entries.push(e);
            assert(entry_views(entries@) =~= entry_views(ev).push(e@));
            assert(variables@.take(i + 1).map_values(
                |v: Variable| spec_entry_of(v, frame_id, spec_opt_str(scope_name), captured_at),
            ) =~= variables@.take(i as int).map_values(
                |v: Variable| spec_entry_of(v, frame_id, spec_opt_str(scope_name), captured_at),
            ).push(spec_entry_of(variables@[i as int], frame_id, spec_opt_str(scope_name), captured_at)));
            i = i + 1;
        }
        assert(variables@.take(variables@.len() as int) =~= variables@);
        self.variable_cache.insert_batch(entries);
    }

    // ── State machine ────────────────────────────────────────────────────

    /// Validate that the current state allows `operation`, returning the
    /// invalid-state error if not.
    pub fn gate(&self, operation: &str) -> (r: Result<SessionState, DebugSessionError>)
        ensures
            spec_is_allowed(operation@, self.model().state) ==> r == Ok::<
                SessionState,
                DebugSessionError,
            >(self.model().state),
            !spec_is_allowed(operation@, self.model().state) ==> (r matches Err(e)
                && e.is_invalid_state(
                operation@,
                self.model().state,
                spec_allowed_states(operation@),
            )),
    {
        let state = self.state;
        if !ToolAvailability::is_allowed(operation, state) {
            return Err(
                DebugSessionError::InvalidState {
                    operation: String::from_str(operation),
                    current: state,
                    required: ToolAvailability::allowed_states(operation),
                },
            );
        }
        Ok(state)
    }

    /// Attempt to transition the session to a new state: the move happens
    /// exactly when the state machine allows it, emptying and invalidating
    /// the variable cache when it leaves `Halted`; otherwise nothing changes
    /// and the error names the operation, the current state and the states
    /// from which `target` may be entered (see `lemma_transition_law`).
    pub fn transition_to(&mut self, target: SessionState, reason: &str) -> (r: Result<
        (),
        DebugSessionError,
    >)
        requires
            old(self).wf(),
        ensures
            final(self).wf(),
            spec_transition_outcome(old(self).model(), final(self).model(), target, reason@, r, ()),
            r is Ok <==> spec_can_transition(old(self).model().state, target),
            r is Ok ==> final(self).model().state == target,
            r is Ok && old(self).model().state == SessionState::Halted
                ==> final(self).model().cache.lists.len() == 0 && !final(self).model().cache.valid,
            r is Ok && old(self).model().state != SessionState::Halted ==> final(self).model().cache
                == old(self).model().cache,
            r is Err ==> final(self).model() == old(self).model() && (r matches Err(e)
                && e.is_invalid_state(
                reason@,
                old(self).model().state,
                spec_valid_predecessors(target),
            )),
    {
        if !self.state.can_transition_to(target) {
            return Err(
                DebugSessionError::InvalidState {
                    operation: String::from_str(reason),
                    current: self.state,
                    required: target.valid_predecessors(),
                },
            );
        }
        let from = self.state;
        self.state = target;
        // Variable handles are only valid while stopped.
        if from == SessionState::Halted && (target == SessionState::Running || target
            == SessionState::Disconnected) {
            self.variable_cache.invalidate();
        }
        Ok(())
    }

    /// Record that the adapter process of kind `kind` was started.
    pub fn after_start(&mut self, kind: AdapterKind) -> (r: Result<(), DebugSessionError>)
        requires
            old(self).wf(),
        ensures
            final(self).wf(),
            ({
                let pre = old(self).model();
                let with_kind = SessionModel { adapter_kind: Some(kind), ..pre };
                spec_transition_outcome(
                    with_kind,
                    final(self).model(),
                    SessionState::Connected,
                    "start"@,
                    r,
                    (),
                )
            }),
    {
        self.adapter_kind = Some(kind);
        self.transition_to(SessionState::Connected, "start")
    }

    /// Record the capabilities that the initialize handshake returned.
    pub fn after_initialize(&mut self, caps: Capabilities) -> (r: Result<(), DebugSessionError>)
        requires
            old(self).wf(),
        ensures
            final(self).wf(),
            ({
                let pre = old(self).model();
                let with_caps = SessionModel { capabilities: Some(caps), ..pre };
                spec_transition_outcome(
                    with_caps,
                    final(self).model(),
                    SessionState::Initialized,
                    "initialize"@,
                    r,
                    (),
                )
            }),
    {
        self.capabilities = Some(caps);
        self.transition_to(SessionState::Initialized, "initialize")
    }

    /// How `launch` and `configurationDone` are sent: codelldb (or an
    /// unknown adapter) defers those responses, so they are sent without
    /// waiting; GDB answers promptly.
    pub fn deferred_request_mode(&self) -> (r: RequestMode)
        ensures
            r == (match self.model().adapter_kind {
                Some(AdapterKind::Gdb) => RequestMode::Blocking,
                _ => RequestMode::FireAndForget,
            }),
    {
        match self.adapter_kind {
            Some(AdapterKind::Gdb) => RequestMode::Blocking,
            _ => RequestMode::FireAndForget,
        }
    }

    /// Record that configuration is complete; the debuggee runs.
    pub fn after_configuration_done(&mut self) -> (r: Result<(), DebugSessionError>)
        requires
            old(self).wf(),
        ensures
            final(self).wf(),
            ({
                let pre = old(self).model();
                let done = SessionModel { configuration_done: true, ..pre };
                spec_transition_outcome(
                    done,
                    final(self).model(),
                    SessionState::Running,
                    "configuration_done"@,
                    r,
                    (),
                )
            }),
    {
        self.configuration_done = true;
        self.transition_to(SessionState::Running, "configuration_done")
    }

    /// Record that the adapter was shut down.
    pub fn after_shutdown(&mut self) -> (r: Result<(), DebugSessionError>)
        requires
            old(self).wf(),
        ensures
            final(self).wf(),
            old(self).model().state == SessionState::Disconnected ==> final(self).model() == old(
                self,
            ).model() && r is Ok,
            old(self).model().state != SessionState::Disconnected ==> spec_transition_outcome(
                old(self).model(),
                final(self).model(),
                SessionState::Disconnected,
                "shutdown"@,
                r,
                (),
            ),
    {
        if self.state != SessionState::Disconnected {
            self.transition_to(SessionState::Disconnected, "shutdown")
        } else {
            Ok(())
        }
    }

    /// Record that execution resumed through `operation` (continue or a step):
    /// the halt information is cleared and the debuggee runs.
    pub fn after_resume(&mut self, operation: &str) -> (r: Result<(), DebugSessionError>)
        requires
            old(self).wf(),
        ensures
            final(self).wf(),
            spec_transition_outcome(
                spec_with_halt(old(self).model(), spec_cleared_halt()),
                final(self).model(),
                SessionState::Running,
                operation@,
                r,
                (),
            ),
    {
        self.halt_state.clear();
        proof {
            assert(spec_halt_model(self.halt_state).hit_breakpoint_ids =~= Seq::<u64>::empty());
        }
        self.transition_to(SessionState::Running, operation)
    }

    /// Process a DAP event and update the state machine.
    ///
    /// The outcome says whether the event was a state-affecting event that was
    /// handled (`false` for passthrough events such as output, module or
    /// process, which callers handle themselves) and whether the adapter
    /// connection should be shut down.
    pub fn handle_event(&mut self, event: &SessionEvent) -> (r: Result<EventOutcome, DebugSessionError>)
        requires
            old(self).wf(),
        ensures
            final(self).wf(),
            spec_handle_event(old(self).model(), *event, final(self).model(), r),
    {
        match event {
            SessionEvent::Initialized => {
                if self.state != SessionState::Initialized {
                    self.transition_to(SessionState::Initialized, "event:initialized")?;
                }
                Ok(EventOutcome { handled: true, shutdown_client: false })
            },
            SessionEvent::Stopped(info) => {
                self.halt_state.clear();
                match info.thread_id {
                    Some(tid) => {
                        self.halt_state.stopped_threads.insert(tid);
                    },
                    None => {},
                }
                self.halt_state.all_threads_stopped = match info.all_threads_stopped {
                    Some(b) => b,
                    None => false,
                };
                self.halt_state.last_stop_reason = Some(info.reason.clone());
                self.halt_state.hit_breakpoint_ids = match &info.hit_breakpoint_ids {
                    Some(ids) => ids.clone(),
                    None => Vec::new(),
                };
                proof {
                    assert(spec_halt_model(self.halt_state).stopped_threads =~= spec_stopped_halt(
                        *info,
                    ).stopped_threads);
                    assert(spec_halt_model(self.halt_state).hit_breakpoint_ids
                        =~= spec_stopped_halt(*info).hit_breakpoint_ids);
                }
                self.transition_to(SessionState::Halted, "event:stopped")?;
                Ok(EventOutcome { handled: true, shutdown_client: false })
            },
            SessionEvent::Continued => {
                self.halt_state.clear();
                proof {
                    assert(spec_halt_model(self.halt_state).hit_breakpoint_ids =~= Seq::<
                        u64,
                    >::empty());
                }
                if self.state != SessionState::Running {
                    self.transition_to(SessionState::Running, "event:continued")?;
                }
                Ok(EventOutcome { handled: true, shutdown_client: false })
            },
            SessionEvent::Terminated => {
                if self.state != SessionState::Disconnected {
                    self.transition_to(SessionState::Disconnected, "event:terminated")?;
                }
                Ok(EventOutcome { handled: true, shutdown_client: true })
            },
            SessionEvent::Exited => {
                if self.state != SessionState::Disconnected {
                    self.transition_to(SessionState::Disconnected, "event:exited")?;
                }
                Ok(EventOutcome { handled: true, shutdown_client: true })
            },
            SessionEvent::Thread { reason, thread_id } => {
                match (reason, thread_id) {
                    (Some(s), Some(tid)) => {
                        if str_eq(s.as_str(), "exited") {
                            self.halt_state.stopped_threads.remove(tid);
                        }
                    },
                    _ => {},
                }
                Ok(EventOutcome { handled: false, shutdown_client: false })
            },
            SessionEvent::Other => Ok(EventOutcome { handled: false, shutdown_client: false }),
        }
    }
}

/// The cache entry recorded for a variable seen in a frame and scope.
pub open spec fn spec_entry_of(
    v: Variable,
    frame_id: Option<u64>,
    scope_name: Option<Seq<char>>,
    captured_at: u64,
) -> EntryView {
    EntryView {
        variables_reference: v.variables_reference,
        name: v.name@,
        frame_id,
        scope_name,
        var_type: crate::cache::spec_opt_text(v.var_type),
        named_variables: v.named_variables,
        indexed_variables: v.indexed_variables,
        captured_at,
    }
}

// ── Laws ─────────────────────────────────────────────────────────────────

/// The state each state-changing operation leads to.
pub open spec fn spec_operation_target(op: Seq<char>) -> Option<SessionState> {
    if op == "start"@ {
        Some(SessionState::Connected)
    } else if op == "initialize"@ {
        Some(SessionState::Initialized)
    } else if op == "configuration_done"@ || op == "continue"@ || op == "step_over"@ || op
        == "step_in"@ || op == "step_out"@ {
        Some(SessionState::Running)
    } else if op == "shutdown"@ {
        Some(SessionState::Disconnected)
    } else {
        None
    }
}

/// Gating and the state machine agree: whenever the state check admits a
/// state-changing operation, the transition it makes afterwards is legal.
pub proof fn lemma_gate_admits_transition(op: Seq<char>, s: SessionState)
    requires
        spec_is_allowed(op, s),
        spec_operation_target(op) is Some,
    ensures
        spec_can_transition(s, spec_operation_target(op)->0),
{
    reveal_strlit("start");
    reveal_strlit("initialize");
    reveal_strlit("configuration_done");
    reveal_strlit("continue");
    reveal_strlit("step_over");
    reveal_strlit("step_in");
    reveal_strlit("step_out");
    reveal_strlit("shutdown");
    reveal_strlit("launch");
    reveal_strlit("attach");
    reveal_strlit("disconnect");
    reveal_strlit("pause");
    reveal_strlit("set_breakpoints");
    reveal_strlit("set_function_breakpoints");
    reveal_strlit("list_breakpoints");
    reveal_strlit("get_threads");
    let states = spec_allowed_states(op);
    let i = choose|i: int| 0 <= i < states.len() && states[i] == s;
    if op == "start"@ {
        assert(states == seq![SessionState::Disconnected]);
        assert(s == SessionState::Disconnected);
        assert(spec_operation_target(op) == Some(SessionState::Connected));
    } else if op == "initialize"@ {
        assert(states == seq![SessionState::Connected]);
        assert(s == SessionState::Connected);
        assert(spec_operation_target(op) == Some(SessionState::Initialized));
    } else if op == "configuration_done"@ {
        assert(states == seq![SessionState::Initialized]);
        assert(s == SessionState::Initialized);
        assert(spec_operation_target(op) == Some(SessionState::Running));
    } else if op == "shutdown"@ {
        assert("shutdown"@ != "continue"@) by {
            assert("shutdown"@[0] != "continue"@[0]);
        }
        assert("shutdown"@ != "step_out"@) by {
            assert("shutdown"@[1] != "step_out"@[1]);
        }
        assert("shutdown"@ != "start"@ && "shutdown"@ != "initialize"@ && "shutdown"@ != "launch"@
            && "shutdown"@ != "attach"@ && "shutdown"@ != "configuration_done"@ && "shutdown"@
            != "step_over"@ && "shutdown"@ != "step_in"@) by {
            assert("shutdown"@.len() == 8);
        }
        assert(states == seq![
            SessionState::Connected,
            SessionState::Initialized,
            SessionState::Running,
            SessionState::Halted,
        ]);
        assert(s != SessionState::Disconnected);
        assert(spec_operation_target(op) == Some(SessionState::Disconnected));
    } else {
        assert(op == "continue"@ || op == "step_over"@ || op == "step_in"@ || op == "step_out"@);
        assert(states == seq![SessionState::Halted]);
        assert(s == SessionState::Halted);
        assert(spec_operation_target(op) == Some(SessionState::Running));
    }
}

/// Variable handles do not survive a resume: when execution leaves `Halted`
/// for `Running` or `Disconnected`, the cache holds nothing and is stale, so
/// every lookup finds nothing.
pub proof fn lemma_resume_invalidates_cache(
    m: SessionModel,
    target: SessionState,
    name: Seq<char>,
    frame_id: Option<u64>,
    scope: Option<Seq<char>>,
)
    requires
        m.state == SessionState::Halted,
        target == SessionState::Running || target == SessionState::Disconnected,
    ensures
        spec_after_transition(m, target).cache.lists.len() == 0,
        !spec_after_transition(m, target).cache.valid,
        spec_lookup(spec_after_transition(m, target).cache.lists, name, frame_id, scope) is None,
{
}

/// A `stopped` event while running halts the session and records the stop:
/// the reporting thread is the only stopped one, and the reason is kept.
pub proof fn lemma_stop_while_running(
    pre: SessionModel,
    info: StopInfo,
    post: SessionModel,
    r: Result<EventOutcome, DebugSessionError>,
)
    requires
        pre.state == SessionState::Running,
        spec_handle_event(pre, SessionEvent::Stopped(info), post, r),
    ensures
        post.state == SessionState::Halted,
        r == Ok::<EventOutcome, DebugSessionError>(spec_handled(false)),
        post.halt.last_stop_reason == Some(info.reason@),
        forall|t: u64| post.halt.stopped_threads.contains(t) <==> info.thread_id == Some(t),
        post.cache == pre.cache,
{
}

/// The `initialized` event is idempotent: handling it twice in a row gives
/// the same session as handling it once, and both report it handled.
pub proof fn lemma_initialized_idempotent(
    pre: SessionModel,
    mid: SessionModel,
    post: SessionModel,
    r1: Result<EventOutcome, DebugSessionError>,
    r2: Result<EventOutcome, DebugSessionError>,
)
    requires
        spec_handle_event(pre, SessionEvent::Initialized, mid, r1),
        r1 is Ok,
        spec_handle_event(mid, SessionEvent::Initialized, post, r2),
    ensures
        post == mid,
        r2 == r1,
{
}

/// Terminating or exiting always disconnects the session, from any state,
/// and asks for the adapter connection to be closed.
pub proof fn lemma_end_disconnects(
    pre: SessionModel,
    ev: SessionEvent,
    post: SessionModel,
    r: Result<EventOutcome, DebugSessionError>,
)
    requires
        ev is Terminated || ev is Exited,
        spec_handle_event(pre, ev, post, r),
    ensures
        post.state == SessionState::Disconnected,
        r == Ok::<EventOutcome, DebugSessionError>(spec_handled(true)),
{
}

/// Every transition attempt (the step behind `after_start`,
/// `after_initialize`, `after_configuration_done`, `after_shutdown`,
/// `after_resume` and `handle_event`) succeeds exactly when the state
/// machine allows the move. On success the session is in `target`, with the
/// variable cache emptied and stale when it left `Halted` and untouched
/// otherwise, and nothing else changed; on failure nothing changed at all and
/// the error names the operation, the current state and the states from which
/// `target` may be entered.
pub proof fn lemma_transition_law<T>(
    pre: SessionModel,
    post: SessionModel,
    target: SessionState,
    reason: Seq<char>,
    r: Result<T, DebugSessionError>,
    ok: T,
)
    requires
        spec_transition_outcome(pre, post, target, reason, r, ok),
    ensures
        r is Ok <==> spec_can_transition(pre.state, target),
        r is Ok ==> {
            &&& post.state == target
            &&& post.halt == pre.halt
            &&& post.capabilities == pre.capabilities
            &&& post.configuration_done == pre.configuration_done
            &&& post.adapter_kind == pre.adapter_kind
            &&& post.paths == pre.paths
            &&& pre.state == SessionState::Halted ==> post.cache.lists.len() == 0
                && !post.cache.valid
            &&& pre.state != SessionState::Halted ==> post.cache == pre.cache
        },
        r is Err ==> post == pre && (r matches Err(e) && e.is_invalid_state(
            reason,
            pre.state,
            spec_valid_predecessors(target),
        )),
{
}

} // verus!
