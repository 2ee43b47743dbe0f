//! Session state machine types and transition logic.

use std::collections::HashSet;
use vstd::prelude::*;

verus! {

broadcast use vstd::std_specs::hash::group_hash_axioms;

/// The states a debug session can be in.
#[derive(Debug, Clone, Copy, PartialEq, Eq, Hash, Structural)]
pub enum SessionState {
    /// No debug adapter process is running.
    Disconnected,
    /// Debug adapter process is spawned but not yet initialized.
    Connected,
    /// initialize handshake is complete. Ready for launch/attach + configuration.
    Initialized,
    /// Debuggee is executing (running freely).
    Running,
    /// Debuggee is stopped at a breakpoint, step, exception, or pause.
    Halted,
}

/// The legal edges of the session state machine.
pub open spec fn spec_can_transition(from: SessionState, to: SessionState) -> bool {
    match (from, to) {
        (SessionState::Disconnected, SessionState::Connected) => true,
        (SessionState::Connected, SessionState::Initialized) => true,
        (SessionState::Connected, SessionState::Disconnected) => true,
        (SessionState::Initialized, SessionState::Running) => true,
        (SessionState::Initialized, SessionState::Disconnected) => true,
        (SessionState::Running, SessionState::Halted) => true,
        (SessionState::Running, SessionState::Disconnected) => true,
        (SessionState::Halted, SessionState::Running) => true,
        (SessionState::Halted, SessionState::Disconnected) => true,
        _ => false,
    }
}

/// The states from which `target` may be entered, in the documented order.
pub open spec fn spec_valid_predecessors(target: SessionState) -> Seq<SessionState> {
    match target {
        SessionState::Disconnected => seq![
            SessionState::Connected,
            SessionState::Initialized,
            SessionState::Running,
            SessionState::Halted,
        ],
        SessionState::Connected => seq![SessionState::Disconnected],
        SessionState::Initialized => seq![SessionState::Connected],
        SessionState::Running => seq![SessionState::Initialized, SessionState::Halted],
        SessionState::Halted => seq![SessionState::Running],
    }
}

/// The display name of a state.
pub open spec fn spec_state_name(s: SessionState) -> Seq<char> {
    match s {
        SessionState::Disconnected => "Disconnected"@,
        SessionState::Connected => "Connected"@,
        SessionState::Initialized => "Initialized"@,
        SessionState::Running => "Running"@,
        SessionState::Halted => "Halted"@,
    }
}

impl SessionState {
    /// Returns whether `target` is a legal transition from `self`.
    pub fn can_transition_to(self, target: SessionState) -> (r: bool)
        ensures
            r == spec_can_transition(self, target),
    {
        match (self, target) {
            (SessionState::Disconnected, SessionState::Connected) => true,
            (SessionState::Connected, SessionState::Initialized) => true,
            (SessionState::Connected, SessionState::Disconnected) => true,
            (SessionState::Initialized, SessionState::Running) => true,
            (SessionState::Initialized, SessionState::Disconnected) => true,
            (SessionState::Running, SessionState::Halted) => true,
            (SessionState::Running, SessionState::Disconnected) => true,
            (SessionState::Halted, SessionState::Running) => true,
            (SessionState::Halted, SessionState::Disconnected) => true,
            _ => false,
        }
    }

    /// List of states from which this state can be legally entered.
    pub fn valid_predecessors(self) -> (r: Vec<SessionState>)
        ensures
            r@ == spec_valid_predecessors(self),
    {
        match self {
            SessionState::Disconnected => vec![
                SessionState::Connected,
                SessionState::Initialized,
                SessionState::Running,
                SessionState::Halted,
            ],
            SessionState::Connected => vec![SessionState::Disconnected],
            SessionState::Initialized => vec![SessionState::Connected],
            SessionState::Running => vec![SessionState::Initialized, SessionState::Halted],
            SessionState::Halted => vec![SessionState::Running],
        }
    }

    /// The display name of this state ("Disconnected", "Connected", ...).
    pub fn as_str(&self) -> (r: &'static str)
        ensures
            r@ == spec_state_name(*self),
    {
        match self {
            SessionState::Disconnected => "Disconnected",
            SessionState::Connected => "Connected",
            SessionState::Initialized => "Initialized",
            SessionState::Running => "Running",
            SessionState::Halted => "Halted",
        }
    }
}

/// A transition is legal exactly when the source state is listed among the
/// valid predecessors of the target state.
pub proof fn lemma_transition_iff_predecessor(from: SessionState, to: SessionState)
    ensures
        spec_can_transition(from, to) <==> spec_valid_predecessors(to).contains(from),
{
    let p = spec_valid_predecessors(to);
    if spec_can_transition(from, to) {
        match (from, to) {
            (SessionState::Connected, SessionState::Disconnected) => assert(p[0] == from),
            (SessionState::Initialized, SessionState::Disconnected) => assert(p[1] == from),
            (SessionState::Running, SessionState::Disconnected) => assert(p[2] == from),
            (SessionState::Halted, SessionState::Disconnected) => assert(p[3] == from),
            (SessionState::Halted, SessionState::Running) => assert(p[1] == from),
            _ => assert(p[0] == from),
        }
    }
}

/// No state is its own successor: every legal transition changes the state.
pub proof fn lemma_transition_changes_state(s: SessionState)
    ensures
        !spec_can_transition(s, s),
{
}

/// Every state other than `Disconnected` can be shut down, and `Disconnected`
/// can only be left towards `Connected`.
pub proof fn lemma_disconnect_reachable(s: SessionState)
    ensures
        s != SessionState::Disconnected ==> spec_can_transition(s, SessionState::Disconnected),
        forall|t: SessionState|
            spec_can_transition(SessionState::Disconnected, t) ==> t == SessionState::Connected,
{
}

/// Tracks which threads are currently halted and why.
#[derive(Debug)]
pub struct HaltState {
    /// IDs of threads known to be stopped.
    pub stopped_threads: HashSet<u64>,
    /// Whether all threads are stopped (from all_threads_stopped).
    pub all_threads_stopped: bool,
    /// The reason for the most recent stop.
    pub last_stop_reason: Option<String>,
    /// IDs of the breakpoints that were hit (if any).
    pub hit_breakpoint_ids: Vec<u64>,
}

impl HaltState {
    /// The halt state of a session with no stopped thread.
    pub open spec fn is_cleared(&self) -> bool {
        &&& self.stopped_threads@ == Set::<u64>::empty()
        &&& !self.all_threads_stopped
        &&& self.last_stop_reason is None
        &&& self.hit_breakpoint_ids@ == Seq::<u64>::empty()
    }

    /// Whether `thread_id` is known to be stopped.
    pub open spec fn spec_is_thread_stopped(&self, thread_id: u64) -> bool {
        self.all_threads_stopped || self.stopped_threads@.contains(thread_id)
    }

    /// Clear all halt state (called when execution resumes).
    pub fn clear(&mut self)
        ensures
            final(self).is_cleared(),
    {
        self.stopped_threads.clear();
        self.all_threads_stopped = false;
        self.last_stop_reason = None;
        self.hit_breakpoint_ids.clear();
    }

    /// Returns true if a specific thread is known to be stopped.
    pub fn is_thread_stopped(&self, thread_id: u64) -> (r: bool)
        ensures
            r == self.spec_is_thread_stopped(thread_id),
    {
        self.all_threads_stopped || self.stopped_threads.contains(&thread_id)
    }
}

impl Default for HaltState {
    fn default() -> (r: Self)
        ensures
            r.is_cleared(),
    {
        HaltState {
            stopped_threads: HashSet::new(),
            all_threads_stopped: false,
            last_stop_reason: None,
            hit_breakpoint_ids: Vec::new(),
        }
    }
}

} // verus!
