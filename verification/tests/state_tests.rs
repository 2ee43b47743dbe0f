use teledap::state::{HaltState, SessionState};

#[test]
fn test_legal_transitions() {
    assert!(SessionState::Disconnected.can_transition_to(SessionState::Connected));
    assert!(SessionState::Connected.can_transition_to(SessionState::Initialized));
    assert!(SessionState::Connected.can_transition_to(SessionState::Disconnected));
    assert!(SessionState::Initialized.can_transition_to(SessionState::Running));
    assert!(SessionState::Initialized.can_transition_to(SessionState::Disconnected));
    assert!(SessionState::Running.can_transition_to(SessionState::Halted));
    assert!(SessionState::Running.can_transition_to(SessionState::Disconnected));
    assert!(SessionState::Halted.can_transition_to(SessionState::Running));
    assert!(SessionState::Halted.can_transition_to(SessionState::Disconnected));
}

#[test]
fn test_illegal_transitions() {
    assert!(!SessionState::Disconnected.can_transition_to(SessionState::Initialized));
    assert!(!SessionState::Disconnected.can_transition_to(SessionState::Running));
    assert!(!SessionState::Disconnected.can_transition_to(SessionState::Halted));
    assert!(!SessionState::Disconnected.can_transition_to(SessionState::Disconnected));

    assert!(!SessionState::Connected.can_transition_to(SessionState::Running));
    assert!(!SessionState::Connected.can_transition_to(SessionState::Halted));
    assert!(!SessionState::Connected.can_transition_to(SessionState::Connected));

    assert!(!SessionState::Initialized.can_transition_to(SessionState::Connected));
    assert!(!SessionState::Initialized.can_transition_to(SessionState::Halted));
    assert!(!SessionState::Initialized.can_transition_to(SessionState::Initialized));

    assert!(!SessionState::Running.can_transition_to(SessionState::Connected));
    assert!(!SessionState::Running.can_transition_to(SessionState::Initialized));
    assert!(!SessionState::Running.can_transition_to(SessionState::Running));

    assert!(!SessionState::Halted.can_transition_to(SessionState::Connected));
    assert!(!SessionState::Halted.can_transition_to(SessionState::Initialized));
    assert!(!SessionState::Halted.can_transition_to(SessionState::Halted));
}

#[test]
fn test_valid_predecessors() {
    assert_eq!(
        SessionState::Disconnected.valid_predecessors(),
        &[
            SessionState::Connected,
            SessionState::Initialized,
            SessionState::Running,
            SessionState::Halted,
        ]
    );
    assert_eq!(
        SessionState::Connected.valid_predecessors(),
        &[SessionState::Disconnected]
    );
    assert_eq!(
        SessionState::Initialized.valid_predecessors(),
        &[SessionState::Connected]
    );
    assert_eq!(
        SessionState::Running.valid_predecessors(),
        &[SessionState::Initialized, SessionState::Halted]
    );
    assert_eq!(
        SessionState::Halted.valid_predecessors(),
        &[SessionState::Running]
    );
}

#[test]
fn test_halt_state_clear() {
    let mut hs = HaltState {
        stopped_threads: [1, 2].into_iter().collect(),
        all_threads_stopped: true,
        last_stop_reason: Some("breakpoint".to_string()),
        hit_breakpoint_ids: vec![1],
    };
    hs.clear();
    assert!(hs.stopped_threads.is_empty());
    assert!(!hs.all_threads_stopped);
    assert!(hs.last_stop_reason.is_none());
    assert!(hs.hit_breakpoint_ids.is_empty());
}

#[test]
fn test_is_thread_stopped() {
    let mut hs = HaltState::default();
    assert!(!hs.is_thread_stopped(1));

    hs.stopped_threads.insert(1);
    assert!(hs.is_thread_stopped(1));
    assert!(!hs.is_thread_stopped(2));

    hs.all_threads_stopped = true;
    assert!(hs.is_thread_stopped(2));
}

#[test]
fn test_display() {
    assert_eq!(SessionState::Disconnected.as_str(), "Disconnected");
    assert_eq!(SessionState::Connected.as_str(), "Connected");
    assert_eq!(SessionState::Initialized.as_str(), "Initialized");
    assert_eq!(SessionState::Running.as_str(), "Running");
    assert_eq!(SessionState::Halted.as_str(), "Halted");
}

#[test]
fn test_every_predecessor_can_transition() {
    let all = [
        SessionState::Disconnected,
        SessionState::Connected,
        SessionState::Initialized,
        SessionState::Running,
        SessionState::Halted,
    ];
    for t in all {
        for s in all {
            assert_eq!(s.can_transition_to(t), t.valid_predecessors().contains(&s));
        }
    }
}
