use teledap::client::AdapterKind;
use teledap::dap::capabilities::Capabilities;
use teledap::dap::types::Variable;
use teledap::session::{
    event_kind, stop_reason_text, DebugSession, RequestMode, SessionEvent, SessionEventKind,
    StopInfo,
};
use teledap::state::SessionState;

fn var(name: &str, var_ref: u64) -> Variable {
    Variable {
        name: name.to_string(),
        value: "1".to_string(),
        var_type: Some("int".to_string()),
        presentation_hint: None,
        evaluate_name: None,
        variables_reference: var_ref,
        named_variables: None,
        indexed_variables: None,
        memory_reference: None,
        declaration_location_reference: None,
        value_location_reference: None,
    }
}

fn stopped(thread: u64) -> SessionEvent {
    SessionEvent::Stopped(StopInfo {
        reason: "Breakpoint".to_string(),
        thread_id: Some(thread),
        all_threads_stopped: Some(true),
        hit_breakpoint_ids: Some(vec![4]),
    })
}

/// A session brought to the Running state through the normal handshake.
fn running_session(kind: AdapterKind) -> DebugSession {
    let mut s = DebugSession::new();
    s.after_start(kind).unwrap();
    s.after_initialize(Capabilities::default()).unwrap();
    s.after_configuration_done().unwrap();
    s
}

#[test]
fn test_new_session_is_disconnected() {
    let s = DebugSession::new();
    assert_eq!(s.current_state(), SessionState::Disconnected);
    assert!(s.adapter_kind().is_none());
    assert!(s.capabilities().is_none());
    assert!(s.halt_state().stopped_threads.is_empty());
}

#[test]
fn test_full_state_machine_cycle() {
    let mut s = DebugSession::new();
    s.after_start(AdapterKind::Codelldb).unwrap();
    assert_eq!(s.current_state(), SessionState::Connected);
    assert_eq!(s.adapter_kind(), Some(AdapterKind::Codelldb));
    s.after_initialize(Capabilities::default()).unwrap();
    assert_eq!(s.current_state(), SessionState::Initialized);
    assert!(s.capabilities().is_some());
    s.after_configuration_done().unwrap();
    assert_eq!(s.current_state(), SessionState::Running);
    assert_eq!(s.handle_event(&stopped(1)).unwrap().handled, true);
    assert_eq!(s.current_state(), SessionState::Halted);
    s.after_resume("continue").unwrap();
    assert_eq!(s.current_state(), SessionState::Running);
    s.after_shutdown().unwrap();
    assert_eq!(s.current_state(), SessionState::Disconnected);
}

#[test]
fn test_operation_gating_rejects_invalid_state() {
    let s = DebugSession::new();
    let err = s.gate("continue").unwrap_err();
    assert!(err.message().contains("continue"));
    assert!(matches!(s.gate("start"), Ok(SessionState::Disconnected)));
}

#[test]
fn test_illegal_transition_leaves_state() {
    let mut s = DebugSession::new();
    assert!(s.after_initialize(Capabilities::default()).is_err());
    assert_eq!(s.current_state(), SessionState::Disconnected);
    assert!(s.after_configuration_done().is_err());
    assert_eq!(s.current_state(), SessionState::Disconnected);
}

#[test]
fn test_shutdown_when_disconnected_is_noop() {
    let mut s = DebugSession::new();
    assert!(s.after_shutdown().is_ok());
    assert_eq!(s.current_state(), SessionState::Disconnected);
}

#[test]
fn test_deferred_request_mode_by_adapter() {
    let mut s = DebugSession::new();
    assert_eq!(s.deferred_request_mode(), RequestMode::FireAndForget);
    s.after_start(AdapterKind::Gdb).unwrap();
    assert_eq!(s.deferred_request_mode(), RequestMode::Blocking);
    let mut c = DebugSession::new();
    c.after_start(AdapterKind::Codelldb).unwrap();
    assert_eq!(c.deferred_request_mode(), RequestMode::FireAndForget);
}

#[test]
fn test_stopped_event_records_halt() {
    let mut s = running_session(AdapterKind::Codelldb);
    let out = s.handle_event(&stopped(7)).unwrap();
    assert!(out.handled);
    assert!(!out.shutdown_client);
    let h = s.halt_state();
    assert!(h.is_thread_stopped(7));
    assert!(h.all_threads_stopped);
    assert_eq!(h.last_stop_reason.as_deref(), Some("Breakpoint"));
    assert_eq!(h.hit_breakpoint_ids, vec![4]);
}

#[test]
fn test_resume_clears_halt_and_cache() {
    let mut s = running_session(AdapterKind::Codelldb);
    s.handle_event(&stopped(1)).unwrap();
    s.cache_variables(&[var("x", 5), var("y", 0)], Some(1), Some("Locals"), 0);
    assert_eq!(s.lookup_variable("x", Some(1), Some("Locals")).unwrap().variables_reference, 5);
    s.after_resume("step_over").unwrap();
    assert_eq!(s.current_state(), SessionState::Running);
    assert!(s.halt_state().stopped_threads.is_empty());
    assert!(!s.variable_cache().is_valid());
    assert!(s.lookup_variable("x", None, None).is_none());
}

#[test]
fn test_resume_rejected_when_not_halted() {
    let mut s = DebugSession::new();
    assert!(s.after_resume("continue").is_err());
    assert_eq!(s.current_state(), SessionState::Disconnected);
}

#[test]
fn test_initialized_event_is_idempotent() {
    let mut s = DebugSession::new();
    s.after_start(AdapterKind::Codelldb).unwrap();
    s.after_initialize(Capabilities::default()).unwrap();
    let out = s.handle_event(&SessionEvent::Initialized).unwrap();
    assert!(out.handled);
    assert_eq!(s.current_state(), SessionState::Initialized);
}

#[test]
fn test_initialized_event_from_connected() {
    let mut s = DebugSession::new();
    s.after_start(AdapterKind::Gdb).unwrap();
    s.handle_event(&SessionEvent::Initialized).unwrap();
    assert_eq!(s.current_state(), SessionState::Initialized);
}

#[test]
fn test_continued_event_while_running_keeps_state() {
    let mut s = running_session(AdapterKind::Codelldb);
    let out = s.handle_event(&SessionEvent::Continued).unwrap();
    assert!(out.handled);
    assert_eq!(s.current_state(), SessionState::Running);
}

#[test]
fn test_program_exit_handling() {
    let mut s = running_session(AdapterKind::Codelldb);
    let out = s.handle_event(&SessionEvent::Exited).unwrap();
    assert!(out.handled);
    assert!(out.shutdown_client);
    assert_eq!(s.current_state(), SessionState::Disconnected);
    let out = s.handle_event(&SessionEvent::Terminated).unwrap();
    assert!(out.shutdown_client);
    assert_eq!(s.current_state(), SessionState::Disconnected);
}

#[test]
fn test_thread_exit_event_forgets_stopped_thread() {
    let mut s = running_session(AdapterKind::Codelldb);
    s.handle_event(&stopped(3)).unwrap();
    assert!(s.halt_state().is_thread_stopped(3));
    let out = s
        .handle_event(&SessionEvent::Thread { reason: Some("exited".to_string()), thread_id: Some(3) })
        .unwrap();
    assert!(!out.handled);
    assert!(!s.halt_state().stopped_threads.contains(&3));
    // All threads were reported stopped, so the thread still counts as stopped.
    assert!(s.halt_state().is_thread_stopped(3));
    assert_eq!(s.current_state(), SessionState::Halted);
}

#[test]
fn test_other_events_pass_through() {
    let mut s = running_session(AdapterKind::Codelldb);
    let out = s.handle_event(&SessionEvent::Other).unwrap();
    assert!(!out.handled);
    assert!(!out.shutdown_client);
    assert_eq!(s.current_state(), SessionState::Running);
}

#[test]
fn test_event_kind_names() {
    assert_eq!(event_kind("initialized"), SessionEventKind::Initialized);
    assert_eq!(event_kind("stopped"), SessionEventKind::Stopped);
    assert_eq!(event_kind("continued"), SessionEventKind::Continued);
    assert_eq!(event_kind("terminated"), SessionEventKind::Terminated);
    assert_eq!(event_kind("exited"), SessionEventKind::Exited);
    assert_eq!(event_kind("thread"), SessionEventKind::Thread);
    assert_eq!(event_kind("output"), SessionEventKind::Other);
}

#[test]
fn test_path_delegation() {
    let mut s = DebugSession::new();
    s.register_path_alias("src", "/home/user/project/src");
    s.register_base_dir("/home/user/project");
    assert_eq!(
        s.resolve_path("src/main.cpp"),
        Some("/home/user/project/src/main.cpp".to_string())
    );
    assert_eq!(
        s.reverse_path("/home/user/project/src/main.cpp"),
        Some("src/main.cpp".to_string())
    );
    assert_eq!(s.path_mapper().alias_count(), 1);
}

#[test]
fn test_search_variables_through_session() {
    let mut s = running_session(AdapterKind::Codelldb);
    s.handle_event(&stopped(1)).unwrap();
    s.cache_variables(&[var("alpha", 1), var("beta", 2), var("alphabet", 3)], Some(1), None, 0);
    assert_eq!(s.search_variables("alpha", 20).len(), 2);
    assert_eq!(s.search_variables("ALPHA", 1).len(), 1);
}

#[test]
fn test_stop_reason_text_names_each_reason() {
    let known = [
        ("step", "Step"),
        ("breakpoint", "Breakpoint"),
        ("exception", "Exception"),
        ("pause", "Pause"),
        ("entry", "Entry"),
        ("goto", "Goto"),
        ("function breakpoint", "FunctionBreakpoint"),
        ("data breakpoint", "DataBreakpoint"),
        ("instruction breakpoint", "InstructionBreakpoint"),
    ];
    for (wire, text) in known {
        assert_eq!(stop_reason_text(wire), text);
    }
    assert_eq!(stop_reason_text("unknown"), "Other(\"unknown\")");
    assert_eq!(stop_reason_text("Step"), "Other(\"Step\")");
    assert_eq!(stop_reason_text("say \"hi\""), "Other(\"say \\\"hi\\\"\")");
}
