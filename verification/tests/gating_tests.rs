use teledap::gating::{all_operations, ToolAvailability};
use teledap::state::SessionState;

#[test]
fn test_all_operations_have_gating() {
    for op in all_operations() {
        let states = ToolAvailability::allowed_states(op);
        assert!(
            !states.is_empty(),
            "Operation `{op}` has no allowed states — add gating rules"
        );
    }
}

#[test]
fn test_describe_requirements_unknown_op() {
    let desc = ToolAvailability::describe_requirements("nonexistent");
    assert!(desc.contains("not a recognized operation"));
}

#[test]
fn test_describe_requirements_known_op() {
    let desc = ToolAvailability::describe_requirements("continue");
    assert!(desc.contains("continue"));
    assert!(desc.contains("Halted"));
}

#[test]
fn test_describe_requirements_exact_text() {
    assert_eq!(
        ToolAvailability::describe_requirements("get_threads"),
        "`get_threads` requires state(s): Running, Halted"
    );
    assert_eq!(
        ToolAvailability::describe_requirements("bogus"),
        "`bogus` is not a recognized operation"
    );
}

#[test]
fn test_disconnected_operations() {
    let ops = ToolAvailability::operations_for_state(SessionState::Disconnected);
    assert_eq!(ops, vec!["start"]);
}

#[test]
fn test_connected_operations() {
    let ops = ToolAvailability::operations_for_state(SessionState::Connected);
    assert!(ops.contains(&"initialize"));
    assert!(ops.contains(&"shutdown"));
    assert!(ops.contains(&"disconnect"));
    assert!(!ops.contains(&"continue"));
    assert!(!ops.contains(&"step_over"));
}

#[test]
fn test_initialized_operations() {
    let ops = ToolAvailability::operations_for_state(SessionState::Initialized);
    assert!(ops.contains(&"launch"));
    assert!(ops.contains(&"attach"));
    assert!(ops.contains(&"configuration_done"));
    assert!(ops.contains(&"set_breakpoints"));
    assert!(ops.contains(&"list_breakpoints"));
    assert!(ops.contains(&"shutdown"));
    assert!(!ops.contains(&"continue"));
    assert!(!ops.contains(&"pause"));
}

#[test]
fn test_running_operations() {
    let ops = ToolAvailability::operations_for_state(SessionState::Running);
    assert!(ops.contains(&"pause"));
    assert!(ops.contains(&"set_breakpoints"));
    assert!(ops.contains(&"list_breakpoints"));
    assert!(ops.contains(&"shutdown"));
    assert!(ops.contains(&"get_threads"));
    assert!(!ops.contains(&"get_stack_trace"));
    assert!(!ops.contains(&"evaluate"));
}

#[test]
fn test_halted_operations() {
    let ops = ToolAvailability::operations_for_state(SessionState::Halted);
    assert!(ops.contains(&"continue"));
    assert!(ops.contains(&"step_over"));
    assert!(ops.contains(&"step_in"));
    assert!(ops.contains(&"step_out"));
    assert!(ops.contains(&"get_threads"));
    assert!(ops.contains(&"get_stack_trace"));
    assert!(ops.contains(&"get_scopes"));
    assert!(ops.contains(&"get_variables"));
    assert!(ops.contains(&"evaluate"));
    assert!(ops.contains(&"set_variable"));
    assert!(ops.contains(&"assemble_context"));
    assert!(ops.contains(&"set_breakpoints"));
    assert!(ops.contains(&"list_breakpoints"));
    assert!(ops.contains(&"shutdown"));
    assert!(!ops.contains(&"pause"));
}

#[test]
fn test_is_allowed() {
    assert!(ToolAvailability::is_allowed("start", SessionState::Disconnected));
    assert!(!ToolAvailability::is_allowed("start", SessionState::Connected));
    assert!(ToolAvailability::is_allowed("continue", SessionState::Halted));
    assert!(!ToolAvailability::is_allowed("continue", SessionState::Running));
    assert!(ToolAvailability::is_allowed("pause", SessionState::Running));
    assert!(!ToolAvailability::is_allowed("pause", SessionState::Halted));
}

#[test]
fn test_operations_for_state_returns_no_duplicates() {
    for state in &[
        SessionState::Disconnected,
        SessionState::Connected,
        SessionState::Initialized,
        SessionState::Running,
        SessionState::Halted,
    ] {
        let ops = ToolAvailability::operations_for_state(*state);
        let mut sorted = ops.clone();
        sorted.sort();
        sorted.dedup();
        assert_eq!(ops.len(), sorted.len(), "duplicate operations for {}", state.as_str());
    }
}

#[test]
fn test_tool_availability_consistency() {
    for op in &[
        "start",
        "initialize",
        "launch",
        "attach",
        "configuration_done",
        "shutdown",
        "disconnect",
        "continue",
        "step_over",
        "step_in",
        "step_out",
        "pause",
        "set_breakpoints",
        "set_function_breakpoints",
        "get_threads",
        "get_stack_trace",
        "get_scopes",
        "get_variables",
        "evaluate",
        "set_variable",
        "assemble_context",
    ] {
        let states = ToolAvailability::allowed_states(op);
        assert!(!states.is_empty(), "Operation `{op}` has no allowed states");
    }

    assert!(ToolAvailability::is_allowed("start", SessionState::Disconnected));
    assert!(!ToolAvailability::is_allowed("start", SessionState::Connected));
    assert!(ToolAvailability::is_allowed("continue", SessionState::Halted));
    assert!(!ToolAvailability::is_allowed("continue", SessionState::Running));
    assert!(ToolAvailability::is_allowed("pause", SessionState::Running));
    assert!(!ToolAvailability::is_allowed("pause", SessionState::Halted));
}

#[test]
fn test_unknown_operation_has_no_states() {
    assert!(ToolAvailability::allowed_states("frobnicate").is_empty());
    assert!(!ToolAvailability::is_allowed("frobnicate", SessionState::Halted));
}
