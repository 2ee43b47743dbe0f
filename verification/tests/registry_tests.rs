use teledap::registry::{route, BridgeError, ToolRegistry, ToolRoute};
use teledap::state::SessionState;
use teledap::tools::{all_tools, tool_operation};

const ALL_STATES: [SessionState; 5] = [
    SessionState::Disconnected,
    SessionState::Connected,
    SessionState::Initialized,
    SessionState::Running,
    SessionState::Halted,
];

fn names_in(state: SessionState) -> Vec<String> {
    ToolRegistry::list_tools_for_state(state)
        .into_iter()
        .map(|t| t.name)
        .collect()
}

fn has(names: &[String], n: &str) -> bool {
    names.iter().any(|x| x == n)
}

#[test]
fn test_list_tools_for_state_disconnected() {
    let names = names_in(SessionState::Disconnected);
    assert!(has(&names, "start"));
    assert!(has(&names, "get_state"));
    assert!(has(&names, "register_path_alias"));
    assert!(has(&names, "register_base_dir"));
    assert!(has(&names, "search_variables"));
    assert!(!has(&names, "initialize"));
    assert!(!has(&names, "continue"));
    assert!(!has(&names, "get_threads"));
}

#[test]
fn test_list_tools_for_state_halted() {
    let names = names_in(SessionState::Halted);
    assert!(has(&names, "continue"));
    assert!(has(&names, "step_over"));
    assert!(has(&names, "step_in"));
    assert!(has(&names, "step_out"));
    assert!(has(&names, "get_threads"));
    assert!(has(&names, "get_stack_trace"));
    assert!(has(&names, "get_scopes"));
    assert!(has(&names, "get_variables"));
    assert!(has(&names, "evaluate"));
    assert!(has(&names, "set_variable"));
    assert!(has(&names, "assemble_context"));
    assert!(has(&names, "get_state"));
    assert!(!has(&names, "pause"));
    assert!(!has(&names, "start"));
}

#[test]
fn test_list_tools_for_state_running() {
    let names = names_in(SessionState::Running);
    assert!(has(&names, "pause"));
    assert!(has(&names, "set_breakpoints"));
    assert!(has(&names, "shutdown"));
    assert!(has(&names, "get_threads"));
    assert!(!has(&names, "evaluate"));
}

#[test]
fn test_list_tools_always_includes_utility() {
    for state in ALL_STATES.iter() {
        let names = names_in(*state);
        for utility in [
            "get_state",
            "register_path_alias",
            "register_base_dir",
            "search_variables",
            "openocd_start",
            "openocd_stop",
            "openocd_status",
            "openocd_output",
            "openocd_send",
        ] {
            assert!(
                has(&names, utility),
                "{} missing in state {}",
                utility,
                state.as_str()
            );
        }
    }
}

#[test]
fn test_list_tools_is_whole_catalogue() {
    let listed: Vec<String> = ToolRegistry::list_tools().into_iter().map(|t| t.name).collect();
    let all: Vec<String> = all_tools().into_iter().map(|t| t.name).collect();
    assert_eq!(listed, all);
}

#[test]
fn test_listed_tools_follow_catalogue_order() {
    let all: Vec<String> = all_tools().into_iter().map(|t| t.name).collect();
    for state in ALL_STATES.iter() {
        let listed = names_in(*state);
        let expected: Vec<String> = all
            .iter()
            .filter(|n| match tool_operation(n) {
                Some(op) => teledap::gating::ToolAvailability::is_allowed(op, *state),
                None => true,
            })
            .cloned()
            .collect();
        assert_eq!(listed, expected, "state {}", state.as_str());
    }
}

#[test]
fn test_dispatch_unknown_tool() {
    let plan = ToolRegistry::dispatch_plan("nonexistent_tool", SessionState::Disconnected);
    match plan {
        Err(BridgeError::UnknownTool(name)) => assert_eq!(name, "nonexistent_tool"),
        other => panic!("expected UnknownTool, got {:?}", other),
    }
    assert!(!ToolRegistry::passes_gating("continue", SessionState::Disconnected));
    assert!(ToolRegistry::passes_gating("nonexistent_tool", SessionState::Disconnected));
    assert!(matches!(route("nonexistent_tool"), ToolRoute::Unknown));
}

#[test]
fn test_state_gating_rejects_wrong_state() {
    let plan = ToolRegistry::dispatch_plan("continue", SessionState::Disconnected);
    match plan {
        Err(e) => {
            let msg = e.message();
            assert!(msg.contains("continue"), "Error should mention the operation: {msg}");
        }
        Ok(_) => panic!("Should reject 'continue' in Disconnected state"),
    }
}

#[test]
fn test_state_gating_all_halted_tools() {
    for name in [
        "continue",
        "step_over",
        "step_in",
        "step_out",
        "get_threads",
        "get_stack_trace",
        "get_scopes",
        "get_variables",
        "evaluate",
        "set_variable",
        "assemble_context",
        "set_breakpoints",
    ] {
        match ToolRegistry::dispatch_plan(name, SessionState::Disconnected) {
            Err(e) => {
                let err_msg = e.message();
                assert!(
                    err_msg.contains(name),
                    "Error for '{name}' should mention the tool name: {err_msg}"
                );
            }
            Ok(_) => panic!("Tool '{name}' should be rejected in Disconnected state"),
        }
    }
}

#[test]
fn test_state_gating_pause() {
    match ToolRegistry::dispatch_plan("pause", SessionState::Disconnected) {
        Err(e) => assert!(e.message().contains("pause")),
        Ok(_) => panic!("pause should be rejected in Disconnected state"),
    }
    assert!(matches!(
        ToolRegistry::dispatch_plan("pause", SessionState::Running),
        Ok(ToolRoute::Pause)
    ));
}

#[test]
fn test_dispatch_plan_allows_utility_tools_everywhere() {
    for state in ALL_STATES.iter() {
        assert!(matches!(
            ToolRegistry::dispatch_plan("get_state", *state),
            Ok(ToolRoute::GetState)
        ));
        assert!(matches!(
            ToolRegistry::dispatch_plan("openocd_send", *state),
            Ok(ToolRoute::OpenocdSend)
        ));
    }
}

#[test]
fn test_bridge_error_to_tool_result() {
    let err = BridgeError::UnknownTool("fake_tool".to_string());
    let result = err.to_tool_result();
    assert!(result.is_error, "is_error should be true");
    let text = &result.content[0].text;
    assert!(text.contains("fake_tool"), "Error text should mention the tool name: {text}");
    assert_eq!(text, "Unknown tool: fake_tool");
}

#[test]
fn test_bridge_error_messages() {
    let e = BridgeError::InvalidParams {
        tool: "launch".to_string(),
        message: "missing field `program`".to_string(),
    };
    assert_eq!(
        e.message(),
        "Invalid parameters for `launch`: missing field `program`"
    );
    assert_eq!(BridgeError::Internal("boom".to_string()).message(), "boom");
}

#[test]
fn test_continue_listed_only_when_halted_and_pause_only_when_running() {
    for s in ALL_STATES {
        let names: Vec<String> =
            ToolRegistry::list_tools_for_state(s).into_iter().map(|t| t.name).collect();
        assert_eq!(names.iter().any(|n| n == "continue"), s == SessionState::Halted);
        assert_eq!(names.iter().any(|n| n == "pause"), s == SessionState::Running);
    }
}
