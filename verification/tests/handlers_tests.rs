use teledap::client::AdapterKind;
use teledap::dap::enums::{
    DataBreakpointAccessType, EvaluateContext, ExceptionBreakMode, VariableFilter,
};
use teledap::dap::types::Thread;
use teledap::handlers::{
    adapter_kind_from_name,
    default_adapter_id,
    initialize_arguments,
    launch_plan,
    RemoteTarget,
    start_message,
    configuration_done_message,
    launch_message,
    path_alias_message,
    base_dir_message,
    BpItem,
    SetBreakpointsParams,
    FnBpItem,
    SetFunctionBreakpointsParams,
    DataBpItem,
    SetDataBreakpointsParams,
    ExceptionBpItem,
    SetExceptionBreakpointsParams,
    parse_break_mode,
    parse_variable_filter,
    parse_evaluate_context,
    evaluate_arguments,
    AssembleContextParams,
    state_report,
    require_openocd,
    openocd_started_message,
    DEFAULT_OUTPUT_LINES,
    DEFAULT_SEND_TIMEOUT_MS,
    DEFAULT_SEARCH_LIMIT,
    CONTEXT_CHILD_COUNT,
};
use teledap::registry::BridgeError;
use teledap::state::SessionState;

fn data_item(access: Option<&str>) -> DataBpItem {
    DataBpItem {
        data_id: "x".to_string(),
        access_type: access.map(|s| s.to_string()),
        condition: None,
        hit_condition: None,
    }
}

fn exc(filter: &str, enabled: bool, condition: Option<&str>, mode: Option<&str>) -> ExceptionBpItem {
    ExceptionBpItem {
        filter: filter.to_string(),
        enabled,
        condition: condition.map(|s| s.to_string()),
        mode: mode.map(|s| s.to_string()),
    }
}

#[test]
fn test_data_bp_access_type_parsing() {
    assert!(matches!(
        data_item(Some("read")).parse_access_type(),
        Some(DataBreakpointAccessType::Read)
    ));
    assert!(matches!(
        data_item(Some("write")).parse_access_type(),
        Some(DataBreakpointAccessType::Write)
    ));
    assert!(matches!(
        data_item(Some("readWrite")).parse_access_type(),
        Some(DataBreakpointAccessType::ReadWrite)
    ));
    assert_eq!(data_item(None).parse_access_type(), None);
    assert_eq!(data_item(Some("invalid")).parse_access_type(), None);
}

#[test]
fn test_access_type_alternate_spellings() {
    assert_eq!(
        data_item(Some("readwrite")).parse_access_type(),
        Some(DataBreakpointAccessType::ReadWrite)
    );
    assert_eq!(
        data_item(Some("read_write")).parse_access_type(),
        Some(DataBreakpointAccessType::ReadWrite)
    );
}

#[test]
fn test_set_data_breakpoints_arguments() {
    let params = SetDataBreakpointsParams {
        breakpoints: vec![
            DataBpItem {
                data_id: "x".to_string(),
                access_type: Some("readWrite".to_string()),
                condition: None,
                hit_condition: None,
            },
            DataBpItem {
                data_id: "y".to_string(),
                access_type: None,
                condition: Some("y > 0".to_string()),
                hit_condition: None,
            },
        ],
    };
    let args = params.to_arguments();
    assert_eq!(args.breakpoints.len(), 2);
    assert_eq!(args.breakpoints[0].data_id, "x");
    assert_eq!(args.breakpoints[0].access_type, Some(DataBreakpointAccessType::ReadWrite));
    assert_eq!(args.breakpoints[1].access_type, None);
    assert_eq!(args.breakpoints[1].condition.as_deref(), Some("y > 0"));
}

#[test]
fn test_adapter_kind_from_name() {
    assert_eq!(adapter_kind_from_name(Some("gdb")), AdapterKind::Gdb);
    assert_eq!(adapter_kind_from_name(Some("codelldb")), AdapterKind::Codelldb);
    assert_eq!(adapter_kind_from_name(Some("lldb")), AdapterKind::Codelldb);
    assert_eq!(adapter_kind_from_name(None), AdapterKind::Codelldb);
}

#[test]
fn test_default_adapter_id() {
    assert_eq!(default_adapter_id(Some(AdapterKind::Gdb)), "gdb");
    assert_eq!(default_adapter_id(Some(AdapterKind::Codelldb)), "lldb");
    assert_eq!(default_adapter_id(None), "lldb");
}

#[test]
fn test_initialize_arguments_defaults() {
    let args = initialize_arguments(None, Some(AdapterKind::Gdb));
    assert_eq!(args.client_id.as_deref(), Some("teledap"));
    assert_eq!(args.client_name.as_deref(), Some("TeleDAP"));
    assert_eq!(args.adapter_id.as_deref(), Some("gdb"));
    assert_eq!(args.locale.as_deref(), Some("en-US"));
    assert_eq!(args.lines_start_at1, Some(true));
    assert_eq!(args.columns_start_at1, Some(true));
    assert_eq!(args.path_format.as_deref(), Some("path"));
    assert_eq!(args.supports_variable_type, Some(true));
    assert_eq!(args.supports_variable_paging, Some(false));
    assert_eq!(args.supports_run_in_terminal_request, Some(false));
    assert_eq!(args.supports_memory_references, Some(true));
    assert_eq!(args.supports_progress_reporting, Some(true));
    assert_eq!(args.supports_invalidated_event, Some(true));
    assert_eq!(args.supports_memory_event, Some(true));
    assert_eq!(args.supports_start_debugging_request, None);
}

#[test]
fn test_initialize_arguments_explicit_adapter_id() {
    let args = initialize_arguments(Some("custom".to_string()), Some(AdapterKind::Gdb));
    assert_eq!(args.adapter_id.as_deref(), Some("custom"));
}

#[test]
fn test_launch_plan_remote_gdb() {
    let plan = launch_plan(
        "/bin/app".to_string(),
        None,
        Some("localhost:3333"),
        Some(AdapterKind::Gdb),
        Some(vec!["--verbose".to_string()]),
        None,
    );
    assert_eq!(plan.program, "/bin/app");
    assert!(!plan.stop_on_entry);
    match plan.remote {
        Some(RemoteTarget::Target(t)) => assert_eq!(t, "remote localhost:3333"),
        _ => panic!("expected a GDB target"),
    }
    assert_eq!(plan.args, Some(vec!["--verbose".to_string()]));
}

#[test]
fn test_launch_plan_remote_codelldb() {
    let plan = launch_plan("/bin/app".to_string(), Some(true), Some("host:1234"), None, None, None);
    assert!(plan.stop_on_entry);
    match plan.remote {
        Some(RemoteTarget::ProcessCreateCommands(c)) => {
            assert_eq!(c, vec!["gdb-remote host:1234".to_string()])
        }
        _ => panic!("expected processCreateCommands"),
    }
}

#[test]
fn test_launch_plan_local() {
    let plan = launch_plan("a.out".to_string(), Some(false), None, Some(AdapterKind::Gdb), None, None);
    assert!(plan.remote.is_none());
    assert!(plan.args.is_none());
    assert!(plan.env.is_none());
}

#[test]
fn test_handler_messages() {
    assert_eq!(
        start_message(AdapterKind::Gdb, SessionState::Connected),
        "Debug adapter process started (kind: Gdb). State: Connected"
    );
    assert_eq!(
        configuration_done_message(SessionState::Running),
        "Configuration done. State: Running"
    );
    assert_eq!(
        launch_message("/bin/app"),
        "Launch command sent for: /bin/app. Waiting for initialized event."
    );
    assert_eq!(
        path_alias_message("src", "/tmp/src"),
        "Path alias registered: \"src\" → \"/tmp/src\""
    );
    assert_eq!(base_dir_message("/tmp"), "Base directory registered: \"/tmp\"");
}

#[test]
fn test_set_breakpoints_arguments() {
    let params = SetBreakpointsParams {
        source_path: "src/main.cpp".to_string(),
        breakpoints: vec![
            BpItem {
                line: 10,
                column: None,
                condition: Some("x > 0".to_string()),
                hit_condition: None,
                log_message: None,
                mode: None,
            },
            BpItem {
                line: 20,
                column: Some(5),
                condition: None,
                hit_condition: Some(">3".to_string()),
                log_message: Some("here".to_string()),
                mode: Some("hardware".to_string()),
            },
        ],
    };
    let args = params.to_arguments("/home/user/src/main.cpp");
    assert_eq!(args.source.path.as_deref(), Some("/home/user/src/main.cpp"));
    assert_eq!(args.source.name.as_deref(), Some("/home/user/src/main.cpp"));
    let bps = args.breakpoints.unwrap();
    assert_eq!(bps.len(), 2);
    assert_eq!(bps[0].line, 10);
    assert_eq!(bps[0].condition.as_deref(), Some("x > 0"));
    assert_eq!(bps[1].column, Some(5));
    assert_eq!(bps[1].hit_condition.as_deref(), Some(">3"));
    assert_eq!(bps[1].log_message.as_deref(), Some("here"));
    assert_eq!(bps[1].mode.as_deref(), Some("hardware"));
    assert!(args.lines.is_none());
}

#[test]
fn test_function_breakpoints_new_format() {
    let params = SetFunctionBreakpointsParams {
        breakpoints: Some(vec![
            FnBpItem {
                name: "foo".to_string(),
                condition: Some("x > 0".to_string()),
                hit_condition: None,
                mode: None,
            },
            FnBpItem {
                name: "bar".to_string(),
                condition: None,
                hit_condition: Some(">5".to_string()),
                mode: None,
            },
        ]),
        names: Some(vec!["ignored".to_string()]),
        condition: None,
        hit_condition: None,
    };
    let args = params.to_arguments().unwrap();
    assert_eq!(args.breakpoints.len(), 2);
    assert_eq!(args.breakpoints[0].name, "foo");
    assert_eq!(args.breakpoints[0].condition.as_deref(), Some("x > 0"));
    assert_eq!(args.breakpoints[1].hit_condition.as_deref(), Some(">5"));
}

#[test]
fn test_function_breakpoints_legacy_format() {
    let params = SetFunctionBreakpointsParams {
        breakpoints: None,
        names: Some(vec!["main".to_string(), "foo".to_string()]),
        condition: Some("x > 0".to_string()),
        hit_condition: None,
    };
    let args = params.to_arguments().unwrap();
    assert_eq!(args.breakpoints.len(), 2);
    assert_eq!(args.breakpoints[1].name, "foo");
    assert_eq!(args.breakpoints[0].condition.as_deref(), Some("x > 0"));
    assert_eq!(args.breakpoints[1].condition.as_deref(), Some("x > 0"));
}

#[test]
fn test_function_breakpoints_missing_both_formats() {
    let params = SetFunctionBreakpointsParams {
        breakpoints: None,
        names: None,
        condition: None,
        hit_condition: None,
    };
    match params.to_arguments() {
        Err(BridgeError::InvalidParams { tool, message }) => {
            assert_eq!(tool, "set_function_breakpoints");
            assert_eq!(
                message,
                "Either 'breakpoints' (new per-function format) or 'names' (legacy format) is required"
            );
        }
        _ => panic!("expected invalid parameters"),
    }
}

#[test]
fn test_exception_breakpoints_minimal() {
    let params = SetExceptionBreakpointsParams {
        breakpoints: vec![exc("cpp_throw", true, None, None)],
        break_mode: None,
        exception_path_names: None,
        exception_path_negate: None,
    };
    let args = params.to_arguments();
    assert_eq!(args.filters, vec!["cpp_throw".to_string()]);
    assert!(args.filter_options.is_none());
    assert!(args.exception_options.is_none());
}

#[test]
fn test_exception_breakpoints_full() {
    let params = SetExceptionBreakpointsParams {
        breakpoints: vec![
            exc("cpp_throw", true, Some("msg contains 'fatal'"), None),
            exc("unhandled", false, None, Some("hardware")),
            exc("cpp_catch", true, None, None),
        ],
        break_mode: Some("userUnhandled".to_string()),
        exception_path_names: Some(vec!["std".to_string(), "boost".to_string()]),
        exception_path_negate: Some(false),
    };
    let args = params.to_arguments();
    assert_eq!(args.filters, vec!["cpp_throw".to_string(), "cpp_catch".to_string()]);
    let opts = args.filter_options.unwrap();
    assert_eq!(opts.len(), 2);
    assert_eq!(opts[0].filter_id, "cpp_throw");
    assert_eq!(opts[0].condition.as_deref(), Some("msg contains 'fatal'"));
    assert_eq!(opts[1].filter_id, "unhandled");
    assert_eq!(opts[1].mode.as_deref(), Some("hardware"));
    let ex = args.exception_options.unwrap();
    assert_eq!(ex.len(), 1);
    assert_eq!(ex[0].break_mode, ExceptionBreakMode::UserUnhandled);
    let path = ex[0].path.as_ref().unwrap();
    assert_eq!(path.len(), 1);
    assert_eq!(path[0].negate, Some(false));
    assert_eq!(path[0].names, vec!["std".to_string(), "boost".to_string()]);
}

#[test]
fn test_break_mode_names() {
    assert_eq!(parse_break_mode("never"), ExceptionBreakMode::Never);
    assert_eq!(parse_break_mode("always"), ExceptionBreakMode::Always);
    assert_eq!(parse_break_mode("unhandled"), ExceptionBreakMode::Unhandled);
    assert_eq!(parse_break_mode("userUnhandled"), ExceptionBreakMode::UserUnhandled);
    assert_eq!(parse_break_mode("user_unhandled"), ExceptionBreakMode::UserUnhandled);
    assert_eq!(parse_break_mode("sometimes"), ExceptionBreakMode::Unhandled);
}

#[test]
fn test_exception_break_mode_without_path() {
    let params = SetExceptionBreakpointsParams {
        breakpoints: vec![],
        break_mode: Some("always".to_string()),
        exception_path_names: None,
        exception_path_negate: Some(true),
    };
    let args = params.to_arguments();
    assert!(args.filters.is_empty());
    let ex = args.exception_options.unwrap();
    assert_eq!(ex[0].break_mode, ExceptionBreakMode::Always);
    assert!(ex[0].path.is_none());
}

#[test]
fn test_variable_filter_and_context_names() {
    assert_eq!(parse_variable_filter(Some("named")), Some(VariableFilter::Named));
    assert_eq!(parse_variable_filter(Some("indexed")), Some(VariableFilter::Indexed));
    assert_eq!(parse_variable_filter(Some("all")), None);
    assert_eq!(parse_variable_filter(None), None);
    assert_eq!(parse_evaluate_context(Some("watch")), Some(EvaluateContext::Watch));
    assert_eq!(parse_evaluate_context(Some("repl")), Some(EvaluateContext::Repl));
    assert_eq!(parse_evaluate_context(Some("hover")), Some(EvaluateContext::Hover));
    assert_eq!(parse_evaluate_context(Some("clipboard")), Some(EvaluateContext::Clipboard));
    assert_eq!(parse_evaluate_context(Some("variables")), None);
}

#[test]
fn test_evaluate_arguments() {
    let args = evaluate_arguments("x + y".to_string(), Some(0), Some("repl"));
    assert_eq!(args.expression, "x + y");
    assert_eq!(args.frame_id, Some(0));
    assert_eq!(args.context, Some(EvaluateContext::Repl));
    assert!(args.line.is_none() && args.column.is_none() && args.source.is_none());
}

#[test]
fn test_assemble_context_params_defaults() {
    let p = AssembleContextParams { thread_id: None, max_frames: None, max_depth: None };
    assert_eq!(p.frames(), 10);
    assert_eq!(p.depth(), 2);
    assert!(p.expands_children(5));
    assert!(!p.expands_children(0));
}

#[test]
fn test_assemble_context_params_full() {
    let p = AssembleContextParams { thread_id: Some(1), max_frames: Some(5), max_depth: Some(1) };
    assert_eq!(p.frames(), 5);
    assert_eq!(p.depth(), 1);
    assert!(!p.expands_children(5));
    let threads = vec![
        Thread { id: 1, name: "main".to_string() },
        Thread { id: 2, name: "worker".to_string() },
    ];
    let picked = p.select_threads(threads);
    assert_eq!(picked.len(), 1);
    assert_eq!(picked[0].name, "main");
}

#[test]
fn test_select_all_threads() {
    let p = AssembleContextParams { thread_id: None, max_frames: None, max_depth: None };
    let threads = vec![
        Thread { id: 1, name: "main".to_string() },
        Thread { id: 2, name: "worker".to_string() },
    ];
    assert_eq!(p.select_threads(threads).len(), 2);
    let none = AssembleContextParams { thread_id: Some(9), max_frames: None, max_depth: None };
    assert!(none
        .select_threads(vec![Thread { id: 1, name: "main".to_string() }])
        .is_empty());
}

#[test]
fn test_state_report() {
    let report = state_report(SessionState::Disconnected, Some("simple"));
    assert_eq!(report.state, SessionState::Disconnected);
    assert!(!report.include_capabilities);
    assert!(report.available_operations.contains(&"start"));
    assert!(report.available_tools.iter().any(|t| t == "start"));
    assert!(report.available_tools.iter().any(|t| t == "get_state"));
    assert!(!report.available_tools.iter().any(|t| t == "continue"));
    let full = state_report(SessionState::Halted, None);
    assert!(full.include_capabilities);
    assert!(full.available_tools.iter().any(|t| t == "evaluate"));
}

#[test]
fn test_require_openocd() {
    match require_openocd(true, true) {
        Err(BridgeError::Internal(m)) => assert_eq!(m, "OpenOCD is busy, try again later."),
        _ => panic!("expected busy"),
    }
    match require_openocd(false, false) {
        Err(BridgeError::Internal(m)) => {
            assert_eq!(m, "OpenOCD is not running. Call openocd_start first.")
        }
        _ => panic!("expected not running"),
    }
    assert!(require_openocd(false, true).is_ok());
}

#[test]
fn test_openocd_started_message() {
    let files = vec!["board.cfg".to_string(), "target.cfg".to_string()];
    assert_eq!(
        openocd_started_message(&files, None),
        "OpenOCD started with config(s): board.cfg, target.cfg."
    );
    assert_eq!(
        openocd_started_message(&files[..1].to_vec(), Some("/tmp/logs")),
        "OpenOCD started with config(s): board.cfg. Output logged to /tmp/logs"
    );
}

#[test]
fn test_handler_defaults() {
    assert_eq!(DEFAULT_OUTPUT_LINES, 100);
    assert_eq!(DEFAULT_SEND_TIMEOUT_MS, 5000);
    assert_eq!(DEFAULT_SEARCH_LIMIT, 20);
    assert_eq!(CONTEXT_CHILD_COUNT, 50);
}

#[test]
fn test_scope_fetched_only_with_a_reference() {
    let p = AssembleContextParams { thread_id: None, max_frames: None, max_depth: Some(1) };
    assert!(!p.fetches_scope(0));
    assert!(p.fetches_scope(1000));
}
