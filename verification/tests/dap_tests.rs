use teledap::context::{ContextChain, FrameContext, ScopeContext, ThreadContext};
use teledap::dap::base::{Event, ProtocolMessage, Request, Response};
use teledap::dap::requests::{
    DapRequest,
    LaunchRequestArguments,
    AttachRequest,
    BreakpointLocationsRequest,
    CompletionsRequest,
    ConfigurationDoneRequest,
    ContinueRequest,
    DataBreakpointInfoRequest,
    DisassembleRequest,
    DisconnectRequest,
    EvaluateRequest,
    ExceptionInfoRequest,
    GotoRequest,
    GotoTargetsRequest,
    InitializeRequest,
    LaunchRequest,
    LoadedSourcesRequest,
    LocationsRequest,
    ModulesRequest,
    NextRequest,
    PauseRequest,
    ReadMemoryRequest,
    RestartFrameRequest,
    RestartRequest,
    ReverseContinueRequest,
    ScopesRequest,
    SetBreakpointsRequest,
    SetDataBreakpointsRequest,
    SetExceptionBreakpointsRequest,
    SetExpressionRequest,
    SetFunctionBreakpointsRequest,
    SetInstructionBreakpointsRequest,
    SetVariableRequest,
    SourceRequest,
    StackTraceRequest,
    StepBackRequest,
    StepInRequest,
    StepInTargetsRequest,
    StepOutRequest,
    TerminateRequest,
    TerminateThreadsRequest,
    ThreadsRequest,
    VariablesRequest,
    WriteMemoryRequest,
};
use teledap::dap::types::{Scope, StackFrame, Thread, Variable};
use teledap::variables::ExpandedVariable;

fn make_thread(id: u64, name: &str) -> Thread {
    Thread {
        id,
        name: name.to_string(),
    }
}

fn make_frame(id: u64, name: &str, line: u64) -> StackFrame {
    StackFrame {
        id,
        name: name.to_string(),
        source: None,
        line,
        column: 0,
        end_line: None,
        end_column: None,
        can_restart: None,
        instruction_pointer_reference: None,
        module_id: None,
        presentation_hint: None,
    }
}

fn make_scope(name: &str, var_ref: u64) -> Scope {
    Scope {
        name: name.to_string(),
        presentation_hint: None,
        variables_reference: var_ref,
        named_variables: None,
        indexed_variables: None,
        expensive: false,
        source: None,
        line: None,
        column: None,
        end_line: None,
        end_column: None,
    }
}

fn make_var(name: &str) -> Variable {
    Variable {
        name: name.to_string(),
        value: "42".to_string(),
        var_type: Some("int".to_string()),
        presentation_hint: None,
        evaluate_name: None,
        variables_reference: 0,
        named_variables: None,
        indexed_variables: None,
        memory_reference: None,
        declaration_location_reference: None,
        value_location_reference: None,
    }
}

#[test]
fn test_context_chain_empty() {
    let chain = ContextChain::new();
    assert!(!chain.stale);
    assert_eq!(chain.total_frames(), 0);
    assert_eq!(chain.total_variables(), 0);
}

#[test]
fn test_thread_context() {
    let thread = make_thread(1, "main");
    let tc = ThreadContext::new(thread);
    assert_eq!(tc.thread.id, 1);
    assert_eq!(tc.thread.name, "main");
    assert!(tc.frames.is_empty());
}

#[test]
fn test_frame_context() {
    let frame = make_frame(100, "main", 42);
    let fc = FrameContext::new(frame);
    assert_eq!(fc.frame.id, 100);
    assert_eq!(fc.frame.name, "main");
    assert!(fc.scopes.is_empty());
}

#[test]
fn test_scope_context() {
    let scope = make_scope("Locals", 1);
    let sc = ScopeContext::new(scope);
    assert_eq!(sc.scope.name, "Locals");
    assert_eq!(sc.scope.variables_reference, 1);
    assert!(sc.variables.is_empty());
}

#[test]
fn test_context_chain_counts() {
    let mut chain = ContextChain::new();

    let mut tc = ThreadContext::new(make_thread(1, "main"));
    let mut fc = FrameContext::new(make_frame(100, "main", 10));
    let mut sc = ScopeContext::new(make_scope("Locals", 1));
    sc.variables.push(ExpandedVariable::new(make_var("x"), 0));

    fc.scopes.push(sc);
    tc.frames.push(fc);
    chain.threads.push(tc);

    assert_eq!(chain.total_frames(), 1);
    assert_eq!(chain.total_variables(), 1);
}

#[test]
fn test_context_chain_counts_many_threads() {
    let mut chain = ContextChain::new();
    for t in 0..3u64 {
        let mut tc = ThreadContext::new(make_thread(t, "worker"));
        for f in 0..2u64 {
            let mut fc = FrameContext::new(make_frame(t * 10 + f, "fn", 1));
            let mut locals = ScopeContext::new(make_scope("Locals", 1));
            locals.variables.push(ExpandedVariable::new(make_var("a"), 0));
            locals.variables.push(ExpandedVariable::new(make_var("b"), 0));
            fc.scopes.push(locals);
            fc.scopes.push(ScopeContext::new(make_scope("Registers", 2)));
            tc.frames.push(fc);
        }
        chain.threads.push(tc);
    }
    assert_eq!(chain.total_frames(), 6);
    assert_eq!(chain.total_variables(), 12);
}

#[test]
fn test_response_success_helpers() {
    let resp = Response::success(2, 1, "continue");
    assert!(resp.success);
    assert_eq!(resp.request_seq, 1);
    assert_eq!(resp.command, "continue");
    assert!(resp.message.is_none());
}

#[test]
fn test_response_error_helpers() {
    let resp = Response::error(2, 1, "evaluate", "notStopped");
    assert!(!resp.success);
    assert_eq!(resp.message.as_deref(), Some("notStopped"));
}

#[test]
fn test_protocol_message_accessors() {
    let req = ProtocolMessage::Request(Request::new(7, "threads"));
    assert!(req.is_request());
    assert!(!req.is_response());
    assert_eq!(req.seq(), 7);
    assert_eq!(req.command(), Some("threads"));

    let resp = ProtocolMessage::Response(Response::success(8, 7, "threads"));
    assert!(resp.is_response());
    assert_eq!(resp.command(), Some("threads"));

    let ev = ProtocolMessage::Event(Event::new(9, "stopped"));
    assert!(ev.is_event());
    assert_eq!(ev.seq(), 9);
    assert_eq!(ev.command(), None);
}

#[test]
fn test_all_42_commands_non_empty() {
    let commands: &[(&str, &str)] = &[
        ("initialize", InitializeRequest::command()),
        ("launch", LaunchRequest::command()),
        ("attach", AttachRequest::command()),
        ("restart", RestartRequest::command()),
        ("disconnect", DisconnectRequest::command()),
        ("terminate", TerminateRequest::command()),
        ("configurationDone", ConfigurationDoneRequest::command()),
        ("setBreakpoints", SetBreakpointsRequest::command()),
        ("setFunctionBreakpoints", SetFunctionBreakpointsRequest::command()),
        ("setExceptionBreakpoints", SetExceptionBreakpointsRequest::command()),
        ("setDataBreakpoints", SetDataBreakpointsRequest::command()),
        ("setInstructionBreakpoints", SetInstructionBreakpointsRequest::command()),
        ("breakpointLocations", BreakpointLocationsRequest::command()),
        ("dataBreakpointInfo", DataBreakpointInfoRequest::command()),
        ("continue", ContinueRequest::command()),
        ("next", NextRequest::command()),
        ("stepIn", StepInRequest::command()),
        ("stepOut", StepOutRequest::command()),
        ("stepBack", StepBackRequest::command()),
        ("reverseContinue", ReverseContinueRequest::command()),
        ("restartFrame", RestartFrameRequest::command()),
        ("goto", GotoRequest::command()),
        ("pause", PauseRequest::command()),
        ("stackTrace", StackTraceRequest::command()),
        ("scopes", ScopesRequest::command()),
        ("variables", VariablesRequest::command()),
        ("setVariable", SetVariableRequest::command()),
        ("source", SourceRequest::command()),
        ("threads", ThreadsRequest::command()),
        ("terminateThreads", TerminateThreadsRequest::command()),
        ("modules", ModulesRequest::command()),
        ("loadedSources", LoadedSourcesRequest::command()),
        ("evaluate", EvaluateRequest::command()),
        ("setExpression", SetExpressionRequest::command()),
        ("stepInTargets", StepInTargetsRequest::command()),
        ("gotoTargets", GotoTargetsRequest::command()),
        ("completions", CompletionsRequest::command()),
        ("exceptionInfo", ExceptionInfoRequest::command()),
        ("readMemory", ReadMemoryRequest::command()),
        ("writeMemory", WriteMemoryRequest::command()),
        ("disassemble", DisassembleRequest::command()),
        ("locations", LocationsRequest::command()),
    ];

    assert_eq!(
        commands.len(),
        42,
        "Should have exactly 42 request types, found {}",
        commands.len()
    );

    for (name, cmd) in commands {
        assert!(!cmd.is_empty(), "{name}::COMMAND should not be empty");
        assert_eq!(name, cmd, "{name} request sends the wrong command");
    }
}

#[test]
fn test_launch_with_program() {
    let args = LaunchRequestArguments::with_program("/bin/app");
    assert!(args.no_debug.is_none());
    assert_eq!(args.extra["program"], "/bin/app");
}
