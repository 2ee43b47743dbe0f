//! Tool registry: state-aware listing of the MCP tools and the routing
//! decision for a tool call.

use crate::error::{json_error_text, DebugSessionError};
use crate::gating::{spec_allowed_states, spec_describe_requirements, spec_is_allowed, ToolAvailability};
use crate::mcp::{CallToolResult, Tool};
use crate::state::SessionState;
use crate::text::str_eq;
use crate::tools::{
    all_tools, spec_all_tools, spec_tool_is, spec_tool_operation, spec_tools_prefix,
    tool_operation, ToolSpec,
};
use vstd::prelude::*;
use vstd::string::*;

verus! {

// ── Errors ───────────────────────────────────────────────────────────────

/// Errors that can occur during tool dispatch or execution.
#[derive(Debug)]
pub enum BridgeError {
    UnknownTool(String),
    Session(DebugSessionError),
    InvalidParams { tool: String, message: String },
    Json(serde_json::Error),
    Internal(String),
}

impl BridgeError {
    /// Whether `text` is the message this error is reported by: the payload
    /// after a prefix naming the kind of error (the payload alone for an
    /// internal error); for session and JSON errors only the prefix is fixed.
    pub open spec fn is_message(&self, text: Seq<char>) -> bool {
        match self {
            BridgeError::UnknownTool(s) => text == "Unknown tool: "@ + s@,
            BridgeError::Session(_) => text.len() >= "Session error: "@.len() && text.subrange(
                0,
                "Session error: "@.len() as int,
            ) == "Session error: "@,
            BridgeError::InvalidParams { tool, message } => text == "Invalid parameters for `"@
                + tool@ + "`: "@ + message@,
            BridgeError::Json(_) => text.len() >= "JSON error: "@.len() && text.subrange(
                0,
                "JSON error: "@.len() as int,
            ) == "JSON error: "@,
            BridgeError::Internal(s) => text == s@,
        }
    }

    /// The message this error is reported by.
    pub fn message(&self) -> (r: String)
        ensures
            self.is_message(r@),
    {
        match self {
            BridgeError::UnknownTool(s) => {
                let mut r = String::from_str("Unknown tool: ");
                r.append(s.as_str());
                r
            },
            BridgeError::Session(e) => {
                let m = e.message();
                let mut r = String::from_str("Session error: ");
                r.append(m.as_str());
                assert(r@.subrange(0, "Session error: "@.len() as int) =~= "Session error: "@);
                r
            },
            BridgeError::InvalidParams { tool, message } => {
                let mut r = String::from_str("Invalid parameters for `");
                r.append(tool.as_str());
                r.append("`: ");
                r.append(message.as_str());
                r
            },
            BridgeError::Json(e) => {
                let t = json_error_text(e);
                let mut r = String::from_str("JSON error: ");
                r.append(t.as_str());
                assert(r@.subrange(0, "JSON error: "@.len() as int) =~= "JSON error: "@);
                r
            },
            BridgeError::Internal(s) => s.clone(),
        }
    }

    /// Convert this error into an MCP tool result with `is_error: true`
    /// (tool errors are successful JSON-RPC responses, not JSON-RPC errors).
    pub fn to_tool_result(&self) -> (r: CallToolResult)
        ensures
            r.content@.len() == 1,
            r.is_error,
            r.content@[0].content_type@ == "text"@,
            self.is_message(r.content@[0].text@),
    {
        CallToolResult::error(self.message())
    }
}

impl From<DebugSessionError> for BridgeError {
    fn from(e: DebugSessionError) -> (r: Self) {
        BridgeError::Session(e)
    }
}

impl vstd::std_specs::convert::FromSpecImpl<DebugSessionError> for BridgeError {
    open spec fn obeys_from_spec() -> bool {
        true
    }

    open spec fn from_spec(e: DebugSessionError) -> Self {
        BridgeError::Session(e)
    }
}

impl From<serde_json::Error> for BridgeError {
    fn from(e: serde_json::Error) -> (r: Self) {
        BridgeError::Json(e)
    }
}

impl vstd::std_specs::convert::FromSpecImpl<serde_json::Error> for BridgeError {
    open spec fn obeys_from_spec() -> bool {
        true
    }

    open spec fn from_spec(e: serde_json::Error) -> Self {
        BridgeError::Json(e)
    }
}

// ── Routing ──────────────────────────────────────────────────────────────

/// The handler a tool call is routed to.
#[derive(Debug, Clone, Copy, PartialEq, Eq, Structural)]
pub enum ToolRoute {
    /// `start`
    Start,
    /// `initialize`
    Initialize,
    /// `launch`
    Launch,
    /// `attach`
    Attach,
    /// `configuration_done`
    ConfigurationDone,
    /// `shutdown`
    Shutdown,
    /// `continue`
    Continue,
    /// `step_over`
    StepOver,
    /// `step_in`
    StepIn,
    /// `step_out`
    StepOut,
    /// `pause`
    Pause,
    /// `set_breakpoints`
    SetBreakpoints,
    /// `set_function_breakpoints`
    SetFunctionBreakpoints,
    /// `get_threads`
    GetThreads,
    /// `get_stack_trace`
    GetStackTrace,
    /// `get_scopes`
    GetScopes,
    /// `get_variables`
    GetVariables,
    /// `evaluate`
    Evaluate,
    /// `set_variable`
    SetVariable,
    /// `assemble_context`
    AssembleContext,
    /// `search_variables`
    SearchVariables,
    /// `get_state`
    GetState,
    /// `register_path_alias`
    RegisterPathAlias,
    /// `register_base_dir`
    RegisterBaseDir,
    /// `openocd_start`
    OpenocdStart,
    /// `openocd_stop`
    OpenocdStop,
    /// `openocd_status`
    OpenocdStatus,
    /// `openocd_output`
    OpenocdOutput,
    /// `openocd_send`
    OpenocdSend,
    /// No tool of that name.
    Unknown,
}

/// The route of the tool named `name`.
pub open spec fn spec_route(name: Seq<char>) -> ToolRoute {
    if name == "start"@ {
        ToolRoute::Start
    } else if name == "initialize"@ {
        ToolRoute::Initialize
    } else if name == "launch"@ {
        ToolRoute::Launch
    } else if name == "attach"@ {
        ToolRoute::Attach
    } else if name == "configuration_done"@ {
        ToolRoute::ConfigurationDone
    } else if name == "shutdown"@ {
        ToolRoute::Shutdown
    } else if name == "continue"@ {
        ToolRoute::Continue
    } else if name == "step_over"@ {
        ToolRoute::StepOver
    } else if name == "step_in"@ {
        ToolRoute::StepIn
    } else if name == "step_out"@ {
        ToolRoute::StepOut
    } else if name == "pause"@ {
        ToolRoute::Pause
    } else if name == "set_breakpoints"@ {
        ToolRoute::SetBreakpoints
    } else if name == "set_function_breakpoints"@ {
        ToolRoute::SetFunctionBreakpoints
    } else if name == "get_threads"@ {
        ToolRoute::GetThreads
    } else if name == "get_stack_trace"@ {
        ToolRoute::GetStackTrace
    } else if name == "get_scopes"@ {
        ToolRoute::GetScopes
    } else if name == "get_variables"@ {
        ToolRoute::GetVariables
    } else if name == "evaluate"@ {
        ToolRoute::Evaluate
    } else if name == "set_variable"@ {
        ToolRoute::SetVariable
    } else if name == "assemble_context"@ {
        ToolRoute::AssembleContext
    } else if name == "search_variables"@ {
        ToolRoute::SearchVariables
    } else if name == "get_state"@ {
        ToolRoute::GetState
    } else if name == "register_path_alias"@ {
        ToolRoute::RegisterPathAlias
    } else if name == "register_base_dir"@ {
        ToolRoute::RegisterBaseDir
    } else if name == "openocd_start"@ {
        ToolRoute::OpenocdStart
    } else if name == "openocd_stop"@ {
        ToolRoute::OpenocdStop
    } else if name == "openocd_status"@ {
        ToolRoute::OpenocdStatus
    } else if name == "openocd_output"@ {
        ToolRoute::OpenocdOutput
    } else if name == "openocd_send"@ {
        ToolRoute::OpenocdSend
    } else {
        ToolRoute::Unknown
    }
}

/// The route of the tool named `name`.
pub fn route(name: &str) -> (r: ToolRoute)
    ensures
        r == spec_route(name@),
{
    if str_eq(name, "start") {
        ToolRoute::Start
    } else if str_eq(name, "initialize") {
        ToolRoute::Initialize
    } else if str_eq(name, "launch") {
        ToolRoute::Launch
    } else if str_eq(name, "attach") {
        ToolRoute::Attach
    } else if str_eq(name, "configuration_done") {
        ToolRoute::ConfigurationDone
    } else if str_eq(name, "shutdown") {
        ToolRoute::Shutdown
    } else if str_eq(name, "continue") {
        ToolRoute::Continue
    } else if str_eq(name, "step_over") {
        ToolRoute::StepOver
    } else if str_eq(name, "step_in") {
        ToolRoute::StepIn
    } else if str_eq(name, "step_out") {
        ToolRoute::StepOut
    } else if str_eq(name, "pause") {
        ToolRoute::Pause
    } else if str_eq(name, "set_breakpoints") {
        ToolRoute::SetBreakpoints
    } else if str_eq(name, "set_function_breakpoints") {
        ToolRoute::SetFunctionBreakpoints
    } else if str_eq(name, "get_threads") {
        ToolRoute::GetThreads
    } else if str_eq(name, "get_stack_trace") {
        ToolRoute::GetStackTrace
    } else if str_eq(name, "get_scopes") {
        ToolRoute::GetScopes
    } else if str_eq(name, "get_variables") {
        ToolRoute::GetVariables
    } else if str_eq(name, "evaluate") {
        ToolRoute::Evaluate
    } else if str_eq(name, "set_variable") {
        ToolRoute::SetVariable
    } else if str_eq(name, "assemble_context") {
        ToolRoute::AssembleContext
    } else if str_eq(name, "search_variables") {
        ToolRoute::SearchVariables
    } else if str_eq(name, "get_state") {
        ToolRoute::GetState
    } else if str_eq(name, "register_path_alias") {
        ToolRoute::RegisterPathAlias
    } else if str_eq(name, "register_base_dir") {
        ToolRoute::RegisterBaseDir
    } else if str_eq(name, "openocd_start") {
        ToolRoute::OpenocdStart
    } else if str_eq(name, "openocd_stop") {
        ToolRoute::OpenocdStop
    } else if str_eq(name, "openocd_status") {
        ToolRoute::OpenocdStatus
    } else if str_eq(name, "openocd_output") {
        ToolRoute::OpenocdOutput
    } else if str_eq(name, "openocd_send") {
        ToolRoute::OpenocdSend
    } else {
        ToolRoute::Unknown
    }
}

/// Whether a tool is listed in a state: gated tools when their operation is
/// allowed, utility tools always.
pub open spec fn spec_tool_visible(name: Seq<char>, state: SessionState) -> bool {
    match spec_tool_operation(name) {
        Some(op) => spec_is_allowed(op, state),
        None => true,
    }
}

/// The catalogue entries listed in a state, in catalogue order.
pub open spec fn spec_visible_tools(state: SessionState) -> Seq<ToolSpec> {
    spec_all_tools().filter(|t: ToolSpec| spec_tool_visible(t.name, state))
}

/// Stateless tool dispatcher.
pub struct ToolRegistry;

impl ToolRegistry {
    /// Returns the complete list of all tools.
    pub fn list_tools() -> (r: Vec<Tool>)
        ensures
            spec_tools_prefix(r@, spec_all_tools().len() as int),
    {
        all_tools()
    }

    /// Returns only the tools available in the given session state.
    ///
    /// Gated tools are filtered by `ToolAvailability`; utility tools
    /// (no state gating) are always included.
    pub fn list_tools_for_state(state: SessionState) -> (r: Vec<Tool>)
        ensures
            r@.len() == spec_visible_tools(state).len(),
            forall|j: int|
                0 <= j < r@.len() ==> spec_tool_is(#[trigger] r@[j], spec_visible_tools(state)[j]),
    {
        let mut items = all_tools();
        let ghost table = spec_all_tools();
        let ghost pred = |t: ToolSpec| spec_tool_visible(t.name, state);
        let mut r: Vec<Tool> = Vec::new();
        let mut i: usize = 0;
        // Walk the catalogue from the front, keeping the visible tools.
        while items.len() > 0
            invariant
                i + items@.len() == table.len(),
                table == spec_all_tools(),
                table.len() == 29,
                pred == (|t: ToolSpec| spec_tool_visible(t.name, state)),
                forall|j: int|
                    0 <= j < items@.len() ==> spec_tool_is(#[trigger] items@[j], table[i + j]),
                r@.len() == table.take(i as int).filter(pred).len(),
                forall|j: int|
                    0 <= j < r@.len() ==> spec_tool_is(
                        #[trigger] r@[j],
                        table.take(i as int).filter(pred)[j],
                    ),
            decreases items@.len(),
        {
            let ghost before_items = items@;
            let t = items.remove(0);
            assert(spec_tool_is(before_items[0], table[i + 0]));
            assert forall|j: int| 0 <= j < items@.len() implies spec_tool_is(
                #[trigger] items@[j],
                table[(i + 1) + j],
            ) by {
                assert(items@[j] == before_items[j + 1]);
                assert(spec_tool_is(before_items[j + 1], table[i + (j + 1)]));
            }
            assert(table.take(i + 1).drop_last() =~= table.take(i as int));
            assert(table.take(i + 1).last() == table[i as int]);
            reveal(Seq::filter);
            let visible = match tool_operation(t.name.as_str()) {
                Some(op) => ToolAvailability::is_allowed(op, state),
                None => true,
            };
            assert(visible == pred(table[i as int]));
            if visible {
                let ghost before = r@;
                r.push(t);
                assert(table.take(i + 1).filter(pred) == table.take(i as int).filter(pred).push(
                    table[i as int],
                ));
                assert forall|j: int| 0 <= j < r@.len() implies spec_tool_is(
                    #[trigger] r@[j],
                    table.take(i + 1).filter(pred)[j],
                ) by {
                    if j < before.len() {
                        assert(r@[j] == before[j]);
                    }
                }
            } else {
                assert(table.take(i + 1).filter(pred) == table.take(i as int).filter(pred));
            }
            i = i + 1;
        }
        assert(table.take(table.len() as int) =~= table);
        r
    }

    /// Whether the session state lets a call of tool `name` through: a
    /// gated tool only where its operation is allowed, anything else always.
    pub fn passes_gating(name: &str, state: SessionState) -> (r: bool)
        ensures
            r == spec_tool_visible(name@, state),
    {
        match tool_operation(name) {
            Some(op) => ToolAvailability::is_allowed(op, state),
            None => true,
        }
    }

    /// Decide what a tool call does: refuse it when the session state does
    /// not allow its operation, refuse a name that no tool has, and
    /// otherwise route it to its handler.
    pub fn dispatch_plan(name: &str, state: SessionState) -> (r: Result<ToolRoute, BridgeError>)
        ensures
            match spec_tool_operation(name@) {
                Some(op) => if spec_is_allowed(op, state) {
                    r == Ok::<ToolRoute, BridgeError>(spec_route(name@))
                } else {
                    r matches Err(BridgeError::Internal(m)) && m@ == spec_describe_requirements(op)
                },
                None => if spec_route(name@) == ToolRoute::Unknown {
                    r matches Err(BridgeError::UnknownTool(n)) && n@ == name@
                } else {
                    r == Ok::<ToolRoute, BridgeError>(spec_route(name@))
                },
            },
    {
        match tool_operation(name) {
            Some(op) => {
                if !ToolAvailability::is_allowed(op, state) {
                    return Err(BridgeError::Internal(ToolAvailability::describe_requirements(op)));
                }
            },
            None => {},
        }
        match route(name) {
            ToolRoute::Unknown => Err(BridgeError::UnknownTool(String::from_str(name))),
            known => Ok(known),
        }
    }
}


// ── Laws ─────────────────────────────────────────────────────────────────

/// Every tool of the catalogue has a handler: its calls are never routed to
/// `Unknown`.
pub proof fn lemma_catalogue_routed(j: int)
    requires
        0 <= j < spec_all_tools().len(),
    ensures
        spec_route(spec_all_tools()[j].name) != ToolRoute::Unknown,
{
    let name = spec_all_tools()[j].name;
    if j == 0 {
        assert(name == "start"@);
    } else if j == 1 {
        assert(name == "initialize"@);
    } else if j == 2 {
        assert(name == "launch"@);
    } else if j == 3 {
        assert(name == "attach"@);
    } else if j == 4 {
        assert(name == "configuration_done"@);
    } else if j == 5 {
        assert(name == "shutdown"@);
    } else if j == 6 {
        assert(name == "continue"@);
    } else if j == 7 {
        assert(name == "step_over"@);
    } else if j == 8 {
        assert(name == "step_in"@);
    } else if j == 9 {
        assert(name == "step_out"@);
    } else if j == 10 {
        assert(name == "pause"@);
    } else if j == 11 {
        assert(name == "set_breakpoints"@);
    } else if j == 12 {
        assert(name == "set_function_breakpoints"@);
    } else if j == 13 {
        assert(name == "get_threads"@);
    } else if j == 14 {
        assert(name == "get_stack_trace"@);
    } else if j == 15 {
        assert(name == "get_scopes"@);
    } else if j == 16 {
        assert(name == "get_variables"@);
    } else if j == 17 {
        assert(name == "evaluate"@);
    } else if j == 18 {
        assert(name == "set_variable"@);
    } else if j == 19 {
        assert(name == "assemble_context"@);
    } else if j == 20 {
        assert(name == "search_variables"@);
    } else if j == 21 {
        assert(name == "get_state"@);
    } else if j == 22 {
        assert(name == "register_path_alias"@);
    } else if j == 23 {
        assert(name == "register_base_dir"@);
    } else if j == 24 {
        assert(name == "openocd_start"@);
    } else if j == 25 {
        assert(name == "openocd_stop"@);
    } else if j == 26 {
        assert(name == "openocd_status"@);
    } else if j == 27 {
        assert(name == "openocd_output"@);
    } else if j == 28 {
        assert(name == "openocd_send"@);
    }
}

/// A tool that is listed in a state can be called in that state: its call is
/// not refused by the state check and reaches the tool's own handler.
pub proof fn lemma_listed_tool_dispatches(state: SessionState, j: int)
    requires
        0 <= j < spec_all_tools().len(),
        spec_tool_visible(spec_all_tools()[j].name, state),
    ensures
        spec_tool_operation(spec_all_tools()[j].name) matches Some(op) ==> spec_is_allowed(
            op,
            state,
        ),
        spec_route(spec_all_tools()[j].name) != ToolRoute::Unknown,
{
    lemma_catalogue_routed(j);
}

/// Utility tools are listed in every state.
pub proof fn lemma_utility_tools_always_listed(state: SessionState, name: Seq<char>)
    requires
        spec_tool_operation(name) is None,
    ensures
        spec_tool_visible(name, state),
{
}

/// Whether a tool of this name is listed in a state.
pub open spec fn spec_lists_tool(state: SessionState, name: Seq<char>) -> bool {
    exists|j: int|
        0 <= j < spec_visible_tools(state).len() && (#[trigger] spec_visible_tools(state)[j]).name
            == name
}

/// A listed tool's operation is allowed in the state it is listed in.
proof fn lemma_listed_allowed(state: SessionState, name: Seq<char>, op: Seq<char>)
    requires
        spec_lists_tool(state, name),
        spec_tool_operation(name) == Some(op),
    ensures
        spec_is_allowed(op, state),
{
    let pred = |t: ToolSpec| spec_tool_visible(t.name, state);
    let j = choose|j: int|
        0 <= j < spec_visible_tools(state).len() && (#[trigger] spec_visible_tools(state)[j]).name
            == name;
    spec_all_tools().lemma_filter_pred(pred, j);
}

/// A tool of the catalogue whose operation is allowed is listed.
proof fn lemma_allowed_listed(state: SessionState, k: int)
    requires
        0 <= k < spec_all_tools().len(),
        spec_tool_visible(spec_all_tools()[k].name, state),
    ensures
        spec_lists_tool(state, spec_all_tools()[k].name),
{
    let pred = |t: ToolSpec| spec_tool_visible(t.name, state);
    spec_all_tools().lemma_filter_contains(pred, k);
    let vis = spec_visible_tools(state);
    let j = choose|j: int| 0 <= j < vis.len() && vis[j] == spec_all_tools()[k];
    assert(vis[j].name == spec_all_tools()[k].name);
}

/// `continue` is offered exactly when the session is halted, and `pause`
/// exactly when it is running.
pub proof fn lemma_resume_and_pause_gating(state: SessionState)
    ensures
        spec_lists_tool(state, "continue"@) <==> state == SessionState::Halted,
        spec_lists_tool(state, "pause"@) <==> state == SessionState::Running,
{
    reveal_strlit("start");
    reveal_strlit("initialize");
    reveal_strlit("launch");
    reveal_strlit("attach");
    reveal_strlit("configuration_done");
    reveal_strlit("shutdown");
    reveal_strlit("disconnect");
    reveal_strlit("continue");
    reveal_strlit("step_over");
    reveal_strlit("step_in");
    reveal_strlit("step_out");
    reveal_strlit("pause");
    assert("continue"@.len() == 8 && "shutdown"@.len() == 8 && "continue"@[0] != "shutdown"@[0]);
    assert("pause"@.len() == 5 && "start"@.len() == 5 && "pause"@[0] != "start"@[0]);
    assert("continue"@ != "start"@ && "continue"@ != "initialize"@ && "continue"@ != "launch"@
        && "continue"@ != "attach"@ && "continue"@ != "configuration_done"@ && "continue"@
        != "shutdown"@ && "continue"@ != "disconnect"@);
    assert("pause"@ != "start"@ && "pause"@ != "initialize"@ && "pause"@ != "launch"@ && "pause"@
        != "attach"@ && "pause"@ != "configuration_done"@ && "pause"@ != "shutdown"@ && "pause"@
        != "disconnect"@ && "pause"@ != "continue"@ && "pause"@ != "step_over"@ && "pause"@
        != "step_in"@ && "pause"@ != "step_out"@);
    assert(spec_allowed_states("continue"@) == seq![SessionState::Halted]);
    assert(spec_allowed_states("pause"@) == seq![SessionState::Running]);
    assert(spec_tool_operation("continue"@) == Some("continue"@));
    assert(spec_tool_operation("pause"@) == Some("pause"@));
    assert(spec_all_tools()[6].name == "continue"@);
    assert(spec_all_tools()[10].name == "pause"@);
    if spec_lists_tool(state, "continue"@) {
        lemma_listed_allowed(state, "continue"@, "continue"@);
    }
    if state == SessionState::Halted {
        assert(spec_allowed_states("continue"@)[0] == state);
        lemma_allowed_listed(state, 6);
    }
    if spec_lists_tool(state, "pause"@) {
        lemma_listed_allowed(state, "pause"@, "pause"@);
    }
    if state == SessionState::Running {
        assert(spec_allowed_states("pause"@)[0] == state);
        lemma_allowed_listed(state, 10);
    }
}

/// Every utility tool of the catalogue is listed in every state.
pub proof fn lemma_utility_tools_listed(state: SessionState, k: int)
    requires
        0 <= k < spec_all_tools().len(),
        spec_tool_operation(spec_all_tools()[k].name) is None,
    ensures
        spec_lists_tool(state, spec_all_tools()[k].name),
{
    lemma_allowed_listed(state, k);
}

/// The tool whose handler a route is, by name; none for `Unknown`.
pub open spec fn spec_route_name(r: ToolRoute) -> Seq<char> {
    match r {
        ToolRoute::Start => "start"@,
        ToolRoute::Initialize => "initialize"@,
        ToolRoute::Launch => "launch"@,
        ToolRoute::Attach => "attach"@,
        ToolRoute::ConfigurationDone => "configuration_done"@,
        ToolRoute::Shutdown => "shutdown"@,
        ToolRoute::Continue => "continue"@,
        ToolRoute::StepOver => "step_over"@,
        ToolRoute::StepIn => "step_in"@,
        ToolRoute::StepOut => "step_out"@,
        ToolRoute::Pause => "pause"@,
        ToolRoute::SetBreakpoints => "set_breakpoints"@,
        ToolRoute::SetFunctionBreakpoints => "set_function_breakpoints"@,
        ToolRoute::GetThreads => "get_threads"@,
        ToolRoute::GetStackTrace => "get_stack_trace"@,
        ToolRoute::GetScopes => "get_scopes"@,
        ToolRoute::GetVariables => "get_variables"@,
        ToolRoute::Evaluate => "evaluate"@,
        ToolRoute::SetVariable => "set_variable"@,
        ToolRoute::AssembleContext => "assemble_context"@,
        ToolRoute::SearchVariables => "search_variables"@,
        ToolRoute::GetState => "get_state"@,
        ToolRoute::RegisterPathAlias => "register_path_alias"@,
        ToolRoute::RegisterBaseDir => "register_base_dir"@,
        ToolRoute::OpenocdStart => "openocd_start"@,
        ToolRoute::OpenocdStop => "openocd_stop"@,
        ToolRoute::OpenocdStatus => "openocd_status"@,
        ToolRoute::OpenocdOutput => "openocd_output"@,
        ToolRoute::OpenocdSend => "openocd_send"@,
        ToolRoute::Unknown => Seq::empty(),
    }
}

/// A call is routed to the handler of the tool it names: whenever a name
/// has a route, that route is the handler of exactly that name. So two
/// different names never share a handler.
pub proof fn lemma_route_is_named(name: Seq<char>, other: Seq<char>)
    ensures
        spec_route(name) != ToolRoute::Unknown ==> spec_route_name(spec_route(name)) == name,
        spec_route(name) != ToolRoute::Unknown && spec_route(name) == spec_route(other) ==> name
            == other,
{
}

/// Every tool of the catalogue is routed to its own handler.
pub proof fn lemma_catalogue_routes_to_itself(j: int)
    requires
        0 <= j < spec_all_tools().len(),
    ensures
        spec_route(spec_all_tools()[j].name) != ToolRoute::Unknown,
        spec_route_name(spec_route(spec_all_tools()[j].name)) == spec_all_tools()[j].name,
{
    lemma_catalogue_routed(j);
    lemma_route_is_named(spec_all_tools()[j].name, spec_all_tools()[j].name);
}

} // verus!
