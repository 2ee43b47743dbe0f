//! MCP tool definitions: names, titles, descriptions and JSON input schemas.
//!
//! Twenty tools are gated debug operations (matching the operations of
//! `ToolAvailability`); the others are utility tools with no state gating.

use crate::mcp::{spec_schema_properties, spec_schema_required, JsonSchema, PropertySchema, Tool};
use crate::gating::{lemma_every_operation_gated, spec_all_operations, spec_allowed_states};
use crate::text::str_eq;
use vstd::prelude::*;
use vstd::string::*;

verus! {

// ── Specification ────────────────────────────────────────────────────────

/// One input property of a tool: name, type, item type and description.
pub struct ParamSpec {
    pub name: Seq<char>,
    pub kind: Seq<char>,
    pub item_kind: Option<Seq<char>>,
    pub description: Seq<char>,
}

/// One tool of the catalogue: its texts, its input properties in order,
/// and the names of the required ones in order.
pub struct ToolSpec {
    pub name: Seq<char>,
    pub title: Seq<char>,
    pub description: Seq<char>,
    pub params: Seq<ParamSpec>,
    pub required: Seq<Seq<char>>,
}

/// The properties that a list of parameters declares, in order.
pub open spec fn spec_params_view(ps: Seq<ParamSpec>) -> Seq<(Seq<char>, Seq<char>, Option<Seq<char>>, Seq<char>)> {
    ps.map_values(|p: ParamSpec| (p.name, p.kind, p.item_kind, p.description))
}

/// Whether `t` is the tool that `s` describes, its input schema an object
/// schema with exactly the described properties.
pub open spec fn spec_tool_is(t: Tool, s: ToolSpec) -> bool {
    &&& t.name@ == s.name
    &&& t.title@ == s.title
    &&& t.description@ == s.description
    &&& t.input_schema.schema_type@ == "object"@
    &&& t.input_schema.properties is Some
    &&& t.input_schema.required is Some
    &&& spec_schema_properties(t.input_schema) == spec_params_view(s.params)
    &&& spec_schema_required(t.input_schema) == s.required
}

/// The `start` tool.
pub open spec fn spec_tool_0() -> ToolSpec {
    ToolSpec {
        name: "start"@,
        title: "Start debug adapter"@,
        description: "Spawn the debug adapter process. Must be called before any other operation. Supports codelldb and GDB (gdb -i dap)."@,
        params: seq![
            ParamSpec { name: "adapterPath"@, kind: "string"@, item_kind: None, description: "Absolute path to the debug adapter binary (e.g. \"codelldb\" or \"gdb\"). Also accepts \"codelldbPath\" for backward compatibility."@ },
            ParamSpec { name: "adapterKind"@, kind: "string"@, item_kind: None, description: "Adapter type: \"codelldb\" (default) or \"gdb\". Controls behavioral differences like launch response handling."@ },
            ParamSpec { name: "adapterArgs"@, kind: "array"@, item_kind: Some("string"@), description: "Command-line arguments for the adapter binary (e.g. [\"-i\", \"dap\"] for GDB)"@ },
        ],
        required: seq!["adapterPath"@],
    }
}

/// The `initialize` tool.
pub open spec fn spec_tool_1() -> ToolSpec {
    ToolSpec {
        name: "initialize"@,
        title: "Initialize DAP handshake"@,
        description: "Perform the DAP initialize handshake with the debug adapter. Returns adapter capabilities. The default adapterId is derived from the adapter kind (\"lldb\" for codelldb, \"gdb\" for GDB)."@,
        params: seq![
            ParamSpec { name: "adapterId"@, kind: "string"@, item_kind: None, description: "Adapter identifier (default: runtime-derived from adapter kind)"@ },
        ],
        required: Seq::empty(),
    }
}

/// The `launch` tool.
pub open spec fn spec_tool_2() -> ToolSpec {
    ToolSpec {
        name: "launch"@,
        title: "Launch debuggee"@,
        description: "Launch the target program for debugging. The program path is resolved through the path mapper if relative."@,
        params: seq![
            ParamSpec { name: "program"@, kind: "string"@, item_kind: None, description: "Path to the ELF binary to debug"@ },
            ParamSpec { name: "args"@, kind: "array"@, item_kind: Some("string"@), description: "Command-line arguments for the debuggee"@ },
            ParamSpec { name: "env"@, kind: "object"@, item_kind: Some("string"@), description: "Environment variables for the debuggee"@ },
            ParamSpec { name: "stopOnEntry"@, kind: "boolean"@, item_kind: None, description: "Stop at program entry point (default: false)"@ },
            ParamSpec { name: "gdbRemote"@, kind: "string"@, item_kind: None, description: "Remote GDB server address (e.g. \"localhost:3333\")"@ },
        ],
        required: seq!["program"@],
    }
}

/// The `attach` tool.
pub open spec fn spec_tool_3() -> ToolSpec {
    ToolSpec {
        name: "attach"@,
        title: "Attach to process"@,
        description: "Attach the debugger to a running process by PID or custom configuration."@,
        params: seq![
            ParamSpec { name: "pid"@, kind: "integer"@, item_kind: None, description: "Process ID to attach to"@ },
            ParamSpec { name: "extra"@, kind: "object"@, item_kind: Some("string"@), description: "Additional attach configuration"@ },
        ],
        required: Seq::empty(),
    }
}

/// The `configuration_done` tool.
pub open spec fn spec_tool_4() -> ToolSpec {
    ToolSpec {
        name: "configuration_done"@,
        title: "Configuration done"@,
        description: "Signal to the debug adapter that configuration is complete and execution may begin. Transitions state to Running."@,
        params: Seq::empty(),
        required: Seq::empty(),
    }
}

/// The `shutdown` tool.
pub open spec fn spec_tool_5() -> ToolSpec {
    ToolSpec {
        name: "shutdown"@,
        title: "Shut down session"@,
        description: "Disconnect from the debug adapter and terminate the adapter process. Cleans up all resources."@,
        params: Seq::empty(),
        required: Seq::empty(),
    }
}

/// The `continue` tool.
pub open spec fn spec_tool_6() -> ToolSpec {
    ToolSpec {
        name: "continue"@,
        title: "Continue execution"@,
        description: "Resume execution of the debuggee. Only available when halted."@,
        params: seq![
            ParamSpec { name: "threadId"@, kind: "integer"@, item_kind: None, description: "Thread ID to continue"@ },
            ParamSpec { name: "singleThread"@, kind: "boolean"@, item_kind: None, description: "Continue only this thread (default: false)"@ },
        ],
        required: seq!["threadId"@],
    }
}

/// The `step_over` tool.
pub open spec fn spec_tool_7() -> ToolSpec {
    ToolSpec {
        name: "step_over"@,
        title: "Step over"@,
        description: "Execute the current source line, stepping over any function calls. Only available when halted."@,
        params: seq![
            ParamSpec { name: "threadId"@, kind: "integer"@, item_kind: None, description: "Thread ID to step"@ },
            ParamSpec { name: "singleThread"@, kind: "boolean"@, item_kind: None, description: "Step only this thread (default: false)"@ },
        ],
        required: seq!["threadId"@],
    }
}

/// The `step_in` tool.
pub open spec fn spec_tool_8() -> ToolSpec {
    ToolSpec {
        name: "step_in"@,
        title: "Step into"@,
        description: "Step into the function called at the current source line. Only available when halted."@,
        params: seq![
            ParamSpec { name: "threadId"@, kind: "integer"@, item_kind: None, description: "Thread ID to step"@ },
            ParamSpec { name: "singleThread"@, kind: "boolean"@, item_kind: None, description: "Step only this thread (default: false)"@ },
            ParamSpec { name: "targetId"@, kind: "integer"@, item_kind: None, description: "Specific step-in target ID"@ },
        ],
        required: seq!["threadId"@],
    }
}

/// The `step_out` tool.
pub open spec fn spec_tool_9() -> ToolSpec {
    ToolSpec {
        name: "step_out"@,
        title: "Step out"@,
        description: "Execute until the current function returns. Only available when halted."@,
        params: seq![
            ParamSpec { name: "threadId"@, kind: "integer"@, item_kind: None, description: "Thread ID to step"@ },
            ParamSpec { name: "singleThread"@, kind: "boolean"@, item_kind: None, description: "Step only this thread (default: false)"@ },
        ],
        required: seq!["threadId"@],
    }
}

/// The `pause` tool.
pub open spec fn spec_tool_10() -> ToolSpec {
    ToolSpec {
        name: "pause"@,
        title: "Pause execution"@,
        description: "Pause a running debuggee. Only available when the debuggee is Running."@,
        params: seq![
            ParamSpec { name: "threadId"@, kind: "integer"@, item_kind: None, description: "Thread ID to pause"@ },
        ],
        required: seq!["threadId"@],
    }
}

/// The `set_breakpoints` tool.
pub open spec fn spec_tool_11() -> ToolSpec {
    ToolSpec {
        name: "set_breakpoints"@,
        title: "Set source breakpoints"@,
        description: "Set breakpoints on source file lines. The source path is resolved through the path mapper if relative. Returns verified breakpoints."@,
        params: seq![
            ParamSpec { name: "sourcePath"@, kind: "string"@, item_kind: None, description: "Path to the source file (relative or absolute)"@ },
            ParamSpec { name: "breakpoints"@, kind: "array"@, item_kind: Some("object"@), description: "Breakpoint locations"@ },
        ],
        required: seq!["sourcePath"@, "breakpoints"@],
    }
}

/// The `set_function_breakpoints` tool.
pub open spec fn spec_tool_12() -> ToolSpec {
    ToolSpec {
        name: "set_function_breakpoints"@,
        title: "Set function breakpoints"@,
        description: "Set breakpoints on function names. The debugger will stop when any of the named functions are entered."@,
        params: seq![
            ParamSpec { name: "names"@, kind: "array"@, item_kind: Some("string"@), description: "Function names to break on"@ },
            ParamSpec { name: "condition"@, kind: "string"@, item_kind: None, description: "Optional conditional expression"@ },
            ParamSpec { name: "hitCondition"@, kind: "string"@, item_kind: None, description: "Optional hit count condition (e.g. \">5\")"@ },
        ],
        required: seq!["names"@],
    }
}

/// The `get_threads` tool.
pub open spec fn spec_tool_13() -> ToolSpec {
    ToolSpec {
        name: "get_threads"@,
        title: "Get threads"@,
        description: "List all threads in the debuggee. Only available when halted."@,
        params: Seq::empty(),
        required: Seq::empty(),
    }
}

/// The `get_stack_trace` tool.
pub open spec fn spec_tool_14() -> ToolSpec {
    ToolSpec {
        name: "get_stack_trace"@,
        title: "Get stack trace"@,
        description: "Get the call stack for a specific thread. Returns stack frames with source locations. Only available when halted."@,
        params: seq![
            ParamSpec { name: "threadId"@, kind: "integer"@, item_kind: None, description: "Thread ID to query"@ },
            ParamSpec { name: "levels"@, kind: "integer"@, item_kind: None, description: "Maximum number of frames to return"@ },
            ParamSpec { name: "startFrame"@, kind: "integer"@, item_kind: None, description: "Frame index to start from (0-based)"@ },
        ],
        required: seq!["threadId"@],
    }
}

/// The `get_scopes` tool.
pub open spec fn spec_tool_15() -> ToolSpec {
    ToolSpec {
        name: "get_scopes"@,
        title: "Get scopes"@,
        description: "Get the variable scopes (locals, globals, registers) for a stack frame. Only available when halted."@,
        params: seq![
            ParamSpec { name: "frameId"@, kind: "integer"@, item_kind: None, description: "Stack frame ID from get_stack_trace"@ },
        ],
        required: seq!["frameId"@],
    }
}

/// The `get_variables` tool.
pub open spec fn spec_tool_16() -> ToolSpec {
    ToolSpec {
        name: "get_variables"@,
        title: "Get variables"@,
        description: "Get variables within a scope. The returned variables may have nested variablesReference handles for further expansion. Only available when halted."@,
        params: seq![
            ParamSpec { name: "variablesReference"@, kind: "integer"@, item_kind: None, description: "Variables reference from a scope or variable"@ },
            ParamSpec { name: "filter"@, kind: "string"@, item_kind: None, description: "Variable filter: \"named\" or \"indexed\""@ },
            ParamSpec { name: "start"@, kind: "integer"@, item_kind: None, description: "Start index for paging (0-based)"@ },
            ParamSpec { name: "count"@, kind: "integer"@, item_kind: None, description: "Maximum number of variables to return"@ },
        ],
        required: seq!["variablesReference"@],
    }
}

/// The `evaluate` tool.
pub open spec fn spec_tool_17() -> ToolSpec {
    ToolSpec {
        name: "evaluate"@,
        title: "Evaluate expression"@,
        description: "Evaluate an expression in the debuggee's context (e.g. \"ptr->field\", \"x + y\"). Only available when halted."@,
        params: seq![
            ParamSpec { name: "expression"@, kind: "string"@, item_kind: None, description: "C++ expression to evaluate"@ },
            ParamSpec { name: "frameId"@, kind: "integer"@, item_kind: None, description: "Stack frame ID for context"@ },
            ParamSpec { name: "context"@, kind: "string"@, item_kind: None, description: "Evaluation context: \"watch\", \"repl\", \"hover\", or \"clipboard\""@ },
        ],
        required: seq!["expression"@],
    }
}

/// The `set_variable` tool.
pub open spec fn spec_tool_18() -> ToolSpec {
    ToolSpec {
        name: "set_variable"@,
        title: "Set variable"@,
        description: "Set a variable's value in the debuggee. Only available when halted."@,
        params: seq![
            ParamSpec { name: "variablesReference"@, kind: "integer"@, item_kind: None, description: "Parent variables reference"@ },
            ParamSpec { name: "name"@, kind: "string"@, item_kind: None, description: "Variable name"@ },
            ParamSpec { name: "value"@, kind: "string"@, item_kind: None, description: "New value as a string"@ },
        ],
        required: seq!["variablesReference"@, "name"@, "value"@],
    }
}

/// The `assemble_context` tool.
pub open spec fn spec_tool_19() -> ToolSpec {
    ToolSpec {
        name: "assemble_context"@,
        title: "Assemble context"@,
        description: "Build a full debug context chain: threads → frames → scopes → variables. Returns nested data structure with all levels expanded up to the configured depth. Only available when halted."@,
        params: seq![
            ParamSpec { name: "threadId"@, kind: "integer"@, item_kind: None, description: "Specific thread ID (default: all threads)"@ },
            ParamSpec { name: "maxFrames"@, kind: "integer"@, item_kind: None, description: "Maximum frames per thread (default: 10)"@ },
            ParamSpec { name: "maxDepth"@, kind: "integer"@, item_kind: None, description: "Maximum variable expansion depth (default: 2)"@ },
        ],
        required: Seq::empty(),
    }
}

/// The `search_variables` tool.
pub open spec fn spec_tool_20() -> ToolSpec {
    ToolSpec {
        name: "search_variables"@,
        title: "Search variables"@,
        description: "Search the variable handle cache by name (fuzzy, case-insensitive). Useful for finding variables across scopes and frames."@,
        params: seq![
            ParamSpec { name: "query"@, kind: "string"@, item_kind: None, description: "Search query (partial name matching)"@ },
            ParamSpec { name: "limit"@, kind: "integer"@, item_kind: None, description: "Maximum results to return (default: 20)"@ },
        ],
        required: seq!["query"@],
    }
}

/// The `get_state` tool.
pub open spec fn spec_tool_21() -> ToolSpec {
    ToolSpec {
        name: "get_state"@,
        title: "Get session state"@,
        description: "Return the current session state, halt details, and list of available tools for the current state. Always available."@,
        params: Seq::empty(),
        required: Seq::empty(),
    }
}

/// The `register_path_alias` tool.
pub open spec fn spec_tool_22() -> ToolSpec {
    ToolSpec {
        name: "register_path_alias"@,
        title: "Register path alias"@,
        description: "Register a mapping from an AI-relative source path to an absolute system path. This enables setting breakpoints using short paths like \"src/main.cpp\"."@,
        params: seq![
            ParamSpec { name: "alias"@, kind: "string"@, item_kind: None, description: "AI-relative path prefix (e.g. \"src/main.cpp\")"@ },
            ParamSpec { name: "absolutePath"@, kind: "string"@, item_kind: None, description: "Absolute system path (e.g. \"/home/user/project/src/main.cpp\")"@ },
        ],
        required: seq!["alias"@, "absolutePath"@],
    }
}

/// The `register_base_dir` tool.
pub open spec fn spec_tool_23() -> ToolSpec {
    ToolSpec {
        name: "register_base_dir"@,
        title: "Register base directory"@,
        description: "Register a base directory for resolving relative source paths. Multiple base dirs can be registered; the first match wins."@,
        params: seq![
            ParamSpec { name: "dir"@, kind: "string"@, item_kind: None, description: "Absolute path to a project root directory"@ },
        ],
        required: seq!["dir"@],
    }
}

/// The `openocd_start` tool.
pub open spec fn spec_tool_24() -> ToolSpec {
    ToolSpec {
        name: "openocd_start"@,
        title: "Start OpenOCD"@,
        description: "Launch the OpenOCD GDB server process with the specified config files. Optionally capture stdout/stderr to log files. OpenOCD must be started before launch with gdbRemote for embedded debugging."@,
        params: seq![
            ParamSpec { name: "openocdPath"@, kind: "string"@, item_kind: None, description: "Absolute path to the OpenOCD binary (e.g. \"/usr/bin/openocd\")"@ },
            ParamSpec { name: "configFiles"@, kind: "array"@, item_kind: Some("string"@), description: "OpenOCD config files in order (e.g. [\"board/stm32f4discovery.cfg\"])"@ },
            ParamSpec { name: "extraArgs"@, kind: "array"@, item_kind: Some("string"@), description: "Additional CLI arguments for OpenOCD (e.g. [\"-d\", \"2\"])"@ },
            ParamSpec { name: "logDir"@, kind: "string"@, item_kind: None, description: "Directory for stdout/stderr log files. If omitted, output is discarded."@ },
        ],
        required: seq!["openocdPath"@, "configFiles"@],
    }
}

/// The `openocd_stop` tool.
pub open spec fn spec_tool_25() -> ToolSpec {
    ToolSpec {
        name: "openocd_stop"@,
        title: "Stop OpenOCD"@,
        description: "Send the shutdown command to OpenOCD and terminate the process."@,
        params: Seq::empty(),
        required: Seq::empty(),
    }
}

/// The `openocd_status` tool.
pub open spec fn spec_tool_26() -> ToolSpec {
    ToolSpec {
        name: "openocd_status"@,
        title: "Get OpenOCD status"@,
        description: "Returns whether OpenOCD is running, uptime, and log directory."@,
        params: Seq::empty(),
        required: Seq::empty(),
    }
}

/// The `openocd_output` tool.
pub open spec fn spec_tool_27() -> ToolSpec {
    ToolSpec {
        name: "openocd_output"@,
        title: "Read OpenOCD output"@,
        description: "Read recent stdout (and optionally stderr) lines from the OpenOCD log files. Requires logDir to have been configured in openocd_start."@,
        params: seq![
            ParamSpec { name: "lines"@, kind: "integer"@, item_kind: None, description: "Number of recent lines to return (default: 100)"@ },
            ParamSpec { name: "includeStderr"@, kind: "boolean"@, item_kind: None, description: "Also include stderr lines (default: false)"@ },
        ],
        required: Seq::empty(),
    }
}

/// The `openocd_send` tool.
pub open spec fn spec_tool_28() -> ToolSpec {
    ToolSpec {
        name: "openocd_send"@,
        title: "Send OpenOCD command"@,
        description: "Send a raw Tcl command to OpenOCD and wait for the response. Useful for custom commands like 'reset halt', 'flash write_image', etc."@,
        params: seq![
            ParamSpec { name: "command"@, kind: "string"@, item_kind: None, description: "Tcl command to send (e.g. \"reset halt\", \"mdw 0x08000000 16\")"@ },
            ParamSpec { name: "timeoutMs"@, kind: "integer"@, item_kind: None, description: "Response timeout in milliseconds (default: 5000)"@ },
        ],
        required: seq!["command"@],
    }
}

/// The complete tool catalogue, in order.
pub open spec fn spec_all_tools() -> Seq<ToolSpec> {
    seq![
        spec_tool_0(),
        spec_tool_1(),
        spec_tool_2(),
        spec_tool_3(),
        spec_tool_4(),
        spec_tool_5(),
        spec_tool_6(),
        spec_tool_7(),
        spec_tool_8(),
        spec_tool_9(),
        spec_tool_10(),
        spec_tool_11(),
        spec_tool_12(),
        spec_tool_13(),
        spec_tool_14(),
        spec_tool_15(),
        spec_tool_16(),
        spec_tool_17(),
        spec_tool_18(),
        spec_tool_19(),
        spec_tool_20(),
        spec_tool_21(),
        spec_tool_22(),
        spec_tool_23(),
        spec_tool_24(),
        spec_tool_25(),
        spec_tool_26(),
        spec_tool_27(),
        spec_tool_28(),
    ]
}

// ── Implementation ───────────────────────────────────────────────────────

/// Whether the first `n` tools match the catalogue.
pub open spec fn spec_tools_prefix(ts: Seq<Tool>, n: int) -> bool {
    &&& ts.len() == n
    &&& forall|j: int| 0 <= j < n ==> spec_tool_is(#[trigger] ts[j], spec_all_tools()[j])
}

fn object_schema() -> (r: JsonSchema)
    ensures
        r.schema_type@ == "object"@,
        r.properties is Some,
        r.required is Some,
        spec_schema_properties(r) == Seq::<(Seq<char>, Seq<char>, Option<Seq<char>>, Seq<char>)>::empty(),
        spec_schema_required(r) == Seq::<Seq<char>>::empty(),
{
    JsonSchema::new_object()
}

fn tool(name: &str, title: &str, description: &str, input_schema: JsonSchema) -> (r: Tool)
    ensures
        r.name@ == name@,
        r.title@ == title@,
        r.description@ == description@,
        r.input_schema == input_schema,
{
    Tool {
        name: String::from_str(name),
        title: String::from_str(title),
        description: String::from_str(description),
        input_schema,
    }
}

/// Returns the complete list of tools for `tools/list`.
pub fn all_tools() -> (r: Vec<Tool>)
    ensures
        spec_tools_prefix(r@, spec_all_tools().len() as int),
{
    let mut tools: Vec<Tool> = Vec::new();
    // start
    let schema = object_schema();
    let schema = schema.with_required("adapterPath", PropertySchema::string("Absolute path to the debug adapter binary (e.g. \"codelldb\" or \"gdb\"). Also accepts \"codelldbPath\" for backward compatibility."));
    let schema = schema.with_optional("adapterKind", PropertySchema::string("Adapter type: \"codelldb\" (default) or \"gdb\". Controls behavioral differences like launch response handling."));
    let schema = schema.with_optional("adapterArgs", PropertySchema::array_of("Command-line arguments for the adapter binary (e.g. [\"-i\", \"dap\"] for GDB)", "string"));
    let t = tool("start", "Start debug adapter", "Spawn the debug adapter process. Must be called before any other operation. Supports codelldb and GDB (gdb -i dap).", schema);
    assert(spec_tool_0().required =~= spec_schema_required(t.input_schema));
    assert(spec_params_view(spec_tool_0().params) =~= spec_schema_properties(t.input_schema));
    assert(spec_tool_is(t, spec_tool_0()));
    let ghost before = tools@;
    tools.push(t);
    assert(spec_tools_prefix(tools@, 1)) by {
        assert(spec_all_tools()[0] == spec_tool_0());
        assert forall|j: int| 0 <= j < 1 implies spec_tool_is(#[trigger] tools@[j], spec_all_tools()[j]) by {
            if j < 0 {
                assert(tools@[j] == before[j]);
            }
        }
    }
    // initialize
    let schema = object_schema();
    let schema = schema.with_optional("adapterId", PropertySchema::string("Adapter identifier (default: runtime-derived from adapter kind)"));
    let t = tool("initialize", "Initialize DAP handshake", "Perform the DAP initialize handshake with the debug adapter. Returns adapter capabilities. The default adapterId is derived from the adapter kind (\"lldb\" for codelldb, \"gdb\" for GDB).", schema);
    assert(spec_tool_1().required =~= spec_schema_required(t.input_schema));
    assert(spec_params_view(spec_tool_1().params) =~= spec_schema_properties(t.input_schema));
    assert(spec_tool_is(t, spec_tool_1()));
    let ghost before = tools@;
    tools.push(t);
    assert(spec_tools_prefix(tools@, 2)) by {
        assert(spec_all_tools()[1] == spec_tool_1());
        assert forall|j: int| 0 <= j < 2 implies spec_tool_is(#[trigger] tools@[j], spec_all_tools()[j]) by {
            if j < 1 {
                assert(tools@[j] == before[j]);
            }
        }
    }
    // launch
    let schema = object_schema();
    let schema = schema.with_required("program", PropertySchema::string("Path to the ELF binary to debug"));
    let schema = schema.with_optional("args", PropertySchema::array_of("Command-line arguments for the debuggee", "string"));
    let schema = schema.with_optional("env", PropertySchema::object_of("Environment variables for the debuggee", "string"));
    let schema = schema.with_optional("stopOnEntry", PropertySchema::boolean("Stop at program entry point (default: false)"));
    let schema = schema.with_optional("gdbRemote", PropertySchema::string("Remote GDB server address (e.g. \"localhost:3333\")"));
    let t = tool("launch", "Launch debuggee", "Launch the target program for debugging. The program path is resolved through the path mapper if relative.", schema);
    assert(spec_tool_2().required =~= spec_schema_required(t.input_schema));
    assert(spec_params_view(spec_tool_2().params) =~= spec_schema_properties(t.input_schema));
    assert(spec_tool_is(t, spec_tool_2()));
    let ghost before = tools@;
    tools.push(t);
    assert(spec_tools_prefix(tools@, 3)) by {
        assert(spec_all_tools()[2] == spec_tool_2());
        assert forall|j: int| 0 <= j < 3 implies spec_tool_is(#[trigger] tools@[j], spec_all_tools()[j]) by {
            if j < 2 {
                assert(tools@[j] == before[j]);
            }
        }
    }
    // attach
    let schema = object_schema();
    let schema = schema.with_optional("pid", PropertySchema::integer("Process ID to attach to"));
    let schema = schema.with_optional("extra", PropertySchema::object_of("Additional attach configuration", "string"));
    let t = tool("attach", "Attach to process", "Attach the debugger to a running process by PID or custom configuration.", schema);
    assert(spec_tool_3().required =~= spec_schema_required(t.input_schema));
    assert(spec_params_view(spec_tool_3().params) =~= spec_schema_properties(t.input_schema));
    assert(spec_tool_is(t, spec_tool_3()));
    let ghost before = tools@;
    tools.push(t);
    assert(spec_tools_prefix(tools@, 4)) by {
        assert(spec_all_tools()[3] == spec_tool_3());
        assert forall|j: int| 0 <= j < 4 implies spec_tool_is(#[trigger] tools@[j], spec_all_tools()[j]) by {
            if j < 3 {
                assert(tools@[j] == before[j]);
            }
        }
    }
    // configuration_done
    let schema = object_schema();
    let t = tool("configuration_done", "Configuration done", "Signal to the debug adapter that configuration is complete and execution may begin. Transitions state to Running.", schema);
    assert(spec_tool_4().required =~= spec_schema_required(t.input_schema));
    assert(spec_params_view(spec_tool_4().params) =~= spec_schema_properties(t.input_schema));
    assert(spec_tool_is(t, spec_tool_4()));
    let ghost before = tools@;
    tools.push(t);
    assert(spec_tools_prefix(tools@, 5)) by {
        assert(spec_all_tools()[4] == spec_tool_4());
        assert forall|j: int| 0 <= j < 5 implies spec_tool_is(#[trigger] tools@[j], spec_all_tools()[j]) by {
            if j < 4 {
                assert(tools@[j] == before[j]);
            }
        }
    }
    // shutdown
    let schema = object_schema();
    let t = tool("shutdown", "Shut down session", "Disconnect from the debug adapter and terminate the adapter process. Cleans up all resources.", schema);
    assert(spec_tool_5().required =~= spec_schema_required(t.input_schema));
    assert(spec_params_view(spec_tool_5().params) =~= spec_schema_properties(t.input_schema));
    assert(spec_tool_is(t, spec_tool_5()));
    let ghost before = tools@;
    tools.push(t);
    assert(spec_tools_prefix(tools@, 6)) by {
        assert(spec_all_tools()[5] == spec_tool_5());
        assert forall|j: int| 0 <= j < 6 implies spec_tool_is(#[trigger] tools@[j], spec_all_tools()[j]) by {
            if j < 5 {
                assert(tools@[j] == before[j]);
            }
        }
    }
    // continue
    let schema = object_schema();
    let schema = schema.with_required("threadId", PropertySchema::integer("Thread ID to continue"));
    let schema = schema.with_optional("singleThread", PropertySchema::boolean("Continue only this thread (default: false)"));
    let t = tool("continue", "Continue execution", "Resume execution of the debuggee. Only available when halted.", schema);
    assert(spec_tool_6().required =~= spec_schema_required(t.input_schema));
    assert(spec_params_view(spec_tool_6().params) =~= spec_schema_properties(t.input_schema));
    assert(spec_tool_is(t, spec_tool_6()));
    let ghost before = tools@;
    tools.push(t);
    assert(spec_tools_prefix(tools@, 7)) by {
        assert(spec_all_tools()[6] == spec_tool_6());
        assert forall|j: int| 0 <= j < 7 implies spec_tool_is(#[trigger] tools@[j], spec_all_tools()[j]) by {
            if j < 6 {
                assert(tools@[j] == before[j]);
            }
        }
    }
    // step_over
    let schema = object_schema();
    let schema = schema.with_required("threadId", PropertySchema::integer("Thread ID to step"));
    let schema = schema.with_optional("singleThread", PropertySchema::boolean("Step only this thread (default: false)"));
    let t = tool("step_over", "Step over", "Execute the current source line, stepping over any function calls. Only available when halted.", schema);
    assert(spec_tool_7().required =~= spec_schema_required(t.input_schema));
    assert(spec_params_view(spec_tool_7().params) =~= spec_schema_properties(t.input_schema));
    assert(spec_tool_is(t, spec_tool_7()));
    let ghost before = tools@;
    tools.push(t);
    assert(spec_tools_prefix(tools@, 8)) by {
        assert(spec_all_tools()[7] == spec_tool_7());
        assert forall|j: int| 0 <= j < 8 implies spec_tool_is(#[trigger] tools@[j], spec_all_tools()[j]) by {
            if j < 7 {
                assert(tools@[j] == before[j]);
            }
        }
    }
    // step_in
    let schema = object_schema();
    let schema = schema.with_required("threadId", PropertySchema::integer("Thread ID to step"));
    let schema = schema.with_optional("singleThread", PropertySchema::boolean("Step only this thread (default: false)"));
    let schema = schema.with_optional("targetId", PropertySchema::integer("Specific step-in target ID"));
    let t = tool("step_in", "Step into", "Step into the function called at the current source line. Only available when halted.", schema);
    assert(spec_tool_8().required =~= spec_schema_required(t.input_schema));
    assert(spec_params_view(spec_tool_8().params) =~= spec_schema_properties(t.input_schema));
    assert(spec_tool_is(t, spec_tool_8()));
    let ghost before = tools@;
    tools.push(t);
    assert(spec_tools_prefix(tools@, 9)) by {
        assert(spec_all_tools()[8] == spec_tool_8());
        assert forall|j: int| 0 <= j < 9 implies spec_tool_is(#[trigger] tools@[j], spec_all_tools()[j]) by {
            if j < 8 {
                assert(tools@[j] == before[j]);
            }
        }
    }
    // step_out
    let schema = object_schema();
    let schema = schema.with_required("threadId", PropertySchema::integer("Thread ID to step"));
    let schema = schema.with_optional("singleThread", PropertySchema::boolean("Step only this thread (default: false)"));
    let t = tool("step_out", "Step out", "Execute until the current function returns. Only available when halted.", schema);
    assert(spec_tool_9().required =~= spec_schema_required(t.input_schema));
    assert(spec_params_view(spec_tool_9().params) =~= spec_schema_properties(t.input_schema));
    assert(spec_tool_is(t, spec_tool_9()));
    let ghost before = tools@;
    tools.push(t);
    assert(spec_tools_prefix(tools@, 10)) by {
        assert(spec_all_tools()[9] == spec_tool_9());
        assert forall|j: int| 0 <= j < 10 implies spec_tool_is(#[trigger] tools@[j], spec_all_tools()[j]) by {
            if j < 9 {
                assert(tools@[j] == before[j]);
            }
        }
    }
    // pause
    let schema = object_schema();
    let schema = schema.with_required("threadId", PropertySchema::integer("Thread ID to pause"));
    let t = tool("pause", "Pause execution", "Pause a running debuggee. Only available when the debuggee is Running.", schema);
    assert(spec_tool_10().required =~= spec_schema_required(t.input_schema));
    assert(spec_params_view(spec_tool_10().params) =~= spec_schema_properties(t.input_schema));
    assert(spec_tool_is(t, spec_tool_10()));
    let ghost before = tools@;
    tools.push(t);
    assert(spec_tools_prefix(tools@, 11)) by {
        assert(spec_all_tools()[10] == spec_tool_10());
        assert forall|j: int| 0 <= j < 11 implies spec_tool_is(#[trigger] tools@[j], spec_all_tools()[j]) by {
            if j < 10 {
                assert(tools@[j] == before[j]);
            }
        }
    }
    // set_breakpoints
    let schema = object_schema();
    let schema = schema.with_required("sourcePath", PropertySchema::string("Path to the source file (relative or absolute)"));
    let schema = schema.with_required("breakpoints", PropertySchema::array_of("Breakpoint locations", "object"));
    let t = tool("set_breakpoints", "Set source breakpoints", "Set breakpoints on source file lines. The source path is resolved through the path mapper if relative. Returns verified breakpoints.", schema);
    assert(spec_tool_11().required =~= spec_schema_required(t.input_schema));
    assert(spec_params_view(spec_tool_11().params) =~= spec_schema_properties(t.input_schema));
    assert(spec_tool_is(t, spec_tool_11()));
    let ghost before = tools@;
    tools.push(t);
    assert(spec_tools_prefix(tools@, 12)) by {
        assert(spec_all_tools()[11] == spec_tool_11());
        assert forall|j: int| 0 <= j < 12 implies spec_tool_is(#[trigger] tools@[j], spec_all_tools()[j]) by {
            if j < 11 {
                assert(tools@[j] == before[j]);
            }
        }
    }
    // set_function_breakpoints
    let schema = object_schema();
    let schema = schema.with_required("names", PropertySchema::array_of("Function names to break on", "string"));
    let schema = schema.with_optional("condition", PropertySchema::string("Optional conditional expression"));
    let schema = schema.with_optional("hitCondition", PropertySchema::string("Optional hit count condition (e.g. \">5\")"));
    let t = tool("set_function_breakpoints", "Set function breakpoints", "Set breakpoints on function names. The debugger will stop when any of the named functions are entered.", schema);
    assert(spec_tool_12().required =~= spec_schema_required(t.input_schema));
    assert(spec_params_view(spec_tool_12().params) =~= spec_schema_properties(t.input_schema));
    assert(spec_tool_is(t, spec_tool_12()));
    let ghost before = tools@;
    tools.push(t);
    assert(spec_tools_prefix(tools@, 13)) by {
        assert(spec_all_tools()[12] == spec_tool_12());
        assert forall|j: int| 0 <= j < 13 implies spec_tool_is(#[trigger] tools@[j], spec_all_tools()[j]) by {
            if j < 12 {
                assert(tools@[j] == before[j]);
            }
        }
    }
    // get_threads
    let schema = object_schema();
    let t = tool("get_threads", "Get threads", "List all threads in the debuggee. Only available when halted.", schema);
    assert(spec_tool_13().required =~= spec_schema_required(t.input_schema));
    assert(spec_params_view(spec_tool_13().params) =~= spec_schema_properties(t.input_schema));
    assert(spec_tool_is(t, spec_tool_13()));
    let ghost before = tools@;
    tools.push(t);
    assert(spec_tools_prefix(tools@, 14)) by {
        assert(spec_all_tools()[13] == spec_tool_13());
        assert forall|j: int| 0 <= j < 14 implies spec_tool_is(#[trigger] tools@[j], spec_all_tools()[j]) by {
            if j < 13 {
                assert(tools@[j] == before[j]);
            }
        }
    }
    // get_stack_trace
    let schema = object_schema();
    let schema = schema.with_required("threadId", PropertySchema::integer("Thread ID to query"));
    let schema = schema.with_optional("levels", PropertySchema::integer("Maximum number of frames to return"));
    let schema = schema.with_optional("startFrame", PropertySchema::integer("Frame index to start from (0-based)"));
    let t = tool("get_stack_trace", "Get stack trace", "Get the call stack for a specific thread. Returns stack frames with source locations. Only available when halted.", schema);
    assert(spec_tool_14().required =~= spec_schema_required(t.input_schema));
    assert(spec_params_view(spec_tool_14().params) =~= spec_schema_properties(t.input_schema));
    assert(spec_tool_is(t, spec_tool_14()));
    let ghost before = tools@;
    tools.push(t);
    assert(spec_tools_prefix(tools@, 15)) by {
        assert(spec_all_tools()[14] == spec_tool_14());
        assert forall|j: int| 0 <= j < 15 implies spec_tool_is(#[trigger] tools@[j], spec_all_tools()[j]) by {
            if j < 14 {
                assert(tools@[j] == before[j]);
            }
        }
    }
    // get_scopes
    let schema = object_schema();
    let schema = schema.with_required("frameId", PropertySchema::integer("Stack frame ID from get_stack_trace"));
    let t = tool("get_scopes", "Get scopes", "Get the variable scopes (locals, globals, registers) for a stack frame. Only available when halted.", schema);
    assert(spec_tool_15().required =~= spec_schema_required(t.input_schema));
    assert(spec_params_view(spec_tool_15().params) =~= spec_schema_properties(t.input_schema));
    assert(spec_tool_is(t, spec_tool_15()));
    let ghost before = tools@;
    tools.push(t);
    assert(spec_tools_prefix(tools@, 16)) by {
        assert(spec_all_tools()[15] == spec_tool_15());
        assert forall|j: int| 0 <= j < 16 implies spec_tool_is(#[trigger] tools@[j], spec_all_tools()[j]) by {
            if j < 15 {
                assert(tools@[j] == before[j]);
            }
        }
    }
    // get_variables
    let schema = object_schema();
    let schema = schema.with_required("variablesReference", PropertySchema::integer("Variables reference from a scope or variable"));
    let schema = schema.with_optional("filter", PropertySchema::string("Variable filter: \"named\" or \"indexed\""));
    let schema = schema.with_optional("start", PropertySchema::integer("Start index for paging (0-based)"));
    let schema = schema.with_optional("count", PropertySchema::integer("Maximum number of variables to return"));
    let t = tool("get_variables", "Get variables", "Get variables within a scope. The returned variables may have nested variablesReference handles for further expansion. Only available when halted.", schema);
    assert(spec_tool_16().required =~= spec_schema_required(t.input_schema));
    assert(spec_params_view(spec_tool_16().params) =~= spec_schema_properties(t.input_schema));
    assert(spec_tool_is(t, spec_tool_16()));
    let ghost before = tools@;
    tools.push(t);
    assert(spec_tools_prefix(tools@, 17)) by {
        assert(spec_all_tools()[16] == spec_tool_16());
        assert forall|j: int| 0 <= j < 17 implies spec_tool_is(#[trigger] tools@[j], spec_all_tools()[j]) by {
            if j < 16 {
                assert(tools@[j] == before[j]);
            }
        }
    }
    // evaluate
    let schema = object_schema();
    let schema = schema.with_required("expression", PropertySchema::string("C++ expression to evaluate"));
    let schema = schema.with_optional("frameId", PropertySchema::integer("Stack frame ID for context"));
    let schema = schema.with_optional("context", PropertySchema::string("Evaluation context: \"watch\", \"repl\", \"hover\", or \"clipboard\""));
    let t = tool("evaluate", "Evaluate expression", "Evaluate an expression in the debuggee's context (e.g. \"ptr->field\", \"x + y\"). Only available when halted.", schema);
    assert(spec_tool_17().required =~= spec_schema_required(t.input_schema));
    assert(spec_params_view(spec_tool_17().params) =~= spec_schema_properties(t.input_schema));
    assert(spec_tool_is(t, spec_tool_17()));
    let ghost before = tools@;
    tools.push(t);
    assert(spec_tools_prefix(tools@, 18)) by {
        assert(spec_all_tools()[17] == spec_tool_17());
        assert forall|j: int| 0 <= j < 18 implies spec_tool_is(#[trigger] tools@[j], spec_all_tools()[j]) by {
            if j < 17 {
                assert(tools@[j] == before[j]);
            }
        }
    }
    // set_variable
    let schema = object_schema();
    let schema = schema.with_required("variablesReference", PropertySchema::integer("Parent variables reference"));
    let schema = schema.with_required("name", PropertySchema::string("Variable name"));
    let schema = schema.with_required("value", PropertySchema::string("New value as a string"));
    let t = tool("set_variable", "Set variable", "Set a variable's value in the debuggee. Only available when halted.", schema);
    assert(spec_tool_18().required =~= spec_schema_required(t.input_schema));
    assert(spec_params_view(spec_tool_18().params) =~= spec_schema_properties(t.input_schema));
    assert(spec_tool_is(t, spec_tool_18()));
    let ghost before = tools@;
    tools.push(t);
    assert(spec_tools_prefix(tools@, 19)) by {
        assert(spec_all_tools()[18] == spec_tool_18());
        assert forall|j: int| 0 <= j < 19 implies spec_tool_is(#[trigger] tools@[j], spec_all_tools()[j]) by {
            if j < 18 {
                assert(tools@[j] == before[j]);
            }
        }
    }
    // assemble_context
    let schema = object_schema();
    let schema = schema.with_optional("threadId", PropertySchema::integer("Specific thread ID (default: all threads)"));
    let schema = schema.with_optional("maxFrames", PropertySchema::integer("Maximum frames per thread (default: 10)"));
    let schema = schema.with_optional("maxDepth", PropertySchema::integer("Maximum variable expansion depth (default: 2)"));
    let t = tool("assemble_context", "Assemble context", "Build a full debug context chain: threads → frames → scopes → variables. Returns nested data structure with all levels expanded up to the configured depth. Only available when halted.", schema);
    assert(spec_tool_19().required =~= spec_schema_required(t.input_schema));
    assert(spec_params_view(spec_tool_19().params) =~= spec_schema_properties(t.input_schema));
    assert(spec_tool_is(t, spec_tool_19()));
    let ghost before = tools@;
    tools.push(t);
    assert(spec_tools_prefix(tools@, 20)) by {
        assert(spec_all_tools()[19] == spec_tool_19());
        assert forall|j: int| 0 <= j < 20 implies spec_tool_is(#[trigger] tools@[j], spec_all_tools()[j]) by {
            if j < 19 {
                assert(tools@[j] == before[j]);
            }
        }
    }
    // search_variables
    let schema = object_schema();
    let schema = schema.with_required("query", PropertySchema::string("Search query (partial name matching)"));
    let schema = schema.with_optional("limit", PropertySchema::integer("Maximum results to return (default: 20)"));
    let t = tool("search_variables", "Search variables", "Search the variable handle cache by name (fuzzy, case-insensitive). Useful for finding variables across scopes and frames.", schema);
    assert(spec_tool_20().required =~= spec_schema_required(t.input_schema));
    assert(spec_params_view(spec_tool_20().params) =~= spec_schema_properties(t.input_schema));
    assert(spec_tool_is(t, spec_tool_20()));
    let ghost before = tools@;
    tools.push(t);
    assert(spec_tools_prefix(tools@, 21)) by {
        assert(spec_all_tools()[20] == spec_tool_20());
        assert forall|j: int| 0 <= j < 21 implies spec_tool_is(#[trigger] tools@[j], spec_all_tools()[j]) by {
            if j < 20 {
                assert(tools@[j] == before[j]);
            }
        }
    }
    // get_state
    let schema = object_schema();
    let t = tool("get_state", "Get session state", "Return the current session state, halt details, and list of available tools for the current state. Always available.", schema);
    assert(spec_tool_21().required =~= spec_schema_required(t.input_schema));
    assert(spec_params_view(spec_tool_21().params) =~= spec_schema_properties(t.input_schema));
    assert(spec_tool_is(t, spec_tool_21()));
    let ghost before = tools@;
    tools.push(t);
    assert(spec_tools_prefix(tools@, 22)) by {
        assert(spec_all_tools()[21] == spec_tool_21());
        assert forall|j: int| 0 <= j < 22 implies spec_tool_is(#[trigger] tools@[j], spec_all_tools()[j]) by {
            if j < 21 {
                assert(tools@[j] == before[j]);
            }
        }
    }
    // register_path_alias
    let schema = object_schema();
    let schema = schema.with_required("alias", PropertySchema::string("AI-relative path prefix (e.g. \"src/main.cpp\")"));
    let schema = schema.with_required("absolutePath", PropertySchema::string("Absolute system path (e.g. \"/home/user/project/src/main.cpp\")"));
    let t = tool("register_path_alias", "Register path alias", "Register a mapping from an AI-relative source path to an absolute system path. This enables setting breakpoints using short paths like \"src/main.cpp\".", schema);
    assert(spec_tool_22().required =~= spec_schema_required(t.input_schema));
    assert(spec_params_view(spec_tool_22().params) =~= spec_schema_properties(t.input_schema));
    assert(spec_tool_is(t, spec_tool_22()));
    let ghost before = tools@;
    tools.push(t);
    assert(spec_tools_prefix(tools@, 23)) by {
        assert(spec_all_tools()[22] == spec_tool_22());
        assert forall|j: int| 0 <= j < 23 implies spec_tool_is(#[trigger] tools@[j], spec_all_tools()[j]) by {
            if j < 22 {
                assert(tools@[j] == before[j]);
            }
        }
    }
    // register_base_dir
    let schema = object_schema();
    let schema = schema.with_required("dir", PropertySchema::string("Absolute path to a project root directory"));
    let t = tool("register_base_dir", "Register base directory", "Register a base directory for resolving relative source paths. Multiple base dirs can be registered; the first match wins.", schema);
    assert(spec_tool_23().required =~= spec_schema_required(t.input_schema));
    assert(spec_params_view(spec_tool_23().params) =~= spec_schema_properties(t.input_schema));
    assert(spec_tool_is(t, spec_tool_23()));
    let ghost before = tools@;
    tools.push(t);
    assert(spec_tools_prefix(tools@, 24)) by {
        assert(spec_all_tools()[23] == spec_tool_23());
        assert forall|j: int| 0 <= j < 24 implies spec_tool_is(#[trigger] tools@[j], spec_all_tools()[j]) by {
            if j < 23 {
                assert(tools@[j] == before[j]);
            }
        }
    }
    // openocd_start
    let schema = object_schema();
    let schema = schema.with_required("openocdPath", PropertySchema::string("Absolute path to the OpenOCD binary (e.g. \"/usr/bin/openocd\")"));
    let schema = schema.with_required("configFiles", PropertySchema::array_of("OpenOCD config files in order (e.g. [\"board/stm32f4discovery.cfg\"])", "string"));
    let schema = schema.with_optional("extraArgs", PropertySchema::array_of("Additional CLI arguments for OpenOCD (e.g. [\"-d\", \"2\"])", "string"));
    let schema = schema.with_optional("logDir", PropertySchema::string("Directory for stdout/stderr log files. If omitted, output is discarded."));
    let t = tool("openocd_start", "Start OpenOCD", "Launch the OpenOCD GDB server process with the specified config files. Optionally capture stdout/stderr to log files. OpenOCD must be started before launch with gdbRemote for embedded debugging.", schema);
    assert(spec_tool_24().required =~= spec_schema_required(t.input_schema));
    assert(spec_params_view(spec_tool_24().params) =~= spec_schema_properties(t.input_schema));
    assert(spec_tool_is(t, spec_tool_24()));
    let ghost before = tools@;
    tools.push(t);
    assert(spec_tools_prefix(tools@, 25)) by {
        assert(spec_all_tools()[24] == spec_tool_24());
        assert forall|j: int| 0 <= j < 25 implies spec_tool_is(#[trigger] tools@[j], spec_all_tools()[j]) by {
            if j < 24 {
                assert(tools@[j] == before[j]);
            }
        }
    }
    // openocd_stop
    let schema = object_schema();
    let t = tool("openocd_stop", "Stop OpenOCD", "Send the shutdown command to OpenOCD and terminate the process.", schema);
    assert(spec_tool_25().required =~= spec_schema_required(t.input_schema));
    assert(spec_params_view(spec_tool_25().params) =~= spec_schema_properties(t.input_schema));
    assert(spec_tool_is(t, spec_tool_25()));
    let ghost before = tools@;
    tools.push(t);
    assert(spec_tools_prefix(tools@, 26)) by {
        assert(spec_all_tools()[25] == spec_tool_25());
        assert forall|j: int| 0 <= j < 26 implies spec_tool_is(#[trigger] tools@[j], spec_all_tools()[j]) by {
            if j < 25 {
                assert(tools@[j] == before[j]);
            }
        }
    }
    // openocd_status
    let schema = object_schema();
    let t = tool("openocd_status", "Get OpenOCD status", "Returns whether OpenOCD is running, uptime, and log directory.", schema);
    assert(spec_tool_26().required =~= spec_schema_required(t.input_schema));
    assert(spec_params_view(spec_tool_26().params) =~= spec_schema_properties(t.input_schema));
    assert(spec_tool_is(t, spec_tool_26()));
    let ghost before = tools@;
    tools.push(t);
    assert(spec_tools_prefix(tools@, 27)) by {
        assert(spec_all_tools()[26] == spec_tool_26());
        assert forall|j: int| 0 <= j < 27 implies spec_tool_is(#[trigger] tools@[j], spec_all_tools()[j]) by {
            if j < 26 {
                assert(tools@[j] == before[j]);
            }
        }
    }
    // openocd_output
    let schema = object_schema();
    let schema = schema.with_optional("lines", PropertySchema::integer("Number of recent lines to return (default: 100)"));
    let schema = schema.with_optional("includeStderr", PropertySchema::boolean("Also include stderr lines (default: false)"));
    let t = tool("openocd_output", "Read OpenOCD output", "Read recent stdout (and optionally stderr) lines from the OpenOCD log files. Requires logDir to have been configured in openocd_start.", schema);
    assert(spec_tool_27().required =~= spec_schema_required(t.input_schema));
    assert(spec_params_view(spec_tool_27().params) =~= spec_schema_properties(t.input_schema));
    assert(spec_tool_is(t, spec_tool_27()));
    let ghost before = tools@;
    tools.push(t);
    assert(spec_tools_prefix(tools@, 28)) by {
        assert(spec_all_tools()[27] == spec_tool_27());
        assert forall|j: int| 0 <= j < 28 implies spec_tool_is(#[trigger] tools@[j], spec_all_tools()[j]) by {
            if j < 27 {
                assert(tools@[j] == before[j]);
            }
        }
    }
    // openocd_send
    let schema = object_schema();
    let schema = schema.with_required("command", PropertySchema::string("Tcl command to send (e.g. \"reset halt\", \"mdw 0x08000000 16\")"));
    let schema = schema.with_optional("timeoutMs", PropertySchema::integer("Response timeout in milliseconds (default: 5000)"));
    let t = tool("openocd_send", "Send OpenOCD command", "Send a raw Tcl command to OpenOCD and wait for the response. Useful for custom commands like 'reset halt', 'flash write_image', etc.", schema);
    assert(spec_tool_28().required =~= spec_schema_required(t.input_schema));
    assert(spec_params_view(spec_tool_28().params) =~= spec_schema_properties(t.input_schema));
    assert(spec_tool_is(t, spec_tool_28()));
    let ghost before = tools@;
    tools.push(t);
    assert(spec_tools_prefix(tools@, 29)) by {
        assert(spec_all_tools()[28] == spec_tool_28());
        assert forall|j: int| 0 <= j < 29 implies spec_tool_is(#[trigger] tools@[j], spec_all_tools()[j]) by {
            if j < 28 {
                assert(tools@[j] == before[j]);
            }
        }
    }
    tools
}

/// Whether a tool is gated: the gated tools are those named like a gated
/// session operation.
pub open spec fn spec_is_gated_tool(name: Seq<char>) -> bool {
    name == "start"@
        || name == "initialize"@
        || name == "launch"@
        || name == "attach"@
        || name == "configuration_done"@
        || name == "shutdown"@
        || name == "continue"@
        || name == "step_over"@
        || name == "step_in"@
        || name == "step_out"@
        || name == "pause"@
        || name == "set_breakpoints"@
        || name == "set_function_breakpoints"@
        || name == "get_threads"@
        || name == "get_stack_trace"@
        || name == "get_scopes"@
        || name == "get_variables"@
        || name == "evaluate"@
        || name == "set_variable"@
        || name == "assemble_context"@
}

/// The session operation that gates a tool: for a gated tool, the
/// operation of the same name; none for utility tools.
pub open spec fn spec_tool_operation(name: Seq<char>) -> Option<Seq<char>> {
    if spec_is_gated_tool(name) {
        Some(name)
    } else {
        None
    }
}

/// Map a tool name to its corresponding `ToolAvailability` operation name.
///
/// Returns `None` for utility tools that have no state gating.
pub fn tool_operation(name: &str) -> (r: Option<&'static str>)
    ensures
        match r {
            Some(op) => spec_tool_operation(name@) == Some(op@),
            None => spec_tool_operation(name@) is None,
        },
{

    if str_eq(name, "start") {
        return Some("start");
    }

    if str_eq(name, "initialize") {
        return Some("initialize");
    }

    if str_eq(name, "launch") {
        return Some("launch");
    }

    if str_eq(name, "attach") {
        return Some("attach");
    }

    if str_eq(name, "configuration_done") {
        return Some("configuration_done");
    }

    if str_eq(name, "shutdown") {
        return Some("shutdown");
    }

    if str_eq(name, "continue") {
        return Some("continue");
    }

    if str_eq(name, "step_over") {
        return Some("step_over");
    }

    if str_eq(name, "step_in") {
        return Some("step_in");
    }

    if str_eq(name, "step_out") {
        return Some("step_out");
    }

    if str_eq(name, "pause") {
        return Some("pause");
    }

    if str_eq(name, "set_breakpoints") {
        return Some("set_breakpoints");
    }

    if str_eq(name, "set_function_breakpoints") {
        return Some("set_function_breakpoints");
    }

    if str_eq(name, "get_threads") {
        return Some("get_threads");
    }

    if str_eq(name, "get_stack_trace") {
        return Some("get_stack_trace");
    }

    if str_eq(name, "get_scopes") {
        return Some("get_scopes");
    }

    if str_eq(name, "get_variables") {
        return Some("get_variables");
    }

    if str_eq(name, "evaluate") {
        return Some("evaluate");
    }

    if str_eq(name, "set_variable") {
        return Some("set_variable");
    }

    if str_eq(name, "assemble_context") {
        return Some("assemble_context");
    }

    None
}

// ── Laws ─────────────────────────────────────────────────────────────────

/// Every gated tool is gated by a known session operation, one that is
/// allowed in at least one state.
pub proof fn lemma_gated_tools_known(name: Seq<char>)
    requires
        spec_is_gated_tool(name),
    ensures
        spec_all_operations().contains(name),
        spec_allowed_states(name).len() > 0,
{
    let ops = spec_all_operations();
    if name == "start"@ { assert(ops[0] == name); }
    if name == "initialize"@ { assert(ops[1] == name); }
    if name == "launch"@ { assert(ops[2] == name); }
    if name == "attach"@ { assert(ops[3] == name); }
    if name == "configuration_done"@ { assert(ops[4] == name); }
    if name == "shutdown"@ { assert(ops[5] == name); }
    if name == "continue"@ { assert(ops[7] == name); }
    if name == "step_over"@ { assert(ops[8] == name); }
    if name == "step_in"@ { assert(ops[9] == name); }
    if name == "step_out"@ { assert(ops[10] == name); }
    if name == "pause"@ { assert(ops[11] == name); }
    if name == "set_breakpoints"@ { assert(ops[12] == name); }
    if name == "set_function_breakpoints"@ { assert(ops[13] == name); }
    if name == "get_threads"@ { assert(ops[15] == name); }
    if name == "get_stack_trace"@ { assert(ops[16] == name); }
    if name == "get_scopes"@ { assert(ops[17] == name); }
    if name == "get_variables"@ { assert(ops[18] == name); }
    if name == "evaluate"@ { assert(ops[19] == name); }
    if name == "set_variable"@ { assert(ops[20] == name); }
    if name == "assemble_context"@ { assert(ops[21] == name); }
    lemma_every_operation_gated();
    let k = choose|k: int| 0 <= k < ops.len() && ops[k] == name;
    assert(spec_allowed_states(ops[k]).len() > 0);
}

/// The names of the catalogue.
pub open spec fn spec_tool_names() -> Seq<Seq<char>> {
    spec_all_tools().map_values(|t: ToolSpec| t.name)
}

/// The tool names of the catalogue are pairwise distinct.
pub proof fn lemma_tool_names_distinct()
    ensures
        spec_tool_names().no_duplicates(),
{
    reveal_strlit("start");
    reveal_strlit("initialize");
    reveal_strlit("launch");
    reveal_strlit("attach");
    reveal_strlit("configuration_done");
    reveal_strlit("shutdown");
    reveal_strlit("continue");
    reveal_strlit("step_over");
    reveal_strlit("step_in");
    reveal_strlit("step_out");
    reveal_strlit("pause");
    reveal_strlit("set_breakpoints");
    reveal_strlit("set_function_breakpoints");
    reveal_strlit("get_threads");
    reveal_strlit("get_stack_trace");
    reveal_strlit("get_scopes");
    reveal_strlit("get_variables");
    reveal_strlit("evaluate");
    reveal_strlit("set_variable");
    reveal_strlit("assemble_context");
    reveal_strlit("search_variables");
    reveal_strlit("get_state");
    reveal_strlit("register_path_alias");
    reveal_strlit("register_base_dir");
    reveal_strlit("openocd_start");
    reveal_strlit("openocd_stop");
    reveal_strlit("openocd_status");
    reveal_strlit("openocd_output");
    reveal_strlit("openocd_send");
    let ns = spec_tool_names();
    assert forall|i: int, j: int| 0 <= i < ns.len() && 0 <= j < ns.len() && i != j implies ns[i]
        != ns[j] by {
        if ns[i] == ns[j] {
            assert(ns[i].len() == ns[j].len());
            assert(ns[i][0] == ns[j][0]);
            assert(ns[i][1] == ns[j][1]);
            assert(ns[i][2] == ns[j][2]);
            assert(ns[i][4] == ns[j][4]);
            assert(ns[i][5] == ns[j][5]);
            assert(ns[i][8] == ns[j][8]);
            assert(ns[i][ns[i].len() - 1] == ns[j][ns[j].len() - 1]);
            assert(ns[i][ns[i].len() - 2] == ns[j][ns[j].len() - 2]);
            assert(ns[i][ns[i].len() - 3] == ns[j][ns[j].len() - 3]);
        }
    }
}

} // verus!
