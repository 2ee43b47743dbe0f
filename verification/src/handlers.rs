//! The decisions the tool handlers make between parsing a tool call's
//! parameters and sending the DAP request: which adapter kind a name selects,
//! how the `initialize` and `launch` arguments are filled in, how breakpoint
//! and exception parameters become DAP arguments, and the text of the
//! handlers' replies.

use crate::cache::clone_opt_string;
use crate::client::AdapterKind;
use crate::dap::enums::{
    DataBreakpointAccessType, EvaluateContext, ExceptionBreakMode, VariableFilter,
};
use crate::dap::requests::{
    EvaluateArguments, InitializeRequestArguments, SetBreakpointsArguments,
    SetDataBreakpointsArguments, SetExceptionBreakpointsArguments,
    SetFunctionBreakpointsArguments,
};
use crate::dap::types::{
    DataBreakpoint, ExceptionFilterOptions, ExceptionOptions, ExceptionPathSegment,
    FunctionBreakpoint, Source, SourceBreakpoint, Thread,
};
use crate::json::JsonValue;
use crate::registry::BridgeError;
use crate::state::{spec_state_name, SessionState};
use crate::text::str_eq;
use vstd::prelude::*;
use vstd::string::*;

verus! {

// ── Small helpers ────────────────────────────────────────────────────────

/// Whether an optional string holds exactly the characters `s`.
pub open spec fn spec_opt_is(o: Option<String>, s: Seq<char>) -> bool {
    o matches Some(x) && x@ == s
}

/// Whether an optional string slice holds exactly the characters `s`.
pub open spec fn spec_opt_str_is(o: Option<&str>, s: Seq<char>) -> bool {
    o matches Some(x) && x@ == s
}

fn clone_strings(v: &Vec<String>) -> (r: Vec<String>)
    ensures
        r@ == v@,
{
    let mut r: Vec<String> = Vec::new();
    let mut i: usize = 0;
    while i < v.len()
        invariant
            i <= v.len(),
            r@ == v@.take(i as int),
        decreases v.len() - i,
    {
        r.push(v[i].clone());
        assert(r@ =~= v@.take(i + 1));
        i = i + 1;
    }
    assert(r@ =~= v@);
    r
}

fn opt_str_eq(o: Option<&str>, lit: &str) -> (r: bool)
    ensures
        r == spec_opt_str_is(o, lit@),
{
    match o {
        Some(s) => str_eq(s, lit),
        None => false,
    }
}

// ── start / initialize ───────────────────────────────────────────────────

/// The adapter kind a `start` call selects: "gdb" selects GDB, anything
/// else (including no name, or "codelldb") selects codelldb.
pub open spec fn spec_adapter_kind_from_name(name: Option<&str>) -> AdapterKind {
    if spec_opt_str_is(name, "gdb"@) {
        AdapterKind::Gdb
    } else {
        AdapterKind::Codelldb
    }
}

/// Chooses the adapter kind from the optional `adapterKind` parameter.
pub fn adapter_kind_from_name(name: Option<&str>) -> (r: AdapterKind)
    ensures
        r == spec_adapter_kind_from_name(name),
{
    if opt_str_eq(name, "gdb") {
        AdapterKind::Gdb
    } else {
        AdapterKind::Codelldb
    }
}

/// The adapter ID sent when the caller names none: "gdb" for a GDB adapter,
/// "lldb" for codelldb or when no adapter is known.
pub open spec fn spec_default_adapter_id(kind: Option<AdapterKind>) -> Seq<char> {
    match kind {
        Some(AdapterKind::Gdb) => "gdb"@,
        _ => "lldb"@,
    }
}

/// The adapter ID to use when the caller gave none.
pub fn default_adapter_id(kind: Option<AdapterKind>) -> (r: String)
    ensures
        r@ == spec_default_adapter_id(kind),
{
    match kind {
        Some(AdapterKind::Gdb) => String::from_str("gdb"),
        _ => String::from_str("lldb"),
    }
}

/// The `initialize` arguments the bridge sends: it identifies itself as
/// TeleDAP, uses 1-based lines and columns and plain paths, and announces
/// the client capabilities it supports.
pub fn initialize_arguments(adapter_id: Option<String>, kind: Option<AdapterKind>) -> (r:
    InitializeRequestArguments)
    ensures
        spec_opt_is(r.client_id, "teledap"@),
        spec_opt_is(r.client_name, "TeleDAP"@),
        match adapter_id {
            Some(a) => r.adapter_id == Some(a),
            None => spec_opt_is(r.adapter_id, spec_default_adapter_id(kind)),
        },
        spec_opt_is(r.locale, "en-US"@),
        r.lines_start_at1 == Some(true),
        r.columns_start_at1 == Some(true),
        spec_opt_is(r.path_format, "path"@),
        r.supports_variable_type == Some(true),
        r.supports_variable_paging == Some(false),
        r.supports_run_in_terminal_request == Some(false),
        r.supports_memory_references == Some(true),
        r.supports_progress_reporting == Some(true),
        r.supports_invalidated_event == Some(true),
        r.supports_memory_event == Some(true),
        r.supports_args_can_be_interpreted_by_shell is None,
        r.supports_start_debugging_request is None,
        r.supports_ansi_styling is None,
{
    let id = match adapter_id {
        Some(a) => a,
        None => default_adapter_id(kind),
    };
    InitializeRequestArguments {
        client_id: Some(String::from_str("teledap")),
        client_name: Some(String::from_str("TeleDAP")),
        adapter_id: Some(id),
        locale: Some(String::from_str("en-US")),
        lines_start_at1: Some(true),
        columns_start_at1: Some(true),
        path_format: Some(String::from_str("path")),
        supports_variable_type: Some(true),
        supports_variable_paging: Some(false),
        supports_run_in_terminal_request: Some(false),
        supports_memory_references: Some(true),
        supports_progress_reporting: Some(true),
        supports_invalidated_event: Some(true),
        supports_memory_event: Some(true),
        supports_args_can_be_interpreted_by_shell: None,
        supports_start_debugging_request: None,
        supports_ansi_styling: None,
    }
}

/// The name of an adapter kind as the `start` reply shows it.
pub open spec fn spec_adapter_kind_name(kind: AdapterKind) -> Seq<char> {
    match kind {
        AdapterKind::Codelldb => "Codelldb"@,
        AdapterKind::Gdb => "Gdb"@,
    }
}

/// The reply to a successful `start`.
pub fn start_message(kind: AdapterKind, state: SessionState) -> (r: String)
    ensures
        r@ == "Debug adapter process started (kind: "@ + spec_adapter_kind_name(kind)
            + "). State: "@ + spec_state_name(state),
{
    let mut r = String::from_str("Debug adapter process started (kind: ");
    match kind {
        AdapterKind::Codelldb => r.append("Codelldb"),
        AdapterKind::Gdb => r.append("Gdb"),
    }
    r.append("). State: ");
    r.append(state.as_str());
    r
}

/// The reply to a successful `configuration_done`.
pub fn configuration_done_message(state: SessionState) -> (r: String)
    ensures
        r@ == "Configuration done. State: "@ + spec_state_name(state),
{
    let mut r = String::from_str("Configuration done. State: ");
    r.append(state.as_str());
    r
}

// ── launch ───────────────────────────────────────────────────────────────

/// How a remote target is handed to the adapter.
pub enum RemoteTarget {
    /// GDB's DAP mode reads the `target` field, e.g. "remote host:port".
    Target(String),
    /// codelldb runs `processCreateCommands`, e.g. ["gdb-remote host:port"].
    ProcessCreateCommands(Vec<String>),
}

/// The fields of a `launch` request's adapter-specific part.
pub struct LaunchPlan {
    /// The program to launch, after path resolution.
    pub program: String,
    pub stop_on_entry: bool,
    pub remote: Option<RemoteTarget>,
    pub args: Option<Vec<String>>,
    pub env: Option<JsonValue>,
}

/// Whether `r` hands the remote `remote` to an adapter of kind `kind`.
pub open spec fn spec_remote_for(r: RemoteTarget, remote: Seq<char>, kind: Option<AdapterKind>) -> bool {
    match kind {
        Some(AdapterKind::Gdb) => r matches RemoteTarget::Target(t) && t@ == "remote "@ + remote,
        _ => r matches RemoteTarget::ProcessCreateCommands(cmds) && cmds@.len() == 1 && cmds@[0]@
            == "gdb-remote "@ + remote,
    }
}

/// Builds the adapter-specific `launch` fields: the resolved program,
/// `stopOnEntry` (false unless asked for), the remote target in the form the
/// adapter understands, and the program's arguments and environment as given.
pub fn launch_plan(
    program: String,
    stop_on_entry: Option<bool>,
    gdb_remote: Option<&str>,
    kind: Option<AdapterKind>,
    args: Option<Vec<String>>,
    env: Option<JsonValue>,
) -> (r: LaunchPlan)
    ensures
        r.program == program,
        r.stop_on_entry == (stop_on_entry == Some(true)),
        match gdb_remote {
            Some(remote) => r.remote matches Some(t) && spec_remote_for(t, remote@, kind),
            None => r.remote is None,
        },
        r.args == args,
        r.env == env,
{
    let soe = match stop_on_entry {
        Some(b) => b,
        None => false,
    };
    let remote = match gdb_remote {
        Some(rm) => match kind {
            Some(AdapterKind::Gdb) => {
                let mut t = String::from_str("remote ");
                t.append(rm);
                Some(RemoteTarget::Target(t))
            },
            _ => {
                let mut c = String::from_str("gdb-remote ");
                c.append(rm);
                let mut cmds: Vec<String> = Vec::new();
                cmds.push(c);
                Some(RemoteTarget::ProcessCreateCommands(cmds))
            },
        },
        None => None,
    };
    LaunchPlan { program, stop_on_entry: soe, remote, args, env }
}

/// The reply to a successful `launch`.
pub fn launch_message(program: &str) -> (r: String)
    ensures
        r@ == "Launch command sent for: "@ + program@ + ". Waiting for initialized event."@,
{
    let mut r = String::from_str("Launch command sent for: ");
    r.append(program);
    r.append(". Waiting for initialized event.");
    r
}

// ── utility tools ────────────────────────────────────────────────────────

/// The reply to `register_path_alias`.
pub fn path_alias_message(alias: &str, absolute_path: &str) -> (r: String)
    ensures
        r@ == "Path alias registered: \""@ + alias@ + "\" → \""@ + absolute_path@ + "\""@,
{
    let mut r = String::from_str("Path alias registered: \"");
    r.append(alias);
    r.append("\" → \"");
    r.append(absolute_path);
    r.append("\"");
    r
}

/// The reply to `register_base_dir`.
pub fn base_dir_message(dir: &str) -> (r: String)
    ensures
        r@ == "Base directory registered: \""@ + dir@ + "\""@,
{
    let mut r = String::from_str("Base directory registered: \"");
    r.append(dir);
    r.append("\"");
    r
}


// ── set_breakpoints ──────────────────────────────────────────────────────

/// One entry of a `set_breakpoints` call.
pub struct BpItem {
    pub line: u64,
    pub column: Option<u64>,
    pub condition: Option<String>,
    pub hit_condition: Option<String>,
    pub log_message: Option<String>,
    pub mode: Option<String>,
}

/// The parameters of a `set_breakpoints` call.
pub struct SetBreakpointsParams {
    pub source_path: String,
    pub breakpoints: Vec<BpItem>,
}

/// The DAP source breakpoint an entry stands for: the same fields, one for one.
pub open spec fn spec_source_breakpoint(b: BpItem) -> SourceBreakpoint {
    SourceBreakpoint {
        line: b.line,
        column: b.column,
        condition: b.condition,
        hit_condition: b.hit_condition,
        log_message: b.log_message,
        mode: b.mode,
    }
}

impl BpItem {
    /// The DAP source breakpoint for this entry.
    pub fn to_source_breakpoint(&self) -> (r: SourceBreakpoint)
        ensures
            r == spec_source_breakpoint(*self),
    {
        SourceBreakpoint {
            line: self.line,
            column: self.column,
            condition: clone_opt_string(&self.condition),
            hit_condition: clone_opt_string(&self.hit_condition),
            log_message: clone_opt_string(&self.log_message),
            mode: clone_opt_string(&self.mode),
        }
    }
}

/// The source breakpoints for a list of entries, in order.
pub fn source_breakpoints_of(items: &Vec<BpItem>) -> (r: Vec<SourceBreakpoint>)
    ensures
        r@ == items@.map_values(|b: BpItem| spec_source_breakpoint(b)),
{
    let mut r: Vec<SourceBreakpoint> = Vec::new();
    let mut i: usize = 0;
    while i < items.len()
        invariant
            i <= items.len(),
            r@ == items@.take(i as int).map_values(|b: BpItem| spec_source_breakpoint(b)),
        decreases items.len() - i,
    {
        let b = items[i].to_source_breakpoint();
        r.push(b);
        assert(r@ =~= items@.take(i + 1).map_values(|b: BpItem| spec_source_breakpoint(b)));
        i = i + 1;
    }
    assert(items@.take(items.len() as int) =~= items@);
    r
}

/// A source known only by its path: both its name and its path are `path`.
pub open spec fn spec_source_at(s: Source, path: Seq<char>) -> bool {
    &&& spec_opt_is(s.name, path)
    &&& spec_opt_is(s.path, path)
    &&& s.source_reference is None
    &&& s.presentation_hint is None
    &&& s.origin is None
    &&& s.sources is None
    &&& s.adapter_data is None
    &&& s.checksums is None
}

/// The source a breakpoint path names.
pub fn source_at(path: &str) -> (r: Source)
    ensures
        spec_source_at(r, path@),
{
    Source {
        name: Some(String::from_str(path)),
        path: Some(String::from_str(path)),
        source_reference: None,
        presentation_hint: None,
        origin: None,
        sources: None,
        adapter_data: None,
        checksums: None,
    }
}

impl SetBreakpointsParams {
    /// The `setBreakpoints` arguments for these parameters, given the path
    /// the source path resolved to: the source named and located by the
    /// resolved path, and one source breakpoint per entry.
    pub fn to_arguments(&self, resolved: &str) -> (r: SetBreakpointsArguments)
        ensures
            spec_source_at(r.source, resolved@),
            r.breakpoints matches Some(b) && b@ == self.breakpoints@.map_values(
                |b: BpItem| spec_source_breakpoint(b),
            ),
            r.lines is None,
            r.source_modified is None,
    {
        SetBreakpointsArguments {
            source: source_at(resolved),
            breakpoints: Some(source_breakpoints_of(&self.breakpoints)),
            lines: None,
            source_modified: None,
        }
    }
}

// ── set_function_breakpoints ─────────────────────────────────────────────

/// One entry of the per-function format of `set_function_breakpoints`.
pub struct FnBpItem {
    pub name: String,
    pub condition: Option<String>,
    pub hit_condition: Option<String>,
    pub mode: Option<String>,
}

/// The parameters of a `set_function_breakpoints` call, in either format:
/// per-function entries, or a list of names sharing one condition.
pub struct SetFunctionBreakpointsParams {
    pub breakpoints: Option<Vec<FnBpItem>>,
    pub names: Option<Vec<String>>,
    pub condition: Option<String>,
    pub hit_condition: Option<String>,
}

/// The function breakpoint a per-function entry stands for.
pub open spec fn spec_fn_breakpoint(b: FnBpItem) -> FunctionBreakpoint {
    FunctionBreakpoint { name: b.name, condition: b.condition, hit_condition: b.hit_condition }
}

/// The function breakpoint for a name in the legacy format.
pub open spec fn spec_named_fn_breakpoint(
    name: String,
    condition: Option<String>,
    hit_condition: Option<String>,
) -> FunctionBreakpoint {
    FunctionBreakpoint { name, condition, hit_condition }
}

/// The text of the error for a call that gives neither format.
pub open spec fn spec_missing_fn_bp_message() -> Seq<char> {
    "Either 'breakpoints' (new per-function format) or 'names' (legacy format) is required"@
}

impl SetFunctionBreakpointsParams {
    /// The function breakpoints these parameters ask for. The per-function
    /// entries win when both formats are given; with neither, the call is
    /// refused as invalid.
    pub fn to_arguments(&self) -> (r: Result<SetFunctionBreakpointsArguments, BridgeError>)
        ensures
            match self.breakpoints {
                Some(items) => r matches Ok(a) && a.breakpoints@ == items@.map_values(
                    |b: FnBpItem| spec_fn_breakpoint(b),
                ),
                None => match self.names {
                    Some(names) => r matches Ok(a) && a.breakpoints@ == names@.map_values(
                        |n: String| spec_named_fn_breakpoint(n, self.condition, self.hit_condition),
                    ),
                    None => r matches Err(BridgeError::InvalidParams { tool, message }) && tool@
                        == "set_function_breakpoints"@ && message@ == spec_missing_fn_bp_message(),
                },
            },
    {
        match &self.breakpoints {
            Some(items) => {
                let mut r: Vec<FunctionBreakpoint> = Vec::new();
                let mut i: usize = 0;
                while i < items.len()
                    invariant
                        i <= items.len(),
                        r@ == items@.take(i as int).map_values(|b: FnBpItem| spec_fn_breakpoint(b)),
                    decreases items.len() - i,
                {
                    let b = FunctionBreakpoint {
                        name: items[i].name.clone(),
                        condition: clone_opt_string(&items[i].condition),
                        hit_condition: clone_opt_string(&items[i].hit_condition),
                    };
                    r.push(b);
                    assert(r@ =~= items@.take(i + 1).map_values(
                        |b: FnBpItem| spec_fn_breakpoint(b),
                    ));
                    i = i + 1;
                }
                assert(items@.take(items.len() as int) =~= items@);
                Ok(SetFunctionBreakpointsArguments { breakpoints: r })
            },
            None => match &self.names {
                Some(names) => {
                    let mut r: Vec<FunctionBreakpoint> = Vec::new();
                    let mut i: usize = 0;
                    while i < names.len()
                        invariant
                            i <= names.len(),
                            r@ == names@.take(i as int).map_values(
                                |n: String| spec_named_fn_breakpoint(
                                    n,
                                    self.condition,
                                    self.hit_condition,
                                ),
                            ),
                        decreases names.len() - i,
                    {
                        let b = FunctionBreakpoint {
                            name: names[i].clone(),
                            condition: clone_opt_string(&self.condition),
                            hit_condition: clone_opt_string(&self.hit_condition),
                        };
                        r.push(b);
                        assert(r@ =~= names@.take(i + 1).map_values(
                            |n: String| spec_named_fn_breakpoint(
                                n,
                                self.condition,
                                self.hit_condition,
                            ),
                        ));
                        i = i + 1;
                    }
                    assert(names@.take(names.len() as int) =~= names@);
                    Ok(SetFunctionBreakpointsArguments { breakpoints: r })
                },
                None => Err(
                    BridgeError::InvalidParams {
                        tool: String::from_str("set_function_breakpoints"),
                        message: String::from_str(
                            "Either 'breakpoints' (new per-function format) or 'names' (legacy format) is required",
                        ),
                    },
                ),
            },
        }
    }
}

// ── set_data_breakpoints ─────────────────────────────────────────────────

/// One entry of a `set_data_breakpoints` call.
pub struct DataBpItem {
    pub data_id: String,
    pub access_type: Option<String>,
    pub condition: Option<String>,
    pub hit_condition: Option<String>,
}

/// The parameters of a `set_data_breakpoints` call.
pub struct SetDataBreakpointsParams {
    pub breakpoints: Vec<DataBpItem>,
}

/// The access type a name selects: "read", "write", and "readWrite" with
/// its spellings "readwrite" and "read_write"; any other name selects none.
pub open spec fn spec_access_type(name: Option<String>) -> Option<DataBreakpointAccessType> {
    if spec_opt_is(name, "read"@) {
        Some(DataBreakpointAccessType::Read)
    } else if spec_opt_is(name, "write"@) {
        Some(DataBreakpointAccessType::Write)
    } else if spec_opt_is(name, "readWrite"@) || spec_opt_is(name, "readwrite"@) || spec_opt_is(
        name,
        "read_write"@,
    ) {
        Some(DataBreakpointAccessType::ReadWrite)
    } else {
        None
    }
}

/// The DAP data breakpoint an entry stands for.
pub open spec fn spec_data_breakpoint(b: DataBpItem) -> DataBreakpoint {
    DataBreakpoint {
        data_id: b.data_id,
        access_type: spec_access_type(b.access_type),
        condition: b.condition,
        hit_condition: b.hit_condition,
    }
}

impl DataBpItem {
    /// The access type this entry names, if it names a known one.
    pub fn parse_access_type(&self) -> (r: Option<DataBreakpointAccessType>)
        ensures
            r == spec_access_type(self.access_type),
    {
        match &self.access_type {
            Some(s) => {
                let s = s.as_str();
                if str_eq(s, "read") {
                    Some(DataBreakpointAccessType::Read)
                } else if str_eq(s, "write") {
                    Some(DataBreakpointAccessType::Write)
                } else if str_eq(s, "readWrite") || str_eq(s, "readwrite") || str_eq(
                    s,
                    "read_write",
                ) {
                    Some(DataBreakpointAccessType::ReadWrite)
                } else {
                    None
                }
            },
            None => None,
        }
    }
}

impl SetDataBreakpointsParams {
    /// The `setDataBreakpoints` arguments: one data breakpoint per entry.
    pub fn to_arguments(&self) -> (r: SetDataBreakpointsArguments)
        ensures
            r.breakpoints@ == self.breakpoints@.map_values(|b: DataBpItem| spec_data_breakpoint(b)),
    {
        let items = &self.breakpoints;
        let mut r: Vec<DataBreakpoint> = Vec::new();
        let mut i: usize = 0;
        while i < items.len()
            invariant
                i <= items.len(),
                r@ == items@.take(i as int).map_values(|b: DataBpItem| spec_data_breakpoint(b)),
            decreases items.len() - i,
        {
            let b = DataBreakpoint {
                data_id: items[i].data_id.clone(),
                access_type: items[i].parse_access_type(),
                condition: clone_opt_string(&items[i].condition),
                hit_condition: clone_opt_string(&items[i].hit_condition),
            };
            r.push(b);
            assert(r@ =~= items@.take(i + 1).map_values(|b: DataBpItem| spec_data_breakpoint(b)));
            i = i + 1;
        }
        assert(items@.take(items.len() as int) =~= items@);
        SetDataBreakpointsArguments { breakpoints: r }
    }
}

// ── set_exception_breakpoints ────────────────────────────────────────────

/// One exception filter of a `set_exception_breakpoints` call.
pub struct ExceptionBpItem {
    pub filter: String,
    /// Whether the filter is switched on (the call's default is on).
    pub enabled: bool,
    pub condition: Option<String>,
    pub mode: Option<String>,
}

/// The parameters of a `set_exception_breakpoints` call.
pub struct SetExceptionBreakpointsParams {
    pub breakpoints: Vec<ExceptionBpItem>,
    pub break_mode: Option<String>,
    pub exception_path_names: Option<Vec<String>>,
    pub exception_path_negate: Option<bool>,
}

/// The filter IDs of the enabled entries, in order.
pub open spec fn spec_enabled_filters(items: Seq<ExceptionBpItem>) -> Seq<String>
    decreases items.len(),
{
    if items.len() == 0 {
        Seq::empty()
    } else {
        let rest = spec_enabled_filters(items.drop_last());
        if items.last().enabled {
            rest.push(items.last().filter)
        } else {
            rest
        }
    }
}

/// The filter options of the entries that carry a condition or a mode, in
/// order.
pub open spec fn spec_filter_options(items: Seq<ExceptionBpItem>) -> Seq<ExceptionFilterOptions>
    decreases items.len(),
{
    if items.len() == 0 {
        Seq::empty()
    } else {
        let rest = spec_filter_options(items.drop_last());
        let b = items.last();
        if b.condition is Some || b.mode is Some {
            rest.push(ExceptionFilterOptions { filter_id: b.filter, condition: b.condition, mode: b.mode })
        } else {
            rest
        }
    }
}

/// The break mode a name selects: "never", "always", "unhandled", and
/// "userUnhandled" (or "user_unhandled"); any other name selects "unhandled".
pub open spec fn spec_break_mode(name: Seq<char>) -> ExceptionBreakMode {
    if name == "never"@ {
        ExceptionBreakMode::Never
    } else if name == "always"@ {
        ExceptionBreakMode::Always
    } else if name == "userUnhandled"@ || name == "user_unhandled"@ {
        ExceptionBreakMode::UserUnhandled
    } else {
        ExceptionBreakMode::Unhandled
    }
}

/// The break mode named by `name`.
pub fn parse_break_mode(name: &str) -> (r: ExceptionBreakMode)
    ensures
        r == spec_break_mode(name@),
{
    proof {
        reveal_strlit("unhandled");
        reveal_strlit("userUnhandled");
        reveal_strlit("user_unhandled");
        assert("unhandled"@.len() == 9);
        assert("userUnhandled"@.len() == 13);
        assert("user_unhandled"@.len() == 14);
    }
    if str_eq(name, "never") {
        ExceptionBreakMode::Never
    } else if str_eq(name, "always") {
        ExceptionBreakMode::Always
    } else if str_eq(name, "unhandled") {
        ExceptionBreakMode::Unhandled
    } else if str_eq(name, "userUnhandled") || str_eq(name, "user_unhandled") {
        ExceptionBreakMode::UserUnhandled
    } else {
        ExceptionBreakMode::Unhandled
    }
}

/// Whether `o` is the single exception option for break mode `mode`, with
/// the path segment made of `names` and `negate` when names are given.
pub open spec fn spec_exception_option(
    o: ExceptionOptions,
    mode: Seq<char>,
    names: Option<Vec<String>>,
    negate: Option<bool>,
) -> bool {
    &&& o.break_mode == spec_break_mode(mode)
    &&& match names {
        Some(n) => o.path matches Some(p) && p@.len() == 1 && p@[0].negate == negate && p@[0].names@
            == n@,
        None => o.path is None,
    }
}

impl SetExceptionBreakpointsParams {
    /// The `setExceptionBreakpoints` arguments: the enabled filters, the
    /// filter options of the entries with a condition or mode (none at all
    /// when no entry has one), and, when a break mode is given, one exception
    /// option with that mode and the optional exception path.
    pub fn to_arguments(&self) -> (r: SetExceptionBreakpointsArguments)
        ensures
            r.filters@ == spec_enabled_filters(self.breakpoints@),
            if spec_filter_options(self.breakpoints@).len() == 0 {
                r.filter_options is None
            } else {
                r.filter_options matches Some(v) && v@ == spec_filter_options(self.breakpoints@)
            },
            match self.break_mode {
                Some(m) => r.exception_options matches Some(v) && v@.len() == 1
                    && spec_exception_option(
                    v@[0],
                    m@,
                    self.exception_path_names,
                    self.exception_path_negate,
                ),
                None => r.exception_options is None,
            },
    {
        let items = &self.breakpoints;
        let mut filters: Vec<String> = Vec::new();
        let mut options: Vec<ExceptionFilterOptions> = Vec::new();
        let mut i: usize = 0;
        while i < items.len()
            invariant
                i <= items.len(),
                filters@ == spec_enabled_filters(items@.take(i as int)),
                options@ == spec_filter_options(items@.take(i as int)),
            decreases items.len() - i,
        {
            assert(items@.take(i + 1).drop_last() =~= items@.take(i as int));
            let b = &items[i];
            if b.enabled {
                filters.push(b.filter.clone());
            }
            if b.condition.is_some() || b.mode.is_some() {
                options.push(
                    ExceptionFilterOptions {
                        filter_id: b.filter.clone(),
                        condition: clone_opt_string(&b.condition),
                        mode: clone_opt_string(&b.mode),
                    },
                );
            }
            i = i + 1;
        }
        assert(items@.take(items.len() as int) =~= items@);
        let filter_options = if options.len() == 0 {
            None
        } else {
            Some(options)
        };
        let exception_options = match &self.break_mode {
            Some(m) => {
                let break_mode = parse_break_mode(m.as_str());
                let path = match &self.exception_path_names {
                    Some(names) => {
                        let mut segs: Vec<ExceptionPathSegment> = Vec::new();
                        segs.push(
                            ExceptionPathSegment {
                                negate: self.exception_path_negate,
                                names: clone_strings(names),
                            },
                        );
                        Some(segs)
                    },
                    None => None,
                };
                let mut v: Vec<ExceptionOptions> = Vec::new();
                v.push(ExceptionOptions { path, break_mode });
                Some(v)
            },
            None => None,
        };
        SetExceptionBreakpointsArguments { filters, filter_options, exception_options }
    }
}

// ── get_variables / evaluate ─────────────────────────────────────────────

/// The variable filter a name selects: "named" or "indexed"; any other name,
/// or none, selects no filter.
pub open spec fn spec_variable_filter(name: Option<&str>) -> Option<VariableFilter> {
    if spec_opt_str_is(name, "named"@) {
        Some(VariableFilter::Named)
    } else if spec_opt_str_is(name, "indexed"@) {
        Some(VariableFilter::Indexed)
    } else {
        None
    }
}

/// The variable filter named by the optional `filter` parameter.
pub fn parse_variable_filter(name: Option<&str>) -> (r: Option<VariableFilter>)
    ensures
        r == spec_variable_filter(name),
{
    if opt_str_eq(name, "named") {
        Some(VariableFilter::Named)
    } else if opt_str_eq(name, "indexed") {
        Some(VariableFilter::Indexed)
    } else {
        None
    }
}

/// The evaluation context a name selects: "watch", "repl", "hover" or
/// "clipboard"; any other name, or none, selects no context.
pub open spec fn spec_evaluate_context(name: Option<&str>) -> Option<EvaluateContext> {
    if spec_opt_str_is(name, "watch"@) {
        Some(EvaluateContext::Watch)
    } else if spec_opt_str_is(name, "repl"@) {
        Some(EvaluateContext::Repl)
    } else if spec_opt_str_is(name, "hover"@) {
        Some(EvaluateContext::Hover)
    } else if spec_opt_str_is(name, "clipboard"@) {
        Some(EvaluateContext::Clipboard)
    } else {
        None
    }
}

/// The evaluation context named by the optional `context` parameter.
pub fn parse_evaluate_context(name: Option<&str>) -> (r: Option<EvaluateContext>)
    ensures
        r == spec_evaluate_context(name),
{
    if opt_str_eq(name, "watch") {
        Some(EvaluateContext::Watch)
    } else if opt_str_eq(name, "repl") {
        Some(EvaluateContext::Repl)
    } else if opt_str_eq(name, "hover") {
        Some(EvaluateContext::Hover)
    } else if opt_str_eq(name, "clipboard") {
        Some(EvaluateContext::Clipboard)
    } else {
        None
    }
}

/// The `evaluate` arguments for an expression, an optional frame and an
/// optional context name; no position, source or format is sent.
pub fn evaluate_arguments(expression: String, frame_id: Option<u64>, context: Option<&str>) -> (r:
    EvaluateArguments)
    ensures
        r.expression == expression,
        r.frame_id == frame_id,
        r.context == spec_evaluate_context(context),
        r.line is None,
        r.column is None,
        r.source is None,
        r.format is None,
{
    EvaluateArguments {
        expression,
        frame_id,
        line: None,
        column: None,
        source: None,
        context: parse_evaluate_context(context),
        format: None,
    }
}

// ── assemble_context / search_variables ──────────────────────────────────

/// How many stack frames `assemble_context` fetches per thread by default.
pub const DEFAULT_CONTEXT_FRAMES: usize = 10;

/// How deep `assemble_context` expands variables by default.
pub const DEFAULT_CONTEXT_DEPTH: usize = 2;

/// How many children `assemble_context` fetches for an expanded variable.
pub const CONTEXT_CHILD_COUNT: u64 = 50;

/// How many matches `search_variables` returns by default.
pub const DEFAULT_SEARCH_LIMIT: usize = 20;

/// The parameters of an `assemble_context` call.
pub struct AssembleContextParams {
    pub thread_id: Option<u64>,
    pub max_frames: Option<usize>,
    pub max_depth: Option<usize>,
}

impl AssembleContextParams {
    /// The number of frames to fetch per thread: the one asked for, or the
    /// default.
    pub open spec fn spec_frames(self) -> usize {
        match self.max_frames {
            Some(n) => n,
            None => DEFAULT_CONTEXT_FRAMES,
        }
    }

    /// The depth to which variables are expanded: the one asked for, or the
    /// default.
    pub open spec fn spec_depth(self) -> usize {
        match self.max_depth {
            Some(n) => n,
            None => DEFAULT_CONTEXT_DEPTH,
        }
    }

    /// The number of frames to fetch per thread.
    pub fn frames(&self) -> (r: usize)
        ensures
            r == self.spec_frames(),
    {
        match self.max_frames {
            Some(n) => n,
            None => DEFAULT_CONTEXT_FRAMES,
        }
    }

    /// The depth to which variables are expanded.
    pub fn depth(&self) -> (r: usize)
        ensures
            r == self.spec_depth(),
    {
        match self.max_depth {
            Some(n) => n,
            None => DEFAULT_CONTEXT_DEPTH,
        }
    }

    /// The threads to describe: the one asked for, or all of them.
    pub fn select_threads(&self, threads: Vec<Thread>) -> (r: Vec<Thread>)
        ensures
            r@ == match self.thread_id {
                Some(tid) => threads@.filter(|t: Thread| t.id == tid),
                None => threads@,
            },
    {
        match self.thread_id {
            None => threads,
            Some(tid) => {
                let ghost pred = |t: Thread| t.id == tid;
                let mut rest = threads;
                let ghost all = rest@;
                let n = rest.len();
                let mut r: Vec<Thread> = Vec::new();
                let mut i: usize = 0;
                while rest.len() > 0
                    invariant
                        all.len() == n,
                        i + rest@.len() == all.len(),
                        rest@ == all.skip(i as int),
                        pred == (|t: Thread| t.id == tid),
                        r@ == all.take(i as int).filter(pred),
                    decreases rest@.len(),
                {
                    let t = rest.remove(0);
                    assert(all.take(i + 1).drop_last() =~= all.take(i as int));
                    assert(all.take(i + 1).last() == t);
                    reveal(Seq::filter);
                    if t.id == tid {
                        r.push(t);
                    }
                    assert(rest@ =~= all.skip(i + 1));
                    i = i + 1;
                }
                assert(all.take(i as int) =~= all);
                r
            },
        }
    }

    /// Whether the variables of a scope are fetched: the scope must have
    /// variables to fetch.
    pub fn fetches_scope(&self, variables_reference: u64) -> (r: bool)
        ensures
            r == (variables_reference > 0),
    {
        variables_reference > 0
    }

    /// Whether the children of a variable are fetched: it must have children
    /// and the expansion must go deeper than the top level.
    pub fn expands_children(&self, variables_reference: u64) -> (r: bool)
        ensures
            r == (variables_reference > 0 && self.spec_depth() > 1),
    {
        variables_reference > 0 && self.depth() > 1
    }
}

// ── get_state ────────────────────────────────────────────────────────────

/// What `get_state` reports: the state, the operations and tools available
/// in it, and whether the adapter's capabilities are included.
pub struct StateReport {
    pub state: SessionState,
    pub available_operations: Vec<&'static str>,
    pub available_tools: Vec<String>,
    pub include_capabilities: bool,
}

/// The report for `state`; the capabilities are left out when the detail
/// asked for is "simple".
pub fn state_report(state: SessionState, detail: Option<&str>) -> (r: StateReport)
    ensures
        r.state == state,
        r.available_operations@.map_values(|p: &str| p@)
            == crate::gating::spec_operations_for_state(state),
        r.available_tools@.len() == crate::registry::spec_visible_tools(state).len(),
        forall|j: int|
            0 <= j < r.available_tools@.len() ==> (#[trigger] r.available_tools@[j])@
                == crate::registry::spec_visible_tools(state)[j].name,
        r.include_capabilities == !spec_opt_str_is(detail, "simple"@),
{
    let ops = crate::gating::ToolAvailability::operations_for_state(state);
    let tools = crate::registry::ToolRegistry::list_tools_for_state(state);
    let ghost vis = crate::registry::spec_visible_tools(state);
    let mut names: Vec<String> = Vec::new();
    let mut i: usize = 0;
    while i < tools.len()
        invariant
            i <= tools.len(),
            tools@.len() == vis.len(),
            forall|j: int|
                0 <= j < tools@.len() ==> crate::tools::spec_tool_is(#[trigger] tools@[j], vis[j]),
            names@.len() == i,
            forall|j: int| 0 <= j < i ==> (#[trigger] names@[j])@ == vis[j].name,
        decreases tools.len() - i,
    {
        assert(crate::tools::spec_tool_is(tools@[i as int], vis[i as int]));
        names.push(tools[i].name.clone());
        i = i + 1;
    }
    StateReport {
        state,
        available_operations: ops,
        available_tools: names,
        include_capabilities: !opt_str_eq(detail, "simple"),
    }
}

// ── OpenOCD tools ────────────────────────────────────────────────────────

/// How many output lines `openocd_output` returns by default.
pub const DEFAULT_OUTPUT_LINES: usize = 100;

/// How long `openocd_send` waits for a reply by default, in milliseconds.
pub const DEFAULT_SEND_TIMEOUT_MS: u64 = 5000;

/// The text of the error when the OpenOCD handle is held by another call.
pub open spec fn spec_openocd_busy_message() -> Seq<char> {
    "OpenOCD is busy, try again later."@
}

/// The text of the error when no OpenOCD process is running.
pub open spec fn spec_openocd_not_running_message() -> Seq<char> {
    "OpenOCD is not running. Call openocd_start first."@
}

/// Whether a tool that needs the running OpenOCD may go on: it may not while
/// the handle is busy, nor while no OpenOCD runs.
pub fn require_openocd(busy: bool, running: bool) -> (r: Result<(), BridgeError>)
    ensures
        busy ==> (r matches Err(BridgeError::Internal(m)) && m@ == spec_openocd_busy_message()),
        !busy && !running ==> (r matches Err(BridgeError::Internal(m)) && m@
            == spec_openocd_not_running_message()),
        !busy && running ==> r is Ok,
{
    if busy {
        Err(BridgeError::Internal(String::from_str("OpenOCD is busy, try again later.")))
    } else if !running {
        Err(
            BridgeError::Internal(
                String::from_str("OpenOCD is not running. Call openocd_start first."),
            ),
        )
    } else {
        Ok(())
    }
}

/// The reply to a successful `openocd_start`.
pub fn openocd_started_message(config_files: &Vec<String>, log_dir: Option<&str>) -> (r: String)
    ensures
        r@ == "OpenOCD started with config(s): "@ + crate::text::spec_join(
            config_files@.map_values(|p: String| p@),
            ", "@,
        ) + "."@ + match log_dir {
            Some(d) => " Output logged to "@ + d@,
            None => Seq::<char>::empty(),
        },
{
    let mut r = String::from_str("OpenOCD started with config(s): ");
    let joined = crate::text::join_strings(config_files, ", ");
    r.append(joined.as_str());
    r.append(".");
    match log_dir {
        Some(d) => {
            r.append(" Output logged to ");
            r.append(d);
        },
        None => {},
    }
    r
}

} // verus!
