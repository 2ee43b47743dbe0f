//! Tool availability gating: maps operations to the session states in which
//! they are legal.

use crate::state::{spec_state_name, SessionState};
use crate::text::{join_strs, spec_join, str_eq};
use vstd::prelude::*;
use vstd::string::*;

verus! {

/// Static mapping of operation names to the states in which they are allowed.
pub struct ToolAvailability;

/// The states in which operation `op` may be called, in the documented order.
pub open spec fn spec_allowed_states(op: Seq<char>) -> Seq<SessionState> {
    if op == "start"@ {
        seq![SessionState::Disconnected]
    } else if op == "initialize"@ {
        seq![SessionState::Connected]
    } else if op == "launch"@ || op == "attach"@ || op == "configuration_done"@ {
        seq![SessionState::Initialized]
    } else if op == "shutdown"@ || op == "disconnect"@ {
        seq![
            SessionState::Connected,
            SessionState::Initialized,
            SessionState::Running,
            SessionState::Halted,
        ]
    } else if op == "continue"@ || op == "step_over"@ || op == "step_in"@ || op == "step_out"@ {
        seq![SessionState::Halted]
    } else if op == "pause"@ {
        seq![SessionState::Running]
    } else if op == "set_breakpoints"@ || op == "set_function_breakpoints"@
        || op == "list_breakpoints"@ {
        seq![SessionState::Initialized, SessionState::Running, SessionState::Halted]
    } else if op == "get_threads"@ {
        seq![SessionState::Running, SessionState::Halted]
    } else if op == "get_stack_trace"@ || op == "get_scopes"@ || op == "get_variables"@
        || op == "evaluate"@ || op == "set_variable"@ || op == "assemble_context"@ {
        seq![SessionState::Halted]
    } else {
        Seq::empty()
    }
}

/// Whether operation `op` is allowed in state `s`.
pub open spec fn spec_is_allowed(op: Seq<char>, s: SessionState) -> bool {
    spec_allowed_states(op).contains(s)
}

/// Every known operation, in the documented order.
pub open spec fn spec_all_operations() -> Seq<Seq<char>> {
    seq![
        "start"@,
        "initialize"@,
        "launch"@,
        "attach"@,
        "configuration_done"@,
        "shutdown"@,
        "disconnect"@,
        "continue"@,
        "step_over"@,
        "step_in"@,
        "step_out"@,
        "pause"@,
        "set_breakpoints"@,
        "set_function_breakpoints"@,
        "list_breakpoints"@,
        "get_threads"@,
        "get_stack_trace"@,
        "get_scopes"@,
        "get_variables"@,
        "evaluate"@,
        "set_variable"@,
        "assemble_context"@,
    ]
}

/// The known operations allowed in state `s`, in the documented order.
pub open spec fn spec_operations_for_state(s: SessionState) -> Seq<Seq<char>> {
    spec_all_operations().filter(|op: Seq<char>| spec_is_allowed(op, s))
}

/// Human-readable description of the state requirements of `op`.
pub open spec fn spec_describe_requirements(op: Seq<char>) -> Seq<char> {
    let states = spec_allowed_states(op);
    if states.len() == 0 {
        "`"@ + op + "` is not a recognized operation"@
    } else {
        "`"@ + op + "` requires state(s): "@ + spec_join(
            states.map_values(|s: SessionState| spec_state_name(s)),
            ", "@,
        )
    }
}

/// Every known operation, as exec string slices.
pub fn all_operations() -> (r: Vec<&'static str>)
    ensures
        r@.map_values(|p: &str| p@) == spec_all_operations(),
{
    let r = vec![
        "start",
        "initialize",
        "launch",
        "attach",
        "configuration_done",
        "shutdown",
        "disconnect",
        "continue",
        "step_over",
        "step_in",
        "step_out",
        "pause",
        "set_breakpoints",
        "set_function_breakpoints",
        "list_breakpoints",
        "get_threads",
        "get_stack_trace",
        "get_scopes",
        "get_variables",
        "evaluate",
        "set_variable",
        "assemble_context",
    ];
    assert(r@.map_values(|p: &str| p@) =~= spec_all_operations());
    r
}

impl ToolAvailability {
    /// Returns the states in which `operation` may be called.
    pub fn allowed_states(operation: &str) -> (r: Vec<SessionState>)
        ensures
            r@ == spec_allowed_states(operation@),
    {
        let op = operation;
        if str_eq(op, "start") {
            vec![SessionState::Disconnected]
        } else if str_eq(op, "initialize") {
            vec![SessionState::Connected]
        } else if str_eq(op, "launch") || str_eq(op, "attach") || str_eq(op, "configuration_done") {
            vec![SessionState::Initialized]
        } else if str_eq(op, "shutdown") || str_eq(op, "disconnect") {
            vec![
                SessionState::Connected,
                SessionState::Initialized,
                SessionState::Running,
                SessionState::Halted,
            ]
        } else if str_eq(op, "continue") || str_eq(op, "step_over") || str_eq(op, "step_in")
            || str_eq(op, "step_out") {
            vec![SessionState::Halted]
        } else if str_eq(op, "pause") {
            vec![SessionState::Running]
        } else if str_eq(op, "set_breakpoints") || str_eq(op, "set_function_breakpoints")
            || str_eq(op, "list_breakpoints") {
            vec![SessionState::Initialized, SessionState::Running, SessionState::Halted]
        } else if str_eq(op, "get_threads") {
            vec![SessionState::Running, SessionState::Halted]
        } else if str_eq(op, "get_stack_trace") || str_eq(op, "get_scopes") || str_eq(
            op,
            "get_variables",
        ) || str_eq(op, "evaluate") || str_eq(op, "set_variable") || str_eq(op, "assemble_context") {
            vec![SessionState::Halted]
        } else {
            Vec::new()
        }
    }

    /// Returns true if `operation` is allowed in `state`.
    pub fn is_allowed(operation: &str, state: SessionState) -> (r: bool)
        ensures
            r == spec_is_allowed(operation@, state),
    {
        let states = Self::allowed_states(operation);
        let mut i: usize = 0;
        while i < states.len()
            invariant
                i <= states.len(),
                states@ == spec_allowed_states(operation@),
                forall|j: int| 0 <= j < i ==> states@[j] != state,
            decreases states.len() - i,
        {
            if states[i] == state {
                assert(states@[i as int] == state);
                return true;
            }
            i = i + 1;
        }
        false
    }

    /// Returns a human-readable description of the state requirements for an operation.
    pub fn describe_requirements(operation: &str) -> (r: String)
        ensures
            r@ == spec_describe_requirements(operation@),
    {
        let states = Self::allowed_states(operation);
        let mut r = String::from_str("`");
        r.append(operation);
        if states.len() == 0 {
            r.append("` is not a recognized operation");
            r
        } else {
            r.append("` requires state(s): ");
            let mut names: Vec<&str> = Vec::new();
            let mut i: usize = 0;
            while i < states.len()
                invariant
                    i <= states.len(),
                    names@.len() == i,
                    forall|j: int|
                        0 <= j < i ==> #[trigger] names@[j]@ == spec_state_name(states@[j]),
                decreases states.len() - i,
            {
                names.push(states[i].as_str());
                i = i + 1;
            }
            let joined = join_strs(&names, ", ");
            assert(names@.map_values(|p: &str| p@) =~= states@.map_values(
                |s: SessionState| spec_state_name(s),
            ));
            r.append(joined.as_str());
            r
        }
    }

    /// Get the list of all known operations available in a given state.
    pub fn operations_for_state(state: SessionState) -> (r: Vec<&'static str>)
        ensures
            r@.map_values(|p: &str| p@) == spec_operations_for_state(state),
    {
        let all = all_operations();
        let ghost views = all@.map_values(|p: &str| p@);
        let ghost pred = |op: Seq<char>| spec_is_allowed(op, state);
        let mut r: Vec<&'static str> = Vec::new();
        let mut i: usize = 0;
        while i < all.len()
            invariant
                i <= all.len(),
                views == all@.map_values(|p: &str| p@),
                views == spec_all_operations(),
                pred == (|op: Seq<char>| spec_is_allowed(op, state)),
                r@.map_values(|p: &str| p@) == views.take(i as int).filter(pred),
            decreases all.len() - i,
        {
            let op = all[i];
            let ghost before = r@;
            if Self::is_allowed(op, state) {
                r.push(op);
                assert(r@.map_values(|p: &str| p@) =~= before.map_values(|p: &str| p@).push(op@));
            }
            assert(views.take(i + 1).drop_last() =~= views.take(i as int));
            assert(views.take(i + 1).last() == op@);
            reveal(Seq::filter);
            i = i + 1;
        }
        assert(views.take(all.len() as int) =~= views);
        r
    }
}

/// Filtering keeps a duplicate-free sequence duplicate-free.
pub proof fn lemma_filter_no_duplicates<A>(s: Seq<A>, pred: spec_fn(A) -> bool)
    requires
        s.no_duplicates(),
    ensures
        s.filter(pred).no_duplicates(),
        forall|x: A| s.filter(pred).contains(x) ==> s.contains(x),
    decreases s.len(),
{
    if s.len() > 0 {
        let init = s.drop_last();
        let x = s.last();
        assert(init.push(x) =~= s);
        assert(init.no_duplicates());
        lemma_filter_no_duplicates(init, pred);
        init.lemma_filter_push(x, pred);
        assert(!init.contains(x)) by {
            if init.contains(x) {
                let k = choose|k: int| 0 <= k < init.len() && init[k] == x;
                assert(s[k] == s[s.len() - 1]);
            }
        }
        let f = init.filter(pred);
        if pred(x) {
            assert forall|i: int, j: int|
                0 <= i < f.push(x).len() && 0 <= j < f.push(x).len() && i != j implies f.push(
                x,
            )[i] != f.push(x)[j] by {
                if i < f.len() && j == f.len() {
                    assert(f.contains(f[i]));
                } else if j < f.len() && i == f.len() {
                    assert(f.contains(f[j]));
                }
            }
            assert forall|y: A| f.push(x).contains(y) implies s.contains(y) by {
                if y != x {
                    let k = choose|k: int| 0 <= k < f.push(x).len() && f.push(x)[k] == y;
                    assert(f.contains(y)) by {
                        assert(f[k] == y);
                    }
                    assert(init.contains(y));
                    let m = choose|m: int| 0 <= m < init.len() && init[m] == y;
                    assert(s[m] == y);
                } else {
                    assert(s[s.len() - 1] == y);
                }
            }
        } else {
            assert forall|y: A| f.contains(y) implies s.contains(y) by {
                assert(init.contains(y));
                let m = choose|m: int| 0 <= m < init.len() && init[m] == y;
                assert(s[m] == y);
            }
        }
    } else {
        reveal(Seq::filter);
        assert(s.filter(pred) =~= Seq::<A>::empty());
    }
}

/// The known operations are pairwise distinct.
pub proof fn lemma_all_operations_distinct()
    ensures
        spec_all_operations().no_duplicates(),
{
    reveal_strlit("start");
    reveal_strlit("initialize");
    reveal_strlit("launch");
    reveal_strlit("attach");
    reveal_strlit("configuration_done");
    reveal_strlit("shutdown");
    reveal_strlit("disconnect");
    reveal_strlit("continue");
    reveal_strlit("step_over");
    reveal_strlit("step_in");
    reveal_strlit("step_out");
    reveal_strlit("pause");
    reveal_strlit("set_breakpoints");
    reveal_strlit("set_function_breakpoints");
    reveal_strlit("list_breakpoints");
    reveal_strlit("get_threads");
    reveal_strlit("get_stack_trace");
    reveal_strlit("get_scopes");
    reveal_strlit("get_variables");
    reveal_strlit("evaluate");
    reveal_strlit("set_variable");
    reveal_strlit("assemble_context");
    let ops = spec_all_operations();
    assert forall|i: int, j: int| 0 <= i < ops.len() && 0 <= j < ops.len() && i != j implies ops[i]
        != ops[j] by {
        if ops[i] == ops[j] {
            assert(ops[i].len() == ops[j].len());
            assert(ops[i][0] == ops[j][0]);
            assert(ops[i][ops[i].len() - 1] == ops[j][ops[j].len() - 1]);
            assert(ops[i][1] == ops[j][1]);
            assert(ops[i][ops[i].len() - 2] == ops[j][ops[j].len() - 2]);
            assert(ops[i][5] == ops[j][5]);
        }
    }
}

/// Every known operation is allowed in at least one state.
pub proof fn lemma_every_operation_gated()
    ensures
        forall|i: int|
            0 <= i < spec_all_operations().len() ==> #[trigger] spec_allowed_states(
                spec_all_operations()[i],
            ).len() > 0,
{
}

/// The operations listed for a state are exactly the known operations
/// allowed in that state, each listed once.
pub proof fn lemma_operations_for_state_exact(s: SessionState)
    ensures
        spec_operations_for_state(s).no_duplicates(),
        forall|op: Seq<char>|
            spec_operations_for_state(s).contains(op) <==> spec_all_operations().contains(op)
                && spec_is_allowed(op, s),
{
    lemma_all_operations_distinct();
    let pred = |op: Seq<char>| spec_is_allowed(op, s);
    lemma_filter_no_duplicates(spec_all_operations(), pred);
    broadcast use vstd::seq_lib::group_filter_ensures;

    assert forall|op: Seq<char>|
        spec_all_operations().contains(op) && spec_is_allowed(op, s) implies spec_operations_for_state(
        s,
    ).contains(op) by {
        let k = choose|k: int|
            0 <= k < spec_all_operations().len() && spec_all_operations()[k] == op;
        assert(pred(spec_all_operations()[k]));
    }
    assert forall|op: Seq<char>| spec_operations_for_state(s).contains(op) implies spec_is_allowed(
        op,
        s,
    ) by {
        let k = choose|k: int|
            0 <= k < spec_operations_for_state(s).len() && spec_operations_for_state(s)[k] == op;
        assert(pred(spec_operations_for_state(s)[k]));
    }
}

/// An operation that is not one of the known operations is allowed in no state.
pub proof fn lemma_unknown_operation_never_allowed(op: Seq<char>, s: SessionState)
    requires
        !spec_all_operations().contains(op),
    ensures
        !spec_is_allowed(op, s),
        spec_allowed_states(op).len() == 0,
{
    let ops = spec_all_operations();
    if op == "start"@ { assert(ops[0] == op); }
    if op == "initialize"@ { assert(ops[1] == op); }
    if op == "launch"@ { assert(ops[2] == op); }
    if op == "attach"@ { assert(ops[3] == op); }
    if op == "configuration_done"@ { assert(ops[4] == op); }
    if op == "shutdown"@ { assert(ops[5] == op); }
    if op == "disconnect"@ { assert(ops[6] == op); }
    if op == "continue"@ { assert(ops[7] == op); }
    if op == "step_over"@ { assert(ops[8] == op); }
    if op == "step_in"@ { assert(ops[9] == op); }
    if op == "step_out"@ { assert(ops[10] == op); }
    if op == "pause"@ { assert(ops[11] == op); }
    if op == "set_breakpoints"@ { assert(ops[12] == op); }
    if op == "set_function_breakpoints"@ { assert(ops[13] == op); }
    if op == "list_breakpoints"@ { assert(ops[14] == op); }
    if op == "get_threads"@ { assert(ops[15] == op); }
    if op == "get_stack_trace"@ { assert(ops[16] == op); }
    if op == "get_scopes"@ { assert(ops[17] == op); }
    if op == "get_variables"@ { assert(ops[18] == op); }
    if op == "evaluate"@ { assert(ops[19] == op); }
    if op == "set_variable"@ { assert(ops[20] == op); }
    if op == "assemble_context"@ { assert(ops[21] == op); }
}

/// No operation lists a state twice, and `shutdown` and `disconnect` are
/// allowed in the same states.
pub proof fn lemma_allowed_states_listed_once(op: Seq<char>)
    ensures
        spec_allowed_states(op).no_duplicates(),
        spec_allowed_states("shutdown"@) == spec_allowed_states("disconnect"@),
{
    reveal_strlit("start");
    reveal_strlit("initialize");
    reveal_strlit("launch");
    reveal_strlit("attach");
    reveal_strlit("configuration_done");
    reveal_strlit("shutdown");
    reveal_strlit("disconnect");
    assert("shutdown"@[0] != "start"@[0] || "shutdown"@.len() != "start"@.len());
    assert("disconnect"@[0] != "initialize"@[0]);
    assert(spec_allowed_states("shutdown"@) == seq![
        SessionState::Connected,
        SessionState::Initialized,
        SessionState::Running,
        SessionState::Halted,
    ]);
    assert(spec_allowed_states("disconnect"@) == seq![
        SessionState::Connected,
        SessionState::Initialized,
        SessionState::Running,
        SessionState::Halted,
    ]);
}

/// The states in which each known operation may be called: starting only
/// while disconnected; initializing only once connected; launching,
/// attaching and finishing configuration only once initialized; shutting
/// down or disconnecting in any state but disconnected; resuming and stepping
/// only while halted; pausing only while running; setting and listing
/// breakpoints (source and function alike) once initialized, running or
/// halted; listing threads while running or halted; and inspecting the stack,
/// scopes and variables, evaluating and assembling context only while halted.
pub proof fn lemma_gating_table(s: SessionState)
    ensures
        spec_is_allowed("start"@, s) <==> (s == SessionState::Disconnected),
        spec_is_allowed("initialize"@, s) <==> (s == SessionState::Connected),
        spec_is_allowed("launch"@, s) <==> (s == SessionState::Initialized),
        spec_is_allowed("attach"@, s) <==> (s == SessionState::Initialized),
        spec_is_allowed("configuration_done"@, s) <==> (s == SessionState::Initialized),
        spec_is_allowed("shutdown"@, s) <==> (s != SessionState::Disconnected),
        spec_is_allowed("disconnect"@, s) <==> (s != SessionState::Disconnected),
        spec_is_allowed("continue"@, s) <==> (s == SessionState::Halted),
        spec_is_allowed("step_over"@, s) <==> (s == SessionState::Halted),
        spec_is_allowed("step_in"@, s) <==> (s == SessionState::Halted),
        spec_is_allowed("step_out"@, s) <==> (s == SessionState::Halted),
        spec_is_allowed("pause"@, s) <==> (s == SessionState::Running),
        spec_is_allowed("set_breakpoints"@, s) <==> (s == SessionState::Initialized || s == SessionState::Running || s == SessionState::Halted),
        spec_is_allowed("set_function_breakpoints"@, s) <==> (s == SessionState::Initialized || s == SessionState::Running || s == SessionState::Halted),
        spec_is_allowed("list_breakpoints"@, s) <==> (s == SessionState::Initialized || s == SessionState::Running || s == SessionState::Halted),
        spec_is_allowed("get_threads"@, s) <==> (s == SessionState::Running || s == SessionState::Halted),
        spec_is_allowed("get_stack_trace"@, s) <==> (s == SessionState::Halted),
        spec_is_allowed("get_scopes"@, s) <==> (s == SessionState::Halted),
        spec_is_allowed("get_variables"@, s) <==> (s == SessionState::Halted),
        spec_is_allowed("evaluate"@, s) <==> (s == SessionState::Halted),
        spec_is_allowed("set_variable"@, s) <==> (s == SessionState::Halted),
        spec_is_allowed("assemble_context"@, s) <==> (s == SessionState::Halted),
{
    lemma_all_operations_distinct();
    let ops = spec_all_operations();
    assert(ops[0] == "start"@);
    assert(ops[1] == "initialize"@);
    assert(ops[2] == "launch"@);
    assert(ops[3] == "attach"@);
    assert(ops[4] == "configuration_done"@);
    assert(ops[5] == "shutdown"@);
    assert(ops[6] == "disconnect"@);
    assert(ops[7] == "continue"@);
    assert(ops[8] == "step_over"@);
    assert(ops[9] == "step_in"@);
    assert(ops[10] == "step_out"@);
    assert(ops[11] == "pause"@);
    assert(ops[12] == "set_breakpoints"@);
    assert(ops[13] == "set_function_breakpoints"@);
    assert(ops[14] == "list_breakpoints"@);
    assert(ops[15] == "get_threads"@);
    assert(ops[16] == "get_stack_trace"@);
    assert(ops[17] == "get_scopes"@);
    assert(ops[18] == "get_variables"@);
    assert(ops[19] == "evaluate"@);
    assert(ops[20] == "set_variable"@);
    assert(ops[21] == "assemble_context"@);
    assert(seq![SessionState::Disconnected][0] == SessionState::Disconnected);
    assert(seq![SessionState::Connected][0] == SessionState::Connected);
    assert(seq![SessionState::Initialized][0] == SessionState::Initialized);
    assert(seq![SessionState::Running][0] == SessionState::Running);
    assert(seq![SessionState::Halted][0] == SessionState::Halted);
    let four = seq![
        SessionState::Connected,
        SessionState::Initialized,
        SessionState::Running,
        SessionState::Halted,
    ];
    assert(four[0] == SessionState::Connected && four[1] == SessionState::Initialized
        && four[2] == SessionState::Running && four[3] == SessionState::Halted);
    let three = seq![SessionState::Initialized, SessionState::Running, SessionState::Halted];
    assert(three[0] == SessionState::Initialized && three[1] == SessionState::Running && three[2]
        == SessionState::Halted);
    let two = seq![SessionState::Running, SessionState::Halted];
    assert(two[0] == SessionState::Running && two[1] == SessionState::Halted);
}

} // verus!
