use teledap::context::ContextChain;
use teledap::context_walk::{ContextReply, ContextRequest, ContextStep, ContextWalk};
use teledap::dap::types::{Scope, StackFrame, Thread, Variable};
use teledap::handlers::AssembleContextParams;

fn thread(id: u64) -> Thread {
    Thread { id, name: format!("t{}", id) }
}

fn frame(id: u64) -> StackFrame {
    StackFrame {
        id,
        name: format!("f{}", id),
        source: None,
        line: 1,
        column: 1,
        end_line: None,
        end_column: None,
        can_restart: None,
        instruction_pointer_reference: None,
        module_id: None,
        presentation_hint: None,
    }
}

fn scope(name: &str, variables_reference: u64) -> Scope {
    Scope {
        name: name.to_string(),
        presentation_hint: None,
        variables_reference,
        named_variables: None,
        indexed_variables: None,
        expensive: false,
        source: None,
        line: None,
        column: None,
        end_line: None,
        end_column: None,
    }
}

fn var(name: &str, variables_reference: u64) -> Variable {
    Variable {
        name: name.to_string(),
        value: "0".to_string(),
        var_type: None,
        presentation_hint: None,
        evaluate_name: None,
        variables_reference,
        named_variables: None,
        indexed_variables: None,
        memory_reference: None,
        declaration_location_reference: None,
        value_location_reference: None,
    }
}

/// The adapter of these tests: thread 2's stack trace fails; frame 11's
/// scopes fail; scope reference 200's variables fail; variable reference 300
/// has two children.
fn answer(req: &ContextRequest) -> ContextReply {
    match req {
        ContextRequest::StackTrace { thread_id: 1, .. } => ContextReply::Frames(Some(vec![frame(10), frame(11)])),
        ContextRequest::StackTrace { thread_id: 3, .. } => ContextReply::Frames(Some(vec![])),
        ContextRequest::StackTrace { .. } => ContextReply::Frames(None),
        ContextRequest::Scopes { frame_id: 10 } => {
            ContextReply::Scopes(Some(vec![scope("Locals", 100), scope("Registers", 0), scope("Globals", 200)]))
        }
        ContextRequest::Scopes { .. } => ContextReply::Scopes(None),
        ContextRequest::Variables { reference: 100, .. } => ContextReply::Variables(Some(vec![var("x", 0), var("s", 300)])),
        ContextRequest::Variables { reference: 300, .. } => ContextReply::Variables(Some(vec![var("a", 0), var("b", 0)])),
        ContextRequest::Variables { .. } => ContextReply::Variables(None),
    }
}

fn run(p: &AssembleContextParams, threads: Vec<Thread>) -> (ContextChain, Vec<String>, usize) {
    let (mut walk, mut step) = ContextWalk::begin(p, threads);
    let total = walk.total_threads();
    let mut log = Vec::new();
    loop {
        match step {
            ContextStep::Done(chain) => return (chain, log, total),
            ContextStep::Fetch(req) => {
                log.push(format!("{:?}", req));
                let reply = answer(&req);
                let (w, s) = walk.step(reply);
                walk = w;
                step = s;
            }
        }
    }
}

#[test]
fn test_context_walk_leaves_out_failed_threads_and_frames() {
    let p = AssembleContextParams { thread_id: None, max_frames: Some(5), max_depth: None };
    let (chain, log, total) = run(&p, vec![thread(1), thread(2), thread(3)]);
    assert_eq!(total, 3);
    assert!(!chain.stale);
    let ids: Vec<u64> = chain.threads.iter().map(|t| t.thread.id).collect();
    assert_eq!(ids, vec![1, 3]);
    let t1 = &chain.threads[0];
    assert_eq!(t1.frames.len(), 1);
    assert_eq!(t1.frames[0].frame.id, 10);
    assert!(chain.threads[1].frames.is_empty());
    let scopes = &t1.frames[0].scopes;
    let names: Vec<&str> = scopes.iter().map(|s| s.scope.name.as_str()).collect();
    assert_eq!(names, vec!["Locals", "Registers", "Globals"]);
    assert_eq!(scopes[0].variables.len(), 2);
    assert!(scopes[1].variables.is_empty());
    assert!(scopes[2].variables.is_empty());
    // With the default depth of 2, the variable with a reference gets its children.
    assert!(scopes[0].variables[0].children.is_none());
    let children = scopes[0].variables[1].children.as_ref().unwrap();
    let child_names: Vec<&str> = children.iter().map(|c| c.variable.name.as_str()).collect();
    assert_eq!(child_names, vec!["a", "b"]);
    assert!(children.iter().all(|c| c.depth == 1 && c.children.is_none()));
    assert_eq!(scopes[0].variables[1].depth, 0);
    // The scope without a reference is never asked for; the first scope's
    // variables are cached under its frame and name, children are not.
    assert!(log.iter().all(|l| !l.contains("reference: 0")));
    assert!(log.iter().any(|l| l.contains("reference: 100") && l.contains("count: None") && l.contains("\"Locals\"")));
    assert!(log.iter().any(|l| l.contains("reference: 300") && l.contains("count: Some(50)") && l.contains("cache_as: None")));
    assert!(log.iter().any(|l| l.contains("StackTrace { thread_id: 1, levels: 5 }")));
}

#[test]
fn test_context_walk_depth_one_fetches_no_children() {
    let p = AssembleContextParams { thread_id: Some(1), max_frames: None, max_depth: Some(1) };
    let (chain, log, total) = run(&p, vec![thread(1), thread(2)]);
    assert_eq!(total, 1);
    assert_eq!(chain.threads.len(), 1);
    let vars = &chain.threads[0].frames[0].scopes[0].variables;
    assert!(vars.iter().all(|v| v.children.is_none()));
    assert!(log.iter().all(|l| !l.contains("count: Some")));
    assert!(log.iter().any(|l| l.contains("levels: 10")));
}

#[test]
fn test_context_walk_without_threads_is_done_at_once() {
    let p = AssembleContextParams { thread_id: None, max_frames: None, max_depth: None };
    let (walk, step) = ContextWalk::begin(&p, vec![]);
    assert_eq!(walk.total_threads(), 0);
    match step {
        ContextStep::Done(chain) => assert!(chain.threads.is_empty()),
        other => panic!("expected Done, got {:?}", other),
    }
}
