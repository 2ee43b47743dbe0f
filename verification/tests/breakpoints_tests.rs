use teledap::breakpoints::{BreakpointCache, BreakpointKind, CachedBreakpoint};
use teledap::dap::types::{Breakpoint, FunctionBreakpoint, Source, SourceBreakpoint};

fn src_bp(line: u64, condition: Option<&str>) -> SourceBreakpoint {
    SourceBreakpoint {
        line,
        column: None,
        condition: condition.map(|s| s.to_string()),
        hit_condition: None,
        log_message: None,
        mode: None,
    }
}

fn fn_bp(name: &str) -> FunctionBreakpoint {
    FunctionBreakpoint {
        name: name.to_string(),
        condition: None,
        hit_condition: None,
    }
}

fn bp(id: Option<u64>, verified: bool, line: Option<u64>) -> Breakpoint {
    Breakpoint {
        id,
        verified,
        message: None,
        source: None,
        line,
        column: None,
        end_line: None,
        end_column: None,
        instruction_reference: None,
        offset: None,
        reason: None,
    }
}

#[test]
fn test_source_breakpoints_round_trip() {
    let mut cache = BreakpointCache::new();
    let request = vec![src_bp(42, Some("x > 5"))];
    let response = vec![bp(Some(1), true, Some(42))];

    cache.update_source_breakpoints("/home/user/src/main.cpp", &request, &response);

    let list = cache.list();
    assert_eq!(list.len(), 1);
    assert_eq!(list[0].id, Some(1));
    assert_eq!(list[0].kind, BreakpointKind::Source);
    assert_eq!(list[0].line, Some(42));
    assert_eq!(list[0].condition.as_deref(), Some("x > 5"));
    assert!(list[0].verified);
}

#[test]
fn test_source_breakpoints_reverse_mapping() {
    let mut cache = BreakpointCache::new();
    let request = vec![src_bp(10, None)];
    let response = vec![bp(Some(2), true, Some(10))];

    cache.update_source_breakpoints("/home/user/project/src/main.cpp", &request, &response);

    let list = cache.list();
    assert_eq!(
        list[0].source_path.as_deref(),
        Some("/home/user/project/src/main.cpp")
    );
}

#[test]
fn test_source_breakpoints_replace_per_file() {
    let mut cache = BreakpointCache::new();
    cache.update_source_breakpoints("/a/b.cpp", &[src_bp(1, None)], &[bp(None, false, Some(1))]);
    cache.update_source_breakpoints("/a/b.cpp", &[src_bp(5, None)], &[bp(Some(3), true, Some(5))]);

    let list = cache.list();
    assert_eq!(list.len(), 1);
    assert_eq!(list[0].id, Some(3));
    assert_eq!(list[0].line, Some(5));
}

#[test]
fn test_source_breakpoints_other_files_kept() {
    let mut cache = BreakpointCache::new();
    cache.update_source_breakpoints("/a.cpp", &[src_bp(1, None)], &[bp(Some(1), true, Some(1))]);
    cache.update_source_breakpoints("/b.cpp", &[src_bp(2, None)], &[bp(Some(2), true, Some(2))]);
    cache.update_source_breakpoints("/a.cpp", &[], &[]);

    let list = cache.list();
    assert_eq!(list.len(), 1);
    assert_eq!(list[0].source_path.as_deref(), Some("/b.cpp"));
}

#[test]
fn test_function_breakpoints() {
    let mut cache = BreakpointCache::new();
    let request = vec![fn_bp("main"), fn_bp("foo")];
    let response = vec![bp(Some(10), true, None), bp(Some(11), false, None)];

    cache.update_function_breakpoints(&request, &response);

    let list = cache.list();
    assert_eq!(list.len(), 2);
    assert_eq!(list[0].function_name.as_deref(), Some("main"));
    assert!(list[0].verified);
    assert_eq!(list[1].function_name.as_deref(), Some("foo"));
    assert!(!list[1].verified);
}

#[test]
fn test_update_by_id() {
    let mut cache = BreakpointCache::new();
    cache.update_source_breakpoints("/a.cpp", &[src_bp(1, None)], &[bp(Some(7), false, Some(1))]);

    let updated = Breakpoint {
        id: Some(7),
        verified: true,
        line: Some(2),
        message: Some("relocated".to_string()),
        source: Some(Source {
            name: Some("a.cpp".to_string()),
            path: Some("/a.cpp".to_string()),
            source_reference: None,
            presentation_hint: None,
            origin: None,
            sources: None,
            adapter_data: None,
            checksums: None,
        }),
        column: None,
        end_line: None,
        end_column: None,
        instruction_reference: None,
        offset: None,
        reason: None,
    };
    assert!(cache.update_by_id(&updated));

    let list = cache.list();
    assert!(list[0].verified);
    assert_eq!(list[0].line, Some(2));
    assert_eq!(list[0].message.as_deref(), Some("relocated"));
}

#[test]
fn test_update_by_id_not_found() {
    let mut cache = BreakpointCache::new();
    cache.update_source_breakpoints("/a.cpp", &[src_bp(1, None)], &[bp(Some(7), false, Some(1))]);

    let updated = bp(Some(99), true, Some(2));
    assert!(!cache.update_by_id(&updated));
}

#[test]
fn breakpoints_test_clear() {
    let mut cache = BreakpointCache::new();
    cache.update_source_breakpoints("/a.cpp", &[src_bp(1, None)], &[bp(Some(1), true, Some(1))]);
    cache.update_function_breakpoints(&[fn_bp("main")], &[bp(Some(2), true, None)]);

    cache.clear();
    let list = cache.list();
    assert!(list.is_empty());
}

#[test]
fn test_from_source_prefers_adapter_position() {
    let mut request = src_bp(10, Some("i == 3"));
    request.column = Some(4);
    let mut response = bp(Some(5), true, None);
    response.column = Some(8);
    let c = CachedBreakpoint::from_source("/x.c", &request, &response);
    assert_eq!(c.kind, BreakpointKind::Source);
    assert_eq!(c.line, Some(10));
    assert_eq!(c.column, Some(8));
    assert_eq!(c.function_name, None);
    assert_eq!(c.condition.as_deref(), Some("i == 3"));
}

#[test]
fn test_from_function_has_no_position() {
    let c = CachedBreakpoint::from_function(&fn_bp("init"), &bp(Some(3), false, Some(12)));
    assert_eq!(c.kind, BreakpointKind::Function);
    assert_eq!(c.function_name.as_deref(), Some("init"));
    assert_eq!(c.source_path, None);
    assert_eq!(c.id, Some(3));
    assert!(!c.verified);
}

#[test]
fn test_update_by_id_ignores_missing_id() {
    let mut cache = BreakpointCache::new();
    cache.update_function_breakpoints(&[fn_bp("main")], &[bp(None, false, None)]);
    assert!(!cache.update_by_id(&bp(None, true, None)));
}
