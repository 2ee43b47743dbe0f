use teledap::cache::{VariableHandleCache, VariableHandleEntry};

fn make_entry(
    name: &str,
    var_ref: u64,
    frame_id: Option<u64>,
    scope: Option<&str>,
) -> VariableHandleEntry {
    VariableHandleEntry {
        variables_reference: var_ref,
        name: name.to_string(),
        frame_id,
        scope_name: scope.map(|s| s.to_string()),
        var_type: Some("int".to_string()),
        named_variables: if var_ref > 0 { Some(3) } else { None },
        indexed_variables: None,
        captured_at: 0,
    }
}

#[test]
fn test_insert_and_lookup() {
    let mut cache = VariableHandleCache::new();
    cache.insert(make_entry("x", 5, Some(1), Some("Locals")));

    let found = cache.lookup("x", Some(1), Some("Locals"));
    assert!(found.is_some());
    assert_eq!(found.unwrap().variables_reference, 5);
}

#[test]
fn test_lookup_priority_frame_scope() {
    let mut cache = VariableHandleCache::new();
    cache.insert(make_entry("x", 5, Some(1), Some("Locals")));
    cache.insert(make_entry("x", 10, Some(2), Some("Locals")));

    let found = cache.lookup("x", Some(2), Some("Locals"));
    assert_eq!(found.unwrap().variables_reference, 10);
}

#[test]
fn test_lookup_fallback_frame() {
    let mut cache = VariableHandleCache::new();
    cache.insert(make_entry("x", 5, Some(1), Some("Locals")));

    let found = cache.lookup("x", Some(1), Some("Arguments"));
    assert!(found.is_some());
    assert_eq!(found.unwrap().variables_reference, 5);
}

#[test]
fn test_lookup_fallback_any() {
    let mut cache = VariableHandleCache::new();
    cache.insert(make_entry("x", 5, Some(1), Some("Locals")));

    let found = cache.lookup("x", Some(99), None);
    assert!(found.is_some());
}

#[test]
fn test_lookup_missing() {
    let cache = VariableHandleCache::new();
    let found = cache.lookup("nonexistent", None, None);
    assert!(found.is_none());
}

#[test]
fn test_invalidate_clears_entries() {
    let mut cache = VariableHandleCache::new();
    cache.insert(make_entry("x", 5, Some(1), Some("Locals")));
    assert_eq!(cache.len(), 1);
    assert!(cache.is_valid());

    cache.invalidate();
    assert!(cache.is_empty());
    assert!(!cache.is_valid());

    let found = cache.lookup("x", Some(1), Some("Locals"));
    assert!(found.is_none());
}

#[test]
fn test_mark_stale_preserves_entries() {
    let mut cache = VariableHandleCache::new();
    cache.insert(make_entry("x", 5, Some(1), Some("Locals")));

    cache.mark_stale();
    assert!(!cache.is_valid());
    assert_eq!(cache.len(), 1);
}

#[test]
fn test_search_fuzzy() {
    let mut cache = VariableHandleCache::new();
    cache.insert(make_entry("my_variable", 1, Some(1), Some("Locals")));
    cache.insert(make_entry("my_struct", 2, Some(1), Some("Locals")));
    cache.insert(make_entry("other_thing", 3, Some(1), Some("Locals")));

    let results = cache.search("my_", 10);
    assert_eq!(results.len(), 2);
}

#[test]
fn test_search_ignores_case_and_respects_limit() {
    let mut cache = VariableHandleCache::new();
    cache.insert(make_entry("Counter", 1, Some(1), Some("Locals")));
    cache.insert(make_entry("counter_max", 2, Some(1), Some("Locals")));
    cache.insert(make_entry("total", 3, Some(1), Some("Locals")));

    assert_eq!(cache.search("COUNTER", 10).len(), 2);
    assert_eq!(cache.search("counter", 1).len(), 1);
    assert_eq!(cache.search("zzz", 10).len(), 0);
}

#[test]
fn test_insert_replaces_duplicate() {
    let mut cache = VariableHandleCache::new();
    cache.insert(make_entry("x", 5, Some(1), Some("Locals")));
    cache.insert(make_entry("x", 99, Some(1), Some("Locals")));

    let found = cache.lookup("x", Some(1), Some("Locals"));
    assert_eq!(found.unwrap().variables_reference, 99);
    assert_eq!(cache.len(), 1);
}

#[test]
fn test_is_expandable() {
    let e = make_entry("leaf", 0, Some(1), None);
    assert!(!e.is_expandable());
    assert_eq!(e.child_count(), 0);

    let e = make_entry("node", 5, Some(1), None);
    assert!(e.is_expandable());
    assert_eq!(e.child_count(), 3);
}

#[test]
fn test_keys_and_len() {
    let mut cache = VariableHandleCache::new();
    assert!(cache.is_empty());

    cache.insert(make_entry("a", 1, Some(1), Some("L")));
    cache.insert(make_entry("b", 2, Some(1), Some("L")));
    cache.insert(make_entry("a", 3, Some(2), Some("L")));

    assert_eq!(cache.len(), 2);
    let mut keys = cache.keys();
    keys.sort();
    assert_eq!(keys, vec!["a", "b"]);
}

#[test]
fn test_insert_batch_and_clear() {
    let mut cache = VariableHandleCache::new();
    cache.insert_batch(vec![
        make_entry("a", 1, Some(1), Some("L")),
        make_entry("b", 2, Some(1), Some("L")),
    ]);
    assert_eq!(cache.len(), 2);
    assert_eq!(cache.lookup("b", None, None).unwrap().variables_reference, 2);
    cache.clear();
    assert!(cache.is_empty());
    assert!(cache.is_valid());
}

#[test]
fn test_insert_after_invalidate_makes_cache_valid() {
    let mut cache = VariableHandleCache::new();
    cache.invalidate();
    assert!(!cache.is_valid());
    cache.insert(make_entry("x", 1, None, None));
    assert!(cache.is_valid());
    assert_eq!(cache.lookup("x", None, None).unwrap().variables_reference, 1);
}
