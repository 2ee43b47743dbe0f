use teledap::tools::{all_tools, tool_operation};

#[test]
fn test_all_tools_count() {
    let tools = all_tools();
    assert_eq!(tools.len(), 29, "Should be exactly 29 tools");
}

#[test]
fn test_every_tool_has_required_fields() {
    for tool in all_tools() {
        assert!(!tool.name.is_empty(), "Tool has empty name");
        assert!(!tool.title.is_empty(), "Tool '{}' has empty title", tool.name);
        assert!(
            !tool.description.is_empty(),
            "Tool '{}' has empty description",
            tool.name
        );
        assert_eq!(
            tool.input_schema.schema_type, "object",
            "Tool '{}' inputSchema is not type=object",
            tool.name
        );
    }
}

#[test]
fn test_tool_names_are_unique() {
    let tools = all_tools();
    let mut names: Vec<&str> = tools.iter().map(|t| t.name.as_str()).collect();
    names.sort();
    let orig_len = names.len();
    names.dedup();
    assert_eq!(names.len(), orig_len, "Duplicate tool names found");
}

#[test]
fn test_tool_operation_mapping_covers_all_gated_tools() {
    let gated_count = all_tools()
        .iter()
        .filter(|t| tool_operation(&t.name).is_some())
        .count();
    assert_eq!(gated_count, 20, "Should have exactly 20 gated tools");
}

#[test]
fn test_utility_tools_have_no_operation() {
    for name in &[
        "get_state",
        "register_path_alias",
        "register_base_dir",
        "search_variables",
        "openocd_start",
        "openocd_stop",
        "openocd_status",
        "openocd_output",
        "openocd_send",
    ] {
        assert_eq!(
            tool_operation(name),
            None,
            "Utility tool '{name}' should have no gating operation"
        );
    }
}

#[test]
fn test_unknown_tool_returns_none() {
    assert_eq!(tool_operation("nonexistent"), None);
}

#[test]
fn test_all_gated_tools_exist_in_known_operations() {
    let tools = all_tools();
    for tool in &tools {
        if let Some(op) = tool_operation(&tool.name) {
            assert!(!op.is_empty(), "Tool '{}' maps to empty operation", tool.name);
        }
    }
}

#[test]
fn test_gated_operations_are_known_to_gating() {
    let known = teledap::gating::all_operations();
    for tool in all_tools() {
        if let Some(op) = tool_operation(&tool.name) {
            assert!(known.contains(&op), "Tool '{}' maps to unknown operation {}", tool.name, op);
        }
    }
}

#[test]
fn test_start_tool_schema() {
    let tools = all_tools();
    let start = tools.iter().find(|t| t.name == "start").unwrap();
    let required = start.input_schema.required.as_ref().unwrap();
    assert!(required.iter().any(|r| r == "adapterPath"));
    assert!(start.input_schema.property("adapterPath").is_some());
}
