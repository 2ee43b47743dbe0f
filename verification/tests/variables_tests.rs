use teledap::dap::types::Variable;
use teledap::variables::{ExpandedVariable, ExpansionConfig, VariableExpander};

fn make_var(name: &str, value: &str, var_type: Option<&str>, var_ref: u64) -> Variable {
    Variable {
        name: name.to_string(),
        value: value.to_string(),
        var_type: var_type.map(|s| s.to_string()),
        presentation_hint: None,
        evaluate_name: None,
        variables_reference: var_ref,
        named_variables: if var_ref > 0 { Some(2) } else { None },
        indexed_variables: None,
        memory_reference: None,
        declaration_location_reference: None,
        value_location_reference: None,
    }
}

#[test]
fn test_expanded_variable_leaf() {
    let v = make_var("x", "42", Some("int"), 0);
    let ev = ExpandedVariable::new(v, 0);
    assert!(!ev.is_expandable());
    assert_eq!(ev.child_count(), 0);
    assert_eq!(ev.depth, 0);
}

#[test]
fn test_expanded_variable_expandable() {
    let v = make_var("obj", "{...}", Some("MyStruct"), 1);
    let ev = ExpandedVariable::new(v, 1);
    assert!(ev.is_expandable());
    assert_eq!(ev.child_count(), 2);
}

#[test]
fn test_is_pointer_type() {
    let var = make_var("p", "0x7fff", Some("int*"), 0);
    assert!(VariableExpander::is_pointer_type(&var));

    let var2 = make_var("n", "42", Some("int"), 0);
    assert!(!VariableExpander::is_pointer_type(&var2));

    let var3 = make_var("p", "0x7fff", None, 0);
    assert!(!VariableExpander::is_pointer_type(&var3));
}

#[test]
fn test_looks_like_pointer_value() {
    assert!(VariableExpander::looks_like_pointer_value("0x7fff1234"));
    assert!(!VariableExpander::looks_like_pointer_value("42"));
    assert!(!VariableExpander::looks_like_pointer_value("hello"));
}

#[test]
fn test_expansion_config_defaults() {
    let config = ExpansionConfig::default();
    assert_eq!(config.max_depth, 3);
    assert_eq!(config.max_total_variables, 500);
    assert!(config.dereference_pointers);
    assert_eq!(config.max_array_elements, 50);
    assert!(!config.expand_stl_containers);
    assert_eq!(config.max_string_length, 256);
}

#[test]
fn test_expander_capped() {
    let config = ExpansionConfig {
        max_total_variables: 10,
        ..Default::default()
    };
    let mut expander = VariableExpander::new(config);
    assert!(!expander.is_capped());
    expander.total_fetched = 10;
    assert!(expander.is_capped());
}

#[test]
fn test_expander_reset() {
    let config = ExpansionConfig::default();
    let mut expander = VariableExpander::new(config);
    expander.total_fetched = 100;
    expander.reset();
    assert_eq!(expander.total_fetched(), 0);
}

#[test]
fn test_pointer_type_suffixes() {
    assert!(VariableExpander::is_pointer_type(&make_var("p", "", Some("char *const"), 0)));
    assert!(VariableExpander::is_pointer_type(&make_var("p", "", Some("u8 *mut"), 0)));
    assert!(!VariableExpander::is_pointer_type(&make_var("p", "", Some("int&"), 0)));
}

#[test]
fn test_pointer_value_hex_digits() {
    // Four or more hex digits, not all zero, count as an address.
    assert!(VariableExpander::looks_like_pointer_value("  deadBEEF  "));
    assert!(!VariableExpander::looks_like_pointer_value("0000"));
    assert!(!VariableExpander::looks_like_pointer_value("abc"));
    assert!(VariableExpander::looks_like_pointer_value(" 0x0 "));
}

#[test]
fn test_expanded_variable_child_count_adds_indexed() {
    let mut v = make_var("arr", "[...]", Some("int[3]"), 7);
    v.indexed_variables = Some(3);
    let ev = ExpandedVariable::new(v, 2);
    assert!(ev.is_expandable());
    assert_eq!(ev.child_count(), 5);
    assert_eq!(ev.depth, 2);
    assert!(ev.children.is_none());
}
