use teledap::mcp::{
    classify_incoming, parse_incoming, CallToolResult, IncomingMessage, JsonSchema, McpError,
    MessageId, PropertySchema,
};

fn err_text(r: Result<IncomingMessage, McpError>) -> String {
    match r {
        Ok(m) => panic!("expected an error, got {:?}", m),
        Err(e) => e.message(),
    }
}

#[test]
fn test_json_schema_builder() {
    let schema = JsonSchema::new_object()
        .with_required("program", PropertySchema::string("Path to the ELF binary"))
        .with_optional(
            "stop_on_entry",
            PropertySchema::boolean("Stop at entry point"),
        );

    assert_eq!(schema.schema_type, "object");
    assert_eq!(schema.property("program").unwrap().prop_type, "string");
    assert_eq!(schema.property("stop_on_entry").unwrap().prop_type, "boolean");
    let required = schema.required.unwrap();
    assert!(required.contains(&"program".to_string()));
    assert!(!required.contains(&"stop_on_entry".to_string()));
}

#[test]
fn test_property_schema_helpers() {
    let str_prop = PropertySchema::string("a string field");
    assert_eq!(str_prop.prop_type, "string");

    let int_prop = PropertySchema::integer("an integer field");
    assert_eq!(int_prop.prop_type, "integer");

    let bool_prop = PropertySchema::boolean("a boolean field");
    assert_eq!(bool_prop.prop_type, "boolean");

    let arr_prop = PropertySchema::array_of("an array of strings", "string");
    assert_eq!(arr_prop.prop_type, "array");
    assert_eq!(arr_prop.items.unwrap().prop_type, "string");

    let obj_prop = PropertySchema::object_of("a string-keyed object", "string");
    assert_eq!(obj_prop.prop_type, "object");
    assert_eq!(obj_prop.items.unwrap().prop_type, "string");
}

#[test]
fn test_schema_later_property_replaces_earlier() {
    let schema = JsonSchema::new_object()
        .with_optional("x", PropertySchema::string("first"))
        .with_optional("x", PropertySchema::integer("second"));
    let p = schema.property("x").unwrap();
    assert_eq!(p.prop_type, "integer");
    assert_eq!(p.description, "second");
    assert!(schema.property("y").is_none());
}

#[test]
fn test_call_tool_result_success() {
    let result = CallToolResult::success("Stepped into function foo()".to_string());
    assert_eq!(result.content.len(), 1);
    assert_eq!(result.content[0].content_type, "text");
    assert_eq!(result.content[0].text, "Stepped into function foo()");
    assert!(!result.is_error);
}

#[test]
fn test_call_tool_result_error() {
    let result = CallToolResult::error("Debuggee not halted".to_string());
    assert!(result.is_error);
    assert_eq!(result.content[0].text, "Debuggee not halted");
}

#[test]
fn test_parse_incoming_request() {
    let json = r#"{"jsonrpc":"2.0","id":1,"method":"tools/list","params":{}}"#;
    let msg = parse_incoming(json).unwrap();
    match msg {
        IncomingMessage::Request {
            id,
            method,
            params: _,
        } => {
            assert_eq!(id, 1);
            assert_eq!(method, "tools/list");
        }
        _ => panic!("Expected Request, got {:?}", msg),
    }
}

#[test]
fn test_parse_incoming_notification() {
    let json = r#"{"jsonrpc":"2.0","method":"notifications/initialized"}"#;
    let msg = parse_incoming(json).unwrap();
    match msg {
        IncomingMessage::Notification { method, params } => {
            assert_eq!(method, "notifications/initialized");
            assert!(params.is_none());
        }
        _ => panic!("Expected Notification, got {:?}", msg),
    }
}

#[test]
fn test_parse_incoming_missing_method() {
    let json = r#"{"jsonrpc":"2.0","id":1}"#;
    let err = err_text(parse_incoming(json));
    assert!(err.contains("missing 'method'"));
}

#[test]
fn test_parse_incoming_non_object() {
    let json = r#"["not", "an", "object"]"#;
    let err = err_text(parse_incoming(json));
    assert!(err.contains("not a JSON object"));
}

#[test]
fn test_parse_incoming_invalid_json() {
    let json = r#"not json at all"#;
    let err = err_text(parse_incoming(json));
    assert!(err.contains("Parse error"));
}

#[test]
fn test_parse_incoming_string_id_rejected() {
    let json = r#"{"jsonrpc":"2.0","id":"abc","method":"test"}"#;
    let err = err_text(parse_incoming(json));
    assert!(err.contains("numeric (u64) ids"));
}

#[test]
fn test_parse_incoming_null_id_is_notification() {
    let json = r#"{"jsonrpc":"2.0","id":null,"method":"test"}"#;
    let msg = parse_incoming(json).unwrap();
    assert!(matches!(msg, IncomingMessage::Notification { .. }));
}

#[test]
fn test_parse_incoming_request_no_params() {
    let json = r#"{"jsonrpc":"2.0","id":42,"method":"initialize"}"#;
    let msg = parse_incoming(json).unwrap();
    match msg {
        IncomingMessage::Request { id, method, params } => {
            assert_eq!(id, 42);
            assert_eq!(method, "initialize");
            assert!(params.is_none());
        }
        _ => panic!("Expected Request"),
    }
}

#[test]
fn test_parse_incoming_method_not_a_string() {
    let json = r#"{"jsonrpc":"2.0","id":3,"method":7}"#;
    let err = err_text(parse_incoming(json));
    assert_eq!(err, "Protocol error: Invalid request: missing 'method' field");
}

#[test]
fn test_parse_incoming_negative_id_rejected() {
    let json = r#"{"jsonrpc":"2.0","id":-1,"method":"x"}"#;
    let err = err_text(parse_incoming(json));
    assert_eq!(
        err,
        "Protocol error: Invalid request: only numeric (u64) ids are supported"
    );
}

#[test]
fn test_parse_incoming_keeps_params() {
    let json = r#"{"jsonrpc":"2.0","id":5,"method":"tools/call","params":{"name":"start"}}"#;
    match parse_incoming(json).unwrap() {
        IncomingMessage::Request { params, .. } => {
            let p = params.unwrap();
            assert_eq!(p.get("name").and_then(|v| v.as_str()), Some("start"));
        }
        other => panic!("Expected Request, got {:?}", other),
    }
}

#[test]
fn test_classify_incoming_each_outcome() {
    let r = classify_incoming(false, Some("m".to_string()), MessageId::Number(1), None);
    assert_eq!(
        err_text(r),
        "Protocol error: Invalid request: message is not a JSON object"
    );
    let r = classify_incoming(true, None, MessageId::Number(1), None);
    assert!(err_text(r).contains("missing 'method' field"));
    match classify_incoming(true, Some("m".to_string()), MessageId::Absent, None).unwrap() {
        IncomingMessage::Notification { method, .. } => assert_eq!(method, "m"),
        other => panic!("unexpected {:?}", other),
    }
    match classify_incoming(true, Some("m".to_string()), MessageId::Number(9), None).unwrap() {
        IncomingMessage::Request { id, method, .. } => {
            assert_eq!(id, 9);
            assert_eq!(method, "m");
        }
        other => panic!("unexpected {:?}", other),
    }
    let r = classify_incoming(true, Some("m".to_string()), MessageId::Unsupported, None);
    assert!(err_text(r).contains("only numeric (u64) ids are supported"));
}

#[test]
fn test_mcp_error_constructors() {
    assert_eq!(McpError::parse_error("bad").message(), "Protocol error: Parse error: bad");
    assert_eq!(
        McpError::invalid_request("no").message(),
        "Protocol error: Invalid request: no"
    );
    assert_eq!(
        McpError::method_not_found("foo/bar").message(),
        "Protocol error: Method not found: foo/bar"
    );
    assert_eq!(McpError::StdinClosed.message(), "Stdin closed unexpectedly");
}

#[test]
fn test_distinct_optional_properties_commute() {
    let a = JsonSchema::new_object()
        .with_optional("x", PropertySchema::string("an x"))
        .with_optional("y", PropertySchema::integer("a y"));
    let b = JsonSchema::new_object()
        .with_optional("y", PropertySchema::integer("a y"))
        .with_optional("x", PropertySchema::string("an x"));
    for name in ["x", "y"] {
        let pa = a.property(name).unwrap();
        let pb = b.property(name).unwrap();
        assert_eq!(pa.prop_type, pb.prop_type);
        assert_eq!(pa.description, pb.description);
    }
    assert!(a.property("z").is_none() && b.property("z").is_none());
    assert_eq!(a.required, b.required);
}

#[test]
fn test_parse_incoming_reads_method_and_id_from_their_own_members() {
    let json = r#"{"id":7,"method":"tools/list","params":null}"#;
    match parse_incoming(json).unwrap() {
        IncomingMessage::Request { id, method, .. } => {
            assert_eq!(id, 7);
            assert_eq!(method, "tools/list");
        }
        other => panic!("Expected Request, got {:?}", other),
    }
    let err = err_text(parse_incoming("[1, 2]"));
    assert_eq!(err, "Protocol error: Invalid request: message is not a JSON object");
    let err = err_text(parse_incoming(r#"{"id":1.5,"method":"m"}"#));
    assert_eq!(err, "Protocol error: Invalid request: only numeric (u64) ids are supported");
    assert!(err_text(parse_incoming("{")).starts_with("Protocol error: Parse error: "));
}

#[test]
fn test_with_required_stores_the_given_property() {
    let schema = JsonSchema::new_object()
        .with_required("ids", PropertySchema::array_of("the ids", "integer"))
        .with_optional("note", PropertySchema::string("a note"));
    let props = schema.properties.as_ref().unwrap();
    assert_eq!(props.len(), 2);
    assert_eq!(props[0].0, "ids");
    assert_eq!(props[0].1.description, "the ids");
    assert_eq!(props[0].1.items.as_ref().unwrap().prop_type, "integer");
    assert_eq!(props[1].0, "note");
    assert_eq!(schema.required.as_ref().unwrap(), &vec!["ids".to_string()]);
}
