use teledap::client::{adapter_search_path, response_body, route_message, MessageRoute};
use teledap::dap::base::{Event, ProtocolMessage, Request, Response};
use teledap::error::{DapClientError, DebugSessionError};
use teledap::state::SessionState;

fn jv(text: &str) -> serde_json::Value {
    serde_json::from_str(text).unwrap()
}


#[test]
fn test_route_response_to_waiter() {
    let msg = ProtocolMessage::Response(Response::success(3, 2, "threads"));
    match route_message(msg) {
        MessageRoute::ToWaiter { request_seq, response } => {
            assert_eq!(request_seq, 2);
            assert_eq!(response.command, "threads");
        }
        _ => panic!("expected a response route"),
    }
}

#[test]
fn test_route_event_and_request() {
    match route_message(ProtocolMessage::Event(Event::new(4, "stopped"))) {
        MessageRoute::ToEvents(e) => assert_eq!(e.event, "stopped"),
        _ => panic!("expected an event route"),
    }
    assert!(matches!(
        route_message(ProtocolMessage::Request(Request::new(5, "runInTerminal"))),
        MessageRoute::Unexpected
    ));
}

#[test]
fn test_response_body_success_and_failure() {
    let mut ok = Response::success(1, 1, "evaluate");
    ok.body = Some(jv(r#"{"result": "3"}"#));
    let body = response_body(ok, "evaluate").unwrap().unwrap();
    assert_eq!(body["result"], "3");

    let failed = Response::error(2, 1, "evaluate", "notStopped");
    match response_body(failed, "evaluate") {
        Err(e) => assert_eq!(e.message(), "DAP request 'evaluate' failed: notStopped"),
        Ok(_) => panic!("expected a failure"),
    }

    let mut bare = Response::success(3, 1, "next");
    bare.success = false;
    match response_body(bare, "next") {
        Err(DapClientError::DapRequestFailed { message, .. }) => assert_eq!(message, "unknown error"),
        _ => panic!("expected a failure"),
    }
}

#[test]
fn test_adapter_search_path() {
    let p = adapter_search_path("/opt/llvm/lib/liblldb.so", ":", "/usr/bin").unwrap();
    assert_eq!(p, "/opt/llvm/lib:/usr/bin");
    assert_eq!(adapter_search_path("/", ":", "/usr/bin"), None);
}

#[test]
fn test_dap_client_error_messages() {
    assert_eq!(
        DapClientError::request_failed("launch", "no program").message(),
        "DAP request 'launch' failed: no program"
    );
    assert_eq!(
        DapClientError::NotConnected("gone".to_string()).message(),
        "Not connected: gone"
    );
    assert!(DapClientError::NotConnected(String::new()).is_not_connected());
    assert!(!DapClientError::Timeout("t".to_string()).is_not_connected());
}

#[test]
fn test_invalid_state_message() {
    let e = DebugSessionError::InvalidState {
        operation: "continue".to_string(),
        current: SessionState::Disconnected,
        required: vec![SessionState::Halted],
    };
    assert_eq!(
        e.message(),
        "invalid state for `continue`: current = Disconnected, requires one of [Halted]"
    );
    let e = DebugSessionError::ExpansionDepthExceeded(3);
    assert_eq!(e.message(), "variable expansion depth limit reached (max 3)");
}
