use std::collections::VecDeque;
use teledap::error::OpenOcdClientError;
use teledap::openocd::{
    lines_of, log_file_path, openocd_args, push_line_bounded, tail_lines, ResponseCollector,
    DEFAULT_COMMAND_TIMEOUT_MS, MAX_STDOUT_BUFFER_LINES,
};

fn strings(v: &[&str]) -> Vec<String> {
    v.iter().map(|s| s.to_string()).collect()
}

#[test]
fn test_openocd_args_config_then_extra() {
    let args = openocd_args(&strings(&["board.cfg", "target.cfg"]), &strings(&["-d2"]));
    assert_eq!(args, strings(&["-f", "board.cfg", "-f", "target.cfg", "-d2"]));
    assert!(openocd_args(&[], &[]).is_empty());
}

#[test]
fn test_response_collector_stops_at_terminator() {
    let mut c = ResponseCollector::new();
    assert!(!c.done());
    assert!(!c.feed("target halted".to_string()));
    assert!(!c.feed("pc: 0x08000100".to_string()));
    assert!(c.feed("\u{1a}".to_string()));
    assert!(c.done());
    assert_eq!(
        c.finish("halt", 1000).unwrap(),
        "target halted\npc: 0x08000100"
    );
}

#[test]
fn test_response_collector_keeps_text_before_terminator() {
    let mut c = ResponseCollector::new();
    assert!(c.feed("0x12345678\u{1a}".to_string()));
    assert_eq!(c.finish("mdw 0", 1000).unwrap(), "0x12345678");
}

#[test]
fn test_response_collector_timeout_without_output() {
    let c = ResponseCollector::new();
    match c.finish("reset halt", 250) {
        Err(OpenOcdClientError::Timeout { command, timeout_ms }) => {
            assert_eq!(command, "reset halt");
            assert_eq!(timeout_ms, 250);
        }
        other => panic!("expected a timeout, got {:?}", other),
    }
}

#[test]
fn test_response_collector_partial_output_returned() {
    let mut c = ResponseCollector::new();
    assert!(!c.feed("partial".to_string()));
    assert_eq!(c.finish("cmd", 10).unwrap(), "partial");
}

#[test]
fn test_push_line_bounded_drops_oldest() {
    let mut buf: VecDeque<String> = VecDeque::new();
    for i in 0..5 {
        push_line_bounded(&mut buf, format!("line {i}"), 3);
    }
    let v: Vec<String> = buf.into_iter().collect();
    assert_eq!(v, strings(&["line 2", "line 3", "line 4"]));
}

#[test]
fn test_read_output_no_log_dir() {
    match log_file_path(None, "openocd_stdout.log") {
        Err(OpenOcdClientError::NotConnected(ref msg)) => {
            assert!(msg.contains("log directory"));
        }
        other => panic!("Expected NotConnected about log dir, got {:?}", other),
    }
}

#[test]
fn test_log_file_path_joins() {
    let p = log_file_path(Some("/tmp/logs"), "openocd_stdout.log").unwrap();
    assert_eq!(p, "/tmp/logs/openocd_stdout.log");
}

#[test]
fn test_lines_and_tail() {
    assert_eq!(lines_of("a\nb\r\nc"), strings(&["a", "b", "c"]));
    assert_eq!(lines_of("a\n"), strings(&["a"]));
    assert!(lines_of("").is_empty());
    assert_eq!(tail_lines("1\n2\n3\n4\n", 2), strings(&["3", "4"]));
    assert_eq!(tail_lines("1\n2\n", 10), strings(&["1", "2"]));
    assert!(tail_lines("1\n2\n", 0).is_empty());
}

#[test]
fn test_openocd_defaults() {
    assert_eq!(DEFAULT_COMMAND_TIMEOUT_MS, 5000);
    assert_eq!(MAX_STDOUT_BUFFER_LINES, 1000);
}

#[test]
fn test_openocd_error_messages() {
    let e = OpenOcdClientError::Timeout {
        command: "halt".to_string(),
        timeout_ms: 1500,
    };
    assert_eq!(e.message(), "Command timed out after 1500ms: halt");
    assert_eq!(
        OpenOcdClientError::NotConnected("x".to_string()).message(),
        "OpenOCD is not running: x"
    );
    assert_eq!(
        OpenOcdClientError::AlreadyRunning.message(),
        "OpenOCD is already running"
    );
}

#[test]
fn test_response_collector_starts_open_and_empty() {
    let c = ResponseCollector::new();
    assert!(!c.done());
}
