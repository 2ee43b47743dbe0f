use teledap::trace::{
    trace_file_name, truncate, TraceDirection, TraceEntry, TraceRing, TraceSource,
    DEFAULT_RING_SIZE, MAX_RESULT_LEN,
};

fn jv(text: &str) -> serde_json::Value {
    serde_json::from_str(text).unwrap()
}


#[test]
fn test_truncate() {
    let s = "a".repeat(600);
    let t = truncate(&s, 500);
    assert_eq!(t.len(), 503);
    assert!(t.ends_with('…'));

    let s = "short";
    let t = truncate(s, 500);
    assert_eq!(t, "short");
}

#[test]
fn test_truncate_at_exact_length_is_unchanged() {
    let s = "b".repeat(500);
    assert_eq!(truncate(&s, 500), s);
    assert_eq!(truncate("abcdef", 3), "abc…");
}

#[test]
fn test_trace_request() {
    let e = TraceEntry::request(10, "initialize", None, "sid-1");
    assert_eq!(e.command, "initialize");
    assert_eq!(e.source, TraceSource::DapRequest);
    assert_eq!(e.direction, TraceDirection::Outbound);
    assert_eq!(e.session_id, "sid-1");
    assert_eq!(e.seq, 0);
    assert_eq!(e.timestamp, 10);
}

#[test]
fn test_trace_response() {
    let e = TraceEntry::response(5, "threads", Some("{\"threads\":[...]}".into()), Some(1500), "s");
    assert_eq!(e.source, TraceSource::DapResponse);
    assert_eq!(e.direction, TraceDirection::Inbound);
    assert_eq!(e.duration_us, Some(1500));
    assert_eq!(e.result.as_deref(), Some("{\"threads\":[...]}"));
}

#[test]
fn test_trace_response_truncates_result() {
    let long = "x".repeat(MAX_RESULT_LEN + 20);
    let e = TraceEntry::response(0, "evaluate", Some(long), None, "s");
    let r = e.result.unwrap();
    assert_eq!(r.len(), MAX_RESULT_LEN + '…'.len_utf8());
    assert!(r.ends_with('…'));
}

#[test]
fn test_trace_event() {
    let e = TraceEntry::event(1, "stopped", Some(jv(r#"{"reason": "step"}"#)), "s");
    assert_eq!(e.source, TraceSource::DapEvent);
    assert_eq!(e.direction, TraceDirection::Inbound);
    assert_eq!(e.command, "stopped");
    assert!(e.payload.is_some());
}

#[test]
fn test_trace_internal() {
    let e = TraceEntry::internal(1, "state: Halted", None, "s");
    assert_eq!(e.source, TraceSource::Internal);
    assert_eq!(e.direction, TraceDirection::Outbound);
    assert_eq!(e.command, "state: Halted");
}

#[test]
fn test_trace_file_name() {
    assert_eq!(
        trace_file_name("0123abcd-ffff-4444-8888-000000000000"),
        "teledap_0123abcd.jsonl"
    );
}

fn entry(i: u64) -> TraceEntry {
    let mut e = TraceEntry::internal(i as i64, &format!("cmd_{}", i), None, "s");
    e.seq = i;
    e
}

#[test]
fn test_ring_buffer_eviction() {
    let mut ring: TraceRing<TraceEntry> = TraceRing::new(5);
    for i in 0..10 {
        ring.push(entry(i));
    }
    assert_eq!(ring.len(), 5);
    let recent = ring.recent(10);
    assert_eq!(recent.len(), 5);
    assert_eq!(recent[0].command, "cmd_9");
    assert_eq!(recent[4].command, "cmd_5");
}

#[test]
fn test_log_and_retrieve() {
    let mut ring: TraceRing<TraceEntry> = TraceRing::new(10);
    assert!(ring.is_empty());
    ring.push(entry(0));
    assert_eq!(ring.len(), 1);
    let recent = ring.recent(1);
    assert_eq!(recent[0].command, "cmd_0");
    assert_eq!(recent[0].seq, 0);
}

#[test]
fn test_ring_recent_most_recent_first_and_limited() {
    let mut ring: TraceRing<u64> = TraceRing::new(DEFAULT_RING_SIZE);
    for i in 1..=4u64 {
        ring.push(i);
    }
    assert_eq!(ring.recent(2), vec![4, 3]);
    assert_eq!(ring.recent(0), Vec::<u64>::new());
}

#[test]
fn test_ring_capacity_zero_keeps_nothing() {
    let mut ring: TraceRing<u64> = TraceRing::new(0);
    ring.push(1);
    ring.push(2);
    assert_eq!(ring.len(), 0);
    assert!(ring.is_empty());
    assert_eq!(ring.recent(5), Vec::<u64>::new());
}

#[test]
fn test_truncate_counts_characters() {
    assert_eq!(truncate("ééé", 3), "ééé");
    assert_eq!(truncate("éé", 1), "é…");
    assert_eq!(truncate("", 0), "");
    assert_eq!(truncate("ab", 0), "…");
}

#[test]
fn test_trace_mcp_trigger() {
    let e = TraceEntry::mcp_trigger(3, "continue", jv(r#"{"threadId": 1}"#), "s");
    assert_eq!(e.source, TraceSource::McpTrigger);
    assert_eq!(e.direction, TraceDirection::Inbound);
    assert_eq!(e.command, "continue");
    assert_eq!(e.payload.unwrap()["threadId"], 1);
}

#[test]
fn test_ring_holds_last_capacity_entries_in_order() {
    let mut ring: TraceRing<u64> = TraceRing::new(3);
    for i in 1..=2u64 {
        ring.push(i);
    }
    assert_eq!(ring.recent(10), vec![2, 1]);
    for i in 3..=7u64 {
        ring.push(i);
    }
    assert_eq!(ring.len(), 3);
    assert_eq!(ring.recent(10), vec![7, 6, 5]);
}

#[test]
fn test_trace_file_name_takes_eight_bytes_of_whole_characters() {
    assert_eq!(trace_file_name("éééé-rest"), "teledap_éééé.jsonl");
    assert_eq!(trace_file_name("abcdefgh"), "teledap_abcdefgh.jsonl");
}
