use teledap::codec::{encode_frame, DapCodec, FrameError, FrameStatus};

fn jv(text: &str) -> serde_json::Value {
    serde_json::from_str(text).unwrap()
}


fn make_codec() -> DapCodec {
    DapCodec::new(4 * 1024 * 1024)
}

fn make_wire(json: &[u8]) -> Vec<u8> {
    let header = format!("Content-Length: {}\r\n\r\n", json.len());
    let mut buf = Vec::new();
    buf.extend_from_slice(header.as_bytes());
    buf.extend_from_slice(json);
    buf
}

fn make_wire_value(body: serde_json::Value) -> Vec<u8> {
    let body_bytes = serde_json::to_vec(&body).unwrap();
    make_wire(&body_bytes)
}

/// Decodes the frame at the front of `buf`, removes it, and parses its body.
fn decode(codec: &DapCodec, buf: &mut Vec<u8>) -> Result<Option<serde_json::Value>, FrameError> {
    match codec.decode_frame(buf)? {
        FrameStatus::Incomplete { .. } => Ok(None),
        FrameStatus::Complete { body_start, body_end } => {
            let v: serde_json::Value = serde_json::from_slice(&buf[body_start..body_end]).unwrap();
            buf.drain(..body_end);
            Ok(Some(v))
        }
    }
}

#[test]
fn test_decode_single_request() {
    let body =
        jv(r#"{"type":"request","seq":1,"command":"initialize","arguments":{}}"#);
    let mut buf = make_wire_value(body);
    let codec = make_codec();

    let msg = decode(&codec, &mut buf).unwrap().unwrap();
    assert_eq!(msg["type"], "request");
    assert_eq!(msg["seq"], 1);
    assert_eq!(msg["command"], "initialize");
    assert!(buf.is_empty());
}

#[test]
fn test_decode_response() {
    let body = jv(r#"{"type":"response","seq":5,"request_seq":1,"success":true,"command":"threads"}"#);
    let mut buf = make_wire_value(body);
    let codec = make_codec();

    let msg = decode(&codec, &mut buf).unwrap().unwrap();
    assert_eq!(msg["type"], "response");
    assert_eq!(msg["seq"], 5);
    assert_eq!(msg["success"], true);
    assert_eq!(msg["request_seq"], 1);
}

#[test]
fn test_decode_event() {
    let body = jv(r#"{"type":"event","seq":0,"event":"stopped","body":{"reason":"breakpoint","threadId":1}}"#);
    let mut buf = make_wire_value(body);
    let codec = make_codec();

    let msg = decode(&codec, &mut buf).unwrap().unwrap();
    assert_eq!(msg["type"], "event");
    assert_eq!(msg["seq"], 0);
}

#[test]
fn test_partial_header_returns_none() {
    let wire = b"Content-Leng";
    let mut buf = wire.to_vec();
    let codec = make_codec();

    assert!(decode(&codec, &mut buf).unwrap().is_none());
    assert!(!buf.is_empty());
    assert_eq!(codec.decode_frame(&buf), Ok(FrameStatus::Incomplete { additional: 0 }));
}

#[test]
fn test_partial_body_returns_none() {
    let wire = b"Content-Length: 100\r\n\r\n{\"type\":\"request\"";
    let mut buf = wire.to_vec();
    let codec = make_codec();

    assert!(decode(&codec, &mut buf).unwrap().is_none());
    assert!(!buf.is_empty());
    // 23 header bytes and 17 body bytes arrived; 83 more are needed.
    assert_eq!(codec.decode_frame(&buf), Ok(FrameStatus::Incomplete { additional: 83 }));
}

#[test]
fn test_multiple_frames_in_one_buffer() {
    let body1 = jv(r#"{"type":"request","seq":1,"command":"threads"}"#);
    let body2 = jv(r#"{"type":"response","seq":2,"request_seq":1,"success":true,"command":"threads"}"#);

    let mut combined = make_wire_value(body1);
    let frame2 = make_wire_value(body2);
    combined.extend_from_slice(&frame2);

    let codec = make_codec();

    let msg1 = decode(&codec, &mut combined).unwrap().unwrap();
    assert_eq!(msg1["type"], "request");

    let msg2 = decode(&codec, &mut combined).unwrap().unwrap();
    assert_eq!(msg2["type"], "response");

    assert!(combined.is_empty());
}

#[test]
fn test_oversized_frame_rejected() {
    let codec = DapCodec::new(10);
    let wire = b"Content-Length: 100\r\n\r\n{\"type\":\"request\"}";
    let result = codec.decode_frame(wire);
    assert!(result.is_err());
    assert_eq!(
        result,
        Err(FrameError::FrameTooLarge { content_length: 100, max: 10 })
    );
}

#[test]
fn test_missing_content_length_header() {
    let wire = b"X-Other: 42\r\n\r\n{\"type\":\"request\"}";
    let codec = make_codec();

    let result = codec.decode_frame(wire);
    assert!(result.is_err());
    assert_eq!(result, Err(FrameError::MissingContentLength));
}

#[test]
fn test_header_exceeds_4kib_rejected() {
    let buf = vec![b'A'; 5000];
    let codec = make_codec();

    let result = codec.decode_frame(&buf);
    assert!(result.is_err());
    assert_eq!(result, Err(FrameError::HeaderTooLong));
}

#[test]
fn test_encode_request() {
    let body = serde_json::to_vec(&jv(r#"{
        "seq": 1, "type": "request", "command": "continue", "arguments": {"threadId": 1}
    }"#))
    .unwrap();
    let dst = encode_frame(&body);

    let output = std::str::from_utf8(&dst).unwrap();
    assert!(output.starts_with("Content-Length: "));
    assert!(output.contains("\r\n\r\n"));
    assert!(output.contains("\"command\":\"continue\""));
    assert!(output.contains("\"threadId\":1"));
}

#[test]
fn test_encode_value() {
    let value = jv(r#"{"type":"event","seq":0,"event":"initialized"}"#);
    let dst = encode_frame(&serde_json::to_vec(&value).unwrap());

    let output = std::str::from_utf8(&dst).unwrap();
    assert!(output.starts_with("Content-Length: "));
    assert!(output.contains("\"event\":\"initialized\""));
}

#[test]
fn test_decode_roundtrip() {
    let original = jv(r#"{
        "seq": 42, "type": "request", "command": "evaluate",
        "arguments": {"expression": "x + 1", "frameId": 0}
    }"#);
    let codec = make_codec();
    let mut encoded = encode_frame(&serde_json::to_vec(&original).unwrap());

    let decoded = decode(&codec, &mut encoded).unwrap().unwrap();
    assert_eq!(decoded["seq"], 42);
    assert_eq!(decoded["type"], "request");
    assert_eq!(decoded["command"], "evaluate");
    assert_eq!(decoded, original);
}

#[test]
fn test_empty_body_event() {
    let body = jv(r#"{"type":"event","seq":0,"event":"initialized"}"#);
    let mut buf = make_wire_value(body);
    let codec = make_codec();

    let msg = decode(&codec, &mut buf).unwrap().unwrap();
    assert_eq!(msg["type"], "event");
}

#[test]
fn test_encode_frame_exact_bytes() {
    assert_eq!(encode_frame(b"{}"), b"Content-Length: 2\r\n\r\n{}".to_vec());
    assert_eq!(encode_frame(b""), b"Content-Length: 0\r\n\r\n".to_vec());
}

#[test]
fn test_frame_roundtrip_with_trailing_bytes() {
    let body = b"{\"a\":1}";
    let mut wire = encode_frame(body);
    wire.extend_from_slice(b"Content-Len");
    let codec = make_codec();
    match codec.decode_frame(&wire).unwrap() {
        FrameStatus::Complete { body_start, body_end } => {
            assert_eq!(&wire[body_start..body_end], &body[..]);
            assert_eq!(&wire[body_end..], b"Content-Len");
        }
        other => panic!("expected a complete frame, got {:?}", other),
    }
}

#[test]
fn test_content_length_on_later_header_line() {
    let wire = b"X-Other: 1\r\n  Content-Length:  3 \r\n\r\nabc";
    let codec = make_codec();
    assert_eq!(
        codec.decode_frame(wire),
        Ok(FrameStatus::Complete { body_start: 37, body_end: 40 })
    );
}

#[test]
fn test_unparsable_content_length_is_missing() {
    let wire = b"Content-Length: ten\r\n\r\n";
    assert_eq!(make_codec().decode_frame(wire), Err(FrameError::MissingContentLength));
}

#[test]
fn test_invalid_header_encoding() {
    let wire = b"Content-Length: 1\xff\r\n\r\nx";
    assert_eq!(make_codec().decode_frame(wire), Err(FrameError::InvalidHeaderEncoding));
}

#[test]
fn test_default_codec_limit() {
    assert_eq!(DapCodec::default().max_frame_size(), 4 * 1024 * 1024);
    assert_eq!(DapCodec::new(10).max_frame_size(), 10);
}

#[test]
fn test_every_proper_prefix_of_a_frame_is_incomplete() {
    let codec = make_codec();
    let body = br#"{"seq":1,"type":"request","command":"threads"}"#;
    let wire = encode_frame(body);
    let header_len = wire.len() - body.len();
    for k in 0..wire.len() {
        let expected = if k < header_len { 0 } else { wire.len() - k };
        assert_eq!(
            codec.decode_frame(&wire[..k]),
            Ok(FrameStatus::Incomplete { additional: expected }),
            "prefix of {} bytes",
            k
        );
    }
}

#[test]
fn test_hand_written_frame_prefixes_and_extension() {
    let codec = make_codec();
    let frame: &[u8] = b"Content-Type: application/json\r\nContent-Length: 5\r\n\r\nhello";
    let header_len = frame.len() - 5;
    for k in 0..frame.len() {
        let expected = if k < header_len { 0 } else { frame.len() - k };
        assert_eq!(codec.decode_frame(&frame[..k]), Ok(FrameStatus::Incomplete { additional: expected }));
    }
    let whole = codec.decode_frame(frame);
    let mut longer = frame.to_vec();
    longer.extend_from_slice(b"Content-Length: 2\r\n\r\n{}");
    assert_eq!(codec.decode_frame(&longer), whole);
    assert_eq!(whole, Ok(FrameStatus::Complete { body_start: header_len, body_end: frame.len() }));
}

#[test]
fn test_long_header_frame_prefixes() {
    let codec = DapCodec::new(1024);
    let mut frame = Vec::new();
    frame.extend_from_slice(b"X-Padding: ");
    frame.extend(std::iter::repeat(b'p').take(5000));
    frame.extend_from_slice(b"\r\nContent-Length: 2\r\n\r\n{}");
    let header_len = frame.len() - 2;
    assert_eq!(codec.decode_frame(&frame[..100]), Ok(FrameStatus::Incomplete { additional: 0 }));
    assert_eq!(codec.decode_frame(&frame[..4096]), Ok(FrameStatus::Incomplete { additional: 0 }));
    assert_eq!(codec.decode_frame(&frame[..4097]), Err(FrameError::HeaderTooLong));
    assert_eq!(codec.decode_frame(&frame[..header_len]), Ok(FrameStatus::Incomplete { additional: 2 }));
    assert_eq!(
        codec.decode_frame(&frame),
        Ok(FrameStatus::Complete { body_start: header_len, body_end: frame.len() })
    );
}
