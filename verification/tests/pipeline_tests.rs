use build_scan::models::TaskOutcome;
use build_scan::parse;
use build_scan::ParseError;
use std::io::Write;

fn encode_varint(mut value: u64) -> Vec<u8> {
    let mut buf = Vec::new();
    loop {
        let mut byte = (value & 0x7F) as u8;
        value >>= 7;
        if value != 0 {
            byte |= 0x80;
        }
        buf.push(byte);
        if value == 0 {
            break;
        }
    }
    buf
}

fn encode_zigzag(n: i64) -> Vec<u8> {
    encode_varint(((n << 1) ^ (n >> 63)) as u64)
}

/// One frame with explicit wire-id and timestamp deltas, the wall-clock
/// delta absent, and the default ordinal increment.
fn frame(wire_delta: i64, ts_delta: i64, body: &[u8]) -> Vec<u8> {
    let mut out = Vec::new();
    out.push(0x0C); // bits 2 and 3 set: no wall clock, ordinal += 1
    out.extend_from_slice(&encode_zigzag(wire_delta));
    out.extend_from_slice(&encode_zigzag(ts_delta));
    out.extend_from_slice(&encode_varint(body.len() as u64));
    out.extend_from_slice(body);
    out
}

fn gzip_compress(data: &[u8]) -> Vec<u8> {
    let mut encoder = flate2::write::GzEncoder::new(Vec::new(), flate2::Compression::default());
    encoder.write_all(data).unwrap();
    encoder.finish().unwrap()
}

fn header_bytes() -> Vec<u8> {
    vec![
        0x28, 0xc5, 0x00, 0x02, 0x00, 0x16, 0x00, 0x06, 0x47, 0x52, 0x41, 0x44, 0x4c, 0x45, 0x00,
        0x05, 0x39, 0x2e, 0x33, 0x2e, 0x31, 0x00, 0x05, 0x34, 0x2e, 0x33, 0x2e, 0x32,
    ]
}

fn payload_from_stream(stream: &[u8]) -> Vec<u8> {
    let mut payload = header_bytes();
    payload.extend_from_slice(&gzip_compress(stream));
    payload
}

fn intern_string(s: &str) -> Vec<u8> {
    let mut out = encode_zigzag(s.chars().count() as i64);
    for c in s.chars() {
        out.extend_from_slice(&encode_varint(c as u64));
    }
    out
}

#[test]
fn single_task_round_trip() {
    // identity (117, ts=1000): id=1, build_path=":", task_path=":app:build"
    let mut body117 = vec![0x00];
    body117.extend_from_slice(&1i64.to_le_bytes());
    body117.extend_from_slice(&intern_string(":"));
    body117.extend_from_slice(&intern_string(":app:build"));

    // started (1563, ts=2000): id=1, class name present, parent absent
    let mut body1563 = vec![0x10];
    body1563.extend_from_slice(&encode_zigzag(1));
    body1563.extend_from_slice(&intern_string(":"));
    body1563.extend_from_slice(&intern_string(":app:build"));
    body1563.extend_from_slice(&intern_string("org.gradle.DefaultTask"));

    // finished (2074, ts=3000): id=1, path, outcome ordinal 3
    let mut body2074 = vec![0x1F, 0xF8];
    body2074.extend_from_slice(&1i64.to_le_bytes());
    body2074.extend_from_slice(&intern_string(":app:build"));
    body2074.push(0x03);

    let mut stream = Vec::new();
    stream.extend_from_slice(&frame(117, 1000, &body117));
    stream.extend_from_slice(&frame(1563 - 117, 1000, &body1563));
    stream.extend_from_slice(&frame(2074 - 1563, 1000, &body2074));

    let payload = parse(&payload_from_stream(&stream)).unwrap();
    assert_eq!(payload.tasks.len(), 1);
    let task = &payload.tasks[0];
    assert_eq!(task.build_path, ":");
    assert_eq!(task.task_path, ":app:build");
    assert_eq!(task.class_name.as_deref(), Some("org.gradle.DefaultTask"));
    assert_eq!(task.started_at, Some(2000));
    assert_eq!(task.finished_at, Some(3000));
    assert_eq!(task.duration_ms, Some(1000));
    assert!(matches!(task.outcome, Some(TaskOutcome::Success)));
    assert!(payload.raw_events.is_empty());
}

#[test]
fn orphan_finish_yields_empty_report() {
    // a single finish frame with id=42 and no identity or start
    let mut body2074 = vec![0x1F, 0xFE]; // only bit 0 (id) present
    body2074.extend_from_slice(&42i64.to_le_bytes());

    let stream = frame(2074, 1000, &body2074);
    let payload = parse(&payload_from_stream(&stream)).unwrap();
    assert!(payload.tasks.is_empty());
    assert!(payload.raw_events.is_empty());
}

#[test]
fn unknown_schema_is_counted_not_decoded() {
    let stream = frame(9999, 0, &[0x00]);
    let payload = parse(&payload_from_stream(&stream)).unwrap();
    assert!(payload.tasks.is_empty());
    assert_eq!(payload.raw_events.len(), 1);
    assert_eq!(payload.raw_events[0].wire_id, 9999);
    assert_eq!(payload.raw_events[0].count, 1);
}

#[test]
fn bad_magic_is_invalid_header() {
    let mut payload = payload_from_stream(&[]);
    payload[0] = 0x00;
    let result = parse(&payload);
    assert!(matches!(result, Err(ParseError::InvalidHeader { .. })));
}

#[test]
fn truncated_tail_is_invalid_gzip() {
    let mut payload = header_bytes();
    payload.extend_from_slice(&[0x00, 0x01, 0x02]);
    let result = parse(&payload);
    assert!(matches!(result, Err(ParseError::InvalidGzip)));
}

#[test]
fn empty_stream_yields_empty_report() {
    let payload = parse(&payload_from_stream(&[])).unwrap();
    assert!(payload.tasks.is_empty());
    assert!(payload.raw_events.is_empty());
    assert!(payload.planned_nodes.is_empty());
    assert!(payload.transform_execution_requests.is_empty());
    assert!(payload.task_registration_summary.is_none());
    assert!(payload.basic_memory_stats.is_none());
}

#[test]
fn truncated_frame_is_unexpected_eof() {
    // a frame announcing a 100-byte body with none following
    let mut stream = Vec::new();
    stream.push(0x0C);
    stream.extend_from_slice(&encode_zigzag(117));
    stream.extend_from_slice(&encode_zigzag(0));
    stream.extend_from_slice(&encode_varint(100));
    let result = parse(&payload_from_stream(&stream));
    assert!(matches!(result, Err(ParseError::UnexpectedEof { .. })));
}

#[test]
fn outcome_ordinals_map_to_variants() {
    assert!(matches!(TaskOutcome::from_ordinal(0), Some(TaskOutcome::UpToDate)));
    assert!(matches!(TaskOutcome::from_ordinal(1), Some(TaskOutcome::Skipped)));
    assert!(matches!(TaskOutcome::from_ordinal(2), Some(TaskOutcome::Failed)));
    assert!(matches!(TaskOutcome::from_ordinal(3), Some(TaskOutcome::Success)));
    assert!(matches!(TaskOutcome::from_ordinal(4), Some(TaskOutcome::FromCache)));
    assert!(matches!(TaskOutcome::from_ordinal(5), Some(TaskOutcome::NoSource)));
    assert!(matches!(TaskOutcome::from_ordinal(6), Some(TaskOutcome::AvoidedForUnknownReason)));
    assert!(TaskOutcome::from_ordinal(7).is_none());
    assert!(TaskOutcome::from_ordinal(9999).is_none());
}

#[test]
fn registration_summary_and_memory_stats_are_kept() {
    // wire 122 (task count 7), then wire 257 with all fields absent
    let body122 = encode_varint(7);
    let body257 = vec![0x1F];
    let mut stream = Vec::new();
    stream.extend_from_slice(&frame(122, 0, &body122));
    stream.extend_from_slice(&frame(257 - 122, 0, &body257));
    let payload = parse(&payload_from_stream(&stream)).unwrap();
    assert_eq!(payload.task_registration_summary.unwrap().task_count, 7);
    assert!(payload.basic_memory_stats.is_some());
}
