use build_scan::framing::EventFrameReader;
use build_scan::ParseError;

fn first_five_events_bytes() -> Vec<u8> {
    hex::decode(
        "0c9204b4c584d390670e00bba9c2a9c83301018097930500\
         0e8504000e010802010a6275696c64\
         0efe070301bd10\
         0eef070110",
    )
    .unwrap()
}

fn collect_frames(data: &[u8]) -> Result<Vec<build_scan::framing::FramedEvent>, ParseError> {
    let mut reader = EventFrameReader::new(data);
    let mut out = Vec::new();
    while let Some(item) = reader.next() {
        out.push(item?);
    }
    Ok(out)
}

#[test]
fn test_first_event_wire_id() {
    let data = first_five_events_bytes();
    let mut reader = EventFrameReader::new(&data);
    let event = reader.next().unwrap().unwrap();
    assert_eq!(event.wire_id, 265); // daemon-state schema
    assert_eq!(event.body.len(), 14);
}

#[test]
fn test_five_events_wire_ids() {
    let data = first_five_events_bytes();
    let events = collect_frames(&data).unwrap();
    assert_eq!(events.len(), 5);
    assert_eq!(events[0].wire_id, 265);
    assert_eq!(events[1].wire_id, 6);
    assert_eq!(events[2].wire_id, 5);
    assert_eq!(events[3].wire_id, 516);
    assert_eq!(events[4].wire_id, 12);
}

#[test]
fn test_ordinals_increment() {
    let data = first_five_events_bytes();
    let events = collect_frames(&data).unwrap();
    assert_eq!(events[0].ordinal, 1);
    assert_eq!(events[1].ordinal, 2);
    assert_eq!(events[2].ordinal, 3);
}

#[test]
fn test_body_content() {
    let data = first_five_events_bytes();
    let events = collect_frames(&data).unwrap();
    assert!(events[1].body.is_empty());
    assert_eq!(events[2].body.len(), 8);
}
