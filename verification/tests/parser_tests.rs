use build_scan::parser::{BuildScanParser, PayloadBuilder};
use build_scan::ParseError;
use std::io::Write;

#[test]
fn test_builder_instantiation() {
    let builder = PayloadBuilder::new();
    assert_eq!(builder.dictionary.len(), 0);
}

#[test]
fn test_builder_maps_known_events() {
    let mut builder = PayloadBuilder::new();
    // Construct a dummy payload with known events.
    // 0 -> Timestamp (0)
    // 14 -> String ("test_string" length 11 -> varint 22) + "test_string"
    let mut raw_data = Vec::new();
    // Event 0
    raw_data.push(0);
    // Varint 0
    raw_data.push(0);

    // Event 14
    raw_data.push(14);
    // String length 11 (22 as varint since bit 0 is string vs stringref flag)
    raw_data.push(22);
    raw_data.extend_from_slice(b"test_string");

    let result = builder.build(&raw_data);
    assert!(result.is_ok(), "Expected Ok, got {:?}", result.err());
    assert_eq!(builder.dictionary, vec!["test_string".to_string()]);
}

#[test]
fn test_builder_parses_known_events_and_halts_on_unknown() {
    let mut builder = PayloadBuilder::new();
    // Known events, then halt on unknown:
    let mut raw_data = Vec::new();
    // Event 0
    raw_data.push(0);
    // Varint 0
    raw_data.push(0);

    // Event 14
    raw_data.push(14);
    raw_data.push(8); // length 4 * 2
    raw_data.extend_from_slice(b"test");

    // Event 0
    raw_data.push(0);
    raw_data.push(0); // timestamp 0

    // Unknown Event 99
    raw_data.push(99);
    raw_data.push(42);

    let result = builder.build(&raw_data);

    match result {
        Err(ParseError::UnknownEvent { id }) => assert_eq!(id, 99),
        _ => panic!("Expected UnknownEvent error for 99, got {:?}", result),
    }
}

#[test]
fn test_build_scan_parser_parses_compressed() {
    fn gzip_compress(data: &[u8]) -> Vec<u8> {
        let mut encoder =
            flate2::write::GzEncoder::new(Vec::new(), flate2::Compression::default());
        encoder.write_all(data).unwrap();
        encoder.finish().unwrap()
    }

    let mut raw_data = Vec::new();
    // Event 0 (Timestamp)
    raw_data.push(0);
    raw_data.push(0);

    let compressed = gzip_compress(&raw_data);

    let mut parser = BuildScanParser::new();
    let result = parser.parse_compressed(&compressed);
    assert!(result.is_ok());
}

#[test]
fn builder_rejects_backref_as_dictionary_entry() {
    let mut builder = PayloadBuilder::new();
    // Event 14 (dictionary add) followed by a back-reference primitive
    let raw_data = vec![14, 0x55]; // (42 << 1) | 1 = 85: a string reference
    let result = builder.build(&raw_data);
    assert!(matches!(result, Err(ParseError::UnexpectedPrimitive { .. })));
}

#[test]
fn builder_keeps_strings_read_before_stopping_error() {
    let mut builder = PayloadBuilder::new();
    let mut raw_data = Vec::new();
    // Event 14: dictionary add "test"
    raw_data.push(14);
    raw_data.push(8); // length 4 * 2
    raw_data.extend_from_slice(b"test");
    // Unknown Event 99 stops the build
    raw_data.push(99);
    let result = builder.build(&raw_data);
    assert!(matches!(result, Err(ParseError::UnknownEvent { id: 99 })));
    assert_eq!(builder.dictionary, vec!["test".to_string()]);
}
