use build_scan::outer_header::OuterHeader;

// Reference outer header bytes:
// 28 c5 00 02 00 16 00 06 47 52 41 44 4c 45 00 05 39 2e 33 2e 31 00 05 34 2e 33 2e 32
const HEADER_BYTES: [u8; 28] = [
    0x28, 0xc5, 0x00, 0x02, 0x00, 0x16, 0x00, 0x06, 0x47, 0x52, 0x41, 0x44, 0x4c,
    0x45, // "GRADLE"
    0x00, 0x05, 0x39, 0x2e, 0x33, 0x2e, 0x31, // "9.3.1"
    0x00, 0x05, 0x34, 0x2e, 0x33, 0x2e, 0x32, // "4.3.2"
];

#[test]
fn test_parse_reference_header() {
    let header = OuterHeader::parse(&HEADER_BYTES).unwrap();
    assert_eq!(header.version, 2);
    assert_eq!(header.tool_type, "GRADLE");
    assert_eq!(header.tool_version, "9.3.1");
    assert_eq!(header.plugin_version, "4.3.2");
    assert_eq!(header.gzip_offset, 28);
}

#[test]
fn test_bad_magic() {
    let mut bad = HEADER_BYTES;
    bad[0] = 0x00;
    assert!(OuterHeader::parse(&bad).is_err());
}

#[test]
fn test_truncated_header() {
    assert!(OuterHeader::parse(&HEADER_BYTES[..4]).is_err());
}

#[test]
fn non_utf8_identity_string_is_invalid_header() {
    // magic, version 1, a 3-byte blob holding one length-prefixed string
    // whose single byte 0xFF is not valid UTF-8
    let data = [0x28, 0xc5, 0x00, 0x01, 0x00, 0x03, 0x00, 0x01, 0xFF];
    let result = OuterHeader::parse(&data);
    assert!(matches!(
        result,
        Err(build_scan::ParseError::InvalidHeader { .. })
    ));
}
