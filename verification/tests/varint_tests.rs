use build_scan::varint::{
    encode_unsigned_varint, read_unsigned_varint, read_zigzag_i32, zigzag_decode_i32,
    zigzag_decode_i64,
};
use build_scan::ParseError;

#[test]
fn test_read_unsigned_varint_single_byte() {
    let data = [0x05];
    let mut pos = 0;
    assert_eq!(read_unsigned_varint(&data, &mut pos).unwrap(), 5);
    assert_eq!(pos, 1);
}

#[test]
fn test_read_unsigned_varint_two_bytes() {
    let data = [0x92, 0x04];
    let mut pos = 0;
    assert_eq!(read_unsigned_varint(&data, &mut pos).unwrap(), 530);
    assert_eq!(pos, 2);
}

#[test]
fn test_read_unsigned_varint_eof() {
    let data = [0x80];
    let mut pos = 0;
    assert!(read_unsigned_varint(&data, &mut pos).is_err());
}

#[test]
fn test_zigzag_decode_i32() {
    assert_eq!(zigzag_decode_i32(0), 0);
    assert_eq!(zigzag_decode_i32(1), -1);
    assert_eq!(zigzag_decode_i32(2), 1);
    assert_eq!(zigzag_decode_i32(3), -2);
    assert_eq!(zigzag_decode_i32(530), 265);
    assert_eq!(zigzag_decode_i32(517), -259);
}

#[test]
fn test_zigzag_decode_i64() {
    assert_eq!(zigzag_decode_i64(0), 0);
    assert_eq!(zigzag_decode_i64(1), -1);
    assert_eq!(zigzag_decode_i64(2), 1);
}

#[test]
fn test_read_zigzag_i32() {
    let data = [0x92, 0x04];
    let mut pos = 0;
    assert_eq!(read_zigzag_i32(&data, &mut pos).unwrap(), 265);
}

#[test]
fn varint_round_trip_samples() {
    for &value in &[0u64, 1, 127, 128, 300, 624485, u64::MAX / 2, u64::MAX] {
        let encoded = encode_unsigned_varint(value);
        let mut pos = 0;
        assert_eq!(read_unsigned_varint(&encoded, &mut pos).unwrap(), value);
        assert_eq!(pos, encoded.len());
    }
}

#[test]
fn leb128_eleven_continuation_bytes_rejected() {
    let data = [0x80u8; 11];
    let mut pos = 0;
    let result = read_unsigned_varint(&data, &mut pos);
    assert!(matches!(result, Err(ParseError::MalformedLeb128 { .. })));
}
