use build_scan::kryo::{
    encode_unsigned_varint, encode_zigzag_i64, is_field_present, read_byte_array,
    read_flags_u16_be, read_list_of_byte_arrays, read_list_of_i64, read_list_of_interned_strings,
    read_list_of_positive_varint_i32, read_positive_varint_i32, read_positive_varint_i64,
    read_task_id, read_zigzag_i64, StringInternTable,
};
use build_scan::ParseError;

#[test]
fn test_flags_inverted() {
    assert!(is_field_present(0x00, 0));
    assert!(is_field_present(0x00, 1));
    assert!(!is_field_present(0x01, 0));
    assert!(is_field_present(0x01, 1));
}

#[test]
fn test_string_intern_new_ascii() {
    // ZigZag(3) = 6, then chars 'f'=102, 'o'=111, 'o'=111
    let data = [0x06, 0x66, 0x6f, 0x6f];
    let mut pos = 0;
    let mut table = StringInternTable::new();
    assert_eq!(table.read_string(&data, &mut pos).unwrap(), "foo");
    assert_eq!(pos, 4);
}

#[test]
fn test_string_intern_back_reference() {
    // First: write "foo" (zigzag(3)=6, then chars)
    // Then: back-ref to index 0 -> zigzag(-1) = 1
    let data = [0x06, 0x66, 0x6f, 0x6f, 0x01];
    let mut pos = 0;
    let mut table = StringInternTable::new();
    assert_eq!(table.read_string(&data, &mut pos).unwrap(), "foo");
    assert_eq!(table.read_string(&data, &mut pos).unwrap(), "foo");
    assert_eq!(pos, 5);
}

#[test]
fn test_string_intern_empty_string() {
    // ZigZag(0) = 0, no chars follow
    let data = [0x00];
    let mut pos = 0;
    let mut table = StringInternTable::new();
    assert_eq!(table.read_string(&data, &mut pos).unwrap(), "");
}

#[test]
fn test_string_intern_multiple_refs() {
    // "abc" then "xyz" then ref(0) then ref(1)
    let data = [
        0x06, 97, 98, 99, // "abc"
        0x06, 120, 121, 122, // "xyz"
        0x01, // ref(0) = "abc"
        0x03, // ref(1) = "xyz"
    ];
    let mut pos = 0;
    let mut table = StringInternTable::new();
    assert_eq!(table.read_string(&data, &mut pos).unwrap(), "abc");
    assert_eq!(table.read_string(&data, &mut pos).unwrap(), "xyz");
    assert_eq!(table.read_string(&data, &mut pos).unwrap(), "abc");
    assert_eq!(table.read_string(&data, &mut pos).unwrap(), "xyz");
}

#[test]
fn fresh_table_rejects_any_back_reference() {
    // zigzag(-1) = 1: a back-reference to index 0 against an empty table
    let data = [0x01];
    let mut pos = 0;
    let mut table = StringInternTable::new();
    let result = table.read_string(&data, &mut pos);
    assert!(matches!(result, Err(ParseError::InvalidStringRef { index: 0 })));
}

#[test]
fn intern_body_with_declaration_and_two_backrefs() {
    // "foo" declared once, then back-referenced twice: three equal values
    let data = [0x06, 0x66, 0x6f, 0x6f, 0x01, 0x01];
    let mut pos = 0;
    let mut table = StringInternTable::new();
    assert_eq!(table.read_string(&data, &mut pos).unwrap(), "foo");
    assert_eq!(table.read_string(&data, &mut pos).unwrap(), "foo");
    assert_eq!(table.read_string(&data, &mut pos).unwrap(), "foo");
}

#[test]
fn intern_rejects_surrogate_code_point() {
    // one character whose varint decodes to a UTF-16 surrogate code
    let mut data = vec![0x02]; // zigzag(1) = 2: one character
    data.extend_from_slice(&encode_unsigned_varint(0xD800));
    let mut pos = 0;
    let mut table = StringInternTable::new();
    let result = table.read_string(&data, &mut pos);
    assert!(matches!(result, Err(ParseError::InvalidUtf8)));
}

#[test]
fn test_read_byte_array() {
    let data = [0x03, 0xAA, 0xBB, 0xCC];
    let mut pos = 0;
    assert_eq!(read_byte_array(&data, &mut pos).unwrap(), vec![0xAA, 0xBB, 0xCC]);
}

#[test]
fn test_read_flags_u16_be() {
    // 0x1FF8 big-endian = [0x1F, 0xF8]
    let data = [0x1F, 0xF8, 0x00];
    let mut pos = 0;
    assert_eq!(read_flags_u16_be(&data, &mut pos).unwrap(), 0x1FF8);
    assert_eq!(pos, 2);
}

#[test]
fn test_read_flags_u16_be_eof() {
    let data = [0x1F];
    let mut pos = 0;
    assert!(read_flags_u16_be(&data, &mut pos).is_err());
}

#[test]
fn test_read_task_id() {
    // 1i64 in little-endian
    let id_bytes = 1i64.to_le_bytes();
    let mut pos = 0;
    assert_eq!(read_task_id(&id_bytes, &mut pos).unwrap(), 1i64);
    assert_eq!(pos, 8);
}

#[test]
fn test_read_task_id_negative() {
    // -6048516917597647557i64 in little-endian (from a captured payload)
    let id: i64 = -6048516917597647557;
    let id_bytes = id.to_le_bytes();
    let mut pos = 0;
    assert_eq!(read_task_id(&id_bytes, &mut pos).unwrap(), id);
    assert_eq!(pos, 8);
}

#[test]
fn test_read_task_id_eof() {
    let data = [0x01, 0x02, 0x03]; // only 3 bytes, need 8
    let mut pos = 0;
    assert!(read_task_id(&data, &mut pos).is_err());
}

#[test]
fn test_read_list_of_i64_empty() {
    let data = [0x00]; // length = 0
    let mut pos = 0;
    assert_eq!(read_list_of_i64(&data, &mut pos).unwrap(), vec![]);
    assert_eq!(pos, 1);
}

#[test]
fn test_read_list_of_i64_two_elements() {
    let mut data = vec![0x02]; // length = 2
    data.extend_from_slice(&1i64.to_le_bytes());
    data.extend_from_slice(&(-5i64).to_le_bytes());
    let mut pos = 0;
    let result = read_list_of_i64(&data, &mut pos).unwrap();
    assert_eq!(result, vec![1i64, -5i64]);
    assert_eq!(pos, 17);
}

#[test]
fn test_read_list_of_byte_arrays_empty() {
    let data = [0x00]; // length = 0
    let mut pos = 0;
    assert_eq!(read_list_of_byte_arrays(&data, &mut pos).unwrap(), Vec::<Vec<u8>>::new());
}

#[test]
fn test_read_list_of_byte_arrays_one() {
    let data = [0x01, 0x02, 0xAA, 0xBB]; // 1 array of 2 bytes
    let mut pos = 0;
    assert_eq!(read_list_of_byte_arrays(&data, &mut pos).unwrap(), vec![vec![0xAA, 0xBB]]);
}

#[test]
fn test_read_list_of_interned_strings_empty() {
    let data = [0x00]; // length = 0
    let mut pos = 0;
    let mut table = StringInternTable::new();
    assert_eq!(
        read_list_of_interned_strings(&data, &mut pos, &mut table).unwrap(),
        Vec::<String>::new()
    );
}

#[test]
fn test_read_list_of_interned_strings_with_backrefs() {
    // 2 strings: "foo" (new), then back-ref to "foo"
    let data = [
        0x02, // length = 2
        0x06, 0x66, 0x6f, 0x6f, // "foo" (zigzag(3)=6, then f,o,o)
        0x01, // back-ref to index 0
    ];
    let mut pos = 0;
    let mut table = StringInternTable::new();
    let result = read_list_of_interned_strings(&data, &mut pos, &mut table).unwrap();
    assert_eq!(result, vec!["foo".to_string(), "foo".to_string()]);
}

#[test]
fn test_read_zigzag_i64_positive() {
    let data = encode_zigzag_i64(42);
    let mut pos = 0;
    assert_eq!(read_zigzag_i64(&data, &mut pos).unwrap(), 42);
}

#[test]
fn test_read_zigzag_i64_negative() {
    let data = encode_zigzag_i64(-100);
    let mut pos = 0;
    assert_eq!(read_zigzag_i64(&data, &mut pos).unwrap(), -100);
}

#[test]
fn test_read_zigzag_i64_zero() {
    let data = encode_zigzag_i64(0);
    let mut pos = 0;
    assert_eq!(read_zigzag_i64(&data, &mut pos).unwrap(), 0);
}

#[test]
fn test_read_positive_varint_i64() {
    let data = encode_unsigned_varint(12345);
    let mut pos = 0;
    assert_eq!(read_positive_varint_i64(&data, &mut pos).unwrap(), 12345);
}

#[test]
fn test_read_positive_varint_i64_zero() {
    let data = encode_unsigned_varint(0);
    let mut pos = 0;
    assert_eq!(read_positive_varint_i64(&data, &mut pos).unwrap(), 0);
}

#[test]
fn test_read_positive_varint_i32() {
    let data = encode_unsigned_varint(999);
    let mut pos = 0;
    assert_eq!(read_positive_varint_i32(&data, &mut pos).unwrap(), 999);
}

#[test]
fn test_read_positive_varint_i32_zero() {
    let data = encode_unsigned_varint(0);
    let mut pos = 0;
    assert_eq!(read_positive_varint_i32(&data, &mut pos).unwrap(), 0);
}

#[test]
fn test_read_list_of_positive_varint_i32_empty() {
    let data = encode_unsigned_varint(0); // length = 0
    let mut pos = 0;
    assert_eq!(read_list_of_positive_varint_i32(&data, &mut pos).unwrap(), vec![]);
}

#[test]
fn test_read_list_of_positive_varint_i32_multiple() {
    let mut data = encode_unsigned_varint(3); // length = 3
    data.extend_from_slice(&encode_unsigned_varint(10));
    data.extend_from_slice(&encode_unsigned_varint(20));
    data.extend_from_slice(&encode_unsigned_varint(30));
    let mut pos = 0;
    assert_eq!(read_list_of_positive_varint_i32(&data, &mut pos).unwrap(), vec![10, 20, 30]);
}
