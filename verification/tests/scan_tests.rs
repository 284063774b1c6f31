use build_scan::scan::{PayloadBuilder, Primitive, StreamDecoder};

#[test]
fn primitives_test_leb128_decode() {
    let data = vec![0xE5, 0x8E, 0x26];
    let mut decoder = StreamDecoder::new(&data);
    assert_eq!(decoder.read_leb128().unwrap(), 624485);
}

#[test]
fn test_next_string() {
    // "hello" -> len 5 -> val = 5 << 1 = 10 (0x0A)
    let mut data = vec![0x0A];
    data.extend_from_slice(b"hello");
    let mut decoder = StreamDecoder::new(&data);
    assert_eq!(decoder.next().unwrap().unwrap(), Primitive::String("hello".to_string()));
}

#[test]
fn test_next_string_ref() {
    // ref 42 -> val = (42 << 1) | 1 = 85 (0x55)
    let data = vec![0x55];
    let mut decoder = StreamDecoder::new(&data);
    assert_eq!(decoder.next().unwrap().unwrap(), Primitive::StringRef(42));
}

#[test]
fn test_next_varint() {
    // 0 -> len 0 -> val = 0. The heuristic expects len >= 2, so it yields Varint(0).
    let data = vec![0x00];
    let mut decoder = StreamDecoder::new(&data);
    assert_eq!(decoder.next().unwrap().unwrap(), Primitive::Varint(0));
}

#[test]
fn parser_test_builder_instantiation() {
    let builder = PayloadBuilder::new();
    assert_eq!(builder.dictionary.len(), 0);
}

#[test]
fn scan_builder_collects_strings() {
    // a varint, then "hi!" as an inline string, then another varint
    let mut data = vec![0x00];
    data.push(6); // len 3 -> val 6
    data.extend_from_slice(b"hi!");
    data.push(0x04); // val 4: even but len 2 would need 2 bytes; only heuristics decide
    data.push(0x61);
    data.push(0x62);
    let mut builder = PayloadBuilder::new();
    let result = builder.build(&data);
    assert!(result.is_ok());
    assert!(builder.dictionary.contains(&"hi!".to_string()));
}
