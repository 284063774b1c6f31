use build_scan::decompress::Decompressor;
use std::io::Write;

fn gzip_compress(data: &[u8]) -> Vec<u8> {
    let mut encoder = flate2::write::GzEncoder::new(Vec::new(), flate2::Compression::default());
    encoder.write_all(data).unwrap();
    encoder.finish().unwrap()
}

#[test]
fn test_decompress_valid_gzip() {
    let original = b"hello world";
    let compressed = gzip_compress(original);
    let result = Decompressor::decompress(&compressed).unwrap();
    assert_eq!(result, original);
}

#[test]
fn test_decompress_with_prefix() {
    let original = b"test data";
    let compressed = gzip_compress(original);
    let mut with_prefix = vec![0x00, 0x01, 0x02];
    with_prefix.extend_from_slice(&compressed);
    let result = Decompressor::decompress(&with_prefix).unwrap();
    assert_eq!(result, original);
}

#[test]
fn test_decompress_invalid_gzip() {
    let invalid = vec![0x00, 0x01, 0x02];
    let result = Decompressor::decompress(&invalid);
    assert!(result.is_err());
}
