//! Round trips through every codec, over both container kinds and both
//! sink routes.

use cramjam::BytesType;

fn sample() -> Vec<u8> {
    b"oh what a beautiful morning, oh what a beautiful day!!"
        .iter()
        .copied()
        .cycle()
        .take(5400)
        .collect()
}

fn take_bytes(b: BytesType) -> Vec<u8> {
    match b {
        BytesType::Bytes(v) => v,
        BytesType::ByteArray(v) => v,
    }
}

#[test]
fn snappy_roundtrip_bytes() {
    let data = sample();
    let c = cramjam::snappy::compress(&BytesType::Bytes(data.clone()), None).unwrap();
    let d = cramjam::snappy::decompress(&c, None).unwrap();
    assert_eq!(take_bytes(d), data);
}

#[test]
fn brotli_roundtrip_bytes() {
    let data = sample();
    let c = cramjam::brotli::compress(&BytesType::Bytes(data.clone()), None, None).unwrap();
    let d = cramjam::brotli::decompress(&c, None).unwrap();
    assert_eq!(take_bytes(d), data);
}

#[test]
fn deflate_roundtrip_bytes() {
    let data = sample();
    let c = cramjam::deflate::compress(&BytesType::Bytes(data.clone()), None, None).unwrap();
    let d = cramjam::deflate::decompress(&c, None).unwrap();
    assert_eq!(take_bytes(d), data);
}

#[test]
fn gzip_roundtrip_bytes() {
    let data = sample();
    let c = cramjam::gzip::compress(&BytesType::Bytes(data.clone()), None, None).unwrap();
    let d = cramjam::gzip::decompress(&c, None).unwrap();
    assert_eq!(take_bytes(d), data);
}

#[test]
fn lz4_roundtrip_bytes() {
    let data = sample();
    let c = cramjam::lz4::compress(&BytesType::Bytes(data.clone()), None, None).unwrap();
    let d = cramjam::lz4::decompress(&c, None).unwrap();
    assert_eq!(take_bytes(d), data);
}

#[test]
fn zstd_roundtrip_bytes() {
    let data = sample();
    let c = cramjam::zstd::compress(&BytesType::Bytes(data.clone()), None, None).unwrap();
    let d = cramjam::zstd::decompress(&c, None).unwrap();
    assert_eq!(take_bytes(d), data);
}

#[test]
fn gzip_roundtrip_bytearray() {
    let data = sample();
    let c = cramjam::gzip::compress(&BytesType::ByteArray(data.clone()), None, None).unwrap();
    assert!(matches!(c, BytesType::ByteArray(_)));
    let d = cramjam::gzip::decompress(&c, None).unwrap();
    assert!(matches!(d, BytesType::ByteArray(_)));
    assert_eq!(take_bytes(d), data);
}

#[test]
fn zstd_roundtrip_with_output_len() {
    let data = sample();
    let c = take_bytes(cramjam::zstd::compress(&BytesType::Bytes(data.clone()), None, None).unwrap());
    // Decompress through a pre-sized immutable buffer of exactly the
    // decoded length: the result holds the decoded bytes alone.
    let d = cramjam::zstd::decompress(&BytesType::Bytes(c.clone()), Some(data.len())).unwrap();
    assert!(matches!(d, BytesType::Bytes(_)));
    assert_eq!(take_bytes(d), data);
    // Through a mutable buffer with slack: the result is shrunk to the
    // decoded length.
    let d = cramjam::zstd::decompress(&BytesType::ByteArray(c), Some(data.len() + 100)).unwrap();
    assert_eq!(take_bytes(d), data);
}

#[test]
fn brotli_roundtrip_levels() {
    // Any quality encodes: the native encoder clamps out-of-range ones.
    let data = sample();
    for level in [0u32, 5, 11, 99] {
        let c =
            cramjam::brotli::compress(&BytesType::Bytes(data.clone()), Some(level), None).unwrap();
        let d = cramjam::brotli::decompress(&c, None).unwrap();
        assert_eq!(take_bytes(d), data);
    }
}

#[test]
fn brotli_default_level_is_eleven() {
    let data = sample();
    let dflt = take_bytes(
        cramjam::brotli::compress(&BytesType::Bytes(data.clone()), None, None).unwrap(),
    );
    let eleven = take_bytes(
        cramjam::brotli::compress(&BytesType::Bytes(data.clone()), Some(11), None).unwrap(),
    );
    assert_eq!(dflt, eleven);
}

#[test]
fn deflate_gzip_levels_clamped() {
    // Levels above nine are clamped to nine, so an oversized level encodes
    // byte-identically to nine and round-trips.
    let data = sample();
    let hi = take_bytes(
        cramjam::deflate::compress(&BytesType::Bytes(data.clone()), Some(100), None).unwrap(),
    );
    let nine = take_bytes(
        cramjam::deflate::compress(&BytesType::Bytes(data.clone()), Some(9), None).unwrap(),
    );
    assert_eq!(hi, nine);
    let hi = take_bytes(
        cramjam::gzip::compress(&BytesType::Bytes(data.clone()), Some(100), None).unwrap(),
    );
    let nine = take_bytes(
        cramjam::gzip::compress(&BytesType::Bytes(data.clone()), Some(9), None).unwrap(),
    );
    assert_eq!(hi, nine);
    let d = cramjam::gzip::decompress(&BytesType::Bytes(hi), None).unwrap();
    assert_eq!(take_bytes(d), data);
}

#[test]
fn zstd_roundtrip_large_level() {
    // The native library clamps any level into its bounds.
    let data = sample();
    let c = cramjam::zstd::compress(&BytesType::Bytes(data.clone()), Some(100), None).unwrap();
    let d = cramjam::zstd::decompress(&c, None).unwrap();
    assert_eq!(take_bytes(d), data);
}

#[test]
fn zstd_roundtrip_negative_level() {
    let data = sample();
    let c = cramjam::zstd::compress(&BytesType::Bytes(data.clone()), Some(-5), None).unwrap();
    let d = cramjam::zstd::decompress(&c, None).unwrap();
    assert_eq!(take_bytes(d), data);
}

#[test]
fn empty_input_roundtrips() {
    let empty: Vec<u8> = Vec::new();
    let c = cramjam::snappy::compress(&BytesType::Bytes(empty.clone()), None).unwrap();
    let d = cramjam::snappy::decompress(&c, None).unwrap();
    assert_eq!(take_bytes(d), empty);
    let c = cramjam::gzip::compress(&BytesType::Bytes(empty.clone()), None, None).unwrap();
    let d = cramjam::gzip::decompress(&c, None).unwrap();
    assert_eq!(take_bytes(d), empty);
    let c = cramjam::zstd::compress(&BytesType::Bytes(empty.clone()), None, None).unwrap();
    let d = cramjam::zstd::decompress(&c, None).unwrap();
    assert_eq!(take_bytes(d), empty);
}
