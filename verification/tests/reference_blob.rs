//! Round trips over the large deterministic reference blob, checking the
//! per-codec compressed lengths observed for it, and exercising the adapter
//! layer directly through both sink kinds as the dispatchers do.

use cramjam::{BytesType, Output};

fn reference_blob() -> Vec<u8> {
    "oh what a beautiful morning, oh what a beautiful day!!"
        .repeat(1_000_000)
        .into_bytes()
}

fn take_bytes(b: BytesType) -> Vec<u8> {
    match b {
        BytesType::Bytes(v) => v,
        BytesType::ByteArray(v) => v,
    }
}

#[test]
fn snappy_reference_blob() {
    let data = reference_blob();
    let c = take_bytes(cramjam::snappy::compress(&BytesType::Bytes(data.clone()), None).unwrap());
    // The length of the one-shot raw block encoding that snap's current
    // encoder produces for this blob; snappy's framed format, and older
    // encoders, give a slightly different length.
    assert_eq!(c.len(), 2_563_328);
    let d = take_bytes(cramjam::snappy::decompress(&BytesType::Bytes(c), None).unwrap());
    assert_eq!(d, data);
}

#[test]
fn gzip_reference_blob() {
    let data = reference_blob();
    let c =
        take_bytes(cramjam::gzip::compress(&BytesType::Bytes(data.clone()), None, None).unwrap());
    assert_eq!(c.len(), 157_192);
    let d = take_bytes(cramjam::gzip::decompress(&BytesType::Bytes(c), None).unwrap());
    assert_eq!(d, data);
}

#[test]
fn deflate_reference_blob() {
    let data = reference_blob();
    let c = take_bytes(
        cramjam::deflate::compress(&BytesType::Bytes(data.clone()), None, None).unwrap(),
    );
    assert_eq!(c.len(), 157_174);
    let d = take_bytes(cramjam::deflate::decompress(&BytesType::Bytes(c), None).unwrap());
    assert_eq!(d, data);
}

#[test]
fn zstd_reference_blob() {
    let data = reference_blob();
    let c =
        take_bytes(cramjam::zstd::compress(&BytesType::Bytes(data.clone()), None, None).unwrap());
    assert_eq!(c.len(), 4_990);
    let d = take_bytes(cramjam::zstd::decompress(&BytesType::Bytes(c), None).unwrap());
    assert_eq!(d, data);
}

#[test]
fn brotli_reference_blob() {
    let data = reference_blob();
    let c = take_bytes(
        cramjam::brotli::compress(&BytesType::Bytes(data.clone()), None, None).unwrap(),
    );
    assert_eq!(c.len(), 729);
    let d = take_bytes(cramjam::brotli::decompress(&BytesType::Bytes(c), None).unwrap());
    assert_eq!(d, data);
}

#[test]
fn adapter_slice_and_vector_sinks_agree() {
    let data: Vec<u8> = reference_blob()[..54_000].to_vec();
    let mut grow = Output::Vector(Vec::new());
    let n = cramjam::gzip::internal::compress(&data, &mut grow, None).unwrap();
    let grown = grow.into_vec();
    assert_eq!(n, grown.len());

    let mut fixed = Output::Slice(vec![0u8; grown.len()]);
    let m = cramjam::gzip::internal::compress(&data, &mut fixed, None).unwrap();
    assert_eq!(m, n);
    assert_eq!(fixed.into_vec(), grown);

    let mut back = Output::Slice(vec![0u8; data.len()]);
    let k = cramjam::gzip::internal::decompress(&grown, &mut back).unwrap();
    assert_eq!(k, data.len());
    assert_eq!(back.into_vec(), data);
}

#[test]
fn adapter_slice_sink_refuses_truncation() {
    let data: Vec<u8> = reference_blob()[..54_000].to_vec();
    let mut small = Output::Slice(vec![0u8; 8]);
    let r = cramjam::snappy::internal::compress(&data, &mut small);
    // the adapter never truncates silently
    assert!(r.is_err());
    assert_eq!(small.into_vec(), vec![0u8; 8]);
}
