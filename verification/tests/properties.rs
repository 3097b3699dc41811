//! Cross-sink equivalence, `*_into` parity, shrink behaviour, return-kind
//! preservation and failure kinds, on concrete values.

use cramjam::exceptions::CodecError;
use cramjam::BytesType;

fn sample() -> Vec<u8> {
    b"oh what a beautiful morning, oh what a beautiful day!!"
        .iter()
        .copied()
        .cycle()
        .take(2700)
        .collect()
}

fn take_bytes(b: BytesType) -> Vec<u8> {
    match b {
        BytesType::Bytes(v) => v,
        BytesType::ByteArray(v) => v,
    }
}

#[test]
fn cross_sink_equivalence_gzip() {
    // Compressing through a growable sink and through a fixed slice sized
    // to the known compressed length yield byte-identical output.
    let data = sample();
    let grown = take_bytes(
        cramjam::gzip::compress(&BytesType::ByteArray(data.clone()), None, None).unwrap(),
    );
    let fixed = take_bytes(
        cramjam::gzip::compress(&BytesType::ByteArray(data.clone()), None, Some(grown.len()))
            .unwrap(),
    );
    assert_eq!(fixed, grown);
    // The immutable container keeps its pre-sized length instead.
    let imm = take_bytes(
        cramjam::gzip::compress(&BytesType::Bytes(data), None, Some(grown.len() + 7)).unwrap(),
    );
    assert_eq!(imm.len(), grown.len() + 7);
    assert_eq!(&imm[..grown.len()], &grown[..]);
    assert!(imm[grown.len()..].iter().all(|&b| b == 0));
}

#[test]
fn compress_into_parity_zstd() {
    // compress_into writes the same count bytes as compress produces.
    let data = sample();
    let whole = take_bytes(
        cramjam::zstd::compress(&BytesType::Bytes(data.clone()), None, None).unwrap(),
    );
    let mut dest = vec![0xAAu8; whole.len() + 50];
    let n = cramjam::zstd::compress_into(&BytesType::Bytes(data), &mut dest, None).unwrap();
    assert_eq!(n, whole.len());
    assert_eq!(&dest[..n], &whole[..]);
    // Bytes past the produced count are untouched.
    assert!(dest[n..].iter().all(|&b| b == 0xAA));
}

#[test]
fn decompress_into_parity_snappy() {
    let data = sample();
    let c = take_bytes(cramjam::snappy::compress(&BytesType::Bytes(data.clone()), None).unwrap());
    let mut dest = vec![0u8; data.len() + 10];
    let n = cramjam::snappy::decompress_into(&BytesType::Bytes(c), &mut dest).unwrap();
    assert_eq!(n, data.len());
    assert_eq!(&dest[..n], &data[..]);
    assert_eq!(dest.len(), data.len() + 10);
}

#[test]
fn decompress_shrinks_mutable_array() {
    // A mutable-array result under an over-large output_len has exactly the
    // decoded length.
    let data = sample();
    let c = take_bytes(
        cramjam::deflate::compress(&BytesType::Bytes(data.clone()), None, None).unwrap(),
    );
    let out =
        cramjam::deflate::decompress(&BytesType::ByteArray(c), Some(data.len() + 1000)).unwrap();
    match out {
        BytesType::ByteArray(v) => {
            assert_eq!(v.len(), data.len());
            assert_eq!(v, data);
        },
        BytesType::Bytes(_) => panic!("mutable input must yield a mutable array"),
    }
}

#[test]
fn return_kind_follows_input_kind() {
    let data = sample();
    for imm in [true, false] {
        let input = if imm {
            BytesType::Bytes(data.clone())
        } else {
            BytesType::ByteArray(data.clone())
        };
        let c = cramjam::lz4::compress(&input, None, None).unwrap();
        assert_eq!(matches!(c, BytesType::Bytes(_)), imm);
        let d = cramjam::lz4::decompress(&c, None).unwrap();
        assert_eq!(matches!(d, BytesType::Bytes(_)), imm);
    }
}

#[test]
fn corrupt_input_is_a_decompression_error() {
    let data = sample();
    let mut c = take_bytes(
        cramjam::gzip::compress(&BytesType::Bytes(data.clone()), None, None).unwrap(),
    );
    let mid = c.len() / 2;
    c[mid] ^= 0xFF;
    c[mid + 1] ^= 0xFF;
    let r = cramjam::gzip::decompress(&BytesType::Bytes(c), None);
    match r {
        Err(CodecError::DecompressionError(_)) => {},
        _ => panic!("corruption must surface as DecompressionError"),
    }
    let garbage = vec![7u8; 64];
    let r = cramjam::brotli::decompress(&BytesType::Bytes(garbage.clone()), None);
    assert!(matches!(r, Err(CodecError::DecompressionError(_))));
    let r = cramjam::zstd::decompress(&BytesType::Bytes(garbage), None);
    assert!(matches!(r, Err(CodecError::DecompressionError(_))));
}

#[test]
fn short_destination_is_a_compression_error() {
    let data = sample();
    let mut dest = vec![0u8; 4];
    let r = cramjam::zstd::compress_into(&BytesType::Bytes(data.clone()), &mut dest, None);
    match r {
        Err(CodecError::CompressionError(m)) => assert!(!m.is_empty()),
        _ => panic!("a too-small compress destination must be a CompressionError"),
    }
    assert_eq!(dest, vec![0u8; 4]);
    let r = cramjam::gzip::compress(&BytesType::Bytes(data), None, Some(3));
    assert!(matches!(r, Err(CodecError::CompressionError(_))));
}

#[test]
fn short_destination_decompress_into_fails() {
    let data = sample();
    let c = take_bytes(cramjam::snappy::compress(&BytesType::Bytes(data.clone()), None).unwrap());
    let mut dest = vec![0u8; data.len() - 1];
    let r = cramjam::snappy::decompress_into(&BytesType::Bytes(c), &mut dest);
    assert!(matches!(r, Err(CodecError::DecompressionError(_))));
    assert_eq!(dest.len(), data.len() - 1);
}

#[test]
fn short_output_len_decompress_fails() {
    let data = sample();
    let c = take_bytes(
        cramjam::gzip::compress(&BytesType::Bytes(data.clone()), None, None).unwrap(),
    );
    let r = cramjam::gzip::decompress(&BytesType::Bytes(c.clone()), Some(data.len() - 1));
    assert!(matches!(r, Err(CodecError::DecompressionError(_))));
    let r = cramjam::gzip::decompress(&BytesType::ByteArray(c), Some(10));
    assert!(matches!(r, Err(CodecError::DecompressionError(_))));
}

#[test]
fn immutable_decompress_keeps_presized_length() {
    let data = sample();
    let c = take_bytes(
        cramjam::brotli::compress(&BytesType::Bytes(data.clone()), None, None).unwrap(),
    );
    let out = take_bytes(
        cramjam::brotli::decompress(&BytesType::Bytes(c), Some(data.len() + 5)).unwrap(),
    );
    assert_eq!(out.len(), data.len() + 5);
    assert_eq!(&out[..data.len()], &data[..]);
    assert!(out[data.len()..].iter().all(|&b| b == 0));
}

#[test]
fn lz4_high_compression_level_roundtrip() {
    let data = sample();
    let c = cramjam::lz4::compress(&BytesType::Bytes(data.clone()), Some(9), None).unwrap();
    let d = cramjam::lz4::decompress(&c, None).unwrap();
    assert_eq!(take_bytes(d), data);
}

#[test]
fn container_accessors() {
    let data = sample();
    let b = BytesType::Bytes(data.clone());
    assert_eq!(b.len(), data.len());
    assert_eq!(b.as_bytes(), &data[..]);
    assert!(b.is_bytes());
    let a = BytesType::ByteArray(data.clone());
    assert_eq!(a.len(), data.len());
    assert_eq!(a.as_bytes(), &data[..]);
    assert!(!a.is_bytes());
}

#[test]
fn error_message_is_preserved() {
    let garbage = vec![1u8, 2, 3, 4];
    let e = cramjam::lz4::decompress(&BytesType::Bytes(garbage), None).unwrap_err();
    assert!(!e.message().is_empty());
}
