//! The four lz4 operations, routed through the shared dispatch layer.

use vstd::prelude::*;

pub mod internal;

verus! {

use crate::exceptions::{translate, CodecError};
use crate::lz4::internal::{lz4_compressed, lz4_decoded, lz4_encodable};
use crate::{dispatched, wrap_output, zeroed, BytesType, Output};

/// Lz4 decompression.
///
/// Returns a container of `data`'s kind holding the decoded bytes: exactly
/// the decoded bytes for a mutable input or when `output_len` is absent, and
/// the decoded bytes over a zeroed buffer of length `output_len` for an
/// immutable input with `output_len` present.  Fails with a
/// `DecompressionError` exactly when the input is not a length-prefixed lz4 block or the
/// decoded bytes outgrow `output_len`.
pub fn decompress(data: &BytesType, output_len: Option<usize>) -> (r: Result<
    BytesType,
    CodecError,
>)
    ensures
        ({
            let dec = lz4_decoded(data@);
            &&& match r {
                Ok(out) => dec matches Some(d) && dispatched(*data, output_len, d, out),
                Err(e) => {
                    &&& !e.is_compression()
                    &&& (dec is None || (output_len matches Some(n) && dec.unwrap().len() > n))
                    &&& (dec is Some ==> e.message_view() == crate::buffer_too_small_message())
                },
            }
            &&& (dec matches Some(d) && (output_len is None || d.len() <= output_len.unwrap())
                ==> r is Ok)
        }),
{
    let mut sink = match output_len {
        Some(n) => Output::Slice(zeroed(n)),
        None => Output::Vector(Vec::new()),
    };
    let ghost sink0 = sink;
    let res = internal::decompress(data.as_bytes(), &mut sink);
    match translate(res, false) {
        Ok(count) => {
            proof {
                let d = lz4_decoded(data@).unwrap();
                if output_len is Some {
                    crate::lemma_slice_sink_shape(d, output_len.unwrap() as nat);
                } else {
                    assert(sink.buf().take(count as int) =~= sink.buf());
                }
            }
            Ok(wrap_output(data, output_len, sink, count))
        },
        Err(e) => Err(e),
    }
}

/// Lz4 compression: the native default mode, or high compression at the given level.
///
/// On success the returned container has `data`'s kind and holds the encoded
/// block, routed by `output_len` as in [`decompress`]; decoding that block
/// yields `data`'s bytes again.  It fails exactly when the input exceeds
/// the native block bound or `output_len` is present and smaller than the
/// encoded block; every failure is a `CompressionError`.
pub fn compress(data: &BytesType, level: Option<u32>, output_len: Option<usize>) -> (r: Result<
    BytesType,
    CodecError,
>)
    ensures
        ({
            let payload = lz4_compressed(data@, level);
            &&& match r {
                Ok(out) => dispatched(*data, output_len, payload, out) && lz4_decoded(payload)
                    == Some(data@),
                Err(e) => e.is_compression() && (lz4_encodable(data@) ==> e.message_view()
                    == crate::buffer_too_small_message()),
            }
            &&& (r is Ok <==> lz4_encodable(data@) && (output_len is None || payload.len()
                <= output_len.unwrap()))
        }),
{
    let mut sink = match output_len {
        Some(n) => Output::Slice(zeroed(n)),
        None => Output::Vector(Vec::new()),
    };
    let res = internal::compress(data.as_bytes(), &mut sink, level);
    match translate(res, true) {
        Ok(count) => {
            proof {
                let payload = lz4_compressed(data@, level);
                if output_len is Some {
                    crate::lemma_slice_sink_shape(payload, output_len.unwrap() as nat);
                } else {
                    assert(sink.buf().take(count as int) =~= sink.buf());
                }
            }
            Ok(wrap_output(data, output_len, sink, count))
        },
        Err(e) => Err(e),
    }
}

/// Compress directly into a caller-owned buffer of fixed capacity.
///
/// The buffer keeps its length; on success its prefix holds the encoded
/// block and the produced count is returned, and the block decodes back to
/// `data`'s bytes.  It fails exactly when the input exceeds the native
/// block bound or the buffer is shorter than the encoded block; every
/// failure is a `CompressionError` that leaves the buffer untouched.
pub fn compress_into(data: &BytesType, dest: &mut Vec<u8>, level: Option<u32>) -> (r: Result<
    usize,
    CodecError,
>)
    ensures
        final(dest)@.len() == old(dest)@.len(),
        ({
            let payload = lz4_compressed(data@, level);
            &&& match r {
                Ok(n) => {
                    &&& n == payload.len() <= old(dest)@.len()
                    &&& final(dest)@ == crate::fixed_write(old(dest)@, payload)
                    &&& lz4_decoded(payload) == Some(data@)
                },
                Err(e) => {
                    &&& e.is_compression() && final(dest)@ == old(dest)@
                    &&& (lz4_encodable(data@) ==> e.message_view()
                        == crate::buffer_too_small_message())
                },
            }
            &&& (r is Ok <==> lz4_encodable(data@) && payload.len() <= old(dest)@.len())
        }),
{
    let mut taken: Vec<u8> = Vec::new();
    core::mem::swap(dest, &mut taken);
    let mut sink = Output::Slice(taken);
    let res = internal::compress(data.as_bytes(), &mut sink, level);
    *dest = sink.into_vec();
    translate(res, true)
}

/// Decompress directly into a caller-owned buffer of fixed capacity.
///
/// The buffer keeps its length; on success its prefix holds the decoded
/// bytes and the produced count is returned.  It succeeds exactly when the
/// input is a length-prefixed lz4 block whose decoded bytes fit the buffer; every
/// failure is a `DecompressionError` that leaves the buffer untouched.
pub fn decompress_into(data: &BytesType, dest: &mut Vec<u8>) -> (r: Result<usize, CodecError>)
    ensures
        final(dest)@.len() == old(dest)@.len(),
        ({
            let dec = lz4_decoded(data@);
            &&& match r {
                Ok(n) => {
                    &&& dec matches Some(d) && n == d.len() <= old(dest)@.len()
                    &&& final(dest)@ == crate::fixed_write(old(dest)@, dec.unwrap())
                },
                Err(e) => {
                    &&& !e.is_compression() && final(dest)@ == old(dest)@
                    &&& (dec is None || dec.unwrap().len() > old(dest)@.len())
                    &&& (dec is Some ==> e.message_view() == crate::buffer_too_small_message())
                },
            }
            &&& (dec matches Some(d) && d.len() <= old(dest)@.len() ==> r is Ok)
        }),
{
    let mut taken: Vec<u8> = Vec::new();
    core::mem::swap(dest, &mut taken);
    let mut sink = Output::Slice(taken);
    let res = internal::decompress(data.as_bytes(), &mut sink);
    *dest = sink.into_vec();
    translate(res, false)
}

} // verus!
