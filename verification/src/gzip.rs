//! The four gzip operations, routed through the shared dispatch layer.

use vstd::prelude::*;

pub mod internal;

verus! {

use crate::exceptions::{translate, CodecError};
use crate::gzip::internal::{gzip_compressed, gzip_decoded, effective_level};
use crate::{dispatched, wrap_output, zeroed, BytesType, Output};

/// Gzip decompression.
///
/// Returns a container of `data`'s kind holding the decoded bytes: exactly
/// the decoded bytes for a mutable input or when `output_len` is absent, and
/// the decoded bytes over a zeroed buffer of length `output_len` for an
/// immutable input with `output_len` present.  Fails with a
/// `DecompressionError` exactly when the input is not a gzip stream or the
/// decoded bytes outgrow `output_len`.
pub fn decompress(data: &BytesType, output_len: Option<usize>) -> (r: Result<
    BytesType,
    CodecError,
>)
    ensures
        ({
            let dec = gzip_decoded(data@);
            &&& match r {
                Ok(out) => dec matches Some(d) && dispatched(*data, output_len, d, out),
                Err(e) => {
                    &&& !e.is_compression()
                    &&& (dec is None || (output_len matches Some(n) && dec.unwrap().len() > n))
                    &&& (dec is Some ==> e.message_view() == crate::buffer_too_small_message())
                },
            }
            &&& (dec matches Some(d) && (output_len is None || d.len() <= output_len.unwrap())
                ==> r is Ok)
        }),
{
    let mut sink = match output_len {
        Some(n) => Output::Slice(zeroed(n)),
        None => Output::Vector(Vec::new()),
    };
    let ghost sink0 = sink;
    let res = internal::decompress(data.as_bytes(), &mut sink);
    match translate(res, false) {
        Ok(count) => {
            proof {
                let d = gzip_decoded(data@).unwrap();
                if output_len is Some {
                    crate::lemma_slice_sink_shape(d, output_len.unwrap() as nat);
                } else {
                    assert(sink.buf().take(count as int) =~= sink.buf());
                }
            }
            Ok(wrap_output(data, output_len, sink, count))
        },
        Err(e) => Err(e),
    }
}

/// Gzip compression at the given level (default 6; levels above 9 are clamped to 9, as the native encoder clamps them).
///
/// On success the returned container has `data`'s kind and holds the encoded
/// stream, routed by `output_len` as in [`decompress`]; decoding that stream
/// yields `data`'s bytes again.  It fails exactly when `output_len` is
/// present and smaller than the encoded stream, with a `CompressionError`
/// naming the shortfall.
pub fn compress(data: &BytesType, level: Option<u32>, output_len: Option<usize>) -> (r: Result<
    BytesType,
    CodecError,
>)
    ensures
        ({
            let payload = gzip_compressed(data@, effective_level(level));
            &&& match r {
                Ok(out) => dispatched(*data, output_len, payload, out) && gzip_decoded(payload)
                    == Some(data@),
                Err(e) => e.is_compression() && e.message_view()
                    == crate::buffer_too_small_message(),
            }
            &&& (r is Ok <==> output_len is None || payload.len() <= output_len.unwrap())
        }),
{
    let mut sink = match output_len {
        Some(n) => Output::Slice(zeroed(n)),
        None => Output::Vector(Vec::new()),
    };
    let res = internal::compress(data.as_bytes(), &mut sink, level);
    match translate(res, true) {
        Ok(count) => {
            proof {
                let payload = gzip_compressed(data@, effective_level(level));
                if output_len is Some {
                    crate::lemma_slice_sink_shape(payload, output_len.unwrap() as nat);
                } else {
                    assert(sink.buf().take(count as int) =~= sink.buf());
                }
            }
            Ok(wrap_output(data, output_len, sink, count))
        },
        Err(e) => Err(e),
    }
}

/// Compress directly into a caller-owned buffer of fixed capacity.
///
/// The buffer keeps its length; on success its prefix holds the encoded
/// stream and the produced count is returned, and the stream decodes back to
/// `data`'s bytes.  It fails exactly when the buffer is shorter than the
/// encoded stream, with a `CompressionError` naming the shortfall, leaving
/// the buffer untouched.
pub fn compress_into(data: &BytesType, dest: &mut Vec<u8>, level: Option<u32>) -> (r: Result<
    usize,
    CodecError,
>)
    ensures
        final(dest)@.len() == old(dest)@.len(),
        ({
            let payload = gzip_compressed(data@, effective_level(level));
            &&& match r {
                Ok(n) => {
                    &&& n == payload.len() <= old(dest)@.len()
                    &&& final(dest)@ == crate::fixed_write(old(dest)@, payload)
                    &&& gzip_decoded(payload) == Some(data@)
                },
                Err(e) => {
                    &&& e.is_compression() && final(dest)@ == old(dest)@
                    &&& e.message_view() == crate::buffer_too_small_message()
                },
            }
            &&& (r is Ok <==> payload.len() <= old(dest)@.len())
        }),
{
    let mut taken: Vec<u8> = Vec::new();
    core::mem::swap(dest, &mut taken);
    let mut sink = Output::Slice(taken);
    let res = internal::compress(data.as_bytes(), &mut sink, level);
    *dest = sink.into_vec();
    translate(res, true)
}

/// Decompress directly into a caller-owned buffer of fixed capacity.
///
/// The buffer keeps its length; on success its prefix holds the decoded
/// bytes and the produced count is returned.  It succeeds exactly when the
/// input is a gzip stream whose decoded bytes fit the buffer; every
/// failure is a `DecompressionError` that leaves the buffer untouched.
pub fn decompress_into(data: &BytesType, dest: &mut Vec<u8>) -> (r: Result<usize, CodecError>)
    ensures
        final(dest)@.len() == old(dest)@.len(),
        ({
            let dec = gzip_decoded(data@);
            &&& match r {
                Ok(n) => {
                    &&& dec matches Some(d) && n == d.len() <= old(dest)@.len()
                    &&& final(dest)@ == crate::fixed_write(old(dest)@, dec.unwrap())
                },
                Err(e) => {
                    &&& !e.is_compression() && final(dest)@ == old(dest)@
                    &&& (dec is None || dec.unwrap().len() > old(dest)@.len())
                    &&& (dec is Some ==> e.message_view() == crate::buffer_too_small_message())
                },
            }
            &&& (dec matches Some(d) && d.len() <= old(dest)@.len() ==> r is Ok)
        }),
{
    let mut taken: Vec<u8> = Vec::new();
    core::mem::swap(dest, &mut taken);
    let mut sink = Output::Slice(taken);
    let res = internal::decompress(data.as_bytes(), &mut sink);
    *dest = sink.into_vec();
    translate(res, false)
}

} // verus!
