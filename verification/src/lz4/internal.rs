//! The lz4 adapter: one-shot block encoding and decoding against an
//! [`Output`] sink.  The block carries a four-byte length prefix so that
//! decoding needs no size hint.

use vstd::prelude::*;

verus! {

use crate::{sink_filled, sink_unchanged, write_payload, Output};

/// The lz4 block that encoding some bytes produces: the native library's
/// default mode when no level is given, its high-compression mode at the
/// given level otherwise.
pub uninterp spec fn lz4_compressed(input: Seq<u8>, level: Option<u32>) -> Seq<u8>;

/// What decoding some bytes as a length-prefixed lz4 block yields: the
/// decoded bytes, or nothing when the bytes are not such a block.
pub uninterp spec fn lz4_decoded(input: Seq<u8>) -> Option<Seq<u8>>;

/// Inputs the encoder accepts: the native library bounds a block's source
/// at 0x7E00_0000 bytes.
pub open spec fn lz4_encodable(input: Seq<u8>) -> bool {
    input.len() <= 0x7E00_0000
}

/// Relies on lz4::block::compress with the size prefix prepended: the
/// encoded block is a function of the input bytes and the mode alone, and
/// decoding it yields the input again.  The call fails exactly when the
/// input exceeds the native library's block bound; within it, a buffer of
/// the library's own worst-case size is used, so encoding cannot fail.
#[verifier::external_body]
fn compress_raw(input: &[u8], level: Option<u32>) -> (r: Result<Vec<u8>, String>)
    ensures
        r matches Ok(v) ==> v@ == lz4_compressed(input@, level) && lz4_decoded(v@) == Some(input@),
        r is Ok <==> lz4_encodable(input@),
{
    let mode = match level {
        Some(l) => Some(::lz4::block::CompressionMode::HIGHCOMPRESSION(l as i32)),
        None => None,
    };
    match ::lz4::block::compress(input, mode, true) {
        Ok(v) => Ok(v),
        Err(e) => Err(e.to_string()),
    }
}

/// Relies on lz4::block::decompress reading the size prefix: the outcome is
/// a function of the input bytes alone, and it fails exactly on inputs that
/// are not a length-prefixed lz4 block.
#[verifier::external_body]
fn decompress_raw(input: &[u8]) -> (r: Result<Vec<u8>, String>)
    ensures
        r matches Ok(v) ==> lz4_decoded(input@) == Some(v@),
        r is Err ==> lz4_decoded(input@) is None,
{
    match ::lz4::block::decompress(input, None) {
        Ok(v) => Ok(v),
        Err(e) => Err(e.to_string()),
    }
}

/// Compress via lz4 into the sink, returning the produced count.
pub fn compress(input: &[u8], output: &mut Output, level: Option<u32>) -> (r: Result<usize, String>)
    ensures
        ({
            let payload = lz4_compressed(input@, level);
            &&& match r {
                Ok(n) => {
                    &&& n == payload.len()
                    &&& sink_filled(*old(output), *final(output), payload)
                    &&& lz4_decoded(payload) == Some(input@)
                },
                Err(m) => {
                    &&& sink_unchanged(*old(output), *final(output))
                    &&& (lz4_encodable(input@) ==> m@ == crate::buffer_too_small_message())
                },
            }
            &&& (r is Ok <==> lz4_encodable(input@) && (*old(output) is Vector || payload.len()
                <= old(output).buf().len()))
        }),
{
    match compress_raw(input, level) {
        Ok(v) => write_payload(output, v),
        Err(m) => Err(m),
    }
}

/// Decompress via lz4 into the sink, returning the produced count.  It
/// succeeds exactly when the input decodes and the sink can take the
/// decoded bytes.
pub fn decompress(input: &[u8], output: &mut Output) -> (r: Result<usize, String>)
    ensures
        ({
            let dec = lz4_decoded(input@);
            &&& match r {
                Ok(n) => dec matches Some(d) && n == d.len() && sink_filled(
                    *old(output),
                    *final(output),
                    d,
                ),
                Err(m) => {
                    &&& sink_unchanged(*old(output), *final(output))
                    &&& (dec is None || (*old(output) is Slice && dec.unwrap().len() > old(
                        output,
                    ).buf().len()))
                    &&& (dec is Some ==> m@ == crate::buffer_too_small_message())
                },
            }
            &&& (dec matches Some(d) && (*old(output) is Vector || d.len() <= old(
                output,
            ).buf().len()) ==> r is Ok)
        }),
{
    match decompress_raw(input) {
        Ok(v) => write_payload(output, v),
        Err(m) => Err(m),
    }
}

} // verus!
