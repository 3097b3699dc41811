//! The snappy adapter: one-shot block encoding and decoding against an
//! [`Output`] sink.

use vstd::prelude::*;

verus! {

use crate::{sink_filled, sink_unchanged, write_payload, Output};

/// The snappy block that encoding some bytes produces; the block format
/// takes no level.
pub uninterp spec fn snappy_compressed(input: Seq<u8>) -> Seq<u8>;

/// Inputs the encoder accepts: the worst-case encoded size — a 32-byte
/// header plus the input and one tag byte per six input bytes — must fit
/// the format's 32-bit length.
pub open spec fn snappy_encodable(input: Seq<u8>) -> bool {
    32 + input.len() + input.len() / 6 <= 0xFFFF_FFFF
}

/// What decoding some bytes as a snappy block yields: the decoded bytes, or
/// nothing when the bytes are not such a block.
pub uninterp spec fn snappy_decoded(input: Seq<u8>) -> Option<Seq<u8>>;

/// Relies on snap::raw::Encoder::compress_vec: the encoded block is a
/// function of the input bytes alone, and decoding it yields the input
/// again.  The call fails exactly when the input's worst-case encoded size
/// exceeds the format's 32-bit bound; within it, encoding cannot fail.
#[verifier::external_body]
fn compress_raw(input: &[u8]) -> (r: Result<Vec<u8>, String>)
    ensures
        r matches Ok(v) ==> v@ == snappy_compressed(input@) && snappy_decoded(v@) == Some(input@),
        r is Ok <==> snappy_encodable(input@),
{
    match ::snap::raw::Encoder::new().compress_vec(input) {
        Ok(v) => Ok(v),
        Err(e) => Err(e.to_string()),
    }
}

/// Relies on snap::raw::Decoder::decompress_vec: the outcome is a function
/// of the input bytes alone, and it fails exactly on inputs that are not a
/// snappy block.
#[verifier::external_body]
fn decompress_raw(input: &[u8]) -> (r: Result<Vec<u8>, String>)
    ensures
        r matches Ok(v) ==> snappy_decoded(input@) == Some(v@),
        r is Err ==> snappy_decoded(input@) is None,
{
    match ::snap::raw::Decoder::new().decompress_vec(input) {
        Ok(v) => Ok(v),
        Err(e) => Err(e.to_string()),
    }
}

/// Compress via snappy into the sink, returning the produced count.
pub fn compress(input: &[u8], output: &mut Output) -> (r: Result<usize, String>)
    ensures
        ({
            let payload = snappy_compressed(input@);
            &&& match r {
                Ok(n) => {
                    &&& n == payload.len()
                    &&& sink_filled(*old(output), *final(output), payload)
                    &&& snappy_decoded(payload) == Some(input@)
                },
                Err(m) => {
                    &&& sink_unchanged(*old(output), *final(output))
                    &&& (snappy_encodable(input@) ==> m@ == crate::buffer_too_small_message())
                },
            }
            &&& (r is Ok <==> snappy_encodable(input@) && (*old(output) is Vector
                || payload.len() <= old(output).buf().len()))
        }),
{
    match compress_raw(input) {
        Ok(v) => write_payload(output, v),
        Err(m) => Err(m),
    }
}

/// Decompress via snappy into the sink, returning the produced count.  It
/// succeeds exactly when the input decodes and the sink can take the
/// decoded bytes.
pub fn decompress(input: &[u8], output: &mut Output) -> (r: Result<usize, String>)
    ensures
        ({
            let dec = snappy_decoded(input@);
            &&& match r {
                Ok(n) => dec matches Some(d) && n == d.len() && sink_filled(
                    *old(output),
                    *final(output),
                    d,
                ),
                Err(m) => {
                    &&& sink_unchanged(*old(output), *final(output))
                    &&& (dec is None || (*old(output) is Slice && dec.unwrap().len() > old(
                        output,
                    ).buf().len()))
                    &&& (dec is Some ==> m@ == crate::buffer_too_small_message())
                },
            }
            &&& (dec matches Some(d) && (*old(output) is Vector || d.len() <= old(
                output,
            ).buf().len()) ==> r is Ok)
        }),
{
    match decompress_raw(input) {
        Ok(v) => write_payload(output, v),
        Err(m) => Err(m),
    }
}

} // verus!
