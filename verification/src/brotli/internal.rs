//! The brotli adapter: drives the native encoder and decoder to completion
//! against an [`Output`] sink.

use vstd::prelude::*;

verus! {

use crate::{level_or, sink_filled, sink_unchanged, write_payload, Output};

/// Quality used when the caller does not pick one.
pub const DEFAULT_LEVEL: u32 = 11;

/// The brotli stream that encoding some bytes at some quality produces.
pub uninterp spec fn brotli_compressed(input: Seq<u8>, level: u32) -> Seq<u8>;

/// What decoding some bytes as a brotli stream yields: the decoded bytes,
/// or nothing when the bytes are not a brotli stream.
pub uninterp spec fn brotli_decoded(input: Seq<u8>) -> Option<Seq<u8>>;

/// Relies on brotli2::read::BrotliEncoder driven to end of stream: the
/// encoded bytes are a function of the input bytes and the quality alone,
/// and decoding them yields the input again.  The native encoder clamps any
/// quality into its range and cannot fail while reading from a byte slice,
/// so the call always returns the encoded stream.
#[verifier::external_body]
fn compress_raw(input: &[u8], level: u32) -> (r: Result<Vec<u8>, String>)
    ensures
        r matches Ok(v) ==> v@ == brotli_compressed(input@, level) && brotli_decoded(v@) == Some(
            input@,
        ),
        r is Ok,
{
    let mut encoder = ::brotli2::read::BrotliEncoder::new(input, level);
    let mut out: Vec<u8> = Vec::new();
    match std::io::Read::read_to_end(&mut encoder, &mut out) {
        Ok(_) => Ok(out),
        Err(e) => Err(e.to_string()),
    }
}

/// Relies on brotli2::read::BrotliDecoder driven to end of stream: the
/// outcome is a function of the input bytes alone, and it fails exactly on
/// inputs that are not a brotli stream.
#[verifier::external_body]
fn decompress_raw(input: &[u8]) -> (r: Result<Vec<u8>, String>)
    ensures
        r matches Ok(v) ==> brotli_decoded(input@) == Some(v@),
        r is Err ==> brotli_decoded(input@) is None,
{
    let mut decoder = ::brotli2::read::BrotliDecoder::new(input);
    let mut out: Vec<u8> = Vec::new();
    match std::io::Read::read_to_end(&mut decoder, &mut out) {
        Ok(_) => Ok(out),
        Err(e) => Err(e.to_string()),
    }
}

/// Compress via brotli into the sink, returning the produced count.
pub fn compress(input: &[u8], output: &mut Output, level: Option<u32>) -> (r: Result<usize, String>)
    ensures
        ({
            let payload = brotli_compressed(input@, level_or(level, DEFAULT_LEVEL));
            &&& match r {
                Ok(n) => {
                    &&& n == payload.len()
                    &&& sink_filled(*old(output), *final(output), payload)
                    &&& brotli_decoded(payload) == Some(input@)
                },
                Err(m) => sink_unchanged(*old(output), *final(output)) && m@
                    == crate::buffer_too_small_message(),
            }
            &&& (r is Ok <==> *old(output) is Vector || payload.len() <= old(
                output,
            ).buf().len())
        }),
{
    let lvl = match level {
        Some(l) => l,
        None => DEFAULT_LEVEL,
    };
    match compress_raw(input, lvl) {
        Ok(v) => write_payload(output, v),
        Err(m) => Err(m),
    }
}

/// Decompress via brotli into the sink, returning the produced count.  It
/// succeeds exactly when the input decodes and the sink can take the decoded
/// bytes.
pub fn decompress(input: &[u8], output: &mut Output) -> (r: Result<usize, String>)
    ensures
        ({
            let dec = brotli_decoded(input@);
            &&& match r {
                Ok(n) => dec matches Some(d) && n == d.len() && sink_filled(
                    *old(output),
                    *final(output),
                    d,
                ),
                Err(m) => {
                    &&& sink_unchanged(*old(output), *final(output))
                    &&& (dec is None || (*old(output) is Slice && dec.unwrap().len() > old(
                        output,
                    ).buf().len()))
                    &&& (dec is Some ==> m@ == crate::buffer_too_small_message())
                },
            }
            &&& (dec matches Some(d) && (*old(output) is Vector || d.len() <= old(
                output,
            ).buf().len()) ==> r is Ok)
        }),
{
    match decompress_raw(input) {
        Ok(v) => write_payload(output, v),
        Err(m) => Err(m),
    }
}

} // verus!
