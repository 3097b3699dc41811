//! The zstd adapter: drives the native encoder and decoder to completion
//! against an [`Output`] sink.

use vstd::prelude::*;

verus! {

use crate::{level_or, sink_filled, sink_unchanged, write_payload, Output};

/// Level used when the caller does not pick one; zero makes the native
/// library use its own default, and negative levels are passed through.
pub const DEFAULT_LEVEL: i32 = 0;

/// The zstd stream that encoding some bytes at some level produces.
pub uninterp spec fn zstd_compressed(input: Seq<u8>, level: i32) -> Seq<u8>;

/// What decoding some bytes as a zstd stream yields: the decoded bytes, or
/// nothing when the bytes are not a zstd stream.
pub uninterp spec fn zstd_decoded(input: Seq<u8>) -> Option<Seq<u8>>;

/// Relies on zstd::stream::read::Encoder driven to end of stream: the
/// encoded bytes are a function of the input bytes and the level alone, and
/// decoding them yields the input again.  The native library clamps any
/// level into its bounds (zero selects its default) and cannot fail while
/// encoding from a byte slice, so the call always returns the encoded
/// stream.
#[verifier::external_body]
fn compress_raw(input: &[u8], level: i32) -> (r: Result<Vec<u8>, String>)
    ensures
        r matches Ok(v) ==> v@ == zstd_compressed(input@, level) && zstd_decoded(v@) == Some(
            input@,
        ),
        r is Ok,
{
    let mut encoder = match ::zstd::stream::read::Encoder::new(input, level) {
        Ok(e) => e,
        Err(e) => return Err(e.to_string()),
    };
    let mut out: Vec<u8> = Vec::new();
    match std::io::Read::read_to_end(&mut encoder, &mut out) {
        Ok(_) => Ok(out),
        Err(e) => Err(e.to_string()),
    }
}

/// Relies on zstd::stream::read::Decoder driven to end of stream: the
/// outcome is a function of the input bytes alone, and it fails exactly on
/// inputs that are not a zstd stream.
#[verifier::external_body]
fn decompress_raw(input: &[u8]) -> (r: Result<Vec<u8>, String>)
    ensures
        r matches Ok(v) ==> zstd_decoded(input@) == Some(v@),
        r is Err ==> zstd_decoded(input@) is None,
{
    let mut decoder = match ::zstd::stream::read::Decoder::new(input) {
        Ok(d) => d,
        Err(e) => return Err(e.to_string()),
    };
    let mut out: Vec<u8> = Vec::new();
    match std::io::Read::read_to_end(&mut decoder, &mut out) {
        Ok(_) => Ok(out),
        Err(e) => Err(e.to_string()),
    }
}

/// Compress via zstd into the sink, returning the produced count.
pub fn compress(input: &[u8], output: &mut Output, level: Option<i32>) -> (r: Result<usize, String>)
    ensures
        ({
            let payload = zstd_compressed(input@, level_or(level, DEFAULT_LEVEL));
            &&& match r {
                Ok(n) => {
                    &&& n == payload.len()
                    &&& sink_filled(*old(output), *final(output), payload)
                    &&& zstd_decoded(payload) == Some(input@)
                },
                Err(m) => sink_unchanged(*old(output), *final(output)) && m@
                    == crate::buffer_too_small_message(),
            }
            &&& (r is Ok <==> *old(output) is Vector || payload.len() <= old(
                output,
            ).buf().len())
        }),
{
    let lvl = match level {
        Some(l) => l,
        None => DEFAULT_LEVEL,
    };
    match compress_raw(input, lvl) {
        Ok(v) => write_payload(output, v),
        Err(m) => Err(m),
    }
}

/// Decompress via zstd into the sink, returning the produced count.  It
/// succeeds exactly when the input decodes and the sink can take the
/// decoded bytes.
pub fn decompress(input: &[u8], output: &mut Output) -> (r: Result<usize, String>)
    ensures
        ({
            let dec = zstd_decoded(input@);
            &&& match r {
                Ok(n) => dec matches Some(d) && n == d.len() && sink_filled(
                    *old(output),
                    *final(output),
                    d,
                ),
                Err(m) => {
                    &&& sink_unchanged(*old(output), *final(output))
                    &&& (dec is None || (*old(output) is Slice && dec.unwrap().len() > old(
                        output,
                    ).buf().len()))
                    &&& (dec is Some ==> m@ == crate::buffer_too_small_message())
                },
            }
            &&& (dec matches Some(d) && (*old(output) is Vector || d.len() <= old(
                output,
            ).buf().len()) ==> r is Ok)
        }),
{
    match decompress_raw(input) {
        Ok(v) => write_payload(output, v),
        Err(m) => Err(m),
    }
}

} // verus!
