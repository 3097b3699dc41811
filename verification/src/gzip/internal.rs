//! The gzip adapter: drives the native encoder and decoder to
//! completion against an [`Output`] sink.

use vstd::prelude::*;

verus! {

use crate::{level_or, sink_filled, sink_unchanged, write_payload, Output};

/// Level used when the caller does not pick one.
pub const DEFAULT_LEVEL: u32 = 6;

/// Highest level the encoder accepts.
pub const MAX_LEVEL: u32 = 9;

/// The level the encoder actually runs at: the caller's level, the default
/// when absent, and never above [`MAX_LEVEL`] — levels past the documented
/// range are clamped to it, as the native encoder clamps them.
pub open spec fn effective_level(level: Option<u32>) -> u32 {
    if level_or(level, DEFAULT_LEVEL) > MAX_LEVEL {
        MAX_LEVEL
    } else {
        level_or(level, DEFAULT_LEVEL)
    }
}

/// The gzip stream that encoding some bytes at some level produces.
pub uninterp spec fn gzip_compressed(input: Seq<u8>, level: u32) -> Seq<u8>;

/// What decoding some bytes as a gzip stream yields: the decoded
/// bytes, or nothing when the bytes are not such a stream.
pub uninterp spec fn gzip_decoded(input: Seq<u8>) -> Option<Seq<u8>>;

/// Relies on flate2::read::GzEncoder driven to end of stream: the
/// encoded bytes are a function of the input bytes and the level alone, and
/// decoding them yields the input again.  The level must lie in the
/// documented range — the back end asserts that in debug builds — and
/// within it, encoding from a byte slice cannot fail, so the call always
/// returns the encoded stream.
#[verifier::external_body]
fn compress_raw(input: &[u8], level: u32) -> (r: Result<Vec<u8>, String>)
    requires
        level <= MAX_LEVEL,
    ensures
        r matches Ok(v) ==> v@ == gzip_compressed(input@, level) && gzip_decoded(v@) == Some(
            input@,
        ),
        r is Ok,
{
    let mut encoder = ::flate2::read::GzEncoder::new(input, ::flate2::Compression::new(level));
    let mut out: Vec<u8> = Vec::new();
    match std::io::Read::read_to_end(&mut encoder, &mut out) {
        Ok(_) => Ok(out),
        Err(e) => Err(e.to_string()),
    }
}

/// Relies on flate2::read::GzDecoder driven to end of stream: the
/// outcome is a function of the input bytes alone, and it fails exactly on
/// inputs that are not a gzip stream.
#[verifier::external_body]
fn decompress_raw(input: &[u8]) -> (r: Result<Vec<u8>, String>)
    ensures
        r matches Ok(v) ==> gzip_decoded(input@) == Some(v@),
        r is Err ==> gzip_decoded(input@) is None,
{
    let mut decoder = ::flate2::read::GzDecoder::new(input);
    let mut out: Vec<u8> = Vec::new();
    match std::io::Read::read_to_end(&mut decoder, &mut out) {
        Ok(_) => Ok(out),
        Err(e) => Err(e.to_string()),
    }
}

/// Compress via gzip into the sink, returning the produced count.
pub fn compress(input: &[u8], output: &mut Output, level: Option<u32>) -> (r: Result<usize, String>)
    ensures
        ({
            let payload = gzip_compressed(input@, effective_level(level));
            &&& match r {
                Ok(n) => {
                    &&& n == payload.len()
                    &&& sink_filled(*old(output), *final(output), payload)
                    &&& gzip_decoded(payload) == Some(input@)
                },
                Err(m) => sink_unchanged(*old(output), *final(output)) && m@
                    == crate::buffer_too_small_message(),
            }
            &&& (r is Ok <==> *old(output) is Vector || payload.len() <= old(
                output,
            ).buf().len())
        }),
{
    let lvl = match level {
        Some(l) => l,
        None => DEFAULT_LEVEL,
    };
    let lvl = if lvl > MAX_LEVEL {
        MAX_LEVEL
    } else {
        lvl
    };
    match compress_raw(input, lvl) {
        Ok(v) => write_payload(output, v),
        Err(m) => Err(m),
    }
}

/// Decompress via gzip into the sink, returning the produced count.
/// It succeeds exactly when the input decodes and the sink can take the
/// decoded bytes.
pub fn decompress(input: &[u8], output: &mut Output) -> (r: Result<usize, String>)
    ensures
        ({
            let dec = gzip_decoded(input@);
            &&& match r {
                Ok(n) => dec matches Some(d) && n == d.len() && sink_filled(
                    *old(output),
                    *final(output),
                    d,
                ),
                Err(m) => {
                    &&& sink_unchanged(*old(output), *final(output))
                    &&& (dec is None || (*old(output) is Slice && dec.unwrap().len() > old(
                        output,
                    ).buf().len()))
                    &&& (dec is Some ==> m@ == crate::buffer_too_small_message())
                },
            }
            &&& (dec matches Some(d) && (*old(output) is Vector || d.len() <= old(
                output,
            ).buf().len()) ==> r is Ok)
        }),
{
    match decompress_raw(input) {
        Ok(v) => write_payload(output, v),
        Err(m) => Err(m),
    }
}

} // verus!
