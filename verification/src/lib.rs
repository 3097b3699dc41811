//! Byte-level compression and decompression behind a uniform dispatch layer.
//!
//! Each codec module exposes four operations — `compress`, `decompress`,
//! `compress_into` and `decompress_into` — over [`BytesType`] values, which
//! stand for the two kinds of host byte containers: an immutable byte string
//! and a mutable byte array.  All codec adapters write through one sink type,
//! [`Output`], which is either a fixed-capacity region or a growable vector.
//! The host bridge that marshals foreign containers into [`BytesType`] must
//! hand the library exclusive byte buffers for the duration of a call.

use vstd::prelude::*;

pub mod exceptions;
pub mod brotli;
pub mod deflate;
pub mod gzip;
pub mod lz4;
pub mod snappy;
pub mod zstd;

verus! {

/// A borrowed host byte container: either an immutable byte string
/// (`Bytes`) or a mutable byte array (`ByteArray`).  The adapters only ever
/// read through it; the distinction governs which kind of container a
/// dispatcher returns.
#[derive(Debug)]
pub enum BytesType {
    Bytes(Vec<u8>),
    ByteArray(Vec<u8>),
}

impl View for BytesType {
    type V = Seq<u8>;

    open spec fn view(&self) -> Seq<u8> {
        match self {
            BytesType::Bytes(v) => v@,
            BytesType::ByteArray(v) => v@,
        }
    }
}

impl BytesType {
    /// Number of bytes held by the container.
    pub fn len(&self) -> (n: usize)
        ensures
            n == self@.len(),
    {
        match self {
            BytesType::Bytes(v) => v.len(),
            BytesType::ByteArray(v) => v.len(),
        }
    }

    /// Read-only view of the bytes; identical for both container kinds.
    pub fn as_bytes(&self) -> (b: &[u8])
        ensures
            b@ == self@,
    {
        match self {
            BytesType::Bytes(v) => v.as_slice(),
            BytesType::ByteArray(v) => v.as_slice(),
        }
    }

    /// Whether this container is the immutable kind.
    pub fn is_bytes(&self) -> (b: bool)
        ensures
            b == (self is Bytes),
    {
        match self {
            BytesType::Bytes(_) => true,
            BytesType::ByteArray(_) => false,
        }
    }
}

/// Buffer for the de/compression adapters' output.  `Slice` is a
/// fixed-capacity region: its length is the capacity and never changes, and
/// an adapter refuses rather than truncates when the capacity is short.
/// `Vector` grows to hold whatever the codec produces; any previous content
/// is overwritten from offset zero.
#[derive(Debug)]
pub enum Output {
    Slice(Vec<u8>),
    Vector(Vec<u8>),
}

/// The bytes a fixed-capacity region holds after a payload is written over
/// its prefix: the payload, then the untouched remainder of the region.
pub open spec fn fixed_write(dest: Seq<u8>, payload: Seq<u8>) -> Seq<u8> {
    payload + dest.skip(payload.len() as int)
}

/// The payload followed by zero bytes up to length `n`: the contents of a
/// freshly allocated length-`n` buffer whose prefix an adapter filled.
pub open spec fn zero_pad(payload: Seq<u8>, n: int) -> Seq<u8> {
    payload + Seq::new((n - payload.len()) as nat, |i: int| 0u8)
}

impl Output {
    /// The bytes currently held, regardless of sink kind.
    pub open spec fn buf(&self) -> Seq<u8> {
        match self {
            Output::Slice(v) => v@,
            Output::Vector(v) => v@,
        }
    }

    /// Surrender the backing vector.
    pub fn into_vec(self) -> (v: Vec<u8>)
        ensures
            v@ == self.buf(),
    {
        match self {
            Output::Slice(v) => v,
            Output::Vector(v) => v,
        }
    }
}

/// How a sink changes when a payload is successfully written to it:
/// a fixed region keeps its length, holding the payload and then its old
/// suffix; a growable sink holds exactly the payload.
pub open spec fn sink_filled(before: Output, after: Output, payload: Seq<u8>) -> bool {
    match before {
        Output::Slice(b) => {
            &&& payload.len() <= b@.len()
            &&& after matches Output::Slice(a) && a@ == fixed_write(b@, payload)
        },
        Output::Vector(_) => after matches Output::Vector(a) && a@ == payload,
    }
}

/// A failed write leaves the sink as it was.
pub open spec fn sink_unchanged(before: Output, after: Output) -> bool {
    &&& before is Slice <==> after is Slice
    &&& after.buf() == before.buf()
}

/// The message of the one failure the sink layer itself raises: a payload
/// larger than a fixed region's capacity.
pub open spec fn buffer_too_small_message() -> Seq<char> {
    "failed to write whole buffer"@
}

/// Write a produced payload into a sink.  A fixed region takes the payload
/// over its prefix exactly when it fits, and is never truncated into; a
/// growable sink is replaced by the payload.  Returns the number of bytes
/// written.
pub fn write_payload(output: &mut Output, payload: Vec<u8>) -> (r: Result<usize, String>)
    ensures
        match r {
            Ok(n) => n == payload@.len() && sink_filled(*old(output), *final(output), payload@),
            Err(m) => {
                &&& sink_unchanged(*old(output), *final(output))
                &&& *old(output) is Slice
                &&& payload@.len() > old(output).buf().len()
                &&& m@ == buffer_too_small_message()
            },
        },
        *old(output) is Vector || payload@.len() <= old(output).buf().len() ==> r is Ok,
{
    let mut taken = Output::Vector(Vec::new());
    core::mem::swap(output, &mut taken);
    match taken {
        Output::Slice(mut buf) => {
            if payload.len() <= buf.len() {
                let n = payload.len();
                let ghost buf0 = buf@;
                let mut i: usize = 0;
                while i < n
                    invariant
                        i <= n,
                        n == payload@.len() <= buf@.len(),
                        buf@.len() == buf0.len(),
                        forall|j: int| 0 <= j < i ==> buf@[j] == payload@[j],
                        forall|j: int| i <= j < buf0.len() ==> buf@[j] == buf0[j],
                    decreases n - i,
                {
                    buf.set(i, payload[i]);
                    i += 1;
                }
                assert(buf@ =~= fixed_write(buf0, payload@));
                *output = Output::Slice(buf);
                Ok(n)
            } else {
                *output = Output::Slice(buf);
                Err("failed to write whole buffer".to_owned())
            }
        },
        Output::Vector(_) => {
            let n = payload.len();
            *output = Output::Vector(payload);
            Ok(n)
        },
    }
}

/// A zero-initialized buffer of length `n`, standing for a freshly
/// host-allocated output region.
pub fn zeroed(n: usize) -> (v: Vec<u8>)
    ensures
        v@ == Seq::new(n as nat, |i: int| 0u8),
{
    let mut v: Vec<u8> = Vec::new();
    let mut i: usize = 0;
    while i < n
        invariant
            i <= n,
            v@.len() == i,
            forall|j: int| 0 <= j < i ==> v@[j] == 0u8,
        decreases n - i,
    {
        v.push(0u8);
        i += 1;
    }
    assert(v@ =~= Seq::new(n as nat, |i: int| 0u8));
    v
}

/// The level actually handed to a codec when the caller may omit it.
pub open spec fn level_or<T>(level: Option<T>, default: T) -> T {
    match level {
        Some(l) => l,
        None => default,
    }
}

/// How a dispatcher wraps a produced payload into a host container.  The
/// returned container has the kind of the input container.  With a caller
/// supplied `output_len` of `n`, the payload must fit in `n` bytes; an
/// immutable result then keeps length `n` (it cannot be resized after
/// creation) with the payload over a zeroed prefix, while a mutable result
/// is shrunk to exactly the payload.  With no `output_len`, either kind
/// holds exactly the payload.
pub open spec fn dispatched(
    data: BytesType,
    output_len: Option<usize>,
    payload: Seq<u8>,
    out: BytesType,
) -> bool {
    &&& out is Bytes <==> data is Bytes
    &&& match output_len {
        Some(n) => {
            &&& payload.len() <= n
            &&& if data is Bytes {
                out@ == zero_pad(payload, n as int)
            } else {
                out@ == payload
            }
        },
        None => out@ == payload,
    }
}

/// Shared tail of `compress` and `decompress`: wrap the sink's bytes into a
/// host container of the input's kind, shrinking a mutable pre-sized
/// container to the count the adapter produced.
pub fn wrap_output(data: &BytesType, output_len: Option<usize>, sink: Output, count: usize) -> (out:
    BytesType)
    requires
        count <= sink.buf().len(),
        match output_len {
            Some(n) => sink.buf().len() == n && sink.buf() == zero_pad(
                sink.buf().take(count as int),
                n as int,
            ),
            None => sink.buf().len() == count,
        },
    ensures
        dispatched(*data, output_len, sink.buf().take(count as int), out),
{
    let ghost payload = sink.buf().take(count as int);
    let v = sink.into_vec();
    proof {
        assert(payload.len() == count);
    }
    if data.is_bytes() {
        proof {
            if output_len is None {
                assert(v@ =~= payload);
            }
        }
        BytesType::Bytes(v)
    } else {
        let mut v = v;
        v.truncate(count);
        proof {
            assert(v@ =~= payload);
        }
        BytesType::ByteArray(v)
    }
}

/// Shape of a freshly allocated, zero-initialized fixed sink after an
/// adapter filled its prefix: the region keeps length `n`, its prefix is the
/// payload, and the whole region is the payload zero-padded to `n`.
pub proof fn lemma_slice_sink_shape(payload: Seq<u8>, n: nat)
    requires
        payload.len() <= n,
    ensures
        fixed_write(Seq::new(n, |i: int| 0u8), payload).len() == n,
        fixed_write(Seq::new(n, |i: int| 0u8), payload).take(payload.len() as int) == payload,
        fixed_write(Seq::new(n, |i: int| 0u8), payload) == zero_pad(payload, n as int),
{
    let z = Seq::new(n, |i: int| 0u8);
    let w = fixed_write(z, payload);
    assert(w.take(payload.len() as int) =~= payload);
    assert(z.skip(payload.len() as int) =~= Seq::new(
        (n - payload.len()) as nat,
        |i: int| 0u8,
    ));
}

/// Cross-sink equivalence: a fixed-capacity destination sized exactly to
/// the payload ends up holding byte-for-byte what a growable sink holds,
/// the produced count is the same payload length either way, and a
/// pre-sized container padded to exactly the payload's length is the
/// payload alone.
pub proof fn lemma_cross_sink_equivalence(dest: Seq<u8>, payload: Seq<u8>)
    requires
        dest.len() == payload.len(),
    ensures
        fixed_write(dest, payload) == payload,
        zero_pad(payload, payload.len() as int) == payload,
{
    assert(fixed_write(dest, payload) =~= payload);
    assert(zero_pad(payload, payload.len() as int) =~= payload);
}

/// Parity of the `*_into` operations: writing a payload over a caller
/// buffer's prefix changes neither the buffer's length nor anything past the
/// payload, and its first `payload.len()` bytes are exactly the payload —
/// the bytes a growable sink would have produced.
pub proof fn lemma_into_parity(dest: Seq<u8>, payload: Seq<u8>)
    requires
        payload.len() <= dest.len(),
    ensures
        fixed_write(dest, payload).len() == dest.len(),
        fixed_write(dest, payload).subrange(0, payload.len() as int) == payload,
        fixed_write(dest, payload).skip(payload.len() as int) == dest.skip(payload.len() as int),
{
    assert(fixed_write(dest, payload).subrange(0, payload.len() as int) =~= payload);
    assert(fixed_write(dest, payload).skip(payload.len() as int) =~= dest.skip(
        payload.len() as int,
    ));
}

} // verus!
