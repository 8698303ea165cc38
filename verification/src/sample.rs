//! The sample-format binding: which native format tag each admissible PCM
//! sample type selects, and how one sample turns into wire bytes.

use vstd::prelude::*;

verus! {

/// Byte order of the host that hands the payload to the audio library.
///
/// The payload bytes of a write are the in-memory representation of the
/// samples, so the format tag sent at open time must name the host's own byte
/// order; the driver passes the host order in and the binding selects the
/// matching LE or BE tag.
#[derive(Clone, Copy, PartialEq, Eq, Structural, Debug)]
pub enum Endianness {
    Little,
    Big,
}

/// Native format tag: unsigned 8-bit samples.
pub const FORMAT_U8: i32 = 0;

/// Native format tag: signed 16-bit samples, little endian.
pub const FORMAT_S16LE: i32 = 3;

/// Native format tag: signed 16-bit samples, big endian.
pub const FORMAT_S16BE: i32 = 4;

/// Native format tag: 32-bit IEEE-754 samples, little endian.
pub const FORMAT_FLOAT32LE: i32 = 5;

/// Native format tag: 32-bit IEEE-754 samples, big endian.
pub const FORMAT_FLOAT32BE: i32 = 6;

/// Native format tag: signed 32-bit samples, little endian.
pub const FORMAT_S32LE: i32 = 7;

/// Native format tag: signed 32-bit samples, big endian.
pub const FORMAT_S32BE: i32 = 8;

/// The two bytes of `v`, least significant first.
pub open spec fn u16_le_bytes(v: u16) -> Seq<u8> {
    seq![(v & 0xff) as u8, ((v >> 8) & 0xff) as u8]
}

/// The two bytes of `v`, most significant first.
pub open spec fn u16_be_bytes(v: u16) -> Seq<u8> {
    seq![((v >> 8) & 0xff) as u8, (v & 0xff) as u8]
}

/// The four bytes of `v`, least significant first.
pub open spec fn u32_le_bytes(v: u32) -> Seq<u8> {
    seq![
        (v & 0xff) as u8,
        ((v >> 8) & 0xff) as u8,
        ((v >> 16) & 0xff) as u8,
        ((v >> 24) & 0xff) as u8,
    ]
}

/// The four bytes of `v`, most significant first.
pub open spec fn u32_be_bytes(v: u32) -> Seq<u8> {
    seq![
        ((v >> 24) & 0xff) as u8,
        ((v >> 16) & 0xff) as u8,
        ((v >> 8) & 0xff) as u8,
        (v & 0xff) as u8,
    ]
}

/// A PCM sample type the stream layer admits.
///
/// The binding is closed: exactly the types implementing this trait can be
/// stream sample types, and each one fixes its native format tag, its size on
/// the wire, and the bytes one sample contributes to a write payload. A
/// stream over any other type is a compile-time error.
pub trait PSimple: Copy + Sized {
    /// How many bytes one sample occupies on the wire.
    spec fn spec_size() -> nat;

    /// The native format tag this type selects under the given byte order.
    spec fn spec_format(e: Endianness) -> i32;

    /// The wire bytes of one sample under the given byte order.
    spec fn spec_bytes(self, e: Endianness) -> Seq<u8>;

    /// Every sample encodes to exactly `spec_size` bytes.
    proof fn lemma_bytes_len(self, e: Endianness)
        ensures
            self.spec_bytes(e).len() == Self::spec_size(),
    ;

    /// The size of one sample on the wire.
    fn size() -> (r: usize)
        ensures
            r == Self::spec_size(),
    ;

    /// The native format tag under the given byte order.
    fn format_tag(e: Endianness) -> (r: i32)
        ensures
            r == Self::spec_format(e),
    ;

    /// Append the wire bytes of this sample to `out`.
    fn push_bytes(self, e: Endianness, out: &mut Vec<u8>)
        ensures
            final(out)@ == old(out)@ + self.spec_bytes(e),
    ;
}

impl PSimple for u8 {
    open spec fn spec_size() -> nat {
        1
    }

    open spec fn spec_format(e: Endianness) -> i32 {
        FORMAT_U8
    }

    open spec fn spec_bytes(self, e: Endianness) -> Seq<u8> {
        seq![self]
    }

    proof fn lemma_bytes_len(self, e: Endianness) {
    }

    fn size() -> usize {
        1
    }

    fn format_tag(e: Endianness) -> i32 {
        FORMAT_U8
    }

    fn push_bytes(self, e: Endianness, out: &mut Vec<u8>) {
        out.push(self);
        assert(out@ =~= old(out)@ + self.spec_bytes(e));
    }
}

impl PSimple for i16 {
    open spec fn spec_size() -> nat {
        2
    }

    open spec fn spec_format(e: Endianness) -> i32 {
        match e {
            Endianness::Little => FORMAT_S16LE,
            Endianness::Big => FORMAT_S16BE,
        }
    }

    open spec fn spec_bytes(self, e: Endianness) -> Seq<u8> {
        match e {
            Endianness::Little => u16_le_bytes(self as u16),
            Endianness::Big => u16_be_bytes(self as u16),
        }
    }

    proof fn lemma_bytes_len(self, e: Endianness) {
    }

    fn size() -> usize {
        2
    }

    fn format_tag(e: Endianness) -> i32 {
        match e {
            Endianness::Little => FORMAT_S16LE,
            Endianness::Big => FORMAT_S16BE,
        }
    }

    fn push_bytes(self, e: Endianness, out: &mut Vec<u8>) {
        let w: u16 = #[verifier::truncate] (self as u16);
        let lo: u8 = (w & 0xff) as u8;
        let hi: u8 = ((w >> 8) & 0xff) as u8;
        match e {
            Endianness::Little => {
                out.push(lo);
                out.push(hi);
            },
            Endianness::Big => {
                out.push(hi);
                out.push(lo);
            },
        }
        assert(out@ =~= old(out)@ + self.spec_bytes(e));
    }
}

impl PSimple for i32 {
    open spec fn spec_size() -> nat {
        4
    }

    open spec fn spec_format(e: Endianness) -> i32 {
        match e {
            Endianness::Little => FORMAT_S32LE,
            Endianness::Big => FORMAT_S32BE,
        }
    }

    open spec fn spec_bytes(self, e: Endianness) -> Seq<u8> {
        match e {
            Endianness::Little => u32_le_bytes(self as u32),
            Endianness::Big => u32_be_bytes(self as u32),
        }
    }

    proof fn lemma_bytes_len(self, e: Endianness) {
    }

    fn size() -> usize {
        4
    }

    fn format_tag(e: Endianness) -> i32 {
        match e {
            Endianness::Little => FORMAT_S32LE,
            Endianness::Big => FORMAT_S32BE,
        }
    }

    fn push_bytes(self, e: Endianness, out: &mut Vec<u8>) {
        let w: u32 = #[verifier::truncate] (self as u32);
        let b0: u8 = (w & 0xff) as u8;
        let b1: u8 = ((w >> 8) & 0xff) as u8;
        let b2: u8 = ((w >> 16) & 0xff) as u8;
        let b3: u8 = ((w >> 24) & 0xff) as u8;
        match e {
            Endianness::Little => {
                out.push(b0);
                out.push(b1);
                out.push(b2);
                out.push(b3);
            },
            Endianness::Big => {
                out.push(b3);
                out.push(b2);
                out.push(b1);
                out.push(b0);
            },
        }
        assert(out@ =~= old(out)@ + self.spec_bytes(e));
    }
}

/// A 32-bit IEEE-754 sample, carried as its raw bit pattern.
///
/// The stream layer never computes with float samples; it only moves their
/// bytes, so it holds each one as the `u32` bit pattern of the float (the
/// value `f32::to_bits` returns, readable back with `f32::from_bits`).
/// Callers convert at the edge; the wire bytes are the same either way.
#[derive(Clone, Copy, PartialEq, Eq, Structural, Debug)]
pub struct FloatSample {
    /// The IEEE-754 interchange bits of the sample.
    pub bits: u32,
}

impl PSimple for FloatSample {
    open spec fn spec_size() -> nat {
        4
    }

    open spec fn spec_format(e: Endianness) -> i32 {
        match e {
            Endianness::Little => FORMAT_FLOAT32LE,
            Endianness::Big => FORMAT_FLOAT32BE,
        }
    }

    open spec fn spec_bytes(self, e: Endianness) -> Seq<u8> {
        match e {
            Endianness::Little => u32_le_bytes(self.bits),
            Endianness::Big => u32_be_bytes(self.bits),
        }
    }

    proof fn lemma_bytes_len(self, e: Endianness) {
    }

    fn size() -> usize {
        4
    }

    fn format_tag(e: Endianness) -> i32 {
        match e {
            Endianness::Little => FORMAT_FLOAT32LE,
            Endianness::Big => FORMAT_FLOAT32BE,
        }
    }

    fn push_bytes(self, e: Endianness, out: &mut Vec<u8>) {
        let w: u32 = self.bits;
        let b0: u8 = (w & 0xff) as u8;
        let b1: u8 = ((w >> 8) & 0xff) as u8;
        let b2: u8 = ((w >> 16) & 0xff) as u8;
        let b3: u8 = ((w >> 24) & 0xff) as u8;
        match e {
            Endianness::Little => {
                out.push(b0);
                out.push(b1);
                out.push(b2);
                out.push(b3);
            },
            Endianness::Big => {
                out.push(b3);
                out.push(b2);
                out.push(b1);
                out.push(b0);
            },
        }
        assert(out@ =~= old(out)@ + self.spec_bytes(e));
    }
}

/// The wire bytes of a whole run of samples: each sample's bytes, in sample
/// order, with nothing between them (the interleaved layout is the caller's;
/// this layer moves the samples as given).
pub open spec fn stream_bytes<T: PSimple>(samples: Seq<T>, e: Endianness) -> Seq<u8>
    decreases samples.len(),
{
    if samples.len() == 0 {
        Seq::empty()
    } else {
        stream_bytes(samples.drop_last(), e) + samples.last().spec_bytes(e)
    }
}

/// A run of `n` samples marshals to exactly `n * spec_size` bytes; in
/// particular an empty run marshals to an empty payload.
pub proof fn lemma_stream_bytes_len<T: PSimple>(samples: Seq<T>, e: Endianness)
    ensures
        stream_bytes(samples, e).len() == samples.len() * T::spec_size(),
    decreases samples.len(),
{
    if samples.len() == 0 {
    } else {
        lemma_stream_bytes_len::<T>(samples.drop_last(), e);
        samples.last().lemma_bytes_len(e);
        assert((samples.len() - 1) * T::spec_size() + T::spec_size() == samples.len()
            * T::spec_size()) by (nonlinear_arith);
    }
}

/// Marshal a run of samples into its wire payload.
pub fn marshal_samples<T: PSimple>(samples: &[T], e: Endianness) -> (out: Vec<u8>)
    ensures
        out@ == stream_bytes(samples@, e),
        out@.len() == samples@.len() * T::spec_size(),
{
    let n = samples.len();
    let mut out: Vec<u8> = Vec::new();
    let mut i: usize = 0;
    while i < n
        invariant
            i <= n,
            n == samples@.len(),
            out@ == stream_bytes(samples@.take(i as int), e),
        decreases n - i,
    {
        samples[i].push_bytes(e, &mut out);
        proof {
            let taken = samples@.take(i + 1 as int);
            assert(taken.drop_last() =~= samples@.take(i as int));
            assert(taken.last() == samples@[i as int]);
        }
        i = i + 1;
    }
    proof {
        assert(samples@.take(n as int) =~= samples@);
        lemma_stream_bytes_len::<T>(samples@, e);
    }
    out
}

/// The format binding, written out: each admissible sample type selects
/// exactly the native tag of its numeric lane in the given byte order, the
/// unsigned 8-bit lane being byte-order-free.
pub proof fn lemma_format_binding()
    ensures
        <u8 as PSimple>::spec_format(Endianness::Little) == FORMAT_U8,
        <u8 as PSimple>::spec_format(Endianness::Big) == FORMAT_U8,
        <i16 as PSimple>::spec_format(Endianness::Little) == FORMAT_S16LE,
        <i16 as PSimple>::spec_format(Endianness::Big) == FORMAT_S16BE,
        <FloatSample as PSimple>::spec_format(Endianness::Little) == FORMAT_FLOAT32LE,
        <FloatSample as PSimple>::spec_format(Endianness::Big) == FORMAT_FLOAT32BE,
        <i32 as PSimple>::spec_format(Endianness::Little) == FORMAT_S32LE,
        <i32 as PSimple>::spec_format(Endianness::Big) == FORMAT_S32BE,
{
}

} // verus!
