//! The stream handle and its lifecycle: marshalling an open request,
//! adopting the foreign handle, marshalling writes, drain, and the
//! drain-then-free teardown.
//!
//! The foreign library is reached through an unverified driver. Every
//! function here goes from plain values to plain values: the library builds
//! the exact call the driver must make ([`OpenCall`], [`WriteCall`],
//! [`TeardownStep`]) and interprets the outcome the driver hands back (the
//! returned handle and the error slot). The driver performs the calls in the
//! order the values are handed to it and does nothing else with the handle.

use vstd::prelude::*;
use vstd::string::StringSliceAdditionalSpecFns;

use crate::marshal::RawSampleSpec;
use crate::marshal::SampleSpec;
use crate::marshal::StreamDirection;
use crate::sample::Endianness;
use crate::sample::PSimple;
use crate::sample::marshal_samples;
use crate::sample::stream_bytes;

verus! {

/// Why a stream operation failed. The message-bearing variants carry the
/// host library's own translation of the native error code.
#[derive(Debug, Clone, PartialEq, Eq)]
pub enum Error {
    /// The stream name holds an interior nul byte, so it cannot be passed as
    /// a nul-terminated string. Raised before any foreign call is made.
    InputInvalid,
    /// The foreign open reported a nonzero error code, or returned no stream
    /// although its error slot was zero.
    OpenFailed(String),
    /// The foreign write reported a nonzero error code. The stream stays
    /// open; the caller may retry.
    WriteFailed(String),
    /// The foreign drain reported a nonzero error code. The stream stays
    /// open; the caller may retry.
    DrainFailed(String),
}

/// One foreign `open` invocation, as plain values. `None` on an optional
/// string stands for a null pointer, which selects the library default.
/// The channel map and the buffer attributes are always the defaults (null
/// pointers): this layer never sets either, so they have no field here.
#[derive(Debug, Clone, PartialEq, Eq)]
pub struct OpenCall {
    /// Server to connect to; always `None` (the default server).
    pub server: Option<Vec<u8>>,
    /// Client name; always `None` (the default name).
    pub client_name: Option<Vec<u8>>,
    /// Native direction code.
    pub direction: i32,
    /// Device to open; always `None` (the default device).
    pub device: Option<Vec<u8>>,
    /// The stream name, nul-terminated, with no interior nul.
    pub stream_name: Vec<u8>,
    /// The native sample-specification record, format tag filled in.
    pub sample_spec: RawSampleSpec,
}

/// One foreign `write` invocation: the handle and the exact payload bytes.
#[derive(Debug, Clone, PartialEq, Eq)]
pub struct WriteCall {
    /// The foreign stream handle, as an address.
    pub handle: usize,
    /// The payload: the wire bytes of the samples being written.
    pub bytes: Vec<u8>,
}

/// One step of the teardown sequence, carrying the handle it acts on.
#[derive(Debug, Clone, Copy, PartialEq, Eq, Structural)]
pub enum TeardownStep {
    /// Foreign drain, best effort: its error is discarded.
    Drain(usize),
    /// Foreign free of the handle. Nothing may touch the handle after it.
    Free(usize),
}

/// Copy a stream name into the nul-terminated byte string the foreign open
/// takes, rejecting names with an interior nul byte.
fn nul_terminated(name: &str) -> (r: Result<Vec<u8>, Error>)
    ensures
        match r {
            Ok(v) => !name.spec_bytes().contains(0u8) && v@ == name.spec_bytes().push(0u8),
            Err(e) => name.spec_bytes().contains(0u8) && e == Error::InputInvalid,
        },
{
    let bytes: &[u8] = name.as_bytes();
    let n = bytes.len();
    let mut out: Vec<u8> = Vec::new();
    let mut i: usize = 0;
    while i < n
        invariant
            i <= n,
            n == bytes@.len(),
            bytes@ == name.spec_bytes(),
            out@ == bytes@.take(i as int),
            forall|j: int| 0 <= j < i ==> bytes@[j] != 0u8,
        decreases n - i,
    {
        let b = bytes[i];
        if b == 0 {
            assert(bytes@.contains(0u8)) by {
                assert(bytes@[i as int] == 0u8);
            }
            return Err(Error::InputInvalid);
        }
        out.push(b);
        assert(out@ =~= bytes@.take(i + 1 as int));
        i = i + 1;
    }
    out.push(0);
    proof {
        assert(bytes@.take(n as int) =~= bytes@);
        if bytes@.contains(0u8) {
            let j = choose|j: int| 0 <= j < bytes@.len() && bytes@[j] == 0u8;
            assert(bytes@[j] != 0u8);
        }
    }
    Ok(out)
}

/// A handle to an open stream over samples of type `T`, exclusively owned.
///
/// It carries the foreign stream's address, nonzero for its whole lifetime.
/// Writes and drain leave the handle open; the only exit is [`Simple::close`],
/// which consumes it and yields the drain-then-free teardown sequence.
#[derive(Debug)]
pub struct Simple<T: PSimple> {
    handle: usize,
    marker: core::marker::PhantomData<T>,
}

impl<T: PSimple> Simple<T> {
    /// The foreign handle this stream owns; nonzero.
    pub closed spec fn spec_handle(self) -> usize {
        self.handle
    }

    /// Marshal the open request for a stream named `stream_name`, moving
    /// samples in `direction`, with the rate and channel count of
    /// `sample_spec`, on a host of byte order `endian`.
    ///
    /// A name with an interior nul byte is rejected here, before any foreign
    /// call. Otherwise the request pins every argument of the foreign open:
    /// default server, client name and device; the native direction code; the
    /// name nul-terminated; and the native sample-specification record with
    /// the caller's rate and channels and the format tag of `T`'s binding.
    pub fn open_call(
        stream_name: &str,
        direction: StreamDirection,
        sample_spec: SampleSpec,
        endian: Endianness,
    ) -> (r: Result<OpenCall, Error>)
        ensures
            match r {
                Ok(call) => {
                    &&& !stream_name.spec_bytes().contains(0u8)
                    &&& call.server is None
                    &&& call.client_name is None
                    &&& call.device is None
                    &&& call.direction == direction.spec_code()
                    &&& call.stream_name@ == stream_name.spec_bytes().push(0u8)
                    &&& call.sample_spec.format == T::spec_format(endian)
                    &&& call.sample_spec.rate == sample_spec.spec_rate()
                    &&& call.sample_spec.channels == sample_spec.spec_channels() as i8
                },
                Err(e) => stream_name.spec_bytes().contains(0u8) && e == Error::InputInvalid,
            },
    {
        let name_z = match nul_terminated(stream_name) {
            Ok(v) => v,
            Err(e) => {
                return Err(e);
            },
        };
        proof {
            crate::marshal::lemma_sample_spec_marshal(sample_spec);
        }
        let mut raw = sample_spec.into_c();
        raw.format = T::format_tag(endian);
        Ok(
            OpenCall {
                server: None,
                client_name: None,
                direction: direction.into_c(),
                device: None,
                stream_name: name_z,
                sample_spec: raw,
            },
        )
    }

    /// Adopt the outcome of the foreign open: `handle` is the returned stream
    /// address (0 for a null pointer) and `err` its error slot. `message` is
    /// the failure text the caller translated: the library's rendering of
    /// `err` when it is nonzero, or the caller's description of a returned
    /// null stream; it is embedded only on failure.
    ///
    /// Success needs both a zero error code and a non-null stream. On failure
    /// no stream exists, so nothing will ever be drained or freed for this
    /// attempt.
    pub fn new(handle: usize, err: i32, message: String) -> (r: Result<Simple<T>, Error>)
        ensures
            r is Ok <==> (err == 0 && handle != 0),
            match r {
                Ok(s) => s.spec_handle() == handle,
                Err(e) => e == Error::OpenFailed(message),
            },
    {
        if err != 0 {
            return Err(Error::OpenFailed(message));
        }
        if handle == 0 {
            return Err(Error::OpenFailed(message));
        }
        Ok(Simple { handle, marker: core::marker::PhantomData })
    }

    /// Marshal a write of `samples`: one foreign write on this stream's
    /// handle whose payload is exactly the wire bytes of the samples —
    /// `samples.len() * size_of::<T>()` bytes, the in-memory representation
    /// under byte order `endian`. An empty run gives a zero-length payload.
    pub fn write(&self, samples: &[T], endian: Endianness) -> (c: WriteCall)
        ensures
            c.handle == self.spec_handle(),
            c.bytes@ == stream_bytes(samples@, endian),
            c.bytes@.len() == samples@.len() * T::spec_size(),
    {
        WriteCall { handle: self.handle, bytes: marshal_samples(samples, endian) }
    }

    /// Marshal a write of one sample: the write of the singleton run.
    pub fn write_single(&self, sample: T, endian: Endianness) -> (c: WriteCall)
        ensures
            c.handle == self.spec_handle(),
            c.bytes@ == sample.spec_bytes(endian),
            c.bytes@.len() == T::spec_size(),
    {
        let mut samples: Vec<T> = Vec::new();
        samples.push(sample);
        let c = self.write(samples.as_slice(), endian);
        proof {
            let s = samples@;
            assert(s.last() == sample);
            assert(s.drop_last() =~= Seq::<T>::empty());
            assert(stream_bytes(Seq::<T>::empty(), endian) == Seq::<u8>::empty());
            assert(stream_bytes(s, endian) == stream_bytes(s.drop_last(), endian)
                + s.last().spec_bytes(endian));
            assert(Seq::<u8>::empty() + sample.spec_bytes(endian) =~= sample.spec_bytes(endian));
            sample.lemma_bytes_len(endian);
        }
        c
    }

    /// The handle to hand to the foreign drain, which blocks until every
    /// previously written sample has been consumed by the audio pipeline.
    /// Drain is not terminal: the stream stays open whatever the outcome,
    /// and later writes stay legal.
    pub fn drain(&self) -> (h: usize)
        ensures
            h == self.spec_handle(),
    {
        self.handle
    }

    /// End of ownership: consume the stream and yield its teardown sequence —
    /// exactly one drain followed by exactly one free, in that order, both on
    /// this stream's handle. The drain is best effort (its error is
    /// discarded); the free ends the handle's life.
    pub fn close(self) -> (steps: Vec<TeardownStep>)
        ensures
            steps@ == seq![
                TeardownStep::Drain(self.spec_handle()),
                TeardownStep::Free(self.spec_handle()),
            ],
    {
        let mut steps: Vec<TeardownStep> = Vec::new();
        steps.push(TeardownStep::Drain(self.handle));
        steps.push(TeardownStep::Free(self.handle));
        proof {
            assert(steps@ =~= seq![
                TeardownStep::Drain(self.spec_handle()),
                TeardownStep::Free(self.spec_handle()),
            ]);
        }
        steps
    }
}

/// Interpret the error slot of a foreign write. `message` is the library's
/// translation of a nonzero `err`; it is embedded only then. A zero code is
/// success; either way the stream stays open.
pub fn write_result(err: i32, message: String) -> (r: Result<(), Error>)
    ensures
        err == 0 <==> r is Ok,
        err != 0 ==> r == Result::<(), Error>::Err(Error::WriteFailed(message)),
{
    if err != 0 {
        Err(Error::WriteFailed(message))
    } else {
        Ok(())
    }
}

/// Interpret the error slot of an explicit foreign drain. `message` is the
/// library's translation of a nonzero `err`; it is embedded only then. A zero
/// code is success; either way the stream stays open.
pub fn drain_result(err: i32, message: String) -> (r: Result<(), Error>)
    ensures
        err == 0 <==> r is Ok,
        err != 0 ==> r == Result::<(), Error>::Err(Error::DrainFailed(message)),
{
    if err != 0 {
        Err(Error::DrainFailed(message))
    } else {
        Ok(())
    }
}

} // verus!

