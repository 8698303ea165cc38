//! The plain value types a caller describes a stream with, and their
//! marshalled native forms.

use vstd::prelude::*;

verus! {

/// Which way samples move: from the caller to the server (playback) or from
/// the server to the caller (capture).
#[derive(Debug, Clone, Copy)]
pub enum StreamDirection {
    Playback,
    Capture,
}

impl StreamDirection {
    /// The native direction code: capture is 0, playback is 1.
    pub open spec fn spec_code(self) -> i32 {
        match self {
            StreamDirection::Capture => 0,
            StreamDirection::Playback => 1,
        }
    }

    /// Marshal to the native direction code.
    pub fn into_c(self) -> (r: i32)
        ensures
            r == self.spec_code(),
    {
        match self {
            StreamDirection::Capture => 0,
            StreamDirection::Playback => 1,
        }
    }
}

/// What the caller asks of a stream: sample rate in Hz and channel count.
/// The sample format is no part of it; the stream constructor fills the
/// format in from the sample-type binding.
#[derive(Debug, Clone)]
pub struct SampleSpec {
    rate: u32,
    n_channels: u8,
}

/// The native sample-specification record, field for field:
/// `{ format: i32, rate: u32, channels: i8 }` in declaration order.
#[derive(Debug, Clone, Copy, PartialEq, Eq, Structural)]
pub struct RawSampleSpec {
    /// Native format tag, or -1 where none has been chosen yet.
    pub format: i32,
    /// Sample rate in Hz.
    pub rate: u32,
    /// Channel count, as the native signed byte.
    pub channels: i8,
}

impl SampleSpec {
    /// The sample rate in Hz.
    pub closed spec fn spec_rate(self) -> u32 {
        self.rate
    }

    /// The channel count.
    pub closed spec fn spec_channels(self) -> u8 {
        self.n_channels
    }

    /// The marshalled native record: rate and channels carried over, and a
    /// placeholder format tag of -1.
    pub closed spec fn spec_into_c(self) -> RawSampleSpec {
        RawSampleSpec { format: -1i32, rate: self.rate, channels: self.n_channels as i8 }
    }

    pub fn new(rate: u32, n_channels: u8) -> (r: Self)
        ensures
            r.spec_rate() == rate,
            r.spec_channels() == n_channels,
    {
        SampleSpec { rate, n_channels }
    }

    /// Marshal to the native record. The format field is left as the -1
    /// placeholder: only the stream constructor sets it, from the
    /// sample-type binding, never from the specification itself.
    pub fn into_c(self) -> (r: RawSampleSpec)
        ensures
            r == self.spec_into_c(),
    {
        RawSampleSpec {
            format: -1,
            rate: self.rate,
            channels: #[verifier::truncate] (self.n_channels as i8),
        }
    }
}

/// Marshalling a sample specification carries its rate and channel count over
/// unchanged and never chooses a format: the format field of the record is
/// the -1 placeholder whatever the specification holds.
pub proof fn lemma_sample_spec_marshal(s: SampleSpec)
    ensures
        s.spec_into_c().rate == s.spec_rate(),
        s.spec_into_c().channels == s.spec_channels() as i8,
        s.spec_into_c().format == -1,
{
}

} // verus!
