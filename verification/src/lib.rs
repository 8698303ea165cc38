//! A typed adapter over a host system's blocking ("simple") audio API.
//!
//! The library owns the logic of the adapter: the compile-time binding from a
//! numeric sample type to its native format tag, the marshalling of stream
//! parameters and sample payloads into the plain values a foreign `open` or
//! `write` call takes, and the stream lifecycle (open, write, drain, and the
//! drain-then-free teardown). The foreign calls themselves are left to a thin
//! unverified driver: every function here goes from plain values to plain
//! values, so each call the driver must make, and each outcome it hands back,
//! is pinned down by a contract.

pub mod marshal;
pub mod sample;
pub mod stream;

pub use marshal::RawSampleSpec;
pub use marshal::SampleSpec;
pub use marshal::StreamDirection;
pub use sample::Endianness;
pub use sample::FloatSample;
pub use sample::PSimple;
pub use stream::Error;
pub use stream::OpenCall;
pub use stream::Simple;
pub use stream::TeardownStep;
pub use stream::WriteCall;
pub use stream::drain_result;
pub use stream::write_result;
