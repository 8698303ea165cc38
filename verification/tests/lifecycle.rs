//! Lifecycle scenarios against a recording fake of the five foreign entry
//! points: open, write, drain, free, and the error translator.

use pulse_simple::Endianness;
use pulse_simple::Error;
use pulse_simple::FloatSample;
use pulse_simple::OpenCall;
use pulse_simple::SampleSpec;
use pulse_simple::Simple;
use pulse_simple::StreamDirection;
use pulse_simple::TeardownStep;
use pulse_simple::WriteCall;
use pulse_simple::drain_result;
use pulse_simple::write_result;

/// A recording fake of the foreign library: it logs every call it receives
/// and answers with the configured handle and error codes.
struct Fake {
    log: Vec<String>,
    open_handle: usize,
    open_err: i32,
    write_err: i32,
    drain_err: i32,
}

impl Fake {
    fn new() -> Fake {
        Fake { log: Vec::new(), open_handle: 0x1000, open_err: 0, write_err: 0, drain_err: 0 }
    }

    fn open(&mut self, call: &OpenCall) -> (usize, i32) {
        self.log.push(format!(
            "open(server={:?}, client={:?}, dir={}, dev={:?}, name={:?}, fmt={}, rate={}, chans={})",
            call.server,
            call.client_name,
            call.direction,
            call.device,
            call.stream_name,
            call.sample_spec.format,
            call.sample_spec.rate,
            call.sample_spec.channels,
        ));
        (self.open_handle, self.open_err)
    }

    fn write(&mut self, call: &WriteCall) -> i32 {
        self.log.push(format!("write(handle={}, len={})", call.handle, call.bytes.len()));
        self.write_err
    }

    fn drain(&mut self, handle: usize) -> i32 {
        self.log.push(format!("drain(handle={})", handle));
        self.drain_err
    }

    fn free(&mut self, handle: usize) {
        self.log.push(format!("free(handle={})", handle));
    }

    fn strerror(&self, code: i32) -> String {
        format!("translated error {}", code)
    }

    fn run_teardown(&mut self, steps: Vec<TeardownStep>) {
        for step in steps {
            match step {
                TeardownStep::Drain(h) => {
                    self.drain(h);
                },
                TeardownStep::Free(h) => {
                    self.free(h);
                },
            }
        }
    }
}

/// Drive a successful open against the fake and hand back the stream.
fn open_stream<T: pulse_simple::PSimple>(
    fake: &mut Fake,
    name: &str,
    direction: StreamDirection,
    spec: SampleSpec,
    endian: Endianness,
) -> Result<Simple<T>, Error> {
    let call = Simple::<T>::open_call(name, direction, spec, endian)?;
    let (handle, err) = fake.open(&call);
    let message = if err != 0 {
        fake.strerror(err)
    } else {
        String::from("the library returned no stream")
    };
    Simple::<T>::new(handle, err, message)
}

#[test]
fn playback_tone_scenario() {
    let mut fake = Fake::new();
    let stream: Simple<i16> = open_stream(
        &mut fake,
        "tone",
        StreamDirection::Playback,
        SampleSpec::new(44100, 2),
        Endianness::Little,
    )
    .unwrap();

    let samples: [i16; 4] = [0, 16384, 0, -16384];
    let wcall = stream.write(&samples, Endianness::Little);
    assert_eq!(wcall.bytes, vec![0x00, 0x00, 0x00, 0x40, 0x00, 0x00, 0x00, 0xc0]);
    assert_eq!(wcall.bytes.len(), 8);
    let werr = fake.write(&wcall);
    assert!(write_result(werr, fake.strerror(werr)).is_ok());

    let derr = fake.drain(stream.drain());
    assert!(drain_result(derr, fake.strerror(derr)).is_ok());

    let steps = stream.close();
    fake.run_teardown(steps);

    assert_eq!(
        fake.log,
        vec![
            String::from(
                "open(server=None, client=None, dir=1, dev=None, name=[116, 111, 110, 101, 0], fmt=3, rate=44100, chans=2)"
            ),
            String::from("write(handle=4096, len=8)"),
            String::from("drain(handle=4096)"),
            String::from("drain(handle=4096)"),
            String::from("free(handle=4096)"),
        ]
    );
}

#[test]
fn empty_float_write_scenario() {
    let mut fake = Fake::new();
    let stream: Simple<FloatSample> = open_stream(
        &mut fake,
        "sine",
        StreamDirection::Playback,
        SampleSpec::new(48000, 1),
        Endianness::Little,
    )
    .unwrap();

    let samples: [FloatSample; 0] = [];
    let wcall = stream.write(&samples, Endianness::Little);
    assert_eq!(wcall.bytes.len(), 0);
    let werr = fake.write(&wcall);
    assert!(write_result(werr, fake.strerror(werr)).is_ok());

    fake.run_teardown(stream.close());

    assert_eq!(
        fake.log,
        vec![
            String::from(
                "open(server=None, client=None, dir=1, dev=None, name=[115, 105, 110, 101, 0], fmt=5, rate=48000, chans=1)"
            ),
            String::from("write(handle=4096, len=0)"),
            String::from("drain(handle=4096)"),
            String::from("free(handle=4096)"),
        ]
    );
}

#[test]
fn capture_open_scenario() {
    let mut fake = Fake::new();
    let call = Simple::<u8>::open_call(
        "rec",
        StreamDirection::Capture,
        SampleSpec::new(8000, 1),
        Endianness::Little,
    )
    .unwrap();
    assert_eq!(call.direction, 0);
    assert_eq!(call.sample_spec.format, 0);
    assert_eq!(call.sample_spec.rate, 8000);
    assert_eq!(call.sample_spec.channels, 1);
    assert_eq!(call.stream_name, vec![114, 101, 99, 0]);
    assert!(call.server.is_none());
    assert!(call.client_name.is_none());
    assert!(call.device.is_none());
    let (handle, err) = fake.open(&call);
    assert_eq!((handle, err), (0x1000, 0));
}

#[test]
fn interior_nul_name_rejected_before_any_foreign_call() {
    let fake = Fake::new();
    let r = Simple::<i16>::open_call(
        "bad\0name",
        StreamDirection::Playback,
        SampleSpec::new(44100, 2),
        Endianness::Little,
    );
    assert_eq!(r, Err(Error::InputInvalid));
    assert!(fake.log.is_empty());
}

#[test]
fn open_failure_translates_message_and_frees_nothing() {
    let mut fake = Fake::new();
    fake.open_err = -1;
    fake.open_handle = 0;
    let r: Result<Simple<i16>, Error> = open_stream(
        &mut fake,
        "tone",
        StreamDirection::Playback,
        SampleSpec::new(44100, 2),
        Endianness::Little,
    );
    match r {
        Err(Error::OpenFailed(message)) => assert_eq!(message, "translated error -1"),
        _ => panic!("expected an open failure"),
    }
    assert_eq!(fake.log.len(), 1);
    assert!(fake.log[0].starts_with("open("));
}

#[test]
fn null_handle_with_zero_code_is_open_failure() {
    let r: Result<Simple<u8>, Error> =
        Simple::<u8>::new(0, 0, String::from("the library returned no stream"));
    match r {
        Err(Error::OpenFailed(message)) => {
            assert_eq!(message, "the library returned no stream")
        },
        _ => panic!("a null handle must not be adopted"),
    }
}

#[test]
fn drain_is_not_terminal() {
    let mut fake = Fake::new();
    let stream: Simple<u8> = open_stream(
        &mut fake,
        "loop",
        StreamDirection::Playback,
        SampleSpec::new(8000, 1),
        Endianness::Little,
    )
    .unwrap();

    let first = stream.write(&[1u8, 2, 3], Endianness::Little);
    fake.write(&first);
    let derr = fake.drain(stream.drain());
    assert!(drain_result(derr, fake.strerror(derr)).is_ok());
    let second = stream.write(&[4u8], Endianness::Little);
    let werr = fake.write(&second);
    assert!(write_result(werr, fake.strerror(werr)).is_ok());
    fake.run_teardown(stream.close());

    assert_eq!(fake.log.len(), 6);
    assert!(fake.log[1].starts_with("write("));
    assert!(fake.log[2].starts_with("drain("));
    assert!(fake.log[3].starts_with("write("));
    assert!(fake.log[4].starts_with("drain("));
    assert!(fake.log[5].starts_with("free("));
}

#[test]
fn teardown_is_exactly_drain_then_free() {
    let mut fake = Fake::new();
    let stream: Simple<i32> = open_stream(
        &mut fake,
        "end",
        StreamDirection::Playback,
        SampleSpec::new(44100, 2),
        Endianness::Little,
    )
    .unwrap();
    let steps = stream.close();
    assert_eq!(steps, vec![TeardownStep::Drain(0x1000), TeardownStep::Free(0x1000)]);
}

#[test]
fn teardown_runs_even_after_a_failed_write() {
    let mut fake = Fake::new();
    fake.write_err = -5;
    let stream: Simple<u8> = open_stream(
        &mut fake,
        "bad",
        StreamDirection::Playback,
        SampleSpec::new(8000, 1),
        Endianness::Little,
    )
    .unwrap();
    let wcall = stream.write(&[9u8], Endianness::Little);
    let werr = fake.write(&wcall);
    let r = write_result(werr, fake.strerror(werr));
    assert_eq!(r, Err(Error::WriteFailed(String::from("translated error -5"))));
    fake.run_teardown(stream.close());
    assert!(fake.log[2].starts_with("drain("));
    assert!(fake.log[3].starts_with("free("));
}

#[test]
fn nonzero_codes_translate_to_carried_messages() {
    let fake = Fake::new();
    assert_eq!(
        write_result(-2, fake.strerror(-2)),
        Err(Error::WriteFailed(String::from("translated error -2")))
    );
    assert_eq!(
        drain_result(-7, fake.strerror(-7)),
        Err(Error::DrainFailed(String::from("translated error -7")))
    );
    assert!(write_result(0, String::new()).is_ok());
    assert!(drain_result(0, String::new()).is_ok());
}

#[test]
fn write_single_marshals_one_sample() {
    let mut fake = Fake::new();
    let stream: Simple<i16> = open_stream(
        &mut fake,
        "one",
        StreamDirection::Playback,
        SampleSpec::new(44100, 1),
        Endianness::Little,
    )
    .unwrap();
    let wcall = stream.write_single(-16384, Endianness::Little);
    assert_eq!(wcall.bytes, vec![0x00, 0xc0]);
    assert_eq!(wcall.handle, 0x1000);
    fake.run_teardown(stream.close());
}

#[test]
fn zero_rate_and_zero_channels_are_not_rejected_locally() {
    let call = Simple::<u8>::open_call(
        "silent",
        StreamDirection::Playback,
        SampleSpec::new(0, 0),
        Endianness::Little,
    )
    .unwrap();
    assert_eq!(call.sample_spec.rate, 0);
    assert_eq!(call.sample_spec.channels, 0);
}

#[test]
fn big_endian_host_selects_big_endian_tags() {
    let call = Simple::<i16>::open_call(
        "tone",
        StreamDirection::Playback,
        SampleSpec::new(44100, 2),
        Endianness::Big,
    )
    .unwrap();
    assert_eq!(call.sample_spec.format, 4);
    assert_ne!(call.sample_spec.format, 3);

    let fcall = Simple::<FloatSample>::open_call(
        "tone",
        StreamDirection::Playback,
        SampleSpec::new(44100, 2),
        Endianness::Big,
    )
    .unwrap();
    assert_eq!(fcall.sample_spec.format, 6);
}
