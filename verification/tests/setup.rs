use wavy::{
    AudioError, Fault, PollDescriptor, Reply, Request, SampleRate, Setup, SetupStep, SndPcmMode,
    SndPcmStream,
};

fn expect_continue(s: &mut Setup, want: Request, reply: Reply) {
    assert_eq!(s.request(), want);
    match s.step(reply) {
        SetupStep::Continue => {}
        other => panic!("expected to continue, got {:?}", other),
    }
}

/// Runs an opening through the hardware configuration up to the rate.
fn through_channels(stream: SndPcmStream) -> Setup {
    let mut s = Setup::new(stream, SampleRate::Normal);
    expect_continue(&mut s, Request::LoadModule(stream), Reply::Loaded(true));
    expect_continue(&mut s, Request::LoadDevice, Reply::Loaded(true));
    expect_continue(
        &mut s,
        Request::Open("default", stream, SndPcmMode::Nonblock),
        Reply::Status(Ok(())),
    );
    expect_continue(&mut s, Request::HwParamsMalloc, Reply::Status(Ok(())));
    expect_continue(&mut s, Request::HwParamsAny, Reply::Status(Ok(())));
    expect_continue(&mut s, Request::HwParamsSetRateResample(1), Reply::Status(Ok(())));
    expect_continue(&mut s, Request::HwParamsSetAccessRwInterleaved, Reply::Status(Ok(())));
    expect_continue(&mut s, Request::HwParamsSetFormatS16Le, Reply::Status(Ok(())));
    expect_continue(&mut s, Request::HwParamsSetChannels(2), Reply::Status(Ok(())));
    s
}

fn internal_text(out: SetupStep) -> String {
    match out {
        SetupStep::Failed(AudioError::InternalError(m)) => m,
        other => panic!("expected an internal error, got {:?}", other),
    }
}

#[test]
fn sample_rate_normal_is_48k() {
    assert_eq!(SampleRate::Normal.hz(), 48_000);
}

#[test]
fn playback_opening_runs_the_whole_protocol() {
    let mut s = through_channels(SndPcmStream::Playback);
    expect_continue(&mut s, Request::HwParamsSetRateNear(48_000), Reply::Rate(Ok(48_000)));
    expect_continue(&mut s, Request::HwParamsSetPeriodSizeNear(1024), Reply::Frames(Ok(1024)));
    expect_continue(&mut s, Request::HwParamsSetBufferSizeNear(4096), Reply::Frames(Ok(4096)));
    expect_continue(&mut s, Request::HwParamsApply, Reply::Status(Ok(())));
    expect_continue(&mut s, Request::HwParamsGetPeriodSize, Reply::Frames(Ok(1024)));
    expect_continue(&mut s, Request::HwParamsFree, Reply::Done);
    expect_continue(&mut s, Request::PollDescriptorsCount, Reply::Count(Ok(1)));
    assert_eq!(s.request(), Request::PollDescriptors(1));
    let d = PollDescriptor { fd: 7, events: 4 };
    match s.step(Reply::Descriptors(Ok(vec![d]))) {
        SetupStep::Ready(pcm) => {
            assert_eq!(pcm.stream(), SndPcmStream::Playback);
            assert_eq!(pcm.sample_rate(), SampleRate::Normal);
            assert_eq!(pcm.period_size(), 1024);
            assert_eq!(pcm.poll_fd(), 7);
            assert_eq!(pcm.watch_bits(), 4);
        }
        other => panic!("expected a PCM, got {:?}", other),
    }
    assert!(s.is_finished());
}

#[test]
fn capture_opening_skips_the_buffer_size() {
    let mut s = through_channels(SndPcmStream::Capture);
    expect_continue(&mut s, Request::HwParamsSetRateNear(48_000), Reply::Rate(Ok(48_000)));
    expect_continue(&mut s, Request::HwParamsSetPeriodSizeNear(1024), Reply::Frames(Ok(1024)));
    expect_continue(&mut s, Request::HwParamsApply, Reply::Status(Ok(())));
    expect_continue(&mut s, Request::HwParamsGetPeriodSize, Reply::Frames(Ok(940)));
    expect_continue(&mut s, Request::HwParamsFree, Reply::Done);
    expect_continue(&mut s, Request::PollDescriptorsCount, Reply::Count(Ok(1)));
    let d = PollDescriptor { fd: 3, events: -1 };
    match s.step(Reply::Descriptors(Ok(vec![d]))) {
        SetupStep::Ready(pcm) => {
            assert_eq!(pcm.stream(), SndPcmStream::Capture);
            assert_eq!(pcm.period_size(), 940);
            assert_eq!(pcm.watch_bits(), u32::MAX);
        }
        other => panic!("expected a PCM, got {:?}", other),
    }
}

#[test]
fn missing_modules_fail_with_their_names() {
    let mut s = Setup::new(SndPcmStream::Playback, SampleRate::Normal);
    assert_eq!(
        internal_text(s.step(Reply::Loaded(false))),
        "Could not load AlsaPlayer module in shared object!"
    );
    assert!(s.is_finished());
    let mut s = Setup::new(SndPcmStream::Capture, SampleRate::Normal);
    assert_eq!(
        internal_text(s.step(Reply::Loaded(false))),
        "Could not load AlsaRecorder module in shared object!"
    );
    let mut s = Setup::new(SndPcmStream::Capture, SampleRate::Normal);
    expect_continue(&mut s, Request::LoadModule(SndPcmStream::Capture), Reply::Loaded(true));
    assert_eq!(
        internal_text(s.step(Reply::Loaded(false))),
        "Could not load AlsaDevice module in shared object!"
    );
}

#[test]
fn refused_open_means_no_device() {
    let mut s = Setup::new(SndPcmStream::Playback, SampleRate::Normal);
    expect_continue(&mut s, Request::LoadModule(SndPcmStream::Playback), Reply::Loaded(true));
    expect_continue(&mut s, Request::LoadDevice, Reply::Loaded(true));
    assert_eq!(s.request(), Request::Open("default", SndPcmStream::Playback, SndPcmMode::Nonblock));
    assert!(matches!(s.step(Reply::Status(Err(-2))), SetupStep::Failed(AudioError::NoDevice)));
    assert!(s.is_finished());
}

#[test]
fn refused_hardware_calls_name_the_parameter() {
    let texts = [
        "Cannot allocate hardware parameter structure!",
        "Cannot initialize hardware parameter structure: -22!",
        "Resampling setup failed for playback!",
        "Cannot set access type!",
        "Cannot set sample format!",
        "Cannot set channel count!",
    ];
    for (k, want) in texts.iter().enumerate() {
        let mut s = Setup::new(SndPcmStream::Playback, SampleRate::Normal);
        s.step(Reply::Loaded(true));
        s.step(Reply::Loaded(true));
        s.step(Reply::Status(Ok(())));
        for _ in 0..k {
            assert!(matches!(s.step(Reply::Status(Ok(()))), SetupStep::Continue));
        }
        assert_eq!(internal_text(s.step(Reply::Status(Err(-22)))), *want);
    }
}

#[test]
fn rate_must_be_granted_exactly() {
    let mut s = through_channels(SndPcmStream::Playback);
    assert_eq!(
        internal_text(s.step(Reply::Rate(Ok(44_100)))),
        "Failed to set rate: 48000, Got: 44100 instead!"
    );
    let mut s = through_channels(SndPcmStream::Playback);
    assert_eq!(internal_text(s.step(Reply::Rate(Err(-5)))), "Cannot set sample rate!");
}

#[test]
fn period_must_be_granted_exactly() {
    let mut s = through_channels(SndPcmStream::Capture);
    s.step(Reply::Rate(Ok(48_000)));
    assert_eq!(
        internal_text(s.step(Reply::Frames(Ok(512)))),
        "Wavy: Tried to set period size: 1024, Got: 512!"
    );
    let mut s = through_channels(SndPcmStream::Capture);
    s.step(Reply::Rate(Ok(48_000)));
    assert!(matches!(
        s.step(Reply::Frames(Err(-9))),
        SetupStep::Abort(Fault::CallFailed(-9))
    ));
    assert!(s.is_finished());
}

#[test]
fn other_buffer_size_only_warns() {
    let mut s = through_channels(SndPcmStream::Playback);
    s.step(Reply::Rate(Ok(48_000)));
    s.step(Reply::Frames(Ok(1024)));
    match s.step(Reply::Frames(Ok(8192))) {
        SetupStep::Warn(w) => assert_eq!(w, "Wavy: Tried to set buffer size: 4096, Got: 8192!"),
        other => panic!("expected a warning, got {:?}", other),
    }
    assert_eq!(s.request(), Request::HwParamsApply);
    assert_eq!(internal_text(s.step(Reply::Status(Err(-1)))), "Failed to set parameters!");
}

#[test]
fn unreadable_period_fails() {
    let mut s = through_channels(SndPcmStream::Capture);
    s.step(Reply::Rate(Ok(48_000)));
    s.step(Reply::Frames(Ok(1024)));
    s.step(Reply::Status(Ok(())));
    assert_eq!(internal_text(s.step(Reply::Frames(Err(-3)))), "Get Period Size");
}

fn at_poll_count() -> Setup {
    let mut s = through_channels(SndPcmStream::Capture);
    s.step(Reply::Rate(Ok(48_000)));
    s.step(Reply::Frames(Ok(1024)));
    s.step(Reply::Status(Ok(())));
    s.step(Reply::Frames(Ok(1024)));
    s.step(Reply::Done);
    s
}

#[test]
fn poll_descriptor_faults() {
    let mut s = at_poll_count();
    assert!(matches!(s.step(Reply::Count(Err(-4))), SetupStep::Abort(Fault::CallFailed(-4))));
    let mut s = at_poll_count();
    assert!(matches!(s.step(Reply::Count(Ok(-1))), SetupStep::Abort(Fault::NegativeCount(-1))));
    let mut s = at_poll_count();
    s.step(Reply::Count(Ok(2)));
    assert_eq!(s.request(), Request::PollDescriptors(2));
    let d = PollDescriptor { fd: 1, events: 1 };
    assert!(matches!(
        s.step(Reply::Descriptors(Ok(vec![d, d]))),
        SetupStep::Abort(Fault::DescriptorCount(2))
    ));
    let mut s = at_poll_count();
    s.step(Reply::Count(Ok(1)));
    assert!(matches!(s.step(Reply::Descriptors(Ok(vec![]))), SetupStep::Abort(Fault::NoDescriptor)));
    let mut s = at_poll_count();
    s.step(Reply::Count(Ok(1)));
    assert!(matches!(
        s.step(Reply::Descriptors(Err(-12))),
        SetupStep::Abort(Fault::CallFailed(-12))
    ));
}

#[test]
fn capture_hardware_requests_are_playback_ones_without_the_buffer() {
    let mut c = through_channels(SndPcmStream::Capture);
    let mut p = through_channels(SndPcmStream::Playback);
    for (reply_c, reply_p) in [
        (Reply::Rate(Ok(48_000)), Reply::Rate(Ok(48_000))),
        (Reply::Frames(Ok(1024)), Reply::Frames(Ok(1024))),
    ] {
        assert_eq!(c.request(), p.request());
        assert!(matches!(c.step(reply_c), SetupStep::Continue));
        assert!(matches!(p.step(reply_p), SetupStep::Continue));
    }
    assert_eq!(p.request(), Request::HwParamsSetBufferSizeNear(4096));
    assert!(matches!(p.step(Reply::Frames(Ok(4096))), SetupStep::Continue));
    assert_eq!(c.request(), Request::HwParamsApply);
    assert_eq!(p.request(), Request::HwParamsApply);
}
