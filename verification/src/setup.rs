use vstd::prelude::*;
use crate::error::{
    decimal, internal_error, is_internal_error, push_decimal, push_signed_decimal, signed_decimal,
    AudioError,
};

verus! {

/// Frames per period that the hardware is asked for.
pub const PERIOD_FRAMES: usize = 1024;

/// Frames of device buffer asked for on playback: four periods.
pub const BUFFER_FRAMES: usize = 4096;

/// Interleaved channels of every stream (stereo).
pub const CHANNELS: u32 = 2;

/// Sample rate of a stream.
#[derive(Clone, Copy, Debug, PartialEq, Eq, Structural)]
pub enum SampleRate {
    /// 48 kHz.
    Normal,
}

impl SampleRate {
    pub open spec fn spec_hz(self) -> u32 {
        match self {
            SampleRate::Normal => 48_000,
        }
    }

    /// Frames per second.
    pub fn hz(&self) -> (r: u32)
        ensures
            r == self.spec_hz(),
    {
        match self {
            SampleRate::Normal => 48_000,
        }
    }
}

/// Direction of a PCM stream.
#[derive(Clone, Copy, Debug, PartialEq, Eq, Structural)]
pub enum SndPcmStream {
    /// Frames go to the device (speakers).
    Playback,
    /// Frames come from the device (microphone).
    Capture,
}

/// How a PCM is opened.
#[derive(Clone, Copy, Debug, PartialEq, Eq, Structural)]
pub enum SndPcmMode {
    /// Transfers return at once with -EAGAIN instead of waiting for the
    /// device; the stream waits on its poll descriptor instead.
    Nonblock,
}

/// A poll descriptor that the device reports: a file descriptor and the
/// `poll` events to watch on it.
#[derive(Clone, Copy, Debug, PartialEq, Eq, Structural)]
pub struct PollDescriptor {
    pub fd: i32,
    pub events: i16,
}

/// An opened and configured PCM: its direction, the rate and period the
/// device granted, its period as installed and the descriptor whose
/// readiness wakes the stream.
#[derive(Clone, Copy, Debug, PartialEq, Eq, Structural)]
pub struct Pcm {
    stream: SndPcmStream,
    sample_rate: SampleRate,
    granted_rate: u32,
    granted_period: usize,
    period_size: usize,
    poll_fd: i32,
    watch_bits: u32,
}

/// What a [`Pcm`] holds, for specifications.
pub struct PcmView {
    /// Direction the PCM was opened in.
    pub stream: SndPcmStream,
    /// Rate that was asked for.
    pub sample_rate: SampleRate,
    /// Rate the device set when asked for `sample_rate`.
    pub granted_rate: u32,
    /// Period the device set when asked for [`PERIOD_FRAMES`] frames.
    pub granted_period: usize,
    /// Period, in frames, read back from the installed parameters.
    pub period_size: usize,
    pub poll_fd: i32,
    pub watch_bits: u32,
}

impl PcmView {
    /// The device granted what was asked: the rate exactly, and a period of
    /// [`PERIOD_FRAMES`] frames.
    pub open spec fn wf(self) -> bool {
        &&& self.granted_rate == self.sample_rate.spec_hz()
        &&& self.granted_period == PERIOD_FRAMES
    }
}

impl View for Pcm {
    type V = PcmView;

    closed spec fn view(&self) -> PcmView {
        PcmView {
            stream: self.stream,
            sample_rate: self.sample_rate,
            granted_rate: self.granted_rate,
            granted_period: self.granted_period,
            period_size: self.period_size,
            poll_fd: self.poll_fd,
            watch_bits: self.watch_bits,
        }
    }
}

impl Pcm {
    /// Direction the PCM was opened in.
    pub fn stream(&self) -> (s: SndPcmStream)
        ensures
            s == self@.stream,
    {
        self.stream
    }

    /// Rate of the stream.
    pub fn sample_rate(&self) -> (r: SampleRate)
        ensures
            r == self@.sample_rate,
    {
        self.sample_rate
    }

    /// Frames in one period of the device.
    pub fn period_size(&self) -> (n: usize)
        ensures
            n == self@.period_size,
    {
        self.period_size
    }

    /// File descriptor to watch for the stream's readiness.
    pub fn poll_fd(&self) -> (fd: i32)
        ensures
            fd == self@.poll_fd,
    {
        self.poll_fd
    }

    /// The event bits to watch on [`Pcm::poll_fd`], as the event notifier
    /// takes them.
    pub fn watch_bits(&self) -> (bits: u32)
        ensures
            bits == self@.watch_bits,
    {
        self.watch_bits
    }
}

/// A device call that opening a PCM needs next.
#[derive(Clone, Copy, Debug, PartialEq, Eq)]
pub enum Request {
    /// Load the shared object module for playing (`Playback`) or recording
    /// (`Capture`).
    LoadModule(SndPcmStream),
    /// Load the shared object module for devices.
    LoadDevice,
    /// Open the PCM of the named device in the given direction and mode.
    Open(&'static str, SndPcmStream, SndPcmMode),
    /// Allocate a hardware parameter structure.
    HwParamsMalloc,
    /// Fill the hardware parameters with the full configuration space.
    HwParamsAny,
    /// Enable (1) or disable (0) resampling.
    HwParamsSetRateResample(u32),
    /// Set interleaved read/write access.
    HwParamsSetAccessRwInterleaved,
    /// Set signed 16-bit little-endian samples.
    HwParamsSetFormatS16Le,
    /// Set the channel count.
    HwParamsSetChannels(u32),
    /// Set the rate nearest to this one; the reply gives the rate set.
    HwParamsSetRateNear(u32),
    /// Set the period nearest to this many frames; the reply gives the
    /// period set.
    HwParamsSetPeriodSizeNear(usize),
    /// Set the buffer nearest to this many frames; the reply gives the
    /// buffer set.
    HwParamsSetBufferSizeNear(usize),
    /// Install the hardware parameters on the PCM.
    HwParamsApply,
    /// Read the period size, in frames, of the installed parameters.
    HwParamsGetPeriodSize,
    /// Free the hardware parameter structure.
    HwParamsFree,
    /// Count the PCM's poll descriptors.
    PollDescriptorsCount,
    /// Read up to this many poll descriptors of the PCM.
    PollDescriptors(usize),
}

/// What a device call reported.
#[derive(Debug)]
pub enum Reply {
    /// Whether a module loaded.
    Loaded(bool),
    /// Success, or the (negative) error code.
    Status(Result<(), i64>),
    /// The rate that was set, or the error code.
    Rate(Result<u32, i64>),
    /// A frame count that was set or read, or the error code.
    Frames(Result<usize, i64>),
    /// A descriptor count, or the error code.
    Count(Result<i32, i64>),
    /// The descriptors read, or the error code.
    Descriptors(Result<Vec<PollDescriptor>, i64>),
    /// The call returned nothing.
    Done,
}

/// A condition on which the stream cannot go on and the process stops.
#[derive(Clone, Copy, Debug, PartialEq, Eq, Structural)]
pub enum Fault {
    /// A device call that must not fail failed with this code.
    CallFailed(i64),
    /// The device reported a negative count of poll descriptors.
    NegativeCount(i32),
    /// The device has this many poll descriptors where one is supported.
    DescriptorCount(i32),
    /// The device reported one poll descriptor but handed none over.
    NoDescriptor,
    /// The PCM is in a state that does not allow the transfer (-EBADFD).
    BadState,
    /// The device buffer ran over or under (-EPIPE).
    Xrun,
    /// The stream was suspended (-ESTRPIPE).
    Suspended,
    /// The transfer failed with a code that is not expected.
    Unexpected(i64),
    /// The device took (first) a different number of frames than the
    /// period held (second).
    ShortWrite(usize, usize),
}

/// Where the opening of a PCM stands.
#[derive(Clone, Copy, Debug, PartialEq, Eq, Structural)]
pub enum Stage {
    LoadModule,
    LoadDevice,
    Open,
    HwMalloc,
    HwAny,
    HwResample,
    HwAccess,
    HwFormat,
    HwChannels,
    HwRate,
    HwPeriod,
    HwBuffer,
    HwApply,
    GetPeriod,
    FreeHw,
    PollCount,
    PollDescriptors,
    Finished,
}

/// How far along the opening a stage is.
pub open spec fn rank(stage: Stage) -> nat {
    match stage {
        Stage::LoadModule => 0,
        Stage::LoadDevice => 1,
        Stage::Open => 2,
        Stage::HwMalloc => 3,
        Stage::HwAny => 4,
        Stage::HwResample => 5,
        Stage::HwAccess => 6,
        Stage::HwFormat => 7,
        Stage::HwChannels => 8,
        Stage::HwRate => 9,
        Stage::HwPeriod => 10,
        Stage::HwBuffer => 11,
        Stage::HwApply => 12,
        Stage::GetPeriod => 13,
        Stage::FreeHw => 14,
        Stage::PollCount => 15,
        Stage::PollDescriptors => 16,
        Stage::Finished => 17,
    }
}

/// What the opening decided after a reply.
#[derive(Debug)]
pub enum SetupStep {
    /// Go on with the next request.
    Continue,
    /// Print this warning, then go on with the next request.
    Warn(String),
    /// Opening failed with this error.
    Failed(AudioError),
    /// Opening cannot go on; the process stops.
    Abort(Fault),
    /// The PCM is open and configured.
    Ready(Pcm),
}

/// The opening of a PCM, one device call at a time.
pub struct Setup {
    stream: SndPcmStream,
    sample_rate: SampleRate,
    rate: u32,
    stage: Stage,
    granted_rate: u32,
    granted_period: usize,
    period_size: usize,
    descriptor_count: i32,
}

/// What a [`Setup`] holds, for specifications.
pub struct SetupView {
    pub stream: SndPcmStream,
    pub sample_rate: SampleRate,
    pub rate: u32,
    pub stage: Stage,
    pub granted_rate: u32,
    pub granted_period: usize,
    pub period_size: usize,
    pub descriptor_count: i32,
}

impl View for Setup {
    type V = SetupView;

    closed spec fn view(&self) -> SetupView {
        SetupView {
            stream: self.stream,
            sample_rate: self.sample_rate,
            rate: self.rate,
            stage: self.stage,
            granted_rate: self.granted_rate,
            granted_period: self.granted_period,
            period_size: self.period_size,
            descriptor_count: self.descriptor_count,
        }
    }
}

/// The stage after a successful `stage`; the buffer size is negotiated on
/// playback only.
pub open spec fn next_stage(stage: Stage, stream: SndPcmStream) -> Stage {
    match stage {
        Stage::LoadModule => Stage::LoadDevice,
        Stage::LoadDevice => Stage::Open,
        Stage::Open => Stage::HwMalloc,
        Stage::HwMalloc => Stage::HwAny,
        Stage::HwAny => Stage::HwResample,
        Stage::HwResample => Stage::HwAccess,
        Stage::HwAccess => Stage::HwFormat,
        Stage::HwFormat => Stage::HwChannels,
        Stage::HwChannels => Stage::HwRate,
        Stage::HwRate => Stage::HwPeriod,
        Stage::HwPeriod => if stream == SndPcmStream::Playback {
            Stage::HwBuffer
        } else {
            Stage::HwApply
        },
        Stage::HwBuffer => Stage::HwApply,
        Stage::HwApply => Stage::GetPeriod,
        Stage::GetPeriod => Stage::FreeHw,
        Stage::FreeHw => Stage::PollCount,
        Stage::PollCount => Stage::PollDescriptors,
        _ => Stage::Finished,
    }
}

/// The kind of reply that answers the request of `stage`.
pub open spec fn reply_fits(stage: Stage, reply: Reply) -> bool {
    match stage {
        Stage::LoadModule | Stage::LoadDevice => reply is Loaded,
        Stage::HwRate => reply is Rate,
        Stage::HwPeriod | Stage::HwBuffer | Stage::GetPeriod => reply is Frames,
        Stage::FreeHw => reply is Done,
        Stage::PollCount => reply is Count,
        Stage::PollDescriptors => reply is Descriptors,
        Stage::Finished => false,
        _ => reply is Status,
    }
}

/// The text of the error for a refused hardware parameter call at `stage`
/// (with error code `code`).
pub open spec fn hw_refusal_text(stage: Stage, code: i64) -> Seq<char> {
    match stage {
        Stage::HwMalloc => "Cannot allocate hardware parameter structure!"@,
        Stage::HwAny => "Cannot initialize hardware parameter structure: "@ + signed_decimal(
            code as int,
        ) + "!"@,
        Stage::HwResample => "Resampling setup failed for playback!"@,
        Stage::HwAccess => "Cannot set access type!"@,
        Stage::HwFormat => "Cannot set sample format!"@,
        Stage::HwChannels => "Cannot set channel count!"@,
        _ => "Failed to set parameters!"@,
    }
}

/// The text of the error for a device that set rate `got` where `want` was
/// asked for.
pub open spec fn rate_mismatch_text(want: u32, got: u32) -> Seq<char> {
    "Failed to set rate: "@ + decimal(want as nat) + ", Got: "@ + decimal(got as nat)
        + " instead!"@
}

/// The text of the error for a device that set a period of `got` frames.
pub open spec fn period_mismatch_text(got: usize) -> Seq<char> {
    "Wavy: Tried to set period size: "@ + decimal(PERIOD_FRAMES as nat) + ", Got: "@ + decimal(
        got as nat,
    ) + "!"@
}

/// The text of the warning for a device that set a buffer of `got` frames.
pub open spec fn buffer_mismatch_text(got: usize) -> Seq<char> {
    "Wavy: Tried to set buffer size: "@ + decimal(BUFFER_FRAMES as nat) + ", Got: "@ + decimal(
        got as nat,
    ) + "!"@
}

/// The text of the error for a module that did not load.
pub open spec fn module_missing_text(stage: Stage, stream: SndPcmStream) -> Seq<char> {
    if stage == Stage::LoadDevice {
        "Could not load AlsaDevice module in shared object!"@
    } else if stream == SndPcmStream::Playback {
        "Could not load AlsaPlayer module in shared object!"@
    } else {
        "Could not load AlsaRecorder module in shared object!"@
    }
}

/// `out` is a failure with an internal error whose text is `msg`.
pub open spec fn fails_with(out: SetupStep, msg: Seq<char>) -> bool {
    out matches SetupStep::Failed(e) && is_internal_error(e, msg)
}

/// `out` is a warning whose text is `msg`.
pub open spec fn warns_with(out: SetupStep, msg: Seq<char>) -> bool {
    out matches SetupStep::Warn(w) && w@ == msg
}

/// `out` hands over the PCM that the opening `s` configured, woken through
/// descriptor `d`.
pub open spec fn ready_with(out: SetupStep, s: SetupView, d: PollDescriptor) -> bool {
    out matches SetupStep::Ready(pcm) && pcm@ == (PcmView {
        stream: s.stream,
        sample_rate: s.sample_rate,
        granted_rate: s.granted_rate,
        granted_period: s.granted_period,
        period_size: s.period_size,
        poll_fd: d.fd,
        watch_bits: d.events as u32,
    })
}

impl SetupView {
    /// What the opening has been granted so far agrees with what it asked.
    pub open spec fn wf(self) -> bool {
        &&& self.rate == self.sample_rate.spec_hz()
        &&& rank(self.stage) > rank(Stage::HwRate) && self.stage != Stage::Finished
            ==> self.granted_rate == self.rate
        &&& rank(self.stage) > rank(Stage::HwPeriod) && self.stage != Stage::Finished
            ==> self.granted_period == PERIOD_FRAMES
        &&& self.stage == Stage::HwBuffer ==> self.stream == SndPcmStream::Playback
        &&& self.stage == Stage::PollDescriptors ==> self.descriptor_count >= 0
    }

    /// The device call that `stage` needs.
    pub open spec fn request(self) -> Request {
        match self.stage {
            Stage::LoadModule => Request::LoadModule(self.stream),
            Stage::LoadDevice => Request::LoadDevice,
            Stage::Open => Request::Open("default", self.stream, SndPcmMode::Nonblock),
            Stage::HwMalloc => Request::HwParamsMalloc,
            Stage::HwAny => Request::HwParamsAny,
            Stage::HwResample => Request::HwParamsSetRateResample(1),
            Stage::HwAccess => Request::HwParamsSetAccessRwInterleaved,
            Stage::HwFormat => Request::HwParamsSetFormatS16Le,
            Stage::HwChannels => Request::HwParamsSetChannels(CHANNELS),
            Stage::HwRate => Request::HwParamsSetRateNear(self.rate),
            Stage::HwPeriod => Request::HwParamsSetPeriodSizeNear(PERIOD_FRAMES),
            Stage::HwBuffer => Request::HwParamsSetBufferSizeNear(BUFFER_FRAMES),
            Stage::HwApply => Request::HwParamsApply,
            Stage::GetPeriod => Request::HwParamsGetPeriodSize,
            Stage::FreeHw => Request::HwParamsFree,
            Stage::PollCount => Request::PollDescriptorsCount,
            _ => Request::PollDescriptors(self.descriptor_count as usize),
        }
    }

    /// `next` is this opening moved on to `stage`, with nothing else
    /// changed but `granted_rate`, `granted_period`, `period_size` and
    /// `descriptor_count` as given.
    pub open spec fn moved(
        self,
        next: SetupView,
        stage: Stage,
        granted_rate: u32,
        granted_period: usize,
        period_size: usize,
        descriptor_count: i32,
    ) -> bool {
        &&& next.stream == self.stream
        &&& next.sample_rate == self.sample_rate
        &&& next.rate == self.rate
        &&& next.stage == stage
        &&& next.granted_rate == granted_rate
        &&& next.granted_period == granted_period
        &&& next.period_size == period_size
        &&& next.descriptor_count == descriptor_count
    }

    /// `next` is this opening moved on to `stage` with nothing else changed.
    pub open spec fn advanced(self, next: SetupView, stage: Stage) -> bool {
        self.moved(
            next,
            stage,
            self.granted_rate,
            self.granted_period,
            self.period_size,
            self.descriptor_count,
        )
    }

    /// `next` is this opening, ended.
    pub open spec fn ended(self, next: SetupView) -> bool {
        self.advanced(next, Stage::Finished)
    }

    /// What the reply `reply` to this opening's request leads to: the
    /// opening `next` and the decision `out`.
    pub open spec fn step_spec(self, reply: Reply, next: SetupView, out: SetupStep) -> bool {
        let succeeded = self.advanced(next, next_stage(self.stage, self.stream)) && out
            is Continue;
        match self.stage {
            Stage::LoadModule | Stage::LoadDevice => match reply {
                Reply::Loaded(true) => succeeded,
                _ => self.ended(next) && fails_with(out, module_missing_text(self.stage, self.stream),
                ),
            },
            Stage::Open => match reply {
                Reply::Status(Ok(())) => succeeded,
                _ => self.ended(next) && (out matches SetupStep::Failed(e) && e is NoDevice),
            },
            Stage::HwRate => match reply {
                Reply::Rate(Ok(got)) => if got == self.rate {
                    self.moved(
                        next,
                        Stage::HwPeriod,
                        got,
                        self.granted_period,
                        self.period_size,
                        self.descriptor_count,
                    ) && out is Continue
                } else {
                    self.ended(next) && fails_with(out, rate_mismatch_text(self.rate, got),
                    )
                },
                _ => self.ended(next) && fails_with(out, "Cannot set sample rate!"@),
            },
            Stage::HwPeriod => match reply {
                Reply::Frames(Ok(got)) => if got == PERIOD_FRAMES {
                    self.moved(
                        next,
                        next_stage(Stage::HwPeriod, self.stream),
                        self.granted_rate,
                        got,
                        self.period_size,
                        self.descriptor_count,
                    ) && out is Continue
                } else {
                    self.ended(next) && fails_with(out, period_mismatch_text(got),
                    )
                },
                Reply::Frames(Err(code)) => self.ended(next) && out == SetupStep::Abort(
                    Fault::CallFailed(code),
                ),
                _ => false,
            },
            Stage::HwBuffer => match reply {
                Reply::Frames(Ok(got)) => self.advanced(next, Stage::HwApply) && if got
                    == BUFFER_FRAMES {
                    out is Continue
                } else {
                    warns_with(out, buffer_mismatch_text(got))
                },
                Reply::Frames(Err(code)) => self.ended(next) && out == SetupStep::Abort(
                    Fault::CallFailed(code),
                ),
                _ => false,
            },
            Stage::GetPeriod => match reply {
                Reply::Frames(Ok(got)) => self.moved(
                    next,
                    Stage::FreeHw,
                    self.granted_rate,
                    self.granted_period,
                    got,
                    self.descriptor_count,
                ) && out is Continue,
                _ => self.ended(next) && fails_with(out, "Get Period Size"@),
            },
            Stage::FreeHw => succeeded,
            Stage::PollCount => match reply {
                Reply::Count(Ok(count)) => if count >= 0 {
                    self.moved(
                        next,
                        Stage::PollDescriptors,
                        self.granted_rate,
                        self.granted_period,
                        self.period_size,
                        count,
                    ) && out is Continue
                } else {
                    self.ended(next) && out == SetupStep::Abort(Fault::NegativeCount(count))
                },
                Reply::Count(Err(code)) => self.ended(next) && out == SetupStep::Abort(
                    Fault::CallFailed(code),
                ),
                _ => false,
            },
            Stage::PollDescriptors => match reply {
                Reply::Descriptors(Ok(list)) => self.ended(next) && if self.descriptor_count != 1 {
                    out == SetupStep::Abort(Fault::DescriptorCount(self.descriptor_count))
                } else if list@.len() == 0 {
                    out == SetupStep::Abort(Fault::NoDescriptor)
                } else {
                    ready_with(out, self, list@[0])
                },
                Reply::Descriptors(Err(code)) => self.ended(next) && out == SetupStep::Abort(
                    Fault::CallFailed(code),
                ),
                _ => false,
            },
            Stage::Finished => false,
            _ => match reply {
                Reply::Status(Ok(())) => succeeded,
                Reply::Status(Err(code)) => self.ended(next) && fails_with(out, hw_refusal_text(self.stage, code)),
                _ => false,
            },
        }
    }
}

/// `prefix`, then the decimal digits of `n`, then `suffix`.
fn text_with_number(prefix: &str, n: u64, suffix: &str) -> (s: String)
    ensures
        s@ == prefix@ + decimal(n as nat) + suffix@,
{
    let mut s = String::from_str(prefix);
    push_decimal(&mut s, n);
    s.append(suffix);
    s
}

impl Setup {
    /// Starts opening the default PCM in direction `stream` at `rate`.
    pub fn new(stream: SndPcmStream, rate: SampleRate) -> (s: Setup)
        ensures
            s@.stream == stream,
            s@.sample_rate == rate,
            s@.rate == rate.spec_hz(),
            s@.stage == Stage::LoadModule,
            s@.wf(),
    {
        Setup {
            stream,
            sample_rate: rate,
            rate: rate.hz(),
            stage: Stage::LoadModule,
            granted_rate: 0,
            granted_period: 0,
            period_size: 0,
            descriptor_count: 0,
        }
    }

    /// Whether the opening has ended (failed, stopped or handed over its
    /// PCM).
    pub fn is_finished(&self) -> (b: bool)
        ensures
            b == (self@.stage == Stage::Finished),
    {
        self.stage == Stage::Finished
    }

    /// The device call to make next.  The PCM that is opened is always
    /// that of the `default` device, non-blocking.
    pub fn request(&self) -> (r: Request)
        requires
            self@.stage != Stage::Finished,
            self@.wf(),
        ensures
            r == self@.request(),
            self@.stage == Stage::Open ==> (r matches Request::Open(name, stream, mode) && name@
                == "default"@ && stream == self@.stream && mode == SndPcmMode::Nonblock),
    {
        proof {
            reveal_strlit("default");
        }
        match self.stage {
            Stage::LoadModule => Request::LoadModule(self.stream),
            Stage::LoadDevice => Request::LoadDevice,
            Stage::Open => Request::Open("default", self.stream, SndPcmMode::Nonblock),
            Stage::HwMalloc => Request::HwParamsMalloc,
            Stage::HwAny => Request::HwParamsAny,
            Stage::HwResample => Request::HwParamsSetRateResample(1),
            Stage::HwAccess => Request::HwParamsSetAccessRwInterleaved,
            Stage::HwFormat => Request::HwParamsSetFormatS16Le,
            Stage::HwChannels => Request::HwParamsSetChannels(CHANNELS),
            Stage::HwRate => Request::HwParamsSetRateNear(self.rate),
            Stage::HwPeriod => Request::HwParamsSetPeriodSizeNear(PERIOD_FRAMES),
            Stage::HwBuffer => Request::HwParamsSetBufferSizeNear(BUFFER_FRAMES),
            Stage::HwApply => Request::HwParamsApply,
            Stage::GetPeriod => Request::HwParamsGetPeriodSize,
            Stage::FreeHw => Request::HwParamsFree,
            Stage::PollCount => Request::PollDescriptorsCount,
            _ => Request::PollDescriptors(self.descriptor_count as usize),
        }
    }

    fn next_stage(&self) -> (st: Stage)
        requires
            self@.stage != Stage::Finished,
        ensures
            st == next_stage(self@.stage, self@.stream),
    {
        match self.stage {
            Stage::LoadModule => Stage::LoadDevice,
            Stage::LoadDevice => Stage::Open,
            Stage::Open => Stage::HwMalloc,
            Stage::HwMalloc => Stage::HwAny,
            Stage::HwAny => Stage::HwResample,
            Stage::HwResample => Stage::HwAccess,
            Stage::HwAccess => Stage::HwFormat,
            Stage::HwFormat => Stage::HwChannels,
            Stage::HwChannels => Stage::HwRate,
            Stage::HwRate => Stage::HwPeriod,
            Stage::HwPeriod => if self.stream == SndPcmStream::Playback {
                Stage::HwBuffer
            } else {
                Stage::HwApply
            },
            Stage::HwBuffer => Stage::HwApply,
            Stage::HwApply => Stage::GetPeriod,
            Stage::GetPeriod => Stage::FreeHw,
            Stage::FreeHw => Stage::PollCount,
            Stage::PollCount => Stage::PollDescriptors,
            _ => Stage::Finished,
        }
    }

    fn refusal(&self, code: i64) -> (e: AudioError)
        ensures
            is_internal_error(e, hw_refusal_text(self@.stage, code)),
    {
        match self.stage {
            Stage::HwMalloc => internal_error("Cannot allocate hardware parameter structure!"),
            Stage::HwAny => {
                let mut s = String::from_str("Cannot initialize hardware parameter structure: ");
                push_signed_decimal(&mut s, code);
                s.append("!");
                AudioError::InternalError(s)
            },
            Stage::HwResample => internal_error("Resampling setup failed for playback!"),
            Stage::HwAccess => internal_error("Cannot set access type!"),
            Stage::HwFormat => internal_error("Cannot set sample format!"),
            Stage::HwChannels => internal_error("Cannot set channel count!"),
            _ => internal_error("Failed to set parameters!"),
        }
    }

    fn module_missing(&self) -> (e: AudioError)
        ensures
            is_internal_error(e, module_missing_text(self@.stage, self@.stream)),
    {
        if self.stage == Stage::LoadDevice {
            internal_error("Could not load AlsaDevice module in shared object!")
        } else if self.stream == SndPcmStream::Playback {
            internal_error("Could not load AlsaPlayer module in shared object!")
        } else {
            internal_error("Could not load AlsaRecorder module in shared object!")
        }
    }

    /// Takes the reply to [`Setup::request`] and decides what follows.
    pub fn step(&mut self, reply: Reply) -> (out: SetupStep)
        requires
            old(self)@.wf(),
            reply_fits(old(self)@.stage, reply),
        ensures
            old(self)@.step_spec(reply, final(self)@, out),
            final(self)@.wf(),
            // The PCM handed over is woken through the descriptor the device
            // reported, in either direction.
            old(self)@.stage == Stage::PollDescriptors && old(self)@.descriptor_count == 1 && (
            reply matches Reply::Descriptors(Ok(list)) && list@.len() > 0) ==> (reply matches Reply::Descriptors(
                Ok(list),
            ) && out matches SetupStep::Ready(pcm) && pcm@.poll_fd == list@[0].fd
                && pcm@.watch_bits == list@[0].events as u32 && pcm@.stream == old(self)@.stream
                && pcm@.period_size == old(self)@.period_size),
            // A buffer other than the one asked for only warns; the opening
            // goes on to install the parameters.
            old(self)@.stage == Stage::HwBuffer && (reply matches Reply::Frames(Ok(got))) ==> (
            reply matches Reply::Frames(Ok(got)) && final(self)@.stage == Stage::HwApply
                && final(self)@.period_size == old(self)@.period_size
                && final(self)@.granted_period == old(self)@.granted_period && (got
                == BUFFER_FRAMES ==> out is Continue) && (got != BUFFER_FRAMES ==> (
            out matches SetupStep::Warn(w) && w@ == buffer_mismatch_text(got)))),
            // The period must be granted exactly; the one recorded is the
            // device's.
            old(self)@.stage == Stage::HwPeriod && (reply matches Reply::Frames(Ok(got))) ==> (
            reply matches Reply::Frames(Ok(got)) && (out is Continue <==> got == PERIOD_FRAMES) && (
            out is Continue ==> final(self)@.granted_period == got) && (got != PERIOD_FRAMES ==> (
            final(self)@.stage == Stage::Finished && (out matches SetupStep::Failed(e)
                && is_internal_error(e, period_mismatch_text(got)))))),
            // The rate must be granted exactly; the one recorded is the
            // device's.
            old(self)@.stage == Stage::HwRate && (reply matches Reply::Rate(Ok(got))) ==> (
            reply matches Reply::Rate(Ok(got)) && (out is Continue <==> got == old(self)@.rate) && (
            out is Continue ==> final(self)@.granted_rate == got && final(self)@.stage
                == Stage::HwPeriod) && (got != old(self)@.rate ==> final(self)@.stage
                == Stage::Finished && (out matches SetupStep::Failed(e) && is_internal_error(
                e,
                rate_mismatch_text(old(self)@.rate, got),
            )))),
            // The period handed over is the one read back from the device.
            old(self)@.stage == Stage::GetPeriod && (reply matches Reply::Frames(Ok(got))) ==> (
            reply matches Reply::Frames(Ok(got)) && out is Continue && final(self)@.period_size
                == got && final(self)@.stage == Stage::FreeHw),
            // A module that does not load ends the opening with an error.
            (old(self)@.stage == Stage::LoadModule || old(self)@.stage == Stage::LoadDevice) && (
            reply matches Reply::Loaded(false)) ==> final(self)@.stage == Stage::Finished && (
            out matches SetupStep::Failed(e) && is_internal_error(
                e,
                module_missing_text(old(self)@.stage, old(self)@.stream),
            )),
            // Going on moves strictly forward; anything else ends the opening.
            out is Continue || out is Warn ==> rank(final(self)@.stage) > rank(old(self)@.stage)
                && final(self)@.stage != Stage::Finished,
            !(out is Continue || out is Warn) ==> final(self)@.stage == Stage::Finished,
            // The opening keeps its direction and rate throughout.
            final(self)@.stream == old(self)@.stream,
            final(self)@.sample_rate == old(self)@.sample_rate,
            final(self)@.rate == old(self)@.rate,
            // A PCM is handed over only from the descriptors stage, in the
            // opening's direction, with the rate and period it asked for.
            out matches SetupStep::Ready(pcm) ==> old(self)@.stage == Stage::PollDescriptors
                && pcm@.stream == old(self)@.stream && pcm@.sample_rate == old(self)@.sample_rate
                && pcm@.granted_rate == old(self)@.sample_rate.spec_hz() && pcm@.granted_period
                == PERIOD_FRAMES && pcm@.period_size == old(self)@.period_size,
            // A PCM that cannot be opened means there is no device, in either
            // direction.
            old(self)@.stage == Stage::Open && !(reply matches Reply::Status(Ok(()))) ==> (
            final(self)@.stage == Stage::Finished && (out matches SetupStep::Failed(e) && e is NoDevice)),
    {
        match self.stage {
            Stage::LoadModule | Stage::LoadDevice => match reply {
                Reply::Loaded(true) => {
                    self.stage = self.next_stage();
                    SetupStep::Continue
                },
                _ => {
                    let e = self.module_missing();
                    self.stage = Stage::Finished;
                    SetupStep::Failed(e)
                },
            },
            Stage::Open => match reply {
                Reply::Status(Ok(())) => {
                    self.stage = Stage::HwMalloc;
                    SetupStep::Continue
                },
                _ => {
                    self.stage = Stage::Finished;
                    SetupStep::Failed(AudioError::NoDevice)
                },
            },
            Stage::HwRate => match reply {
                Reply::Rate(Ok(got)) => {
                    if got == self.rate {
                        self.granted_rate = got;
                        self.stage = Stage::HwPeriod;
                        SetupStep::Continue
                    } else {
                        self.stage = Stage::Finished;
                        let mut s = text_with_number("Failed to set rate: ", self.rate as u64, ", Got: ");
                        push_decimal(&mut s, got as u64);
                        s.append(" instead!");
                        SetupStep::Failed(AudioError::InternalError(s))
                    }
                },
                _ => {
                    self.stage = Stage::Finished;
                    SetupStep::Failed(internal_error("Cannot set sample rate!"))
                },
            },
            Stage::HwPeriod => match reply {
                Reply::Frames(Ok(got)) => {
                    if got == PERIOD_FRAMES {
                        self.granted_period = got;
                        self.stage = self.next_stage();
                        SetupStep::Continue
                    } else {
                        self.stage = Stage::Finished;
                        let mut s = text_with_number(
                            "Wavy: Tried to set period size: ",
                            PERIOD_FRAMES as u64,
                            ", Got: ",
                        );
                        push_decimal(&mut s, got as u64);
                        s.append("!");
                        SetupStep::Failed(AudioError::InternalError(s))
                    }
                },
                Reply::Frames(Err(code)) => {
                    self.stage = Stage::Finished;
                    SetupStep::Abort(Fault::CallFailed(code))
                },
                _ => SetupStep::Continue,
            },
            Stage::HwBuffer => match reply {
                Reply::Frames(Ok(got)) => {
                    self.stage = Stage::HwApply;
                    if got == BUFFER_FRAMES {
                        SetupStep::Continue
                    } else {
                        let mut s = text_with_number(
                            "Wavy: Tried to set buffer size: ",
                            BUFFER_FRAMES as u64,
                            ", Got: ",
                        );
                        push_decimal(&mut s, got as u64);
                        s.append("!");
                        SetupStep::Warn(s)
                    }
                },
                Reply::Frames(Err(code)) => {
                    self.stage = Stage::Finished;
                    SetupStep::Abort(Fault::CallFailed(code))
                },
                _ => SetupStep::Continue,
            },
            Stage::GetPeriod => match reply {
                Reply::Frames(Ok(got)) => {
                    self.period_size = got;
                    self.stage = Stage::FreeHw;
                    SetupStep::Continue
                },
                _ => {
                    self.stage = Stage::Finished;
                    SetupStep::Failed(internal_error("Get Period Size"))
                },
            },
            Stage::FreeHw => {
                self.stage = Stage::PollCount;
                SetupStep::Continue
            },
            Stage::PollCount => match reply {
                Reply::Count(Ok(count)) => {
                    if count >= 0 {
                        self.descriptor_count = count;
                        self.stage = Stage::PollDescriptors;
                        SetupStep::Continue
                    } else {
                        self.stage = Stage::Finished;
                        SetupStep::Abort(Fault::NegativeCount(count))
                    }
                },
                Reply::Count(Err(code)) => {
                    self.stage = Stage::Finished;
                    SetupStep::Abort(Fault::CallFailed(code))
                },
                _ => SetupStep::Continue,
            },
            Stage::PollDescriptors => match reply {
                Reply::Descriptors(Ok(list)) => {
                    self.stage = Stage::Finished;
                    if self.descriptor_count != 1 {
                        SetupStep::Abort(Fault::DescriptorCount(self.descriptor_count))
                    } else if list.len() == 0 {
                        SetupStep::Abort(Fault::NoDescriptor)
                    } else {
                        let d = list[0];
                        SetupStep::Ready(
                            Pcm {
                                stream: self.stream,
                                sample_rate: self.sample_rate,
                                granted_rate: self.granted_rate,
                                granted_period: self.granted_period,
                                period_size: self.period_size,
                                poll_fd: d.fd,
                                watch_bits: d.events as u32,
                            },
                        )
                    }
                },
                Reply::Descriptors(Err(code)) => {
                    self.stage = Stage::Finished;
                    SetupStep::Abort(Fault::CallFailed(code))
                },
                _ => SetupStep::Continue,
            },
            Stage::Finished => SetupStep::Continue,
            _ => match reply {
                Reply::Status(Ok(())) => {
                    self.stage = self.next_stage();
                    SetupStep::Continue
                },
                Reply::Status(Err(code)) => {
                    let e = self.refusal(code);
                    self.stage = Stage::Finished;
                    SetupStep::Failed(e)
                },
                _ => SetupStep::Continue,
            },
        }
    }
}

/// Every decision but a failure moves the opening strictly forward, and a
/// failure, a stop or a handed-over PCM ends it; so an opening makes at
/// most as many device calls as there are stages.
pub proof fn lemma_setup_progress(s: SetupView, reply: Reply, next: SetupView, out: SetupStep)
    requires
        s.wf(),
        reply_fits(s.stage, reply),
        s.step_spec(reply, next, out),
    ensures
        out is Continue || out is Warn ==> rank(next.stage) > rank(s.stage) && next.stage
            != Stage::Finished,
        !(out is Continue || out is Warn) ==> next.stage == Stage::Finished,
{
}

/// The buffer size is asked for on playback only, right after the period.
pub proof fn lemma_buffer_limit_on_playback_only(stage: Stage, stream: SndPcmStream)
    requires
        next_stage(stage, stream) == Stage::HwBuffer,
    ensures
        stream == SndPcmStream::Playback,
        stage == Stage::HwPeriod,
{
}

/// A stream module that does not load ends the opening before any PCM is
/// opened, with an error that names the module: the player's for
/// playback, the recorder's for capture.
pub proof fn lemma_missing_module_opens_nothing(
    s: SetupView,
    next: SetupView,
    out: SetupStep,
)
    requires
        s.wf(),
        s.stage == Stage::LoadModule,
        s.step_spec(Reply::Loaded(false), next, out),
    ensures
        s.request() == Request::LoadModule(s.stream),
        next.stage == Stage::Finished,
        s.stream == SndPcmStream::Playback ==> fails_with(
            out,
            "Could not load AlsaPlayer module in shared object!"@,
        ),
        s.stream == SndPcmStream::Capture ==> fails_with(
            out,
            "Could not load AlsaRecorder module in shared object!"@,
        ),
{
}

/// A hardware parameter stage: from the allocation of the parameters to
/// their installation.
pub open spec fn is_hw_stage(stage: Stage) -> bool {
    rank(Stage::HwMalloc) <= rank(stage) <= rank(Stage::HwApply)
}

/// Two openings that agree in everything but their direction.
pub open spec fn same_but_stream(a: SetupView, b: SetupView) -> bool {
    &&& a.sample_rate == b.sample_rate
    &&& a.rate == b.rate
    &&& a.stage == b.stage
    &&& a.granted_rate == b.granted_rate
    &&& a.granted_period == b.granted_period
    &&& a.period_size == b.period_size
    &&& a.descriptor_count == b.descriptor_count
}

/// Two decisions that are the same: both go on, or both warn, fail or stop
/// alike.
pub open spec fn same_decision(a: SetupStep, b: SetupStep) -> bool {
    match (a, b) {
        (SetupStep::Continue, SetupStep::Continue) => true,
        (SetupStep::Warn(x), SetupStep::Warn(y)) => x@ == y@,
        (SetupStep::Failed(AudioError::NoDevice), SetupStep::Failed(AudioError::NoDevice)) => true,
        (
            SetupStep::Failed(AudioError::InternalError(x)),
            SetupStep::Failed(AudioError::InternalError(y)),
        ) => x@ == y@,
        (SetupStep::Abort(f), SetupStep::Abort(g)) => f == g,
        _ => false,
    }
}

/// On the hardware parameters, a capture opening and a playback opening
/// that are otherwise alike make the same request and, for the same reply,
/// reach the same decision and stay alike, at every stage but the period
/// (see [`lemma_capture_is_playback_with_full_buffer`]) and the buffer,
/// which capture never reaches.
pub proof fn lemma_capture_hw_stage_as_playback(
    c: SetupView,
    p: SetupView,
    reply: Reply,
    c_next: SetupView,
    c_out: SetupStep,
    p_next: SetupView,
    p_out: SetupStep,
)
    requires
        c.wf(),
        p.wf(),
        c.stream == SndPcmStream::Capture,
        p.stream == SndPcmStream::Playback,
        same_but_stream(c, p),
        is_hw_stage(c.stage),
        c.stage != Stage::HwPeriod,
        c.stage != Stage::HwBuffer,
        reply_fits(c.stage, reply),
        c.step_spec(reply, c_next, c_out),
        p.step_spec(reply, p_next, p_out),
    ensures
        c.request() == p.request(),
        same_but_stream(c_next, p_next),
        same_decision(c_out, p_out),
        !(c_out is Warn),
{
}

/// Capture opening leaves out only the buffer size: at the period stage it
/// goes straight on to installing the parameters, where a playback opening
/// first asks for a [`BUFFER_FRAMES`] buffer; once the device sets exactly
/// that buffer, the playback opening is where the capture one is, without a
/// warning.  On any other reply to the period request both decide alike.
pub proof fn lemma_capture_is_playback_with_full_buffer(
    c: SetupView,
    p: SetupView,
    reply: Reply,
    c_next: SetupView,
    c_out: SetupStep,
    p_next: SetupView,
    p_out: SetupStep,
    p_last: SetupView,
    p_last_out: SetupStep,
)
    requires
        c.wf(),
        p.wf(),
        c.stream == SndPcmStream::Capture,
        p.stream == SndPcmStream::Playback,
        same_but_stream(c, p),
        c.stage == Stage::HwPeriod,
        reply_fits(c.stage, reply),
        c.step_spec(reply, c_next, c_out),
        p.step_spec(reply, p_next, p_out),
        p_out is Continue ==> p_next.step_spec(
            Reply::Frames(Ok(BUFFER_FRAMES)),
            p_last,
            p_last_out,
        ),
    ensures
        c.request() == p.request(),
        c_out is Continue <==> p_out is Continue,
        c_out is Continue ==> {
            &&& c_next.stage == Stage::HwApply
            &&& p_next.stage == Stage::HwBuffer
            &&& p_next.request() == Request::HwParamsSetBufferSizeNear(BUFFER_FRAMES)
            &&& p_last_out is Continue
            &&& same_but_stream(c_next, p_last)
        },
        !(c_out is Continue) ==> same_decision(c_out, p_out) && same_but_stream(c_next, p_next),
{
}

/// The PCM handed over is woken through the first (and only) descriptor the
/// device reported, whichever the direction.
pub proof fn lemma_ready_watches_reported_descriptor(
    s: SetupView,
    list: Vec<PollDescriptor>,
    next: SetupView,
    out: SetupStep,
)
    requires
        s.wf(),
        s.stage == Stage::PollDescriptors,
        s.descriptor_count == 1,
        list@.len() > 0,
        s.step_spec(Reply::Descriptors(Ok(list)), next, out),
    ensures
        out matches SetupStep::Ready(pcm) && pcm@.poll_fd == list@[0].fd && pcm@.watch_bits
            == list@[0].events as u32 && pcm@.stream == s.stream && pcm@.period_size
            == s.period_size,
        next.stage == Stage::Finished,
{
}

/// Whatever buffer the device sets, playback goes on to install the
/// parameters: the buffer asked for silently, any other with a warning that
/// names it, never a failure or a stop.
pub proof fn lemma_buffer_size_only_warns(s: SetupView, got: usize, next: SetupView, out: SetupStep)
    requires
        s.wf(),
        s.stage == Stage::HwBuffer,
        s.step_spec(Reply::Frames(Ok(got)), next, out),
    ensures
        next.stage == Stage::HwApply,
        next.stream == s.stream,
        next.granted_rate == s.granted_rate,
        next.granted_period == s.granted_period,
        next.period_size == s.period_size,
        !(out is Failed),
        !(out is Abort),
        got == BUFFER_FRAMES ==> out is Continue,
        got != BUFFER_FRAMES ==> (out matches SetupStep::Warn(w) && w@ == buffer_mismatch_text(
            got,
        )),
{
}

/// The period is accepted only when the device set exactly
/// [`PERIOD_FRAMES`] frames, and the period recorded is the one the device
/// set; any other period ends the opening with an error that names it.
pub proof fn lemma_period_granted_exactly(s: SetupView, got: usize, next: SetupView, out: SetupStep)
    requires
        s.wf(),
        s.stage == Stage::HwPeriod,
        s.step_spec(Reply::Frames(Ok(got)), next, out),
    ensures
        out is Continue <==> got == PERIOD_FRAMES,
        out is Continue ==> next.granted_period == got,
        got != PERIOD_FRAMES ==> next.stage == Stage::Finished && (out matches SetupStep::Failed(e)
            && is_internal_error(e, period_mismatch_text(got))),
{
}

/// A PCM that the device refuses to open means there is no device, for
/// playback and capture alike; the opening ends there.
pub proof fn lemma_refused_open_is_no_device(
    s: SetupView,
    reply: Reply,
    next: SetupView,
    out: SetupStep,
)
    requires
        s.wf(),
        s.stage == Stage::Open,
        !(reply matches Reply::Status(Ok(()))),
        s.step_spec(reply, next, out),
    ensures
        next.stage == Stage::Finished,
        out matches SetupStep::Failed(e) && e is NoDevice,
{
}

/// A PCM is handed over only once the device granted the requested rate
/// and a period of [`PERIOD_FRAMES`] frames.
pub proof fn lemma_ready_after_grants(s: SetupView, reply: Reply, next: SetupView, out: SetupStep)
    requires
        s.wf(),
        reply_fits(s.stage, reply),
        s.step_spec(reply, next, out),
        out is Ready,
    ensures
        s.stage == Stage::PollDescriptors,
        s.granted_rate == s.rate,
        s.granted_period == PERIOD_FRAMES,
        out matches SetupStep::Ready(pcm) && pcm@.wf() && pcm@.stream == s.stream
            && pcm@.sample_rate == s.sample_rate,
{
}

} // verus!
