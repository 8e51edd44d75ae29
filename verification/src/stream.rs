use vstd::prelude::*;
use crate::error::{internal_error, is_internal_error, AudioError};
use crate::frame::{deinterleave_into, interleave, spec_deinterleave, spec_interleave, StereoS16Frame};
use crate::setup::{Fault, Pcm, PcmView, SndPcmStream};

verus! {

/// Error code of a transfer that the device cannot take now (-EAGAIN).
pub const EAGAIN: i64 = -11;

/// Error code of a PCM in the wrong state for a transfer (-EBADFD).
pub const EBADFD: i64 = -77;

/// Error code of a buffer overrun or underrun (-EPIPE).
pub const EPIPE: i64 = -32;

/// Error code of a suspended stream (-ESTRPIPE).
pub const ESTRPIPE: i64 = -86;

/// What a refused transfer with error `code` means; `None` when the device
/// only has to be waited for.
pub open spec fn transfer_fault(code: i64) -> Option<Fault> {
    if code == EAGAIN {
        None
    } else if code == EBADFD {
        Some(Fault::BadState)
    } else if code == EPIPE {
        Some(Fault::Xrun)
    } else if code == ESTRPIPE {
        Some(Fault::Suspended)
    } else {
        Some(Fault::Unexpected(code))
    }
}

fn classify(code: i64) -> (f: Option<Fault>)
    ensures
        f == transfer_fault(code),
{
    if code == EAGAIN {
        None
    } else if code == EBADFD {
        Some(Fault::BadState)
    } else if code == EPIPE {
        Some(Fault::Xrun)
    } else if code == ESTRPIPE {
        Some(Fault::Suspended)
    } else {
        Some(Fault::Unexpected(code))
    }
}

/// The smaller of two counts.
pub open spec fn min_len(a: int, b: int) -> int {
    if a < b {
        a
    } else {
        b
    }
}

/// What a write of the buffered period led to.
#[derive(Clone, Copy, Debug, PartialEq, Eq, Structural)]
pub enum WritePoll {
    /// The device is not ready; wait for its descriptor and write again.
    Pending,
    /// The device took this many frames.
    Ready(usize),
    /// The stream cannot go on.
    Abort(Fault),
}

/// What a read of a period led to.
#[derive(Clone, Copy, Debug, PartialEq, Eq, Structural)]
pub enum ReadPoll {
    /// The device has nothing yet; wait for its descriptor and read again.
    Pending,
    /// A period was read.
    Ready,
    /// The stream cannot go on.
    Abort(Fault),
}

/// Plays stereo frames, one period at a time.
pub struct Player {
    pcm: Pcm,
    buffer: Vec<StereoS16Frame>,
}

/// What a [`Player`] holds, for specifications.
pub struct PlayerView {
    /// The PCM the player plays on.
    pub pcm: PcmView,
    /// Frames waiting to be written to the device.
    pub buffered: Seq<StereoS16Frame>,
}

impl PlayerView {
    /// Frames per period.
    pub open spec fn period_size(self) -> usize {
        self.pcm.period_size
    }

    /// The player plays on a PCM opened for playback with the rate and
    /// period it asked for, and never holds more than one period.
    pub open spec fn wf(self) -> bool {
        &&& self.pcm.wf()
        &&& self.pcm.stream == SndPcmStream::Playback
        &&& self.buffered.len() <= self.period_size()
    }

    /// The player after it was offered `frames`, and how many of them it
    /// took: an empty buffer takes up to one period of them, a buffer
    /// still holding a period takes none.
    pub open spec fn fill(self, frames: Seq<StereoS16Frame>) -> (PlayerView, nat) {
        if self.buffered.len() == 0 {
            let n = min_len(self.period_size() as int, frames.len() as int) as nat;
            (PlayerView { pcm: self.pcm, buffered: frames.take(n as int) }, n)
        } else {
            (self, 0)
        }
    }

    /// The player after the device answered a write of the buffered frames
    /// with `written`, and what that means.
    pub open spec fn write(self, written: Result<usize, i64>) -> (PlayerView, WritePoll) {
        match written {
            Ok(n) => if n == self.buffered.len() {
                (PlayerView { pcm: self.pcm, buffered: Seq::empty() }, WritePoll::Ready(n))
            } else {
                (self, WritePoll::Abort(Fault::ShortWrite(n, self.buffered.len() as usize)))
            },
            Err(code) => match transfer_fault(code) {
                None => (self, WritePoll::Pending),
                Some(f) => (self, WritePoll::Abort(f)),
            },
        }
    }
}

impl View for Player {
    type V = PlayerView;

    closed spec fn view(&self) -> PlayerView {
        PlayerView { pcm: self.pcm@, buffered: self.buffer@ }
    }
}

impl Player {
    /// A player on `pcm`, a PCM opened for playback, with nothing
    /// buffered and room for one period.
    pub fn new(pcm: Pcm) -> (p: Player)
        requires
            pcm@.wf(),
            pcm@.stream == SndPcmStream::Playback,
        ensures
            p@.pcm == pcm@,
            p@.buffered == Seq::<StereoS16Frame>::empty(),
            p@.wf(),
    {
        let buffer: Vec<StereoS16Frame> = Vec::with_capacity(pcm.period_size());
        Player { pcm, buffer }
    }

    /// Frames per period.
    pub fn period_size(&self) -> (n: usize)
        ensures
            n == self@.period_size(),
    {
        self.pcm.period_size()
    }

    /// The PCM the player plays on.
    pub fn pcm(&self) -> (pcm: &Pcm)
        ensures
            pcm@ == self@.pcm,
    {
        &self.pcm
    }

    /// How many frames the player takes if offered now: a period when its
    /// buffer is empty, none while a period waits to be written.
    pub fn frames_wanted(&self) -> (n: usize)
        ensures
            n == (if self@.buffered.len() == 0 {
                self@.period_size() as int
            } else {
                0
            }),
    {
        if self.buffer.len() == 0 {
            self.pcm.period_size()
        } else {
            0
        }
    }

    /// Frames waiting to be written.
    pub fn buffered(&self) -> (b: &[StereoS16Frame])
        ensures
            b@ == self@.buffered,
    {
        self.buffer.as_slice()
    }

    /// Offers `frames` for playing; when nothing is buffered, the first
    /// period of them (or all of them, if fewer) is buffered for the next
    /// write.  Returns how many frames were taken.
    pub fn play_last(&mut self, frames: &[StereoS16Frame]) -> (taken: usize)
        requires
            old(self)@.wf(),
        ensures
            (final(self)@, taken as nat) == old(self)@.fill(frames@),
            final(self)@.wf(),
            // A pending period is never topped up: nothing is taken and the
            // player is left as it was.
            old(self)@.buffered.len() > 0 ==> taken == 0 && final(self)@ == old(self)@,
            // An empty player takes the first period of the frames, or all of
            // them if fewer.
            old(self)@.buffered.len() == 0 ==> taken == min_len(
                old(self)@.period_size() as int,
                frames@.len() as int,
            ) && final(self)@.buffered == frames@.take(taken as int) && final(self)@.pcm == old(
                self,
            )@.pcm,
    {
        if self.buffer.len() != 0 {
            return 0;
        }
        let period = self.pcm.period_size();
        let ghost pcm = self@.pcm;
        let n = if period < frames.len() {
            period
        } else {
            frames.len()
        };
        for i in 0..n
            invariant
                n <= frames@.len(),
                n <= period,
                period == self@.period_size(),
                self@.pcm == pcm,
                self.buffer@ =~= frames@.take(i as int),
        {
            self.buffer.push(frames[i]);
        }
        assert(self.buffer@ =~= frames@.take(n as int));
        n
    }

    /// The buffered frames as the device takes them: interleaved S16_LE
    /// bytes.
    pub fn pending_bytes(&self) -> (bytes: Vec<u8>)
        requires
            4 * self@.buffered.len() <= usize::MAX,
        ensures
            bytes@ == spec_interleave(self@.buffered),
    {
        interleave(self.buffer.as_slice())
    }

    /// Takes the device's answer to a write of the buffered frames: the
    /// number of frames written, or an error code.  A completed write
    /// empties the buffer; a write the device could not take yet keeps the
    /// period for the next try.
    pub fn poll(&mut self, written: Result<usize, i64>) -> (out: WritePoll)
        requires
            old(self)@.wf(),
        ensures
            (final(self)@, out) == old(self)@.write(written),
            final(self)@.wf(),
            final(self)@.pcm == old(self)@.pcm,
            // A write completes only when the device took the whole pending
            // period, which is then gone.
            written matches Ok(n) ==> (written matches Ok(n) && (out is Ready <==> n
                == old(self)@.buffered.len()) && (out is Ready ==> out == WritePoll::Ready(n)
                && final(self)@.buffered.len() == 0) && (n != old(self)@.buffered.len() ==> out
                == WritePoll::Abort(Fault::ShortWrite(n, old(self)@.buffered.len() as usize))
                && final(self)@ == old(self)@)),
            // A refused write keeps the period; only EAGAIN asks to wait.
            written is Err ==> final(self)@ == old(self)@ && !(out is Ready) && (out is Pending
                <==> written == Err::<usize, i64>(EAGAIN)),
    {
        match written {
            Ok(n) => {
                if n == self.buffer.len() {
                    self.buffer.clear();
                    assert(self.buffer@ =~= Seq::<StereoS16Frame>::empty());
                    WritePoll::Ready(n)
                } else {
                    WritePoll::Abort(Fault::ShortWrite(n, self.buffer.len()))
                }
            },
            Err(code) => match classify(code) {
                None => WritePoll::Pending,
                Some(f) => WritePoll::Abort(f),
            },
        }
    }
}

/// Records stereo frames, one period at a time.
pub struct Recorder {
    pcm: Pcm,
    buffer: Vec<StereoS16Frame>,
}

/// What a [`Recorder`] holds, for specifications.
pub struct RecorderView {
    /// The PCM the recorder records from.
    pub pcm: PcmView,
    /// Frames of the last read.
    pub recorded: Seq<StereoS16Frame>,
}

impl RecorderView {
    /// Frames per period.
    pub open spec fn period_size(self) -> usize {
        self.pcm.period_size
    }

    /// The recorder records from a PCM opened for capture with the rate and
    /// period it asked for.
    pub open spec fn wf(self) -> bool {
        &&& self.pcm.wf()
        &&& self.pcm.stream == SndPcmStream::Capture
    }

    /// The recorder after the device answered a read with `read` (the bytes
    /// read, or an error code), and what that means.
    pub open spec fn read(self, read: Result<Seq<u8>, i64>) -> (RecorderView, ReadPoll) {
        match read {
            Ok(bytes) => (
                RecorderView { pcm: self.pcm, recorded: spec_deinterleave(bytes) },
                ReadPoll::Ready,
            ),
            Err(code) => (
                RecorderView { pcm: self.pcm, recorded: Seq::empty() },
                match transfer_fault(code) {
                    None => ReadPoll::Pending,
                    Some(f) => ReadPoll::Abort(f),
                },
            ),
        }
    }
}

impl View for Recorder {
    type V = RecorderView;

    closed spec fn view(&self) -> RecorderView {
        RecorderView { pcm: self.pcm@, recorded: self.buffer@ }
    }
}

/// The view of a read result: the bytes read, or the error code.
pub open spec fn read_view(read: Result<Vec<u8>, i64>) -> Result<Seq<u8>, i64> {
    match read {
        Ok(bytes) => Ok(bytes@),
        Err(code) => Err(code),
    }
}

impl Recorder {
    /// A recorder on `pcm`, a PCM opened for capture, with nothing
    /// recorded and room for one period.
    pub fn new(pcm: Pcm) -> (r: Recorder)
        requires
            pcm@.wf(),
            pcm@.stream == SndPcmStream::Capture,
        ensures
            r@.pcm == pcm@,
            r@.wf(),
            r@.recorded == Seq::<StereoS16Frame>::empty(),
    {
        let buffer: Vec<StereoS16Frame> = Vec::with_capacity(pcm.period_size());
        Recorder { pcm, buffer }
    }

    /// Frames to ask the device for in one read: one period.
    pub fn frames_per_read(&self) -> (n: usize)
        ensures
            n == self@.period_size(),
    {
        self.pcm.period_size()
    }

    /// The PCM the recorder records from.
    pub fn pcm(&self) -> (pcm: &Pcm)
        ensures
            pcm@ == self@.pcm,
    {
        &self.pcm
    }

    /// Takes the device's answer to the request that starts the recorder's
    /// stream; the player `_player` is not tied to it.
    pub fn link(&self, _player: &Player, started: Result<(), i64>) -> (r: Result<(), AudioError>)
        ensures
            started is Ok ==> r is Ok,
            started is Err ==> (r matches Err(e) && is_internal_error(e, "Could not start!"@)),
    {
        match started {
            Ok(()) => Ok(()),
            Err(_) => Err(internal_error("Could not start!")),
        }
    }

    /// Takes the device's answer to a read of one period: the interleaved
    /// S16_LE bytes read, or an error code.  The frames of the last read
    /// replace those before; a refused read leaves none.
    pub fn poll(&mut self, read: Result<Vec<u8>, i64>) -> (out: ReadPoll)
        ensures
            (final(self)@, out) == old(self)@.read(read_view(read)),
            final(self)@.pcm == old(self)@.pcm,
            // A completed read holds exactly the frames of the bytes read.
            read matches Ok(bytes) ==> (read matches Ok(bytes) && out is Ready
                && final(self)@.recorded == spec_deinterleave(bytes@)),
            // A refused read leaves nothing recorded; only EAGAIN asks to
            // wait.
            read is Err ==> final(self)@.recorded.len() == 0 && !(out is Ready) && (out is Pending
                <==> read == Err::<Vec<u8>, i64>(EAGAIN)),
    {
        self.buffer.clear();
        match read {
            Ok(bytes) => {
                deinterleave_into(bytes.as_slice(), &mut self.buffer);
                ReadPoll::Ready
            },
            Err(code) => {
                assert(self.buffer@ =~= Seq::<StereoS16Frame>::empty());
                match classify(code) {
                    None => ReadPoll::Pending,
                    Some(f) => ReadPoll::Abort(f),
                }
            },
        }
    }

    /// The frames of the last read.
    pub fn record_last(&self) -> (r: Result<&[StereoS16Frame], AudioError>)
        ensures
            r matches Ok(frames) && frames@ == self@.recorded,
    {
        Ok(self.buffer.as_slice())
    }
}

/// Frames offered to an empty player are written whole, up to one period:
/// the write that completes reports exactly the frames taken, and leaves the
/// player empty for the next period.
pub proof fn lemma_fill_then_write(p: PlayerView, frames: Seq<StereoS16Frame>, written: usize)
    requires
        p.wf(),
        p.buffered.len() == 0,
        p.fill(frames).0.write(Ok(written)).1 is Ready,
    ensures
        written == min_len(p.period_size() as int, frames.len() as int),
        written == p.fill(frames).1,
        p.fill(frames).0.buffered == frames.take(written as int),
        p.fill(frames).0.write(Ok(written)).0.buffered.len() == 0,
{
}

/// A player offered frames takes no more than it wants: none while a period
/// is pending, which stays as it was, and otherwise the first period of the
/// frames (or all of them if fewer), in order.
pub proof fn lemma_fill_only_when_empty(p: PlayerView, frames: Seq<StereoS16Frame>)
    requires
        p.wf(),
    ensures
        p.buffered.len() > 0 ==> p.fill(frames).1 == 0 && p.fill(frames).0 == p,
        p.buffered.len() == 0 ==> p.fill(frames).1 == min_len(
            p.period_size() as int,
            frames.len() as int,
        ) && p.fill(frames).0.buffered == frames.take(p.fill(frames).1 as int)
            && p.fill(frames).0.pcm == p.pcm,
        p.fill(frames).1 <= frames.len(),
        p.fill(frames).0.buffered.len() <= p.period_size(),
{
}

/// A write the device could not take yet keeps the period: writing again
/// offers the same frames.
pub proof fn lemma_pending_write_keeps_period(p: PlayerView, code: i64)
    requires
        p.write(Err(code)).1 is Pending,
    ensures
        p.write(Err(code)).0 == p,
        code == EAGAIN,
{
}

/// The frames of a completed read are exactly the frames of the bytes read,
/// and their bytes are the bytes read when those were whole frames.
pub proof fn lemma_read_keeps_bytes(r: RecorderView, bytes: Seq<u8>)
    requires
        bytes.len() % 4 == 0,
    ensures
        spec_interleave(r.read(Ok(bytes)).0.recorded) == bytes,
        r.read(Ok(bytes)).1 is Ready,
{
    crate::frame::lemma_interleave_deinterleave(bytes);
}

} // verus!
