//! Real-time stereo audio recording and playback on ALSA.
//!
//! The library holds the decisions of the audio back end: how stereo frames
//! are laid out for the device, how a PCM is opened and its hardware
//! parameters negotiated, and what each read or write reported by the device
//! means for the player's and the recorder's buffers.  Performing the device
//! calls themselves is left to the caller, which hands each outcome back.

mod error;
mod frame;
mod setup;
mod stream;

pub use error::{decimal, digit_char, is_internal_error, signed_decimal, AudioError};
pub use frame::{
    deinterleave, interleave, lemma_bytes_frame_roundtrip, lemma_deinterleave_interleave,
    lemma_frame_bytes_roundtrip, lemma_interleave_deinterleave, spec_deinterleave,
    spec_frame_from_bytes, spec_interleave, StereoS16Frame,
};
pub use setup::{
    buffer_mismatch_text, fails_with, hw_refusal_text, is_hw_stage, lemma_buffer_limit_on_playback_only,
    lemma_capture_hw_stage_as_playback, lemma_capture_is_playback_with_full_buffer,
    lemma_missing_module_opens_nothing, lemma_ready_watches_reported_descriptor,
    lemma_buffer_size_only_warns, lemma_period_granted_exactly, lemma_refused_open_is_no_device, same_but_stream, same_decision,
    lemma_ready_after_grants, lemma_setup_progress, module_missing_text, next_stage,
    period_mismatch_text, rank, rate_mismatch_text, ready_with, reply_fits, warns_with, Fault, Pcm,
    PcmView, PollDescriptor, Reply, Request, SampleRate, Setup, SetupStep, SetupView,
    SndPcmMode, SndPcmStream, Stage, BUFFER_FRAMES, CHANNELS, PERIOD_FRAMES,
};
pub use stream::{
    lemma_fill_only_when_empty, lemma_fill_then_write, lemma_pending_write_keeps_period, lemma_read_keeps_bytes, min_len,
    read_view, transfer_fault, Player, PlayerView, ReadPoll, Recorder, RecorderView, WritePoll,
    EAGAIN, EBADFD, EPIPE, ESTRPIPE,
};
