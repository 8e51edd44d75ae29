use wavy::{
    AudioError, Fault, Pcm, Player, PollDescriptor, ReadPoll, Recorder, Reply, SampleRate, Setup,
    SetupStep, SndPcmStream, StereoS16Frame, WritePoll,
};

/// Opens a PCM whose device reports a period of `period` frames.
fn open_pcm(stream: SndPcmStream, period: usize) -> Pcm {
    let mut s = Setup::new(stream, SampleRate::Normal);
    let mut replies = vec![
        Reply::Loaded(true),
        Reply::Loaded(true),
        Reply::Status(Ok(())),
        Reply::Status(Ok(())),
        Reply::Status(Ok(())),
        Reply::Status(Ok(())),
        Reply::Status(Ok(())),
        Reply::Status(Ok(())),
        Reply::Status(Ok(())),
        Reply::Rate(Ok(48_000)),
        Reply::Frames(Ok(1024)),
    ];
    if stream == SndPcmStream::Playback {
        replies.push(Reply::Frames(Ok(4096)));
    }
    replies.push(Reply::Status(Ok(())));
    replies.push(Reply::Frames(Ok(period)));
    replies.push(Reply::Done);
    replies.push(Reply::Count(Ok(1)));
    for r in replies {
        assert!(matches!(s.step(r), SetupStep::Continue));
    }
    match s.step(Reply::Descriptors(Ok(vec![PollDescriptor { fd: 5, events: 1 }]))) {
        SetupStep::Ready(pcm) => pcm,
        other => panic!("expected a PCM, got {:?}", other),
    }
}

fn frames(n: usize) -> Vec<StereoS16Frame> {
    (0..n).map(|i| StereoS16Frame::new(i as i16, -(i as i16))).collect()
}

#[test]
fn player_takes_one_period_of_frames() {
    let pcm = open_pcm(SndPcmStream::Playback, 4);
    let mut p = Player::new(pcm);
    assert_eq!(*p.pcm(), pcm);
    assert_eq!(p.period_size(), 4);
    assert_eq!(p.frames_wanted(), 4);
    let src = frames(10);
    assert_eq!(p.play_last(&src), 4);
    assert_eq!(p.buffered(), &src[..4]);
    assert_eq!(p.frames_wanted(), 0);
    assert_eq!(p.play_last(&src[4..]), 0);
    assert_eq!(p.buffered(), &src[..4]);
}

#[test]
fn player_takes_fewer_frames_when_fewer_are_offered() {
    let mut p = Player::new(open_pcm(SndPcmStream::Playback, 8));
    let src = frames(3);
    assert_eq!(p.play_last(&src), 3);
    assert_eq!(p.buffered(), &src[..]);
}

#[test]
fn completed_write_empties_the_player() {
    let mut p = Player::new(open_pcm(SndPcmStream::Playback, 4));
    let src = frames(6);
    p.play_last(&src);
    assert_eq!(p.pending_bytes(), wavy::interleave(&src[..4]));
    assert_eq!(p.poll(Ok(4)), WritePoll::Ready(4));
    assert!(p.buffered().is_empty());
    assert_eq!(p.play_last(&src[4..]), 2);
    assert_eq!(p.poll(Ok(2)), WritePoll::Ready(2));
}

#[test]
fn write_that_must_wait_keeps_the_period() {
    let mut p = Player::new(open_pcm(SndPcmStream::Playback, 4));
    let src = frames(4);
    p.play_last(&src);
    assert_eq!(p.poll(Err(-11)), WritePoll::Pending);
    assert_eq!(p.buffered(), &src[..]);
    assert_eq!(p.poll(Ok(4)), WritePoll::Ready(4));
}

#[test]
fn write_faults() {
    let mut p = Player::new(open_pcm(SndPcmStream::Playback, 4));
    p.play_last(&frames(4));
    assert_eq!(p.poll(Err(-77)), WritePoll::Abort(Fault::BadState));
    assert_eq!(p.poll(Err(-32)), WritePoll::Abort(Fault::Xrun));
    assert_eq!(p.poll(Err(-86)), WritePoll::Abort(Fault::Suspended));
    assert_eq!(p.poll(Err(-5)), WritePoll::Abort(Fault::Unexpected(-5)));
    assert_eq!(p.poll(Ok(3)), WritePoll::Abort(Fault::ShortWrite(3, 4)));
}

#[test]
fn recorder_keeps_the_frames_of_the_last_read() {
    let pcm = open_pcm(SndPcmStream::Capture, 2);
    let mut r = Recorder::new(pcm);
    assert_eq!(*r.pcm(), pcm);
    assert_eq!(r.frames_per_read(), 2);
    assert_eq!(r.record_last().unwrap(), &[] as &[StereoS16Frame]);
    let first = frames(2);
    assert_eq!(r.poll(Ok(wavy::interleave(&first))), ReadPoll::Ready);
    assert_eq!(r.record_last().unwrap(), &first[..]);
    let second = vec![StereoS16Frame::new(9, 9)];
    assert_eq!(r.poll(Ok(vec![9, 0, 9, 0])), ReadPoll::Ready);
    assert_eq!(r.record_last().unwrap(), &second[..]);
}

#[test]
fn refused_read_leaves_nothing_recorded() {
    let mut r = Recorder::new(open_pcm(SndPcmStream::Capture, 2));
    r.poll(Ok(vec![1, 0, 2, 0]));
    assert_eq!(r.poll(Err(-11)), ReadPoll::Pending);
    assert!(r.record_last().unwrap().is_empty());
    assert_eq!(r.poll(Err(-32)), ReadPoll::Abort(Fault::Xrun));
    assert_eq!(r.poll(Err(-77)), ReadPoll::Abort(Fault::BadState));
    assert_eq!(r.poll(Err(-86)), ReadPoll::Abort(Fault::Suspended));
    assert_eq!(r.poll(Err(-1)), ReadPoll::Abort(Fault::Unexpected(-1)));
}

#[test]
fn link_reports_a_stream_that_did_not_start() {
    let r = Recorder::new(open_pcm(SndPcmStream::Capture, 2));
    let p = Player::new(open_pcm(SndPcmStream::Playback, 2));
    assert!(r.link(&p, Ok(())).is_ok());
    match r.link(&p, Err(-1)) {
        Err(AudioError::InternalError(m)) => assert_eq!(m, "Could not start!"),
        other => panic!("expected an error, got {:?}", other),
    }
}
