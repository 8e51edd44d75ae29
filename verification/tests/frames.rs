use wavy::{deinterleave, interleave, StereoS16Frame};

#[test]
fn frame_keeps_its_samples() {
    let f = StereoS16Frame::new(-2, 300);
    assert_eq!(f.left(), -2);
    assert_eq!(f.right(), 300);
}

#[test]
fn frame_bytes_are_little_endian_left_first() {
    assert_eq!(StereoS16Frame::new(0x1234, -1).bytes(), [0x34, 0x12, 0xff, 0xff]);
    assert_eq!(StereoS16Frame::new(i16::MIN, 1).bytes(), [0x00, 0x80, 0x01, 0x00]);
    assert_eq!(StereoS16Frame::new(0, 0).bytes(), [0, 0, 0, 0]);
}

#[test]
fn interleave_lays_frames_in_order() {
    let frames = [StereoS16Frame::new(1, 2), StereoS16Frame::new(-3, 0x0405)];
    assert_eq!(interleave(&frames), vec![1, 0, 2, 0, 0xfd, 0xff, 0x05, 0x04]);
    assert_eq!(interleave(&[]), Vec::<u8>::new());
}

#[test]
fn deinterleave_reads_whole_frames_only() {
    let bytes = [0x34, 0x12, 0xff, 0xff, 0x01, 0x00, 0x00, 0x80, 0xaa, 0xbb];
    let frames = deinterleave(&bytes);
    assert_eq!(frames, vec![StereoS16Frame::new(0x1234, -1), StereoS16Frame::new(1, i16::MIN)]);
    assert_eq!(deinterleave(&[1, 2, 3]), Vec::<StereoS16Frame>::new());
}

#[test]
fn frames_survive_a_round_trip_through_bytes() {
    let frames: Vec<StereoS16Frame> = (0..64)
        .map(|i: i32| StereoS16Frame::new((i * 1021 - 32000) as i16, (7 - i * 997) as i16))
        .collect();
    assert_eq!(deinterleave(&interleave(&frames)), frames);
}

#[test]
fn whole_frame_bytes_survive_a_round_trip_through_frames() {
    let bytes: Vec<u8> = (0..256u32).map(|i| (i * 37 % 251) as u8).collect();
    assert_eq!(interleave(&deinterleave(&bytes)), bytes);
}
