use vstd::prelude::*;

verus! {

/// Low byte of a signed 16-bit sample in little-endian order.
pub open spec fn lo_byte(x: i16) -> u8 {
    ((x as u16) & 0xff) as u8
}

/// High byte of a signed 16-bit sample in little-endian order.
pub open spec fn hi_byte(x: i16) -> u8 {
    ((x as u16) >> 8u16) as u8
}

/// The signed 16-bit sample whose little-endian bytes are `lo`, `hi`.
pub open spec fn sample_from_le(lo: u8, hi: u8) -> i16 {
    (((hi as u16) << 8u16) | (lo as u16)) as i16
}

/// A stereo frame of two signed 16-bit samples, left channel first.
#[derive(Clone, Copy, Debug, PartialEq, Eq, Structural)]
pub struct StereoS16Frame {
    left: i16,
    right: i16,
}

impl StereoS16Frame {
    pub closed spec fn spec_left(self) -> i16 {
        self.left
    }

    pub closed spec fn spec_right(self) -> i16 {
        self.right
    }

    /// The four bytes of the frame as the device stores it (S16_LE, left
    /// sample first).
    pub open spec fn spec_bytes(self) -> Seq<u8> {
        seq![
            lo_byte(self.spec_left()),
            hi_byte(self.spec_left()),
            lo_byte(self.spec_right()),
            hi_byte(self.spec_right()),
        ]
    }

    /// Creates a frame from its left and right samples.
    pub fn new(left: i16, right: i16) -> (f: StereoS16Frame)
        ensures
            f.spec_left() == left,
            f.spec_right() == right,
    {
        StereoS16Frame { left, right }
    }

    /// The left sample.
    pub fn left(&self) -> (l: i16)
        ensures
            l == self.spec_left(),
    {
        self.left
    }

    /// The right sample.
    pub fn right(&self) -> (r: i16)
        ensures
            r == self.spec_right(),
    {
        self.right
    }

    /// The frame as four little-endian bytes: left low, left high, right
    /// low, right high.
    pub fn bytes(&self) -> (b: [u8; 4])
        ensures
            b@ == self.spec_bytes(),
    {
        let l = self.left as u16;
        let r = self.right as u16;
        let b = [(l & 0xff) as u8, (l >> 8u16) as u8, (r & 0xff) as u8, (r >> 8u16) as u8];
        assert(b@ =~= self.spec_bytes());
        b
    }
}

/// The frame whose device bytes are `b0`, `b1`, `b2`, `b3` (S16_LE, left
/// sample first).
pub closed spec fn spec_frame_from_bytes(b0: u8, b1: u8, b2: u8, b3: u8) -> StereoS16Frame {
    StereoS16Frame { left: sample_from_le(b0, b1), right: sample_from_le(b2, b3) }
}

/// The interleaved S16_LE byte stream of a run of frames: four bytes per
/// frame, in order.
pub open spec fn spec_interleave(frames: Seq<StereoS16Frame>) -> Seq<u8> {
    Seq::new(4 * frames.len(), |i: int| frames[i / 4].spec_bytes()[i % 4])
}

/// The frames held by an interleaved S16_LE byte stream; a trailing partial
/// frame (fewer than four bytes) is not a frame.
pub open spec fn spec_deinterleave(bytes: Seq<u8>) -> Seq<StereoS16Frame> {
    Seq::new(
        bytes.len() / 4,
        |k: int| spec_frame_from_bytes(bytes[4 * k], bytes[4 * k + 1], bytes[4 * k + 2], bytes[4 * k + 3]),
    )
}

fn frame_from_bytes(b0: u8, b1: u8, b2: u8, b3: u8) -> (f: StereoS16Frame)
    ensures
        f == spec_frame_from_bytes(b0, b1, b2, b3),
{
    let left = (((b1 as u16) << 8u16) | (b0 as u16)) as i16;
    let right = (((b3 as u16) << 8u16) | (b2 as u16)) as i16;
    StereoS16Frame { left, right }
}

proof fn lemma_sample_roundtrip(x: i16)
    ensures
        sample_from_le(lo_byte(x), hi_byte(x)) == x,
{
    assert(((((((x as u16) >> 8u16) as u8) as u16) << 8u16) | ((((x as u16) & 0xff) as u8) as u16))
        as i16 == x) by (bit_vector);
}

proof fn lemma_bytes_roundtrip(lo: u8, hi: u8)
    ensures
        lo_byte(sample_from_le(lo, hi)) == lo,
        hi_byte(sample_from_le(lo, hi)) == hi,
{
    assert(((((((hi as u16) << 8u16) | (lo as u16)) as i16) as u16) & 0xff) as u8 == lo)
        by (bit_vector);
    assert(((((((hi as u16) << 8u16) | (lo as u16)) as i16) as u16) >> 8u16) as u8 == hi)
        by (bit_vector);
}

/// Decoding the four device bytes of a frame gives the frame back.
pub proof fn lemma_frame_bytes_roundtrip(f: StereoS16Frame)
    ensures
        spec_frame_from_bytes(
            f.spec_bytes()[0],
            f.spec_bytes()[1],
            f.spec_bytes()[2],
            f.spec_bytes()[3],
        ) == f,
{
    lemma_sample_roundtrip(f.left);
    lemma_sample_roundtrip(f.right);
}

/// Any four bytes are the device bytes of the frame they decode to.
pub proof fn lemma_bytes_frame_roundtrip(b0: u8, b1: u8, b2: u8, b3: u8)
    ensures
        spec_frame_from_bytes(b0, b1, b2, b3).spec_bytes() == seq![b0, b1, b2, b3],
{
    lemma_bytes_roundtrip(b0, b1);
    lemma_bytes_roundtrip(b2, b3);
    assert(spec_frame_from_bytes(b0, b1, b2, b3).spec_bytes() =~= seq![b0, b1, b2, b3]);
}

proof fn lemma_div_mod_4(k: int, j: int)
    requires
        0 <= k,
        0 <= j < 4,
    ensures
        (4 * k + j) / 4 == k,
        (4 * k + j) % 4 == j,
{
    assert((4 * k + j) / 4 == k && (4 * k + j) % 4 == j) by (nonlinear_arith)
        requires
            0 <= k,
            0 <= j < 4,
    ;
}

/// Deinterleaving the byte stream of a run of frames gives the frames back.
pub proof fn lemma_deinterleave_interleave(frames: Seq<StereoS16Frame>)
    ensures
        spec_deinterleave(spec_interleave(frames)) == frames,
{
    let bytes = spec_interleave(frames);
    assert(bytes.len() / 4 == frames.len()) by {
        lemma_div_mod_4(frames.len() as int, 0);
    }
    assert forall|k: int| 0 <= k < frames.len() implies
        #[trigger] spec_deinterleave(bytes)[k] == frames[k] by {
        lemma_div_mod_4(k, 0);
        lemma_div_mod_4(k, 1);
        lemma_div_mod_4(k, 2);
        lemma_div_mod_4(k, 3);
        assert(4 * k + 3 < 4 * frames.len());
        lemma_frame_bytes_roundtrip(frames[k]);
    }
    assert(spec_deinterleave(bytes) =~= frames);
}

/// A byte stream made of whole frames is the interleaving of the frames it
/// holds.
pub proof fn lemma_interleave_deinterleave(bytes: Seq<u8>)
    requires
        bytes.len() % 4 == 0,
    ensures
        spec_interleave(spec_deinterleave(bytes)) == bytes,
{
    let frames = spec_deinterleave(bytes);
    assert(4 * (bytes.len() / 4) == bytes.len()) by (nonlinear_arith)
        requires
            bytes.len() % 4 == 0,
    ;
    assert forall|i: int| 0 <= i < bytes.len() implies #[trigger] spec_interleave(frames)[i]
        == bytes[i] by {
        let k = i / 4;
        let j = i % 4;
        assert(i == 4 * k + j && 0 <= j < 4 && 0 <= k) by (nonlinear_arith)
            requires
                0 <= i,
                k == i / 4,
                j == i % 4,
        ;
        assert(4 * k + 3 < bytes.len()) by (nonlinear_arith)
            requires
                i == 4 * k + j,
                0 <= j < 4,
                i < bytes.len(),
                bytes.len() % 4 == 0,
        ;
        lemma_bytes_frame_roundtrip(bytes[4 * k], bytes[4 * k + 1], bytes[4 * k + 2], bytes[4 * k + 3]);
        lemma_div_mod_4(k, 0);
        lemma_div_mod_4(k, 1);
        lemma_div_mod_4(k, 2);
        lemma_div_mod_4(k, 3);
    }
    assert(spec_interleave(frames) =~= bytes);
}

/// The interleaved S16_LE bytes of `frames`, as the device takes them.
pub fn interleave(frames: &[StereoS16Frame]) -> (bytes: Vec<u8>)
    requires
        4 * frames@.len() <= usize::MAX,
    ensures
        bytes@ == spec_interleave(frames@),
{
    let n = frames.len();
    let mut bytes: Vec<u8> = Vec::with_capacity(4 * n);
    for i in 0..n
        invariant
            n == frames@.len(),
            4 * n <= usize::MAX,
            bytes@ =~= Seq::new(4 * (i as nat), |m: int| frames@[m / 4].spec_bytes()[m % 4]),
    {
        let b = frames[i].bytes();
        proof {
            lemma_div_mod_4(i as int, 0);
            lemma_div_mod_4(i as int, 1);
            lemma_div_mod_4(i as int, 2);
            lemma_div_mod_4(i as int, 3);
        }
        bytes.push(b[0]);
        bytes.push(b[1]);
        bytes.push(b[2]);
        bytes.push(b[3]);
        assert forall|m: int| 0 <= m < 4 * (i as int) implies (#[trigger] (m / 4)) < i by {
            assert(m / 4 < i) by (nonlinear_arith)
                requires
                    0 <= m < 4 * (i as int),
            ;
        }
    }
    bytes
}

/// The frames held by interleaved S16_LE `bytes` read from the device; a
/// trailing partial frame is dropped.
pub fn deinterleave(bytes: &[u8]) -> (frames: Vec<StereoS16Frame>)
    ensures
        frames@ == spec_deinterleave(bytes@),
{
    let mut frames: Vec<StereoS16Frame> = Vec::with_capacity(bytes.len() / 4);
    deinterleave_into(bytes, &mut frames);
    assert(frames@ =~= spec_deinterleave(bytes@));
    frames
}

/// Appends the frames held by interleaved S16_LE `bytes` to `frames`,
/// reusing its storage; a trailing partial frame is dropped.
pub(crate) fn deinterleave_into(bytes: &[u8], frames: &mut Vec<StereoS16Frame>)
    ensures
        final(frames)@ == old(frames)@ + spec_deinterleave(bytes@),
{
    let ghost start = frames@;
    let n = bytes.len() / 4;
    for k in 0..n
        invariant
            n == bytes@.len() / 4,
            frames@ =~= start + Seq::new(
                k as nat,
                |m: int|
                    spec_frame_from_bytes(
                        bytes@[4 * m],
                        bytes@[4 * m + 1],
                        bytes@[4 * m + 2],
                        bytes@[4 * m + 3],
                    ),
            ),
    {
        assert(4 * k + 3 < bytes@.len()) by (nonlinear_arith)
            requires
                k < n,
                n == bytes@.len() / 4,
        ;
        assert(bytes@.len() == bytes.len());
        let at = 4 * k;
        let f = frame_from_bytes(bytes[at], bytes[at + 1], bytes[at + 2], bytes[at + 3]);
        frames.push(f);
    }
    assert(frames@ =~= start + spec_deinterleave(bytes@));
}

} // verus!
