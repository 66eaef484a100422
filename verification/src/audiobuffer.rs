//! Decoded-audio ring buffer: an append-only, single-cursor stereo sample
//! store. The decode thread appends whole frames; the real-time audio pull
//! callback consumes one stereo sample pair at a time through a shared read
//! cursor. Both channel sequences grow only by equal-length appends, so they
//! always hold the same number of samples.

use vstd::prelude::*;
use vstd::arithmetic::div_mod::lemma_hoist_over_denominator;

verus! {

/// Number of bytes in one serialized 32-bit sample.
pub const SAMPLE_SIZE: usize = 4;

/// One decoded audio frame as handed over by the codec adapter: the serialized
/// 32-bit samples of one channel plane, together with the frame's presentation
/// timestamp in stream time-base ticks.
pub struct AudioFrame {
    /// Serialized samples, four bytes each, in playback order.
    pub data: Vec<u8>,
    /// Presentation timestamp of the frame.
    pub pts: i64,
}

impl AudioFrame {
    /// The frame holds whole 32-bit samples.
    pub open spec fn wf(&self) -> bool {
        self.data@.len() % 4 == 0
    }

    /// How many samples the frame holds.
    pub open spec fn sample_count(&self) -> nat {
        self.data@.len() / 4
    }
}

/// The 32-bit word formed from four consecutive bytes, least significant
/// byte first.
pub open spec fn word_of(b0: u8, b1: u8, b2: u8, b3: u8) -> u32 {
    (b0 + b1 * 0x100 + b2 * 0x1_0000 + b3 * 0x100_0000) as u32
}

/// The sample word at sample index `i` of a channel byte sequence.
pub open spec fn sample_at(chan: Seq<u8>, i: int) -> u32
    recommends
        0 <= i,
        4 * i + 4 <= chan.len(),
{
    word_of(chan[4 * i], chan[4 * i + 1], chan[4 * i + 2], chan[4 * i + 3])
}

/// A channel byte sequence read as its sequence of sample words, in order.
pub open spec fn samples_of(chan: Seq<u8>) -> Seq<u32> {
    Seq::new(chan.len() / 4, |i: int| sample_at(chan, i))
}

/// Splitting a channel into samples distributes over concatenation, provided
/// the first part ends on a sample boundary.
pub proof fn lemma_samples_of_concat(a: Seq<u8>, b: Seq<u8>)
    requires
        a.len() % 4 == 0,
    ensures
        samples_of(a + b) == samples_of(a) + samples_of(b),
{
    let na = (a.len() / 4) as int;
    assert(a.len() == 4 * na);
    lemma_hoist_over_denominator(b.len() as int, na, 4);
    assert((a + b).len() / 4 == na + b.len() / 4);
    assert forall|i: int| 0 <= i < samples_of(a + b).len() implies samples_of(a + b)[i] == (
    samples_of(a) + samples_of(b))[i] by {
        if i < na {
            assert((a + b)[4 * i] == a[4 * i]);
            assert((a + b)[4 * i + 1] == a[4 * i + 1]);
            assert((a + b)[4 * i + 2] == a[4 * i + 2]);
            assert((a + b)[4 * i + 3] == a[4 * i + 3]);
        } else {
            let j = i - na;
            assert((a + b)[4 * i] == b[4 * j]);
            assert((a + b)[4 * i + 1] == b[4 * j + 1]);
            assert((a + b)[4 * i + 2] == b[4 * j + 2]);
            assert((a + b)[4 * i + 3] == b[4 * j + 3]);
        }
    }
    assert(samples_of(a + b) =~= samples_of(a) + samples_of(b));
}

/// Dropping the first sample of a channel drops exactly its first four
/// bytes.
proof fn lemma_samples_of_skip_one(chan: Seq<u8>)
    requires
        chan.len() % 4 == 0,
        chan.len() >= 4,
    ensures
        samples_of(chan.skip(4)) == samples_of(chan).skip(1),
{
    let t = chan.skip(4);
    lemma_hoist_over_denominator(t.len() as int, 1, 4);
    assert(t.len() / 4 + 1 == (t.len() + 4) / 4);
    assert forall|i: int| 0 <= i < samples_of(t).len() implies samples_of(t)[i] == samples_of(
        chan,
    ).skip(1)[i] by {
        assert(t[4 * i] == chan[4 * i + 4]);
        assert(t[4 * i + 1] == chan[4 * i + 5]);
        assert(t[4 * i + 2] == chan[4 * i + 6]);
        assert(t[4 * i + 3] == chan[4 * i + 7]);
        assert(4 * (i + 1) == 4 * i + 4);
    }
    assert(samples_of(t) =~= samples_of(chan).skip(1));
}

/// The thread-shared sample store. Writers call `add_frame_data`; the audio
/// callback calls `frames_remaining` and `pull_one` under the same lock.
pub struct AudioBuffer {
    lch: Vec<u8>,
    rch: Vec<u8>,
    psts: Vec<i64>,
    read_idx: usize,
}

impl AudioBuffer {
    /// The bytes of the left channel, in arrival order.
    pub closed spec fn left(&self) -> Seq<u8> {
        self.lch@
    }

    /// The bytes of the right channel, in arrival order.
    pub closed spec fn right(&self) -> Seq<u8> {
        self.rch@
    }

    /// The presentation timestamps of the appended frames, in arrival order.
    pub closed spec fn pts_log(&self) -> Seq<i64> {
        self.psts@
    }

    /// The shared read cursor, in bytes consumed from each channel.
    pub closed spec fn cursor(&self) -> nat {
        self.read_idx as nat
    }

    /// Invariant: the channels hold the same number of whole samples and the
    /// read cursor sits on a sample boundary no further than the end.
    pub open spec fn wf(&self) -> bool {
        &&& self.left().len() == self.right().len()
        &&& self.left().len() % 4 == 0
        &&& self.cursor() % 4 == 0
        &&& self.cursor() <= self.left().len()
    }

    /// Number of unread samples.
    pub open spec fn spec_frames_remaining(&self) -> nat
        recommends
            self.wf(),
    {
        (((self.left().len() - self.cursor()) as nat) / 4) as nat
    }

    /// The unread part of the left channel.
    pub open spec fn pending_left(&self) -> Seq<u8> {
        self.left().skip(self.cursor() as int)
    }

    /// The unread part of the right channel.
    pub open spec fn pending_right(&self) -> Seq<u8> {
        self.right().skip(self.cursor() as int)
    }

    /// An empty buffer with the cursor at the start.
    pub fn new() -> (b: AudioBuffer)
        ensures
            b.wf(),
            b.left().len() == 0,
            b.right().len() == 0,
            b.pts_log().len() == 0,
            b.cursor() == 0,
    {
        AudioBuffer { lch: Vec::new(), rch: Vec::new(), psts: Vec::new(), read_idx: 0 }
    }

    /// How many stereo samples remain to be pulled.
    pub fn frames_remaining(&self) -> (n: usize)
        requires
            self.wf(),
        ensures
            n == self.spec_frames_remaining(),
    {
        (self.lch.len() - self.read_idx) / SAMPLE_SIZE
    }

    /// Copies the frame's samples onto the end of both channel sequences and
    /// records its timestamp. The read cursor does not move, so samples
    /// already pending stay pending, in order, ahead of the new ones.
    pub fn add_frame_data(&mut self, frame: &AudioFrame)
        requires
            old(self).wf(),
            frame.wf(),
        ensures
            final(self).wf(),
            final(self).left() == old(self).left() + frame.data@,
            final(self).right() == old(self).right() + frame.data@,
            final(self).cursor() == old(self).cursor(),
            final(self).pts_log() == old(self).pts_log().push(frame.pts),
            final(self).spec_frames_remaining() == old(self).spec_frames_remaining()
                + frame.sample_count(),
    {
        let ghost lch0 = self.lch@;
        let ghost rch0 = self.rch@;
        let n = frame.data.len();
        let mut i: usize = 0;
        while i < n
            invariant
                i <= n,
                n == frame.data@.len(),
                self.lch@ == lch0 + frame.data@.subrange(0, i as int),
                self.rch@ == rch0 + frame.data@.subrange(0, i as int),
                self.psts@ == old(self).psts@,
                self.read_idx == old(self).read_idx,
            decreases n - i,
        {
            let b = frame.data[i];
            self.lch.push(b);
            self.rch.push(b);
            proof {
                assert(self.lch@ =~= lch0 + frame.data@.subrange(0, i + 1));
                assert(self.rch@ =~= rch0 + frame.data@.subrange(0, i + 1));
            }
            i = i + 1;
        }
        self.psts.push(frame.pts);
        proof {
            assert(frame.data@.subrange(0, n as int) =~= frame.data@);
            let len0 = old(self).left().len() as int;
            let c = old(self).cursor() as int;
            let s = frame.sample_count() as int;
            assert(frame.data@.len() == 4 * s);
            lemma_hoist_over_denominator(len0 - c, s, 4);
            assert((len0 - c + 4 * s) / 4 == (len0 - c) / 4 + s);
        }
    }

    /// Returns the next unread stereo sample pair, each channel's four bytes
    /// packed least significant byte first, and advances the cursor; returns
    /// nothing once no unread sample remains.
    pub fn pull_one(&mut self) -> (r: Option<(u32, u32)>)
        requires
            old(self).wf(),
        ensures
            final(self).wf(),
            final(self).left() == old(self).left(),
            final(self).right() == old(self).right(),
            final(self).pts_log() == old(self).pts_log(),
            old(self).spec_frames_remaining() == 0 ==> r is None && *final(self) == *old(self),
            old(self).spec_frames_remaining() > 0 ==> ({
                &&& r matches Some(p)
                &&& p.0 == samples_of(old(self).pending_left())[0]
                &&& p.1 == samples_of(old(self).pending_right())[0]
                &&& final(self).cursor() == old(self).cursor() + 4
                &&& final(self).spec_frames_remaining() == old(self).spec_frames_remaining() - 1
                &&& samples_of(final(self).pending_left()) == samples_of(
                    old(self).pending_left(),
                ).skip(1)
                &&& samples_of(final(self).pending_right()) == samples_of(
                    old(self).pending_right(),
                ).skip(1)
            }),
    {
        if self.lch.len() - self.read_idx < SAMPLE_SIZE {
            proof {
                let d = self.left().len() - self.cursor();
                assert(d % 4 == 0);
                assert(d == 0);
            }
            None
        } else {
            let i = self.read_idx;
            let b0 = self.lch[i];
            let b1 = self.lch[i + 1];
            let b2 = self.lch[i + 2];
            let b3 = self.lch[i + 3];
            let wl: u32 = (b0 as u32) + (b1 as u32) * 0x100 + (b2 as u32) * 0x1_0000 + (b3 as u32)
                * 0x100_0000;
            let c0 = self.rch[i];
            let c1 = self.rch[i + 1];
            let c2 = self.rch[i + 2];
            let c3 = self.rch[i + 3];
            let wr: u32 = (c0 as u32) + (c1 as u32) * 0x100 + (c2 as u32) * 0x1_0000 + (c3 as u32)
                * 0x100_0000;
            self.read_idx = i + 4;
            proof {
                let c = old(self).cursor() as int;
                let pl = old(self).pending_left();
                let pr = old(self).pending_right();
                assert(pl.len() % 4 == 0);
                assert(pl.len() >= 4);
                assert(samples_of(pl).len() > 0);
                assert(pl[0] == old(self).left()[c]);
                assert(pl[1] == old(self).left()[c + 1]);
                assert(pl[2] == old(self).left()[c + 2]);
                assert(pl[3] == old(self).left()[c + 3]);
                assert(samples_of(pl)[0] == word_of(pl[0], pl[1], pl[2], pl[3]));
                assert(pr[0] == old(self).right()[c]);
                assert(pr[1] == old(self).right()[c + 1]);
                assert(pr[2] == old(self).right()[c + 2]);
                assert(pr[3] == old(self).right()[c + 3]);
                assert(samples_of(pr)[0] == word_of(pr[0], pr[1], pr[2], pr[3]));
                lemma_hoist_over_denominator(
                    self.left().len() - self.cursor(),
                    1,
                    4,
                );
                assert(self.pending_left() =~= pl.skip(4));
                assert(self.pending_right() =~= pr.skip(4));
                lemma_samples_of_skip_one(pl);
                lemma_samples_of_skip_one(pr);
            }
            Some((wl, wr))
        }
    }
}

/// Pull order is append order: appending a frame leaves the samples already
/// pending in place, in order, and queues the frame's samples after them.
/// Together with `pull_one`'s contract — it returns the first pending sample
/// and drops exactly that sample, and returns nothing once no sample remains —
/// this says that `pull_one` yields samples in exactly the order appended.
pub proof fn lemma_append_keeps_pull_order(before: AudioBuffer, after: AudioBuffer, data: Seq<u8>)
    requires
        before.wf(),
        data.len() % 4 == 0,
        after.left() == before.left() + data,
        after.right() == before.right() + data,
        after.cursor() == before.cursor(),
    ensures
        samples_of(after.pending_left()) == samples_of(before.pending_left()) + samples_of(data),
        samples_of(after.pending_right()) == samples_of(before.pending_right()) + samples_of(data),
{
    assert(after.pending_left() =~= before.pending_left() + data);
    assert(after.pending_right() =~= before.pending_right() + data);
    assert(before.pending_left().len() % 4 == 0);
    assert(before.pending_right().len() % 4 == 0);
    lemma_samples_of_concat(before.pending_left(), data);
    lemma_samples_of_concat(before.pending_right(), data);
}

/// The remaining-frame count is exact: after `n` appended frames of `s`
/// samples each and `p` pulled samples, with `p <= n * s`, the buffer reports
/// `n * s - p` frames remaining. (Each append of `s` samples grows a channel
/// by `4 * s` bytes and each pull advances the cursor by `4` bytes, as the
/// contracts of `add_frame_data` and `pull_one` state.)
pub proof fn lemma_frames_remaining_counts(b: AudioBuffer, n: nat, s: nat, p: nat)
    requires
        b.wf(),
        b.left().len() == 4 * (n * s),
        b.cursor() == 4 * p,
        p <= n * s,
    ensures
        b.spec_frames_remaining() == n * s - p,
{
    let d = (n * s - p) as int;
    assert(b.left().len() - b.cursor() == 4 * d);
    lemma_hoist_over_denominator(0, d, 4);
    assert((4 * d) / 4 == d);
}

} // verus!
