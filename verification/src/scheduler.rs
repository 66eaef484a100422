//! Packet batches and the stream scheduler. A loaded segment's compressed
//! units are partitioned into two ordered queues, one per elementary stream.
//! The scheduler then decides, step by step, which side to decode next by
//! comparing the presentation timestamp of the next unqueued unit on each
//! side: video decodes one unit per step, audio decodes a batch of up to a
//! fixed size per step, keyed by the batch's first timestamp. Ties favor
//! video. The decision sequence is exhausted exactly when both queues are.

use vstd::prelude::*;
use crate::timing::TimeBase;

verus! {

/// Which elementary stream a demultiplexed packet belongs to.
#[derive(Clone, Copy, Debug, PartialEq, Eq, Structural)]
pub enum Route {
    /// The packet belongs to the chosen video stream.
    Video,
    /// The packet belongs to the chosen audio stream.
    Audio,
    /// The packet belongs to a stream playback ignores.
    Other,
}

/// The per-session stream layout, fixed when the media source is opened: the
/// container index and the time base of the chosen video and audio streams.
#[derive(Clone, Copy, Debug)]
pub struct StreamsData {
    /// Container index of the chosen video stream.
    pub video_stream_idx: usize,
    /// Container index of the chosen audio stream.
    pub audio_stream_idx: usize,
    /// Tick duration of the video stream.
    pub video_time_base: TimeBase,
    /// Tick duration of the audio stream.
    pub audio_time_base: TimeBase,
}

impl StreamsData {
    /// Both time bases carry a non-zero denominator.
    pub open spec fn wf(&self) -> bool {
        self.video_time_base.wf() && self.audio_time_base.wf()
    }
}

/// Where a packet with the given stream index is routed. The video stream is
/// tested first, so if the two chosen indices coincide the packet counts as
/// video.
pub open spec fn spec_route(stream_idx: int, video_idx: int, audio_idx: int) -> Route {
    if stream_idx == video_idx {
        Route::Video
    } else if stream_idx == audio_idx {
        Route::Audio
    } else {
        Route::Other
    }
}

/// The two ordered queues of compressed-unit timestamps for the currently
/// loaded segment, one per elementary stream, in demultiplexing order.
pub struct PacketBuffer {
    audio_pts: Vec<i64>,
    video_pts: Vec<i64>,
}

impl PacketBuffer {
    /// The audio queue: one presentation timestamp per audio compressed unit.
    pub closed spec fn audio_queue(&self) -> Seq<i64> {
        self.audio_pts@
    }

    /// The video queue: one presentation timestamp per video compressed unit.
    pub closed spec fn video_queue(&self) -> Seq<i64> {
        self.video_pts@
    }

    /// Two empty queues.
    pub fn new() -> (b: PacketBuffer)
        ensures
            b.audio_queue().len() == 0,
            b.video_queue().len() == 0,
    {
        PacketBuffer { audio_pts: Vec::new(), video_pts: Vec::new() }
    }

    /// Routes one demultiplexed packet: appends its timestamp to the queue of
    /// the stream it belongs to, in arrival order, and reports the route taken
    /// so the caller can file the packet's payload the same way.
    pub fn push_packet(&mut self, stream_idx: usize, streams: &StreamsData, pts: i64) -> (r: Route)
        ensures
            r == spec_route(
                stream_idx as int,
                streams.video_stream_idx as int,
                streams.audio_stream_idx as int,
            ),
            r is Video ==> final(self).video_queue() == old(self).video_queue().push(pts)
                && final(self).audio_queue() == old(self).audio_queue(),
            r is Audio ==> final(self).audio_queue() == old(self).audio_queue().push(pts)
                && final(self).video_queue() == old(self).video_queue(),
            r is Other ==> *final(self) == *old(self),
    {
        if stream_idx == streams.video_stream_idx {
            self.video_pts.push(pts);
            Route::Video
        } else if stream_idx == streams.audio_stream_idx {
            self.audio_pts.push(pts);
            Route::Audio
        } else {
            Route::Other
        }
    }

    /// How many audio units the segment holds.
    pub fn audio_len(&self) -> (n: usize)
        ensures
            n == self.audio_queue().len(),
    {
        self.audio_pts.len()
    }

    /// How many video units the segment holds.
    pub fn video_len(&self) -> (n: usize)
        ensures
            n == self.video_queue().len(),
    {
        self.video_pts.len()
    }
}

/// One scheduling decision: which units to decode next.
#[derive(Clone, Copy, Debug, PartialEq, Eq, Structural)]
pub enum SchedulerStep {
    /// Decode the audio units at queue indices `start .. start + count`;
    /// `first_pts` is the first unit's timestamp, the batch's pacing and
    /// comparison key.
    AudioBatch { start: usize, count: usize, first_pts: i64 },
    /// Decode the single video unit at queue index `index`, whose timestamp
    /// is `pts`.
    VideoUnit { index: usize, pts: i64 },
    /// Both queues are exhausted; the decode sequence has ended.
    Exhausted,
}

/// Walks the two packet queues and produces decode decisions in approximate
/// presentation order, never blocking: each step either consumes at least one
/// unit or reports exhaustion.
pub struct StreamScheduler {
    packets: PacketBuffer,
    audio_packet_idx: usize,
    video_packet_idx: usize,
    audio_batch: usize,
}

impl StreamScheduler {
    /// The audio queue being walked.
    pub closed spec fn audio_queue(&self) -> Seq<i64> {
        self.packets.audio_queue()
    }

    /// The video queue being walked.
    pub closed spec fn video_queue(&self) -> Seq<i64> {
        self.packets.video_queue()
    }

    /// Index of the next unqueued audio unit.
    pub closed spec fn audio_idx(&self) -> nat {
        self.audio_packet_idx as nat
    }

    /// Index of the next unqueued video unit.
    pub closed spec fn video_idx(&self) -> nat {
        self.video_packet_idx as nat
    }

    /// The audio batch size: how many audio units one step may decode.
    pub closed spec fn batch(&self) -> nat {
        self.audio_batch as nat
    }

    /// Invariant: the cursors never pass the queue ends and batches are
    /// non-empty.
    pub open spec fn wf(&self) -> bool {
        &&& self.audio_idx() <= self.audio_queue().len()
        &&& self.video_idx() <= self.video_queue().len()
        &&& self.batch() >= 1
    }

    /// All audio units have been scheduled.
    pub open spec fn audio_exhausted(&self) -> bool {
        self.audio_idx() == self.audio_queue().len()
    }

    /// All video units have been scheduled.
    pub open spec fn video_exhausted(&self) -> bool {
        self.video_idx() == self.video_queue().len()
    }

    /// Both queues are exhausted: the decision sequence has ended.
    pub open spec fn spec_exhausted(&self) -> bool {
        self.audio_exhausted() && self.video_exhausted()
    }

    /// The next step decodes audio: audio units remain, and either video is
    /// drained or the next audio timestamp is strictly lower than the next
    /// video timestamp.
    pub open spec fn spec_picks_audio(&self) -> bool {
        &&& !self.audio_exhausted()
        &&& (self.video_exhausted() || self.audio_queue()[self.audio_idx() as int]
            < self.video_queue()[self.video_idx() as int])
    }

    /// The next step decodes video: video units remain, and either audio is
    /// drained or the next video timestamp is at most the next audio
    /// timestamp (ties favor video).
    pub open spec fn spec_picks_video(&self) -> bool {
        &&& !self.video_exhausted()
        &&& (self.audio_exhausted() || self.video_queue()[self.video_idx() as int]
            <= self.audio_queue()[self.audio_idx() as int])
    }

    /// How many units an audio batch taken now would hold: the batch size,
    /// or whatever remains if that is less.
    pub open spec fn spec_audio_batch_count(&self) -> nat
        recommends
            self.wf(),
    {
        if self.audio_queue().len() - self.audio_idx() < self.batch() {
            (self.audio_queue().len() - self.audio_idx()) as nat
        } else {
            self.batch()
        }
    }

    /// How many units are still unscheduled, over both queues.
    pub open spec fn spec_units_remaining(&self) -> int
        recommends
            self.wf(),
    {
        (self.audio_queue().len() - self.audio_idx()) + (self.video_queue().len()
            - self.video_idx())
    }

    /// A scheduler at the start of the given segment's queues.
    pub fn new(packets: PacketBuffer, audio_batch: usize) -> (s: StreamScheduler)
        requires
            audio_batch >= 1,
        ensures
            s.wf(),
            s.audio_queue() == packets.audio_queue(),
            s.video_queue() == packets.video_queue(),
            s.audio_idx() == 0,
            s.video_idx() == 0,
            s.batch() == audio_batch,
    {
        StreamScheduler { packets, audio_packet_idx: 0, video_packet_idx: 0, audio_batch }
    }

    /// Takes the next audio batch: up to `batch` units starting at the audio
    /// cursor, keyed by the first unit's timestamp.
    fn take_audio_batch(&mut self) -> (step: SchedulerStep)
        requires
            old(self).wf(),
            !old(self).audio_exhausted(),
        ensures
            final(self).wf(),
            final(self).audio_queue() == old(self).audio_queue(),
            final(self).video_queue() == old(self).video_queue(),
            final(self).batch() == old(self).batch(),
            final(self).video_idx() == old(self).video_idx(),
            final(self).audio_idx() == old(self).audio_idx()
                + old(self).spec_audio_batch_count(),
            step == (SchedulerStep::AudioBatch {
                start: old(self).audio_idx() as usize,
                count: old(self).spec_audio_batch_count() as usize,
                first_pts: old(self).audio_queue()[old(self).audio_idx() as int],
            }),
    {
        let start = self.audio_packet_idx;
        let remaining = self.packets.audio_pts.len() - start;
        let count = if remaining < self.audio_batch {
            remaining
        } else {
            self.audio_batch
        };
        let first_pts = self.packets.audio_pts[start];
        self.audio_packet_idx = start + count;
        SchedulerStep::AudioBatch { start, count, first_pts }
    }

    /// Takes the next single video unit.
    fn take_video(&mut self) -> (step: SchedulerStep)
        requires
            old(self).wf(),
            !old(self).video_exhausted(),
        ensures
            final(self).wf(),
            final(self).audio_queue() == old(self).audio_queue(),
            final(self).video_queue() == old(self).video_queue(),
            final(self).batch() == old(self).batch(),
            final(self).audio_idx() == old(self).audio_idx(),
            final(self).video_idx() == old(self).video_idx() + 1,
            step == (SchedulerStep::VideoUnit {
                index: old(self).video_idx() as usize,
                pts: old(self).video_queue()[old(self).video_idx() as int],
            }),
    {
        let index = self.video_packet_idx;
        let len = self.packets.video_pts.len();
        assert(index < len);
        let pts = self.packets.video_pts[index];
        self.video_packet_idx = index + 1;
        SchedulerStep::VideoUnit { index, pts }
    }

    /// Produces the next decode decision. If both sides have units left, the
    /// side whose next unit carries the smaller timestamp goes first, video
    /// on ties; if only one side has units left, that side is drained; once
    /// both are drained every further step reports `Exhausted`. Every
    /// non-exhausted step consumes at least one unit, so the decision
    /// sequence always terminates and never blocks.
    pub fn next_step(&mut self) -> (step: SchedulerStep)
        requires
            old(self).wf(),
        ensures
            final(self).wf(),
            final(self).audio_queue() == old(self).audio_queue(),
            final(self).video_queue() == old(self).video_queue(),
            final(self).batch() == old(self).batch(),
            step is Exhausted <==> old(self).spec_exhausted(),
            old(self).spec_exhausted() ==> *final(self) == *old(self),
            old(self).spec_picks_audio() ==> ({
                &&& step == (SchedulerStep::AudioBatch {
                    start: old(self).audio_idx() as usize,
                    count: old(self).spec_audio_batch_count() as usize,
                    first_pts: old(self).audio_queue()[old(self).audio_idx() as int],
                })
                &&& final(self).audio_idx() == old(self).audio_idx()
                    + old(self).spec_audio_batch_count()
                &&& final(self).video_idx() == old(self).video_idx()
            }),
            old(self).spec_picks_video() ==> ({
                &&& step == (SchedulerStep::VideoUnit {
                    index: old(self).video_idx() as usize,
                    pts: old(self).video_queue()[old(self).video_idx() as int],
                })
                &&& final(self).video_idx() == old(self).video_idx() + 1
                &&& final(self).audio_idx() == old(self).audio_idx()
            }),
            !old(self).spec_exhausted() ==> final(self).spec_units_remaining() < old(
                self,
            ).spec_units_remaining(),
    {
        let audio_left = self.audio_packet_idx < self.packets.audio_pts.len();
        let video_left = self.video_packet_idx < self.packets.video_pts.len();
        if audio_left && video_left {
            let apts = self.packets.audio_pts[self.audio_packet_idx];
            let vpts = self.packets.video_pts[self.video_packet_idx];
            if apts < vpts {
                self.take_audio_batch()
            } else {
                self.take_video()
            }
        } else if audio_left {
            self.take_audio_batch()
        } else if video_left {
            self.take_video()
        } else {
            SchedulerStep::Exhausted
        }
    }
}

} // verus!
