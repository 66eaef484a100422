//! End-of-stream coordination between the decode thread and the real-time
//! audio pull callback. After the decode sequence is exhausted the session
//! must stay alive until the audio sink has drained the buffer; the callback
//! fires a one-time end-of-stream signal when the buffer is permanently
//! exhausted — decoding finished and nothing left to pull — and only that
//! signal lets the main thread's wait/notify terminate the session.

use vstd::prelude::*;

verus! {

/// The audio callback's decision for one invocation.
#[derive(Clone, Copy, Debug, PartialEq, Eq, Structural)]
pub struct PullPlan {
    /// How many samples to pull during this invocation.
    pub count: usize,
    /// Whether this invocation fires the one-time end-of-stream signal.
    pub end_of_stream: bool,
}

/// A callback invocation fires end-of-stream exactly when the buffer is
/// permanently exhausted — decoding has finished and no sample remains — and
/// the signal has not fired before. A merely starved buffer (decoding still
/// running) never fires it.
pub open spec fn spec_poll_fires(decode_done: bool, eos_fired: bool, remaining: nat) -> bool {
    decode_done && remaining == 0 && !eos_fired
}

/// The shared end-of-stream state. The decode thread marks decoding done;
/// each audio callback invocation polls it, under the same lock as the
/// buffer, to plan its pulls and to fire the terminal signal.
pub struct PlaybackCoordinator {
    decode_done: bool,
    eos_fired: bool,
}

impl PlaybackCoordinator {
    /// Whether the decode sequence has been exhausted.
    pub closed spec fn decode_done(&self) -> bool {
        self.decode_done
    }

    /// Whether the one-time end-of-stream signal has fired.
    pub closed spec fn eos_fired(&self) -> bool {
        self.eos_fired
    }

    /// Invariant: end-of-stream can only have fired after decoding finished.
    pub open spec fn wf(&self) -> bool {
        self.eos_fired() ==> self.decode_done()
    }

    /// A fresh session: decoding still running, signal not fired.
    pub fn new() -> (c: PlaybackCoordinator)
        ensures
            c.wf(),
            !c.decode_done(),
            !c.eos_fired(),
    {
        PlaybackCoordinator { decode_done: false, eos_fired: false }
    }

    /// Records that the decode sequence is exhausted: no further sample will
    /// ever be appended.
    pub fn mark_decode_done(&mut self)
        requires
            old(self).wf(),
        ensures
            final(self).wf(),
            final(self).decode_done(),
            final(self).eos_fired() == old(self).eos_fired(),
    {
        self.decode_done = true;
    }

    /// Plans one audio callback invocation given how many samples the device
    /// requested and how many remain in the buffer: pull the smaller of the
    /// two — the callback never waits on the decode thread — and fire the
    /// end-of-stream signal exactly once, the first time the buffer is
    /// permanently exhausted.
    pub fn audio_callback_poll(&mut self, requested: usize, remaining: usize) -> (plan: PullPlan)
        requires
            old(self).wf(),
        ensures
            final(self).wf(),
            final(self).decode_done() == old(self).decode_done(),
            plan.count == if remaining < requested {
                remaining
            } else {
                requested
            },
            plan.end_of_stream == spec_poll_fires(
                old(self).decode_done(),
                old(self).eos_fired(),
                remaining as nat,
            ),
            final(self).eos_fired() == (old(self).eos_fired() || plan.end_of_stream),
    {
        let count = if remaining < requested {
            remaining
        } else {
            requested
        };
        let fire = self.decode_done && remaining == 0 && !self.eos_fired;
        if fire {
            self.eos_fired = true;
        }
        PullPlan { count, end_of_stream: fire }
    }

    /// Whether the main thread, woken from its wait, may let the session end:
    /// only after the end-of-stream signal has fired.
    pub fn should_terminate(&self) -> (r: bool)
        requires
            self.wf(),
        ensures
            r == self.eos_fired(),
    {
        self.eos_fired
    }
}

/// The session never terminates before the audio sink has drained the
/// buffer: while decoding is unfinished, or any sample remains to be pulled,
/// a callback invocation never fires end-of-stream, so `should_terminate`
/// stays false for a session whose signal has not fired.
pub proof fn lemma_no_early_end_of_stream(decode_done: bool, eos_fired: bool, remaining: nat)
    ensures
        !decode_done || remaining > 0 ==> !spec_poll_fires(decode_done, eos_fired, remaining),
{
}

/// End-of-stream fires exactly once: after the signal has fired, no later
/// callback invocation fires it again.
pub proof fn lemma_end_of_stream_fires_once(decode_done: bool, remaining: nat)
    ensures
        !spec_poll_fires(decode_done, true, remaining),
{
}

} // verus!
