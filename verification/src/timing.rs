//! Timestamp conversion and pacing. A stream's time base is a rational tick
//! duration fixed at stream open time; a presentation timestamp is a tick
//! count. Conversion maps a tick count to a wall-clock offset held exactly, as
//! a rational number of nanoseconds, so no precision is lost and the mapping
//! is exactly linear. Pacing turns a target offset and the nanoseconds elapsed
//! since the playback clock started into a hold-back delay, clamped to zero
//! for late frames.

use vstd::prelude::*;
use vstd::arithmetic::div_mod::lemma_div_pos_is_pos;
use vstd::arithmetic::mul::lemma_mul_upper_bound;
use crate::error::PlaybackError;

verus! {

/// Nanoseconds in one second.
pub const NANOS_PER_SEC: u64 = 1_000_000_000;

/// A stream's rational tick duration: one tick lasts `num / den` seconds.
/// Fixed when the stream is opened; never mutated.
#[derive(Clone, Copy, Debug, PartialEq, Eq, Structural)]
pub struct TimeBase {
    /// Numerator of the tick duration, in seconds.
    pub num: u32,
    /// Denominator of the tick duration. Always at least one.
    pub den: u32,
}

impl TimeBase {
    /// The denominator of a time base is never zero.
    pub open spec fn wf(&self) -> bool {
        self.den >= 1
    }
}

/// A wall-clock offset from the playback clock, held exactly: the offset is
/// `subnanos / den` nanoseconds.
#[derive(Clone, Copy, Debug, PartialEq, Eq, Structural)]
pub struct WallOffset {
    /// The offset, in units of `1 / den` nanoseconds.
    pub subnanos: u128,
    /// Denominator carried over from the stream's time base. At least one.
    pub den: u32,
}

impl WallOffset {
    /// The denominator of an offset is never zero.
    pub open spec fn wf(&self) -> bool {
        self.den >= 1
    }
}

/// The exact wall-clock offset of a tick count, in `1 / den` nanosecond
/// units: `pts * num * 1_000_000_000`.
pub open spec fn spec_subnanos(pts: int, num: int) -> int {
    pts * num * 1_000_000_000
}

/// Converts a presentation timestamp to its wall-clock offset from the start
/// of playback: `pts * (num / den)` seconds, represented exactly.
pub fn wall_offset(pts: i64, tb: &TimeBase) -> (off: WallOffset)
    requires
        pts >= 0,
        tb.wf(),
    ensures
        off.wf(),
        off.den == tb.den,
        off.subnanos == spec_subnanos(pts as int, tb.num as int),
{
    proof {
        lemma_mul_upper_bound(pts as int, i64::MAX as int, tb.num as int, u32::MAX as int);
        lemma_mul_upper_bound(
            pts as int * tb.num as int,
            i64::MAX as int * u32::MAX as int,
            1_000_000_000,
            1_000_000_000,
        );
    }
    let ticks: u128 = (pts as u128) * (tb.num as u128);
    WallOffset { subnanos: ticks * (NANOS_PER_SEC as u128), den: tb.den }
}

/// Converts a decoded frame's timestamp, failing exactly when the frame
/// carries none: without a timestamp its presentation order is undefined.
pub fn frame_wall_offset(pts: Option<i64>, tb: &TimeBase) -> (r: Result<
    WallOffset,
    PlaybackError,
>)
    requires
        tb.wf(),
        pts matches Some(p) ==> p >= 0,
    ensures
        r is Err <==> pts is None,
        pts matches Some(p) ==> ({
            &&& r matches Ok(off)
            &&& off.wf()
            &&& off.den == tb.den
            &&& off.subnanos == spec_subnanos(p as int, tb.num as int)
        }),
        pts is None ==> r == Err::<WallOffset, PlaybackError>(PlaybackError::MissingTimestamp),
{
    match pts {
        Some(p) => Ok(wall_offset(p, tb)),
        None => Err(PlaybackError::MissingTimestamp),
    }
}

/// The nanoseconds to hold a frame back: the target offset minus the elapsed
/// time, clamped to zero once the target has passed.
pub open spec fn spec_pacing_delay(subnanos: int, den: int, elapsed: int) -> int
    recommends
        den >= 1,
{
    if elapsed * den >= subnanos {
        0
    } else {
        (subnanos - elapsed * den) / den
    }
}

/// Computes how long to hold before presenting or playing a frame whose
/// target offset is `target`, given the nanoseconds elapsed since the
/// playback clock was captured. Late frames get a zero delay: they are
/// presented immediately, never dropped.
pub fn pacing_delay_nanos(target: &WallOffset, elapsed_nanos: u64) -> (d: u128)
    requires
        target.wf(),
    ensures
        d == spec_pacing_delay(target.subnanos as int, target.den as int, elapsed_nanos as int),
        elapsed_nanos as int * target.den as int >= target.subnanos ==> d == 0,
{
    proof {
        lemma_mul_upper_bound(
            elapsed_nanos as int,
            u64::MAX as int,
            target.den as int,
            u32::MAX as int,
        );
    }
    let scaled_elapsed: u128 = (elapsed_nanos as u128) * (target.den as u128);
    if scaled_elapsed >= target.subnanos {
        0
    } else {
        (target.subnanos - scaled_elapsed) / (target.den as u128)
    }
}

/// Timestamp conversion is linear: tick `2 * k` converts to exactly twice the
/// wall-clock offset of tick `k`, for any fixed time base. (Both offsets
/// carry the same denominator, so doubling the numerator doubles the offset.)
pub proof fn lemma_conversion_linear(k: int, tb: TimeBase)
    ensures
        spec_subnanos(2 * k, tb.num as int) == 2 * spec_subnanos(k, tb.num as int),
{
    let n = tb.num as int;
    assert((2 * k) * n * 1_000_000_000 == 2 * (k * n * 1_000_000_000)) by (nonlinear_arith);
}

/// The pacing delay is monotonically non-negative, and is exactly zero
/// whenever the current instant has reached or passed the frame's target,
/// that is, whenever `now >= playback_clock + target_offset` (the elapsed
/// nanoseconds, scaled by the offset's denominator, are at or past the
/// target).
pub proof fn lemma_pacing_delay_clamped(subnanos: int, den: int, elapsed: int)
    requires
        den >= 1,
    ensures
        spec_pacing_delay(subnanos, den, elapsed) >= 0,
        elapsed * den >= subnanos ==> spec_pacing_delay(subnanos, den, elapsed) == 0,
{
    if elapsed * den < subnanos {
        lemma_div_pos_is_pos(subnanos - elapsed * den, den);
    }
}

} // verus!
