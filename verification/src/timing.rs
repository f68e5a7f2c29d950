//! Frame-count durations and timestamps that never move backwards.
use vstd::prelude::*;
use crate::format::{FrameCount, SampleRate};
use crate::time::{Duration, StreamInstant, MAX_NANOS, NANOS_PER_SEC};

verus! {

/// `frames` at `rate` frames per second in nanoseconds, rounded to nearest; zero for a zero
/// rate.
pub open spec fn spec_frames_to_nanos(frames: nat, rate: nat) -> nat {
    if rate == 0 {
        0
    } else {
        (frames * 1_000_000_000 + rate / 2) / rate
    }
}

/// Splitting off whole seconds before rounding the remainder gives the same rounded total.
proof fn lemma_split_rounding(frames: nat, rate: nat)
    requires
        rate > 0,
    ensures
        (frames / rate) * 1_000_000_000 + ((frames % rate) * 1_000_000_000 + rate / 2) / rate
            == (frames * 1_000_000_000 + rate / 2) / rate,
        ((frames % rate) * 1_000_000_000 + rate / 2) / rate <= 1_000_000_000,
{
    let q = frames / rate;
    let r = frames % rate;
    assert(frames == q * rate + r && r < rate) by (nonlinear_arith)
        requires
            rate > 0,
            q == frames / rate,
            r == frames % rate,
    ;
    let a = r * 1_000_000_000 + rate / 2;
    let qa = a / rate;
    let ra = a % rate;
    assert(a == qa * rate + ra && ra < rate && ra >= 0) by (nonlinear_arith)
        requires
            rate > 0,
            qa == a / rate,
            ra == a % rate,
    ;
    assert(frames * 1_000_000_000 + rate / 2 == (q * 1_000_000_000 + qa) * rate + ra)
        by (nonlinear_arith)
        requires
            frames == q * rate + r,
            a == r * 1_000_000_000 + rate / 2,
            a == qa * rate + ra,
    ;
    assert((frames * 1_000_000_000 + rate / 2) / rate == q * 1_000_000_000 + qa)
        by (nonlinear_arith)
        requires
            frames * 1_000_000_000 + rate / 2 == (q * 1_000_000_000 + qa) * rate + ra,
            0 <= ra < rate,
            q >= 0,
            qa >= 0,
    ;
    assert(qa <= 1_000_000_000) by (nonlinear_arith)
        requires
            a == qa * rate + ra,
            a == r * 1_000_000_000 + rate / 2,
            r + 1 <= rate,
            ra >= 0,
            rate > 0,
    ;
}

/// `frames` at `rate` frames per second as a duration, rounded to the nearest nanosecond.
pub fn frames_to_duration(frames: FrameCount, rate: SampleRate) -> (d: Duration)
    ensures
        d@ == spec_frames_to_nanos(frames as nat, rate as nat),
{
    if rate == 0 {
        return Duration::zero();
    }
    let rate64 = rate as u64;
    let secs = frames as u64 / rate64;
    let rem_frames = frames as u64 % rate64;
    proof {
        lemma_split_rounding(frames as nat, rate as nat);
    }
    assert(rem_frames * 1_000_000_000 <= u32::MAX as u64 * 1_000_000_000) by (nonlinear_arith)
        requires rem_frames <= u32::MAX;
    let nanos = (rem_frames * 1_000_000_000 + rate64 / 2) / rate64;
    assert(secs <= u32::MAX);
    assert(secs * NANOS_PER_SEC + nanos <= MAX_NANOS) by (nonlinear_arith)
        requires secs <= u32::MAX, nanos <= 1_000_000_000;
    Duration::new(secs, nanos as u32)
}

/// The floor after observing an instant of `instant` nanoseconds: the later of the old floor and
/// the instant saturated to `u64::MAX`.
pub open spec fn spec_next_floor(floor: nat, instant: nat) -> nat {
    let n = if instant <= u64::MAX { instant } else { u64::MAX as nat };
    if n > floor { n } else { floor }
}

/// Clamps `instant` so that it never precedes an instant already returned; `floor` keeps the
/// latest value returned so far, in nanoseconds saturated to `u64::MAX`.
pub fn non_decreasing(floor: &mut u64, instant: StreamInstant) -> (r: StreamInstant)
    ensures
        *final(floor) == spec_next_floor(*old(floor) as nat, instant@),
        r@ == *final(floor),
{
    let n = instant.as_nanos();
    let nanos: u64 = if n <= u64::MAX as u128 {
        n as u64
    } else {
        u64::MAX
    };
    if nanos > *floor {
        *floor = nanos;
    }
    StreamInstant::from_nanos(*floor)
}

/// Frame durations grow with the number of frames.
pub proof fn lemma_frames_to_nanos_monotone(f1: nat, f2: nat, rate: nat)
    requires
        f1 <= f2,
    ensures
        spec_frames_to_nanos(f1, rate) <= spec_frames_to_nanos(f2, rate),
{
    if rate > 0 {
        assert((f1 * 1_000_000_000 + rate / 2) / rate <= (f2 * 1_000_000_000 + rate / 2) / rate)
            by (nonlinear_arith)
            requires
                f1 <= f2,
                rate > 0,
        ;
    }
}

/// A whole number of seconds of frames is exactly that many seconds.
pub proof fn lemma_frames_to_nanos_whole_seconds(secs: nat, rate: nat)
    requires
        rate > 0,
    ensures
        spec_frames_to_nanos(secs * rate, rate) == secs * 1_000_000_000,
{
    assert((secs * rate * 1_000_000_000 + rate / 2) / rate == secs * 1_000_000_000)
        by (nonlinear_arith)
        requires
            rate > 0,
    {
        assert(secs * rate * 1_000_000_000 + rate / 2 == (secs * 1_000_000_000) * rate + rate / 2);
        assert(rate / 2 < rate);
    }
}

/// Feeding instants through [`non_decreasing`] one after another yields a non-decreasing
/// sequence: every result is at least the previous floor, so the second result is never before
/// the first.
pub proof fn lemma_non_decreasing_chain(floor0: nat, a: nat, b: nat)
    requires
        floor0 <= u64::MAX,
    ensures
        spec_next_floor(floor0, a) >= floor0,
        spec_next_floor(floor0, a) <= u64::MAX,
        spec_next_floor(spec_next_floor(floor0, a), b) >= spec_next_floor(floor0, a),
        a <= u64::MAX ==> spec_next_floor(floor0, a) >= a,
{
}

} // verus!
