//! Render-loop arithmetic for WASAPI: timestamps of exclusive-mode packets, packet sizing,
//! the device clock, period alignment and the end of submitted audio.
use vstd::prelude::*;
use crate::time::{Duration, StreamInstant, StreamTimestamp, MAX_NANOS};

verus! {

/// Whether the priming render call handed a buffer to the device.
#[derive(Clone, Copy, Debug, PartialEq, Eq, Structural)]
pub enum RenderOutcome {
    Submitted,
    Skipped,
}

/// The instant from which queued audio is measured: the device's QPC snapshot, or the
/// invocation time when the device still reports a zero snapshot.
pub open spec fn timestamp_anchor(snapshot: nat, now: nat) -> nat {
    if snapshot == 0 { now } else { snapshot }
}

/// The larger of two naturals.
pub open spec fn max_nat(a: nat, b: nat) -> nat {
    if a >= b { a } else { b }
}

/// Timestamp of an exclusive-mode packet: the callback time is `now`; the device time is
/// the anchor plus the queued duration, never earlier than `now`.
pub fn exclusive_timestamp(
    snapshot: StreamInstant,
    now: StreamInstant,
    queued: Duration,
) -> (ts: StreamTimestamp)
    requires
        timestamp_anchor(snapshot@, now@) + queued@ <= MAX_NANOS,
    ensures
        ts.callback@ == now@,
        ts.device@ == max_nat(timestamp_anchor(snapshot@, now@) + queued@, now@),
{
    let anchor = if snapshot.as_nanos() == 0 {
        now
    } else {
        snapshot
    };
    StreamTimestamp { callback: now, device: anchor.add(queued).max(now) }
}

/// The device is started after priming only when priming submitted a buffer.
pub fn start_after_prime(outcome: RenderOutcome) -> (b: bool)
    ensures
        b <==> outcome == RenderOutcome::Submitted,
{
    outcome == RenderOutcome::Submitted
}

/// A period is re-aligned only on the first attempt and only when the device reported
/// misalignment.
pub fn retry_alignment(attempt: usize, unaligned: bool) -> (b: bool)
    ensures
        b <==> (attempt == 0 && unaligned),
{
    attempt == 0 && unaligned
}

/// Frames to render this pass: exclusive mode always fills the whole buffer; shared mode
/// fills what is not already queued (`padding`), and nothing when the queue is full.
pub fn packet_frames(exclusive: bool, capacity: u32, padding: u32) -> (n: u32)
    ensures
        exclusive ==> n == capacity,
        !exclusive ==> n == (if padding <= capacity { capacity - padding } else { 0 }),
{
    if exclusive {
        capacity
    } else {
        capacity.saturating_sub(padding)
    }
}

/// Frames the device clock reports as played: `position` clock ticks at `frequency` ticks
/// per second, converted to frames at `rate`, saturated to `u64::MAX`; zero when the clock
/// reports no frequency.
pub open spec fn spec_played_frames(position: nat, rate: nat, frequency: nat) -> nat {
    if frequency == 0 {
        0
    } else {
        let f = position * rate / frequency;
        if f <= u64::MAX { f } else { u64::MAX as nat }
    }
}

pub fn played_frames(position: u64, rate: u32, frequency: u64) -> (n: u64)
    ensures
        n == spec_played_frames(position as nat, rate as nat, frequency as nat),
{
    if frequency == 0 {
        return 0;
    }
    assert(position as u128 * rate as u128 <= u64::MAX as u128 * u32::MAX as u128)
        by (nonlinear_arith);
    let product: u128 = position as u128 * rate as u128;
    let f: u128 = product / frequency as u128;
    if f <= u64::MAX as u128 {
        f as u64
    } else {
        u64::MAX
    }
}

/// A period of `frames` frames at `rate` frames per second, in 100-nanosecond units rounded
/// to nearest, and at least one unit.
pub open spec fn spec_aligned_period(frames: nat, rate: nat) -> nat {
    let p = (frames * 10_000_000 + rate / 2) / rate;
    if p >= 1 { p } else { 1 }
}

pub fn aligned_period(frames: u32, rate: u32) -> (r: Option<i64>)
    ensures
        r is None <==> (frames == 0 || rate == 0),
        r matches Some(p) ==> p == spec_aligned_period(frames as nat, rate as nat),
{
    if frames == 0 || rate == 0 {
        return None;
    }
    assert(frames as u64 * 10_000_000 <= u32::MAX as u64 * 10_000_000) by (nonlinear_arith)
        requires frames <= u32::MAX;
    let p: u64 = (frames as u64 * 10_000_000 + rate as u64 / 2) / rate as u64;
    let p: u64 = if p >= 1 { p } else { 1 };
    Some(p as i64)
}

/// Frame position after which newly submitted audio ends: `frames` past whichever is later,
/// what was written before or what has played, saturating at `u64::MAX`.
pub open spec fn spec_submission_end(written: nat, played: nat, frames: nat) -> nat {
    let e = max_nat(written, played) + frames;
    if e <= u64::MAX { e } else { u64::MAX as nat }
}

pub fn submission_end(written: u64, played: u64, frames: u32) -> (e: u64)
    ensures
        e == spec_submission_end(written as nat, played as nat, frames as nat),
{
    let base = if written >= played { written } else { played };
    base.saturating_add(frames as u64)
}

/// A period computed by [`aligned_period`] converts back to the same frame count when rounded
/// to nearest, for every sample rate below ten million frames per second.
pub proof fn lemma_aligned_period_round_trip(frames: nat, rate: nat)
    requires
        0 < frames,
        0 < rate < 10_000_000,
    ensures
        (spec_aligned_period(frames, rate) * rate + 5_000_000) / 10_000_000 == frames,
{
    let p = (frames * 10_000_000 + rate / 2) / rate;
    assert(p >= 1) by (nonlinear_arith)
        requires
            p == (frames * 10_000_000 + rate / 2) / rate,
            0 < frames,
            0 < rate < 10_000_000,
    ;
    round_trip_core(frames, rate, p);
}

/// Rounding `frames * 10^7 / rate` to nearest and scaling back by `rate / 10^7`, again
/// rounding to nearest, gives `frames` whenever `rate < 10^7`.
proof fn round_trip_core(frames: nat, rate: nat, p: nat)
    requires
        0 < rate < 10_000_000,
        p == (frames * 10_000_000 + rate / 2) / rate,
    ensures
        (p * rate + 5_000_000) / 10_000_000 == frames,
{
    let x = frames * 10_000_000 + rate / 2;
    let r = x % rate;
    assert(x == p * rate + r && 0 <= r < rate) by (nonlinear_arith)
        requires
            rate > 0,
            p == x / rate,
            r == x % rate,
    ;
    // p * rate lies within half a rate of frames * 10^7.
    assert(p * rate <= frames * 10_000_000 + rate / 2);
    assert(p * rate + rate > frames * 10_000_000 + rate / 2);
    let y = p * rate + 5_000_000;
    assert(frames * 10_000_000 <= y < frames * 10_000_000 + 10_000_000);
    assert(y / 10_000_000 == frames) by (nonlinear_arith)
        requires
            frames * 10_000_000 <= y < frames * 10_000_000 + 10_000_000,
    ;
}

/// A packet's device time is never before its callback time, and the callback time is the
/// invocation time.
pub proof fn lemma_exclusive_timestamp_not_in_past(snapshot: nat, now: nat, queued: nat)
    ensures
        max_nat(timestamp_anchor(snapshot, now) + queued, now) >= now,
        snapshot == 0 ==> max_nat(timestamp_anchor(snapshot, now) + queued, now) == now + queued,
{
}

/// Submitting more audio never moves its end before what was written or what has played.
pub proof fn lemma_submission_end_monotone(written: nat, played: nat, frames: nat)
    requires
        written <= u64::MAX,
        played <= u64::MAX,
    ensures
        spec_submission_end(written, played, frames) >= written,
        spec_submission_end(written, played, frames) >= played,
{
}

/// The played-frame count grows with the clock position.
pub proof fn lemma_played_frames_monotone(p1: nat, p2: nat, rate: nat, frequency: nat)
    requires
        p1 <= p2,
    ensures
        spec_played_frames(p1, rate, frequency) <= spec_played_frames(p2, rate, frequency),
{
    if frequency > 0 {
        assert(p1 * rate / frequency <= p2 * rate / frequency) by (nonlinear_arith)
            requires
                p1 <= p2,
                frequency > 0,
        ;
    }
}

} // verus!
