//! Durations and stream instants, both counted in whole nanoseconds.
use vstd::prelude::*;

verus! {

/// The largest number of nanoseconds a [`Duration`] or [`StreamInstant`] can hold:
/// `u64::MAX` whole seconds plus 999_999_999 nanoseconds.
pub const MAX_NANOS: u128 = 18_446_744_073_709_551_615_999_999_999u128;

/// Nanoseconds in one second.
pub const NANOS_PER_SEC: u128 = 1_000_000_000u128;

/// A span of time with nanosecond precision.
#[derive(Clone, Copy, Debug, PartialEq, Eq, Structural)]
pub struct Duration {
    nanos: u128,
}

/// A point in time on a stream's clock, measured from that clock's epoch.
#[derive(Clone, Copy, Debug, PartialEq, Eq, Structural)]
pub struct StreamInstant {
    nanos: u128,
}

/// When a callback ran and when the device handles the data it carries.
#[derive(Clone, Copy, Debug, PartialEq, Eq, Structural)]
pub struct StreamTimestamp {
    pub callback: StreamInstant,
    pub device: StreamInstant,
}

impl View for Duration {
    type V = nat;

    closed spec fn view(&self) -> nat {
        self.nanos as nat
    }
}

impl View for StreamInstant {
    type V = nat;

    closed spec fn view(&self) -> nat {
        self.nanos as nat
    }
}

impl Duration {
    #[verifier::type_invariant]
    spec fn inv(self) -> bool {
        self.nanos <= MAX_NANOS
    }

    /// A duration of zero.
    pub fn zero() -> (d: Duration)
        ensures
            d@ == 0,
    {
        Duration { nanos: 0 }
    }

    /// `secs` seconds plus `nanos` nanoseconds; nanoseconds beyond a second carry over.
    pub fn new(secs: u64, nanos: u32) -> (d: Duration)
        requires
            secs * NANOS_PER_SEC + nanos <= MAX_NANOS,
        ensures
            d@ == secs * NANOS_PER_SEC + nanos,
    {
        Duration { nanos: secs as u128 * NANOS_PER_SEC + nanos as u128 }
    }

    /// A duration of `nanos` nanoseconds.
    pub fn from_nanos(nanos: u64) -> (d: Duration)
        ensures
            d@ == nanos,
    {
        Duration { nanos: nanos as u128 }
    }

    /// A duration of `micros` microseconds.
    pub fn from_micros(micros: u64) -> (d: Duration)
        ensures
            d@ == micros * 1000,
    {
        Duration { nanos: micros as u128 * 1000 }
    }

    /// A duration of `millis` milliseconds.
    pub fn from_millis(millis: u64) -> (d: Duration)
        ensures
            d@ == millis * 1_000_000,
    {
        Duration { nanos: millis as u128 * 1_000_000 }
    }

    /// A duration of `secs` seconds.
    pub fn from_secs(secs: u64) -> (d: Duration)
        ensures
            d@ == secs * NANOS_PER_SEC,
    {
        Duration { nanos: secs as u128 * NANOS_PER_SEC }
    }

    /// The whole duration in nanoseconds.
    pub fn as_nanos(&self) -> (n: u128)
        ensures
            n == self@,
            n <= MAX_NANOS,
    {
        proof {
            use_type_invariant(self);
        }
        self.nanos
    }

    /// The number of whole seconds.
    pub fn as_secs(&self) -> (s: u64)
        ensures
            s == self@ / (NANOS_PER_SEC as nat),
    {
        proof {
            use_type_invariant(self);
        }
        (self.nanos / NANOS_PER_SEC) as u64
    }

    /// The nanoseconds past the last whole second.
    pub fn subsec_nanos(&self) -> (n: u32)
        ensures
            n == self@ % (NANOS_PER_SEC as nat),
            n < 1_000_000_000,
    {
        (self.nanos % NANOS_PER_SEC) as u32
    }

    /// The sum of two durations, or `None` when it exceeds [`MAX_NANOS`].
    pub fn checked_add(&self, other: Duration) -> (r: Option<Duration>)
        ensures
            r is Some <==> self@ + other@ <= MAX_NANOS,
            r matches Some(d) ==> d@ == self@ + other@,
    {
        proof {
            use_type_invariant(self);
            use_type_invariant(&other);
        }
        if self.nanos <= MAX_NANOS - other.nanos {
            Some(Duration { nanos: self.nanos + other.nanos })
        } else {
            None
        }
    }
}

impl StreamInstant {
    #[verifier::type_invariant]
    spec fn inv(self) -> bool {
        self.nanos <= MAX_NANOS
    }

    /// The clock's epoch.
    pub fn zero() -> (i: StreamInstant)
        ensures
            i@ == 0,
    {
        StreamInstant { nanos: 0 }
    }

    /// The instant `secs` seconds plus `nanos` nanoseconds after the epoch.
    pub fn new(secs: u64, nanos: u32) -> (i: StreamInstant)
        requires
            secs * NANOS_PER_SEC + nanos <= MAX_NANOS,
        ensures
            i@ == secs * NANOS_PER_SEC + nanos,
    {
        StreamInstant { nanos: secs as u128 * NANOS_PER_SEC + nanos as u128 }
    }

    /// The instant `nanos` nanoseconds after the epoch.
    pub fn from_nanos(nanos: u64) -> (i: StreamInstant)
        ensures
            i@ == nanos,
    {
        StreamInstant { nanos: nanos as u128 }
    }

    /// The instant `micros` microseconds after the epoch.
    pub fn from_micros(micros: u64) -> (i: StreamInstant)
        ensures
            i@ == micros * 1000,
    {
        StreamInstant { nanos: micros as u128 * 1000 }
    }

    /// Nanoseconds since the epoch.
    pub fn as_nanos(&self) -> (n: u128)
        ensures
            n == self@,
            n <= MAX_NANOS,
    {
        proof {
            use_type_invariant(self);
        }
        self.nanos
    }

    /// The instant `d` later, or `None` when it cannot be represented.
    pub fn checked_add(&self, d: Duration) -> (r: Option<StreamInstant>)
        ensures
            r is Some <==> self@ + d@ <= MAX_NANOS,
            r matches Some(i) ==> i@ == self@ + d@,
    {
        proof {
            use_type_invariant(self);
        }
        let n = d.as_nanos();
        if self.nanos <= MAX_NANOS - n {
            Some(StreamInstant { nanos: self.nanos + n })
        } else {
            None
        }
    }

    /// The instant `d` later.
    pub fn add(&self, d: Duration) -> (r: StreamInstant)
        requires
            self@ + d@ <= MAX_NANOS,
        ensures
            r@ == self@ + d@,
    {
        proof {
            use_type_invariant(self);
        }
        let n = d.as_nanos();
        StreamInstant { nanos: self.nanos + n }
    }

    /// The instant `d` earlier, or `None` when that precedes the epoch.
    pub fn checked_sub(&self, d: Duration) -> (r: Option<StreamInstant>)
        ensures
            r is Some <==> d@ <= self@,
            r matches Some(i) ==> i@ == self@ - d@,
    {
        proof {
            use_type_invariant(self);
        }
        let n = d.as_nanos();
        if n <= self.nanos {
            Some(StreamInstant { nanos: self.nanos - n })
        } else {
            None
        }
    }

    /// The later of two instants.
    pub fn max(self, other: StreamInstant) -> (r: StreamInstant)
        ensures
            r@ == if self@ >= other@ { self@ } else { other@ },
    {
        if self.nanos >= other.nanos {
            self
        } else {
            other
        }
    }

    /// Whether `self` is strictly later than `other`.
    pub fn is_after(&self, other: &StreamInstant) -> (b: bool)
        ensures
            b == (self@ > other@),
    {
        self.nanos > other.nanos
    }
}

} // verus!
