//! Spans of time and points in time, counted in nanoseconds.
//!
//! `Duration` holds the same range of values as the standard library's
//! `Duration` (whole seconds that fit in a `u64`, plus less than a second of
//! nanoseconds). `Instant` is a point on a monotonic clock, given by its
//! distance from the clock's origin.
use vstd::prelude::*;

verus! {

/// Nanoseconds in one second.
pub const NANOS_PER_SEC: u128 = 1_000_000_000u128;

/// The largest span a `Duration` holds, in nanoseconds:
/// `u64::MAX` seconds plus `999_999_999` nanoseconds.
pub const MAX_NANOS: u128 = 18_446_744_073_709_551_615_999_999_999u128;

/// A span of time.
#[derive(Clone, Copy)]
pub struct Duration {
    nanos: u128,
}

impl Duration {
    /// Every span fits the range of the standard library's `Duration`.
    #[verifier::type_invariant]
    pub open spec fn in_range(self) -> bool {
        self.total_nanos() <= MAX_NANOS
    }

    /// The span in nanoseconds.
    pub closed spec fn total_nanos(self) -> nat {
        self.nanos as nat
    }

    /// The span of `secs` seconds and `nanos` nanoseconds; nanoseconds
    /// beyond a second carry into the seconds.
    pub fn new(secs: u64, nanos: u32) -> (d: Duration)
        requires
            secs * NANOS_PER_SEC + nanos <= MAX_NANOS,
        ensures
            d@ == secs * NANOS_PER_SEC + nanos,
    {
        let total = (secs as u128) * NANOS_PER_SEC + (nanos as u128);
        Duration { nanos: total }
    }

    /// The span of `secs` whole seconds.
    pub fn from_secs(secs: u64) -> (d: Duration)
        ensures
            d@ == secs * NANOS_PER_SEC,
    {
        Duration { nanos: (secs as u128) * NANOS_PER_SEC }
    }

    /// The empty span.
    pub fn zero() -> (d: Duration)
        ensures
            d@ == 0,
    {
        Duration { nanos: 0 }
    }

    /// The span of `nanos` nanoseconds.
    pub fn from_nanos(nanos: u128) -> (d: Duration)
        requires
            nanos <= MAX_NANOS,
        ensures
            d@ == nanos,
    {
        Duration { nanos }
    }

    /// The whole seconds of the span.
    pub fn as_secs(&self) -> (s: u64)
        ensures
            s == self@ / (NANOS_PER_SEC as nat),
    {
        proof {
            use_type_invariant(self);
        }
        (self.nanos / NANOS_PER_SEC) as u64
    }

    /// The nanoseconds of the span beyond its whole seconds.
    pub fn subsec_nanos(&self) -> (n: u32)
        ensures
            n == self@ % (NANOS_PER_SEC as nat),
            n < NANOS_PER_SEC,
    {
        (self.nanos % NANOS_PER_SEC) as u32
    }

    /// The span in nanoseconds.
    pub fn as_nanos(&self) -> (n: u128)
        ensures
            n == self@,
    {
        self.nanos
    }

    /// The sum of two spans, or `None` where it leaves the range.
    pub fn checked_add(&self, other: &Duration) -> (r: Option<Duration>)
        ensures
            r matches Some(d) ==> d@ == self@ + other@,
            r is None <==> self@ + other@ > MAX_NANOS,
    {
        proof {
            use_type_invariant(self);
            use_type_invariant(other);
        }
        let sum = self.nanos + other.nanos;
        if sum <= MAX_NANOS {
            Some(Duration { nanos: sum })
        } else {
            None
        }
    }

    /// The sum of two spans that stays in range.
    pub fn add(&self, other: &Duration) -> (d: Duration)
        requires
            self@ + other@ <= MAX_NANOS,
        ensures
            d@ == self@ + other@,
    {
        Duration { nanos: self.nanos + other.nanos }
    }

    /// The difference of two spans, or zero where `other` is the longer one.
    pub fn saturating_sub(&self, other: &Duration) -> (d: Duration)
        ensures
            d@ == if self@ >= other@ { self@ - other@ } else { 0 },
    {
        proof {
            use_type_invariant(self);
        }
        if self.nanos >= other.nanos {
            Duration { nanos: self.nanos - other.nanos }
        } else {
            Duration { nanos: 0 }
        }
    }

    /// Whether two spans are equal.
    pub fn same(&self, other: &Duration) -> (b: bool)
        ensures
            b == (self@ == other@),
    {
        self.nanos == other.nanos
    }

    /// A copy of the span.
    pub fn copy(&self) -> (d: Duration)
        ensures
            d@ == self@,
    {
        proof {
            use_type_invariant(self);
        }
        Duration { nanos: self.nanos }
    }
}

impl View for Duration {
    type V = nat;

    open spec fn view(&self) -> nat {
        self.total_nanos()
    }
}

/// A point in time on a monotonic clock.
#[derive(Clone, Copy)]
pub struct Instant {
    since_origin: Duration,
}

impl Instant {
    /// The distance from the clock's origin, in nanoseconds.
    pub closed spec fn point(self) -> nat {
        self.since_origin@
    }

    /// The point that lies `d` after the clock's origin.
    pub fn from_origin(d: Duration) -> (i: Instant)
        ensures
            i@ == d@,
    {
        Instant { since_origin: d }
    }

    /// The distance from the clock's origin.
    pub fn since_origin(&self) -> (d: Duration)
        ensures
            d@ == self@,
    {
        self.since_origin.copy()
    }

    /// The time elapsed from `earlier` to `self`, or zero where `earlier`
    /// is the later point.
    pub fn duration_since(&self, earlier: &Instant) -> (d: Duration)
        ensures
            d@ == elapsed(earlier@, self@),
    {
        self.since_origin.saturating_sub(&earlier.since_origin)
    }

    /// A copy of the point.
    pub fn copy(&self) -> (i: Instant)
        ensures
            i@ == self@,
    {
        Instant { since_origin: self.since_origin.copy() }
    }
}

impl View for Instant {
    type V = nat;

    open spec fn view(&self) -> nat {
        self.point()
    }
}

/// The time from `from` to `to` on the same clock, zero where `to` comes first.
pub open spec fn elapsed(from: nat, to: nat) -> nat {
    if to >= from {
        (to - from) as nat
    } else {
        0
    }
}

} // verus!
