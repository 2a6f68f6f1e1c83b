//! Plain-value time quantities for timeout accounting.
//!
//! A [`Duration`] is a span of time; a [`Timespec`] is a point on the
//! monotonic clock, in the shape the kernel uses (whole seconds plus a
//! normalized sub-second nanosecond part). Timed waits turn a relative
//! `Duration` into an absolute `Timespec` deadline once, and recompute the
//! remaining budget from elapsed monotonic time, so that predicate re-checks
//! never reset a caller's total time budget.

use vstd::prelude::*;

verus! {

/// Nanoseconds in one second; the sub-second part of a normalized time
/// value is always below this.
pub const NANOS_PER_SEC: u32 = 1_000_000_000;

/// A non-negative span of time: whole seconds plus a sub-second part.
#[derive(Clone, Copy, PartialEq, Eq, Structural, Debug)]
pub struct Duration {
    pub secs: u64,
    pub nanos: u32,
}

impl Duration {
    /// A `Duration` is normalized: the nanosecond part never reaches a
    /// whole second.
    pub open spec fn wf(self) -> bool {
        self.nanos < NANOS_PER_SEC
    }

    /// The span as a total count of nanoseconds.
    pub open spec fn as_nanos(self) -> int {
        self.secs * NANOS_PER_SEC + self.nanos
    }

    pub fn new(secs: u64, nanos: u32) -> (r: Duration)
        requires
            nanos < NANOS_PER_SEC,
        ensures
            r.wf(),
            r.as_nanos() == secs * NANOS_PER_SEC + nanos,
    {
        Duration { secs, nanos }
    }

    pub fn from_millis(ms: u64) -> (r: Duration)
        ensures
            r.wf(),
            r.as_nanos() == ms * 1_000_000,
    {
        let secs: u64 = ms / 1000;
        let sub: u64 = ms % 1000;
        proof {
            assert(ms == 1000 * (ms / 1000) + ms % 1000) by (nonlinear_arith);
            assert((1000 * (ms / 1000) + ms % 1000) * 1_000_000
                == (ms / 1000) * 1_000_000_000 + (ms % 1000) * 1_000_000) by (nonlinear_arith);
        }
        Duration { secs, nanos: (sub * 1_000_000) as u32 }
    }

    /// The span left after taking `other` away, or `None` if `other` is
    /// the longer span.
    pub fn checked_sub(self, other: Duration) -> (r: Option<Duration>)
        requires
            self.wf(),
            other.wf(),
        ensures
            r is Some <==> self.as_nanos() >= other.as_nanos(),
            r is Some ==> r->0.wf() && r->0.as_nanos() == self.as_nanos() - other.as_nanos(),
    {
        if self.secs > other.secs {
            if self.nanos >= other.nanos {
                Some(Duration { secs: self.secs - other.secs, nanos: self.nanos - other.nanos })
            } else {
                Some(
                    Duration {
                        secs: self.secs - other.secs - 1,
                        nanos: (self.nanos + NANOS_PER_SEC) - other.nanos,
                    },
                )
            }
        } else if self.secs == other.secs && self.nanos >= other.nanos {
            Some(Duration { secs: 0, nanos: self.nanos - other.nanos })
        } else {
            None
        }
    }
}

/// A point on the monotonic clock, in the kernel's shape: whole seconds
/// and a normalized nanosecond part, both as signed 64-bit counts.
#[derive(Clone, Copy, PartialEq, Eq, Structural, Debug)]
pub struct Timespec {
    pub tv_sec: i64,
    pub tv_nsec: i64,
}

impl Timespec {
    /// A `Timespec` read from the monotonic clock is non-negative and
    /// normalized.
    pub open spec fn wf(self) -> bool {
        0 <= self.tv_sec && 0 <= self.tv_nsec < NANOS_PER_SEC
    }

    /// The instant as a total count of nanoseconds since the clock's zero
    /// point.
    pub open spec fn as_nanos(self) -> int {
        self.tv_sec * NANOS_PER_SEC + self.tv_nsec
    }

    /// The instant `dur` later than `self`, or `None` where the seconds
    /// count would no longer fit; timed waits round such an overflow up to
    /// an infinite timeout.
    pub fn checked_add_duration(self, dur: Duration) -> (r: Option<Timespec>)
        requires
            self.wf(),
            dur.wf(),
        ensures
            r is Some <==> self.as_nanos() + dur.as_nanos() <= i64::MAX * NANOS_PER_SEC
                + (NANOS_PER_SEC - 1),
            r is Some ==> r->0.wf() && r->0.as_nanos() == self.as_nanos() + dur.as_nanos(),
    {
        let nsec_sum: i64 = self.tv_nsec + dur.nanos as i64;
        let (carry, nsec): (i64, i64) = if nsec_sum >= NANOS_PER_SEC as i64 {
            (1, nsec_sum - NANOS_PER_SEC as i64)
        } else {
            (0, nsec_sum)
        };
        if dur.secs > i64::MAX as u64 {
            return None;
        }
        let dsecs: i64 = dur.secs as i64;
        if self.tv_sec <= i64::MAX - carry && self.tv_sec + carry <= i64::MAX - dsecs {
            Some(Timespec { tv_sec: self.tv_sec + carry + dsecs, tv_nsec: nsec })
        } else {
            None
        }
    }

    /// The span from `earlier` to `self`, or the zero span where the clock
    /// appears to have gone backwards.
    pub fn saturating_sub(self, earlier: Timespec) -> (r: Duration)
        requires
            self.wf(),
            earlier.wf(),
        ensures
            r.wf(),
            self.as_nanos() >= earlier.as_nanos() ==> r.as_nanos() == self.as_nanos()
                - earlier.as_nanos(),
            self.as_nanos() < earlier.as_nanos() ==> r.as_nanos() == 0,
    {
        if self.tv_sec > earlier.tv_sec || (self.tv_sec == earlier.tv_sec && self.tv_nsec
            >= earlier.tv_nsec) {
            let (secs, nsec): (i64, i64) = if self.tv_nsec >= earlier.tv_nsec {
                (self.tv_sec - earlier.tv_sec, self.tv_nsec - earlier.tv_nsec)
            } else {
                (self.tv_sec - earlier.tv_sec - 1, self.tv_nsec + NANOS_PER_SEC as i64
                    - earlier.tv_nsec)
            };
            Duration { secs: secs as u64, nanos: nsec as u32 }
        } else {
            Duration { secs: 0, nanos: 0 }
        }
    }
}

} // verus!
