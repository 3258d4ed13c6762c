//! A span of time with nanosecond resolution.

use vstd::prelude::*;

verus! {

/// Nanoseconds in one second.
pub const NANOS_PER_SEC: u32 = 1_000_000_000;

/// Nanoseconds in one millisecond.
pub const NANOS_PER_MILLI: u32 = 1_000_000;

/// Milliseconds in one second.
pub const MILLIS_PER_SEC: u64 = 1_000;

/// A non-negative span of time: whole seconds and the nanoseconds beyond them.
///
/// The view of a duration is its length in nanoseconds.
#[derive(Debug, Clone, Copy, PartialEq, Eq, Structural)]
pub struct Duration {
    secs: u64,
    nanos: u32,
}

impl View for Duration {
    type V = nat;

    closed spec fn view(&self) -> nat {
        (self.secs as nat) * (NANOS_PER_SEC as nat) + (self.nanos as nat)
    }
}

impl Duration {
    #[verifier::type_invariant]
    spec fn well_formed(self) -> bool {
        self.nanos < NANOS_PER_SEC
    }

    /// The whole seconds of a span of `nanos` nanoseconds.
    pub open spec fn secs_of(nanos: nat) -> nat {
        nanos / (NANOS_PER_SEC as nat)
    }

    /// The span of `secs` seconds and `nanos` nanoseconds, or `None` when it
    /// does not fit: nanoseconds beyond one second carry over into the seconds.
    pub fn new(secs: u64, nanos: u32) -> (result: Option<Duration>)
        ensures
            result is Some <==> secs + nanos / NANOS_PER_SEC <= u64::MAX,
            result matches Some(d) ==> d@ == secs * NANOS_PER_SEC + nanos,
    {
        let carry: u64 = (nanos / NANOS_PER_SEC) as u64;
        let rest: u32 = nanos % NANOS_PER_SEC;
        match secs.checked_add(carry) {
            Some(total) => {
                assert(total * NANOS_PER_SEC + rest == secs * NANOS_PER_SEC + nanos) by (nonlinear_arith)
                    requires
                        total == secs + nanos / NANOS_PER_SEC,
                        rest == nanos % NANOS_PER_SEC,
                ;
                Some(Duration { secs: total, nanos: rest })
            },
            None => None,
        }
    }

    /// The span of `secs` whole seconds.
    pub fn from_secs(secs: u64) -> (result: Duration)
        ensures
            result@ == secs * NANOS_PER_SEC,
    {
        Duration { secs, nanos: 0 }
    }

    /// The span of `millis` milliseconds.
    pub fn from_millis(millis: u64) -> (result: Duration)
        ensures
            result@ == millis * NANOS_PER_MILLI,
    {
        let secs: u64 = millis / MILLIS_PER_SEC;
        let rest: u32 = (millis % MILLIS_PER_SEC) as u32;
        let nanos: u32 = rest * NANOS_PER_MILLI;
        assert(secs * NANOS_PER_SEC + rest * NANOS_PER_MILLI == millis * NANOS_PER_MILLI)
            by (nonlinear_arith)
            requires
                secs == millis / MILLIS_PER_SEC,
                rest == millis % MILLIS_PER_SEC,
        ;
        Duration { secs, nanos }
    }

    /// The whole seconds of the span; what is left of a second is dropped.
    pub fn as_secs(&self) -> (secs: u64)
        ensures
            secs == Self::secs_of(self@),
    {
        proof {
            use_type_invariant(self);
            assert((self.secs * NANOS_PER_SEC + self.nanos) / (NANOS_PER_SEC as int) == self.secs)
                by (nonlinear_arith)
                requires
                    self.nanos < NANOS_PER_SEC,
            ;
        }
        self.secs
    }

    /// The nanoseconds beyond the whole seconds: always less than one second.
    pub fn subsec_nanos(&self) -> (nanos: u32)
        ensures
            nanos == self@ % (NANOS_PER_SEC as nat),
            nanos < NANOS_PER_SEC,
    {
        proof {
            use_type_invariant(self);
            assert((self.secs * NANOS_PER_SEC + self.nanos) % (NANOS_PER_SEC as int) == self.nanos)
                by (nonlinear_arith)
                requires
                    self.nanos < NANOS_PER_SEC,
            ;
        }
        self.nanos
    }

    /// The whole milliseconds of the span.
    pub fn as_millis(&self) -> (millis: u128)
        ensures
            millis == self@ / (NANOS_PER_MILLI as nat),
    {
        proof {
            use_type_invariant(self);
            assert((self.secs * NANOS_PER_SEC + self.nanos) / (NANOS_PER_MILLI as int)
                == self.secs * MILLIS_PER_SEC + self.nanos / NANOS_PER_MILLI) by (nonlinear_arith);
        }
        (self.secs as u128) * (MILLIS_PER_SEC as u128) + ((self.nanos / NANOS_PER_MILLI) as u128)
    }

    /// `self - rhs`, or `None` when `rhs` is the longer span.
    pub fn checked_sub(&self, rhs: Duration) -> (result: Option<Duration>)
        ensures
            result is Some <==> self@ >= rhs@,
            result matches Some(d) ==> d@ == self@ - rhs@,
    {
        proof {
            use_type_invariant(self);
            use_type_invariant(&rhs);
        }
        if self.secs < rhs.secs {
            assert(self@ < rhs@) by (nonlinear_arith)
                requires
                    self@ == self.secs * NANOS_PER_SEC + self.nanos,
                    rhs@ == rhs.secs * NANOS_PER_SEC + rhs.nanos,
                    self.secs < rhs.secs,
                    self.nanos < NANOS_PER_SEC,
            ;
            return None;
        }
        let secs: u64 = self.secs - rhs.secs;
        if self.nanos >= rhs.nanos {
            let nanos: u32 = self.nanos - rhs.nanos;
            assert(secs * NANOS_PER_SEC + nanos == self@ - rhs@) by (nonlinear_arith)
                requires
                    self@ == self.secs * NANOS_PER_SEC + self.nanos,
                    rhs@ == rhs.secs * NANOS_PER_SEC + rhs.nanos,
                    secs == self.secs - rhs.secs,
                    nanos == self.nanos - rhs.nanos,
            ;
            Some(Duration { secs, nanos })
        } else if secs > 0 {
            let nanos: u32 = self.nanos + NANOS_PER_SEC - rhs.nanos;
            let secs: u64 = secs - 1;
            assert(secs * NANOS_PER_SEC + nanos == self@ - rhs@) by (nonlinear_arith)
                requires
                    self@ == self.secs * NANOS_PER_SEC + self.nanos,
                    rhs@ == rhs.secs * NANOS_PER_SEC + rhs.nanos,
                    secs == self.secs - rhs.secs - 1,
                    nanos == self.nanos + NANOS_PER_SEC - rhs.nanos,
            ;
            Some(Duration { secs, nanos })
        } else {
            None
        }
    }
}

} // verus!
