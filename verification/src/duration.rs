//! A non-negative span of time with nanosecond resolution.

use core::cmp::Ordering;
use vstd::prelude::*;

verus! {

/// Nanoseconds in one second.
pub const NANOS_PER_SEC: u32 = 1_000_000_000;

/// Nanoseconds in one millisecond.
pub const NANOS_PER_MILLI: u32 = 1_000_000;

/// Nanoseconds in one microsecond.
pub const NANOS_PER_MICRO: u32 = 1_000;

/// The longest span a [`Duration`] can hold, in nanoseconds.
pub const MAX_NANOS: u128 = 18_446_744_073_709_551_615_999_999_999;

/// The longest span a [`Duration`] can hold, in nanoseconds.
pub open spec fn max_nanos() -> nat {
    MAX_NANOS as nat
}

/// A span of time: whole seconds and a sub-second part counted in
/// nanoseconds. Its view is the whole span in nanoseconds.
#[derive(Clone, Copy, Debug, Hash, PartialEq, Eq, Structural, Ord)]
pub struct Duration {
    secs: u64,
    nanos: u32,
}

impl View for Duration {
    type V = nat;

    closed spec fn view(&self) -> nat {
        (self.secs * 1_000_000_000 + self.nanos) as nat
    }
}

impl Duration {
    /// The sub-second part stays below one second.
    #[verifier::type_invariant]
    pub closed spec fn wf(self) -> bool {
        self.nanos < 1_000_000_000
    }

    /// The span of `n` nanoseconds.
    pub closed spec fn from_total(n: nat) -> Duration {
        Duration { secs: (n / 1_000_000_000) as u64, nanos: (n % 1_000_000_000) as u32 }
    }

    /// Within the range of the type, `from_total` is the inverse of the view.
    pub proof fn lemma_from_total(n: nat)
        requires
            n <= max_nanos(),
        ensures
            Self::from_total(n).wf(),
            Self::from_total(n)@ == n,
    {
    }

    /// A well-formed span is determined by its length.
    pub proof fn lemma_view_injective(a: Duration, b: Duration)
        requires
            a.wf(),
            b.wf(),
            a@ == b@,
        ensures
            a == b,
    {
    }

    /// A well-formed span stays within the range of the type.
    pub proof fn lemma_view_bounded(self)
        requires
            self.wf(),
        ensures
            self@ <= max_nanos(),
            self == Self::from_total(self@),
    {
    }

    /// The span of `secs` seconds and `nanos` nanoseconds; a sub-second part
    /// of a second or more is carried over into the seconds.
    pub fn new(secs: u64, nanos: u32) -> (d: Duration)
        requires
            secs * 1_000_000_000 + nanos <= max_nanos(),
        ensures
            d.wf(),
            d@ == secs * 1_000_000_000 + nanos,
    {
        let carry: u32 = nanos / NANOS_PER_SEC;
        let rest: u32 = nanos % NANOS_PER_SEC;
        Duration { secs: secs + carry as u64, nanos: rest }
    }

    /// The span of `secs` whole seconds.
    pub fn from_secs(secs: u64) -> (d: Duration)
        ensures
            d.wf(),
            d@ == secs * 1_000_000_000,
    {
        Duration { secs, nanos: 0 }
    }

    /// The span of `millis` milliseconds.
    pub fn from_millis(millis: u64) -> (d: Duration)
        ensures
            d.wf(),
            d@ == millis * 1_000_000,
    {
        let sub: u32 = (millis % 1_000) as u32;
        Duration { secs: millis / 1_000, nanos: sub * NANOS_PER_MILLI }
    }

    /// The span of `micros` microseconds.
    pub fn from_micros(micros: u64) -> (d: Duration)
        ensures
            d.wf(),
            d@ == micros * 1_000,
    {
        let sub: u32 = (micros % 1_000_000) as u32;
        Duration { secs: micros / 1_000_000, nanos: sub * NANOS_PER_MICRO }
    }

    /// The span of `nanos` nanoseconds.
    pub fn from_nanos(nanos: u64) -> (d: Duration)
        ensures
            d.wf(),
            d@ == nanos,
    {
        let sub: u32 = (nanos % 1_000_000_000) as u32;
        Duration { secs: nanos / 1_000_000_000, nanos: sub }
    }

    /// The span of `ticks` ticks that last `nanos_per_tick` nanoseconds each.
    /// The product is formed without wrapping.
    pub fn from_ticks(ticks: u64, nanos_per_tick: u64) -> (d: Duration)
        requires
            ticks * nanos_per_tick <= max_nanos(),
        ensures
            d.wf(),
            d@ == ticks * nanos_per_tick,
    {
        assert(ticks * nanos_per_tick <= 0xffff_ffff_ffff_ffff * 0xffff_ffff_ffff_ffff)
            by (nonlinear_arith)
            requires
                ticks <= 0xffff_ffff_ffff_ffff,
                nanos_per_tick <= 0xffff_ffff_ffff_ffff,
        ;
        let total: u128 = (ticks as u128) * (nanos_per_tick as u128);
        let secs: u64 = (total / 1_000_000_000) as u64;
        let sub: u32 = (total % 1_000_000_000) as u32;
        Duration { secs, nanos: sub }
    }

    /// The span of `ticks` ticks that last `nanos_per_tick` nanoseconds each,
    /// or `None` where it would leave the range of the type.
    pub fn checked_from_ticks(ticks: u64, nanos_per_tick: u64) -> (r: Option<Duration>)
        ensures
            ticks * nanos_per_tick <= max_nanos() ==> r == Some(
                Self::from_total((ticks * nanos_per_tick) as nat),
            ),
            ticks * nanos_per_tick > max_nanos() ==> r is None,
    {
        assert(ticks * nanos_per_tick <= 0xffff_ffff_ffff_ffff * 0xffff_ffff_ffff_ffff)
            by (nonlinear_arith)
            requires
                ticks <= 0xffff_ffff_ffff_ffff,
                nanos_per_tick <= 0xffff_ffff_ffff_ffff,
        ;
        let total: u128 = (ticks as u128) * (nanos_per_tick as u128);
        if total > MAX_NANOS {
            None
        } else {
            let d = Self::from_ticks(ticks, nanos_per_tick);
            proof {
                d.lemma_view_bounded();
            }
            Some(d)
        }
    }

    /// The whole seconds of the span.
    pub fn as_secs(&self) -> (secs: u64)
        ensures
            secs == self@ / 1_000_000_000,
    {
        proof {
            use_type_invariant(self);
        }
        self.secs
    }

    /// The part of the span below one second, in nanoseconds.
    pub fn subsec_nanos(&self) -> (nanos: u32)
        ensures
            nanos == self@ % 1_000_000_000,
    {
        proof {
            use_type_invariant(self);
        }
        self.nanos
    }

    /// The whole span in nanoseconds.
    pub fn as_nanos(&self) -> (nanos: u128)
        ensures
            nanos == self@,
    {
        proof {
            use_type_invariant(self);
        }
        (self.secs as u128) * 1_000_000_000 + (self.nanos as u128)
    }

    /// Whether the span is empty.
    pub fn is_zero(&self) -> (b: bool)
        ensures
            b == (self@ == 0),
    {
        self.secs == 0 && self.nanos == 0
    }

    /// The sum of two spans, which has to stay within the range of the type.
    /// The operator `+` does the same.
    pub fn plus(self, rhs: Duration) -> (d: Duration)
        requires
            self@ + rhs@ <= max_nanos(),
        ensures
            d == Self::from_total(self@ + rhs@),
            d.wf(),
            d@ == self@ + rhs@,
    {
        proof {
            use_type_invariant(self);
            use_type_invariant(rhs);
        }
        let low: u32 = self.nanos + rhs.nanos;
        if low >= NANOS_PER_SEC {
            Duration { secs: self.secs + rhs.secs + 1, nanos: low - NANOS_PER_SEC }
        } else {
            Duration { secs: self.secs + rhs.secs, nanos: low }
        }
    }

    /// The difference of two spans, of which the second may not be the
    /// longer. The operator `-` does the same.
    pub fn minus(self, rhs: Duration) -> (d: Duration)
        requires
            self@ >= rhs@,
        ensures
            d == Self::from_total((self@ - rhs@) as nat),
            d.wf(),
            d@ == self@ - rhs@,
    {
        proof {
            use_type_invariant(self);
            use_type_invariant(rhs);
        }
        if self.nanos >= rhs.nanos {
            Duration { secs: self.secs - rhs.secs, nanos: self.nanos - rhs.nanos }
        } else {
            Duration {
                secs: self.secs - rhs.secs - 1,
                nanos: self.nanos + NANOS_PER_SEC - rhs.nanos,
            }
        }
    }

    /// The sum of two spans, or `None` where it would leave the range of the
    /// type.
    pub fn checked_add(self, rhs: Duration) -> (r: Option<Duration>)
        ensures
            self@ + rhs@ <= max_nanos() ==> r == Some(Self::from_total(self@ + rhs@)),
            self@ + rhs@ > max_nanos() ==> r is None,
    {
        proof {
            use_type_invariant(self);
            use_type_invariant(rhs);
        }
        let low: u32 = self.nanos + rhs.nanos;
        let carry: u64 = if low >= NANOS_PER_SEC { 1 } else { 0 };
        let sub: u32 = if low >= NANOS_PER_SEC { low - NANOS_PER_SEC } else { low };
        match self.secs.checked_add(rhs.secs) {
            None => None,
            Some(secs) => match secs.checked_add(carry) {
                None => None,
                Some(secs) => Some(Duration { secs, nanos: sub }),
            },
        }
    }

    /// The difference of two spans, or `None` where the second is the longer.
    pub fn checked_sub(self, rhs: Duration) -> (r: Option<Duration>)
        ensures
            self@ >= rhs@ ==> r == Some(Self::from_total((self@ - rhs@) as nat)),
            self@ < rhs@ ==> r is None,
    {
        proof {
            use_type_invariant(self);
            use_type_invariant(rhs);
        }
        if self.secs < rhs.secs || (self.secs == rhs.secs && self.nanos < rhs.nanos) {
            None
        } else if self.nanos >= rhs.nanos {
            Some(Duration { secs: self.secs - rhs.secs, nanos: self.nanos - rhs.nanos })
        } else {
            Some(
                Duration {
                    secs: self.secs - rhs.secs - 1,
                    nanos: self.nanos + NANOS_PER_SEC - rhs.nanos,
                },
            )
        }
    }
}

impl core::ops::Add for Duration {
    type Output = Duration;

    /// The sum of two spans; it has to stay within the range of the type.
    fn add(self, rhs: Duration) -> (d: Duration)
        ensures
            d.wf(),
            d@ == self@ + rhs@,
    {
        self.plus(rhs)
    }
}

impl vstd::std_specs::ops::AddSpecImpl for Duration {
    open spec fn obeys_add_spec() -> bool {
        true
    }

    open spec fn add_req(self, rhs: Duration) -> bool {
        self@ + rhs@ <= max_nanos()
    }

    open spec fn add_spec(self, rhs: Duration) -> Duration {
        Duration::from_total(self@ + rhs@)
    }
}

impl core::ops::Sub for Duration {
    type Output = Duration;

    /// The difference of two spans; the second may not be the longer.
    fn sub(self, rhs: Duration) -> (d: Duration)
        ensures
            d.wf(),
            d@ == self@ - rhs@,
    {
        self.minus(rhs)
    }
}

impl vstd::std_specs::ops::SubSpecImpl for Duration {
    open spec fn obeys_sub_spec() -> bool {
        true
    }

    open spec fn sub_req(self, rhs: Duration) -> bool {
        self@ >= rhs@
    }

    open spec fn sub_spec(self, rhs: Duration) -> Duration {
        Duration::from_total((self@ - rhs@) as nat)
    }
}

impl PartialOrd for Duration {
    /// Spans are ordered by their length.
    fn partial_cmp(&self, other: &Duration) -> (r: Option<Ordering>) {
        proof {
            use_type_invariant(self);
            use_type_invariant(other);
        }
        if self.secs < other.secs {
            Some(Ordering::Less)
        } else if self.secs > other.secs {
            Some(Ordering::Greater)
        } else if self.nanos < other.nanos {
            Some(Ordering::Less)
        } else if self.nanos > other.nanos {
            Some(Ordering::Greater)
        } else {
            Some(Ordering::Equal)
        }
    }
}

impl vstd::std_specs::cmp::PartialOrdSpecImpl for Duration {
    open spec fn obeys_partial_cmp_spec() -> bool {
        true
    }

    open spec fn partial_cmp_spec(&self, other: &Duration) -> Option<Ordering> {
        if self@ < other@ {
            Some(Ordering::Less)
        } else if self@ > other@ {
            Some(Ordering::Greater)
        } else {
            Some(Ordering::Equal)
        }
    }
}

impl Default for Duration {
    /// The empty span.
    fn default() -> (d: Duration)
        ensures
            d.wf(),
            d@ == 0,
    {
        Duration { secs: 0, nanos: 0 }
    }
}

} // verus!
