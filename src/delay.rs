//! Spans of time held as whole seconds and a nanosecond remainder.
use vstd::prelude::*;

verus! {

/// Nanoseconds in one second.
pub const NANOS_PER_SEC: u32 = 1_000_000_000;

/// What is left of `total` nanoseconds once `spent` have passed.
pub open spec fn nanos_left(total: nat, spent: nat) -> nat {
    if total > spent {
        (total - spent) as nat
    } else {
        0
    }
}

/// A span of time: whole seconds and the nanoseconds beyond them.
#[derive(Debug, Clone, Copy, PartialEq, Eq)]
pub struct Delay {
    secs: u64,
    nanos: u32,
}

impl Delay {
    #[verifier::type_invariant]
    spec fn well_formed(self) -> bool {
        self.nanos < NANOS_PER_SEC
    }

    /// The whole seconds of the span.
    pub closed spec fn spec_secs(&self) -> nat {
        self.secs as nat
    }

    /// The nanoseconds of the span beyond its whole seconds.
    pub closed spec fn spec_subsec_nanos(&self) -> nat {
        self.nanos as nat
    }

    /// The length of the span in nanoseconds.
    pub open spec fn total_nanos(&self) -> nat {
        self.spec_secs() * (NANOS_PER_SEC as nat) + self.spec_subsec_nanos()
    }

    /// The empty span.
    pub fn zero() -> (d: Delay)
        ensures
            d.spec_secs() == 0,
            d.spec_subsec_nanos() == 0,
            d.total_nanos() == 0,
    {
        Delay { secs: 0, nanos: 0 }
    }

    /// A span of `secs` whole seconds.
    pub fn from_secs(secs: u64) -> (d: Delay)
        ensures
            d.spec_secs() == secs,
            d.spec_subsec_nanos() == 0,
            d.total_nanos() == secs * (NANOS_PER_SEC as nat),
    {
        Delay { secs, nanos: 0 }
    }

    /// A span of `secs` seconds and `nanos` nanoseconds.
    pub fn from_parts(secs: u64, nanos: u32) -> (d: Delay)
        requires
            nanos < NANOS_PER_SEC,
        ensures
            d.spec_secs() == secs,
            d.spec_subsec_nanos() == nanos,
    {
        Delay { secs, nanos }
    }

    /// The whole seconds of the span.
    pub fn secs(&self) -> (r: u64)
        ensures
            r == self.spec_secs(),
    {
        self.secs
    }

    /// The nanoseconds beyond the whole seconds, always under one second.
    pub fn subsec_nanos(&self) -> (r: u32)
        ensures
            r == self.spec_subsec_nanos(),
            r < NANOS_PER_SEC,
    {
        proof {
            use_type_invariant(self);
        }
        self.nanos
    }

    /// How much of this span is left after `other` has passed: the
    /// difference, or the empty span where `other` is as long or longer.
    pub fn saturating_sub(&self, other: &Delay) -> (d: Delay)
        ensures
            d.total_nanos() == nanos_left(self.total_nanos(), other.total_nanos()),
    {
        proof {
            use_type_invariant(self);
            use_type_invariant(other);
        }
        if self.secs < other.secs || (self.secs == other.secs && self.nanos <= other.nanos) {
            Delay::zero()
        } else if self.nanos >= other.nanos {
            Delay { secs: self.secs - other.secs, nanos: self.nanos - other.nanos }
        } else {
            Delay { secs: self.secs - other.secs - 1, nanos: self.nanos + (NANOS_PER_SEC - other.nanos) }
        }
    }
}

} // verus!
