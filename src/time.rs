//! Points in time and spans of time, held as whole nanoseconds.
use vstd::prelude::*;

verus! {

/// The largest span that a `TimeSpan` can hold: `u64::MAX` whole seconds
/// and 999,999,999 nanoseconds, the range of `std::time::Duration`.
pub const MAX_SPAN_NANOS: u128 = 18_446_744_073_709_551_615_999_999_999;

/// Nanoseconds in one second.
pub const NANOS_PER_SEC: u128 = 1_000_000_000;

/// A non-negative span of time, in nanoseconds, never above `MAX_SPAN_NANOS`.
#[derive(Clone, Copy, Debug, PartialEq, Eq)]
pub struct TimeSpan {
    pub(crate) nanos: u128,
}

impl TimeSpan {
    #[verifier::type_invariant]
    pub(crate) open spec fn in_range(self) -> bool {
        self.spec_nanos() <= MAX_SPAN_NANOS
    }

    /// The length of the span in nanoseconds.
    pub closed spec fn spec_nanos(self) -> u128 {
        self.nanos
    }

    /// A span of `secs` whole seconds.
    pub fn from_secs(secs: u64) -> (r: TimeSpan)
        ensures
            r.spec_nanos() == secs as int * NANOS_PER_SEC,
    {
        assert(secs as int * NANOS_PER_SEC <= MAX_SPAN_NANOS) by (nonlinear_arith)
            requires
                secs <= u64::MAX,
        ;
        TimeSpan { nanos: secs as u128 * NANOS_PER_SEC }
    }

    /// A span of `nanos` nanoseconds.
    pub fn from_nanos(nanos: u64) -> (r: TimeSpan)
        ensures
            r.spec_nanos() == nanos,
    {
        TimeSpan { nanos: nanos as u128 }
    }

    /// The length of the span in nanoseconds.
    pub fn as_nanos(&self) -> (r: u128)
        ensures
            r == self.spec_nanos(),
            r <= MAX_SPAN_NANOS,
    {
        proof {
            use_type_invariant(self);
        }
        self.nanos
    }
}

/// A point in time, as nanoseconds since the Unix epoch.
#[derive(Clone, Copy, Debug, PartialEq, Eq)]
pub struct TimePoint {
    pub nanos: u128,
}

impl TimePoint {
    /// The point `span` after this one.
    pub fn add(self, span: TimeSpan) -> (r: TimePoint)
        requires
            self.nanos + span.spec_nanos() <= u128::MAX,
        ensures
            r.nanos == self.nanos + span.spec_nanos(),
    {
        TimePoint { nanos: self.nanos + span.as_nanos() }
    }

    /// Whether this point comes no later than `other`.
    pub fn le(&self, other: &TimePoint) -> (r: bool)
        ensures
            r == (self.nanos <= other.nanos),
    {
        self.nanos <= other.nanos
    }
}

} // verus!
