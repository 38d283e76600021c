//! Points in time, as nanoseconds on a monotonic clock.

use vstd::prelude::*;

verus! {

#[derive(Clone, Copy, Debug, PartialEq, Eq, Structural)]
pub struct Instant {
    pub nanos: u64,
}

impl Instant {
    /// A later point in time; the end of the clock's range is not passed.
    pub open spec fn spec_plus(self, nanos: int) -> Self {
        if self.nanos + nanos <= u64::MAX {
            Instant { nanos: (self.nanos + nanos) as u64 }
        } else {
            Instant { nanos: u64::MAX }
        }
    }

    pub fn plus(self, nanos: u64) -> (r: Self)
        ensures
            r == self.spec_plus(nanos as int),
    {
        Instant { nanos: self.nanos.saturating_add(nanos) }
    }

    /// Nanoseconds from `earlier`, or zero if that is not earlier.
    pub fn since(self, earlier: Self) -> (r: u64)
        ensures
            r == if self.nanos >= earlier.nanos {
                self.nanos - earlier.nanos
            } else {
                0
            },
    {
        self.nanos.saturating_sub(earlier.nanos)
    }

    pub open spec fn spec_earlier(self, other: Self) -> Self {
        if self.nanos <= other.nanos {
            self
        } else {
            other
        }
    }

    pub fn earlier(self, other: Self) -> (r: Self)
        ensures
            r == self.spec_earlier(other),
    {
        if self.nanos <= other.nanos {
            self
        } else {
            other
        }
    }
}

} // verus!
