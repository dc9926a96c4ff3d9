//! Points in time.

use vstd::prelude::*;

verus! {

/// A point in time: whole seconds since the Unix epoch, and the nanoseconds
/// since the last whole second.
#[derive(Clone, Copy, Debug, PartialEq, Eq, Structural)]
pub struct Timestamp {
    /// Whole seconds since the Unix epoch, rounded towards the past.
    pub seconds: i64,
    /// Nanoseconds since the last whole second.
    pub nanos: u32,
}

impl Timestamp {
    /// Whether this point lies before `other` or is the same.
    pub open spec fn not_after(self, other: Timestamp) -> bool {
        self.seconds < other.seconds || (self.seconds == other.seconds && self.nanos
            <= other.nanos)
    }

    /// Whether this point lies before `other` or is the same.
    pub fn is_not_after(&self, other: &Timestamp) -> (r: bool)
        ensures
            r == self.not_after(*other),
    {
        self.seconds < other.seconds || (self.seconds == other.seconds && self.nanos
            <= other.nanos)
    }
}

} // verus!
