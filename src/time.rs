use vstd::prelude::*;

verus! {

/// A point in time, in nanoseconds relative to the Unix epoch.
#[derive(Debug, Clone, Copy, PartialEq, Eq, PartialOrd, Ord, Hash, Structural)]
pub struct Timestamp(pub i128);

impl Timestamp {
    /// `self` lies at or after `other`.
    pub open spec fn at_or_after(self, other: Timestamp) -> bool {
        self.0 >= other.0
    }
}

} // verus!
