use vstd::prelude::*;

verus! {

/// A height on a chain: the revision (bumped on upgrades and forks) and the
/// block height within that revision. Ordered by revision first.
#[derive(Clone, Copy, Debug, PartialEq, Eq, Structural)]
pub struct Height {
    pub revision_number: u64,
    pub revision_height: u64,
}

impl Height {
    pub open spec fn lt(self, other: Height) -> bool {
        self.revision_number < other.revision_number || (self.revision_number
            == other.revision_number && self.revision_height < other.revision_height)
    }

    pub fn new_with_revision(revision_number: u64, revision_height: u64) -> (r: Height)
        ensures
            r.revision_number == revision_number,
            r.revision_height == revision_height,
    {
        Height { revision_number, revision_height }
    }

    /// The block height within the revision.
    pub fn height(&self) -> (r: u64)
        ensures
            r == self.revision_height,
    {
        self.revision_height
    }

    /// Whether `self` comes strictly before `other` in the order of heights.
    pub fn is_before(&self, other: &Height) -> (r: bool)
        ensures
            r == self.lt(*other),
    {
        self.revision_number < other.revision_number || (self.revision_number
            == other.revision_number && self.revision_height < other.revision_height)
    }
}

} // verus!
