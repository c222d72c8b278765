//! The identifier of a block.

use vstd::prelude::*;

verus! {

/// The identifier of a block: a digest.
#[derive(Clone, Copy, Debug)]
pub struct BlockId(pub crate::hash::Hash);

impl BlockId {
    /// The digest behind the identifier.
    pub fn get_hash(&self) -> (hash: &crate::hash::Hash)
        ensures
            *hash == self.0,
    {
        &self.0
    }
}

impl PartialEq for BlockId {
    fn eq(&self, other: &BlockId) -> (same: bool) {
        self.0 == other.0
    }
}

impl vstd::std_specs::cmp::PartialEqSpecImpl for BlockId {
    open spec fn obeys_eq_spec() -> bool {
        true
    }

    open spec fn eq_spec(&self, other: &BlockId) -> bool {
        self.0@ == other.0@
    }
}

impl Eq for BlockId {}

} // verus!
