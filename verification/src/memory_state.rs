//! Memory state of a self referential collection.
//!
//! The state is a counter that advances exactly once per reorganization of
//! the collection's storage (and on `clear`). It is used only for cheap
//! validity comparison of stored node indices, never for ordering operations.

use vstd::prelude::*;

verus! {

/// Memory state of a self referential collection.
///
/// Two states are equal exactly when no reorganization happened between the
/// moments they were taken from the collection.
#[derive(Clone, Copy, Debug, PartialEq, Eq, Hash, Structural)]
pub struct MemoryState {
    /// Number of reorganizations the owning collection has gone through.
    pub id: usize,
}

impl MemoryState {
    /// Creates the initial memory state.
    pub fn new() -> (r: Self)
        ensures
            r.id == 0,
    {
        Self { id: 0 }
    }

    /// Returns the state that succeeds `self`: the state the collection is in
    /// after one more reorganization.
    pub fn successor_state(&self) -> (r: Self)
        requires
            self.id < usize::MAX,
        ensures
            r.id == self.id + 1,
    {
        Self { id: self.id + 1 }
    }
}

impl Default for MemoryState {
    /// The default memory state is the initial one.
    fn default() -> (r: Self)
        ensures
            r.id == 0,
    {
        Self::new()
    }
}

} // verus!
