//! Node utilization of the underlying storage of a collection.

use vstd::prelude::*;

verus! {

/// Node utilization of the underlying storage of the self referential
/// collection.
///
/// `num_active_nodes + num_closed_nodes` is the length of the underlying
/// storage, which is less than or equal to `capacity`.
#[derive(Debug, PartialEq, Eq, Clone, Structural)]
pub struct Utilization {
    /// Number of positions that the storage has already allocated.
    pub capacity: usize,
    /// Number of active nodes holding data.
    pub num_active_nodes: usize,
    /// Number of nodes which had been opened and closed afterwards, but not
    /// yet reclaimed.
    pub num_closed_nodes: usize,
}

} // verus!
