//! Address handle to a node of a self referential collection.

use vstd::prelude::*;

verus! {

/// The address of a node within the storage of a self referential collection:
/// the stable slot that the node occupies.
///
/// A `NodePtr` carries no validity information of its own. It may be
/// dereferenced through a collection only while the caller can independently
/// argue that the collection has not reorganized the node since the handle
/// was taken; `is_valid_for` performs the containment-and-liveness check.
#[derive(Clone, Copy, Debug, PartialEq, Eq, Hash, Structural)]
pub struct NodePtr {
    /// The slot address of the referenced node.
    pub addr: usize,
}

impl NodePtr {
    /// Creates a new node pointer wrapping the given slot address.
    pub fn new(addr: usize) -> (r: Self)
        ensures
            r.addr == addr,
    {
        Self { addr }
    }
}

} // verus!
