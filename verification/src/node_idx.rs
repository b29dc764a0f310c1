//! Checked index handle to a node of a self referential collection.

use vstd::prelude::*;
use crate::memory_state::MemoryState;
use crate::node_ptr::NodePtr;

verus! {

/// A node index providing safe constant-time access to an element of a self
/// referential collection.
///
/// Unlike a bare [`NodePtr`], a `NodeIdx` carries the memory state of the
/// collection at the moment it was created, so it can be validated at any
/// later time: it is valid for a collection exactly when the states match,
/// the address still belongs to the collection's storage, and the node at
/// that address is active.
#[derive(Clone, Copy, Debug, PartialEq, Eq, Hash, Structural)]
pub struct NodeIdx {
    ptr: NodePtr,
    state: MemoryState,
}

impl NodeIdx {
    /// The address of the referenced node.
    pub closed spec fn addr(&self) -> usize {
        self.ptr.addr
    }

    /// The memory state the index was created at.
    pub closed spec fn state_spec(&self) -> MemoryState {
        self.state
    }

    /// Creates a new index for the element at the given `node_ptr` in a
    /// collection with the given `state`.
    pub fn new(state: MemoryState, node_ptr: &NodePtr) -> (r: Self)
        ensures
            r.addr() == node_ptr.addr,
            r.state_spec() == state,
    {
        Self { ptr: *node_ptr, state }
    }

    /// Checks whether the `state` matches the state this index was created
    /// at.
    pub fn is_in_state(&self, state: MemoryState) -> (r: bool)
        ensures
            r == (self.state_spec() == state),
    {
        self.state == state
    }

    /// Returns the node pointer if the index is in the same state as the
    /// `collection_state`; `None` otherwise.
    pub fn get_ptr(&self, collection_state: MemoryState) -> (r: Option<NodePtr>)
        ensures
            self.state_spec() == collection_state ==> r is Some && r->Some_0.addr == self.addr(),
            self.state_spec() != collection_state ==> r is None,
    {
        if self.state == collection_state {
            Some(self.ptr)
        } else {
            None
        }
    }

    /// Converts the node index into a bare node pointer, dropping the state
    /// stamp.
    pub fn node_ptr(&self) -> (r: NodePtr)
        ensures
            r.addr == self.addr(),
    {
        self.ptr
    }
}

} // verus!
