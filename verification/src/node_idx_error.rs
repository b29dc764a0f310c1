//! Error cases of an invalid node index.

use vstd::prelude::*;

verus! {

/// Why a node index failed validation against a collection.
#[derive(Debug, Clone, Copy, PartialEq, Eq, Structural)]
pub enum NodeIdxError {
    /// The referenced node was removed from the collection. A node index can
    /// only be used while the corresponding node still belongs to the
    /// collection. Recoverable: the caller should drop the index.
    RemovedNode,
    /// The index does not point into the current storage of the collection.
    /// Either the index is being used on a collection different from the one
    /// it was created for, or the node it points to left the storage when
    /// the collection shrank.
    OutOfBounds,
    /// The nodes of the collection were reorganized to reclaim the memory of
    /// closed nodes since the index was created. Recoverable: the caller can
    /// re-derive the index from the current collection state.
    ReorganizedCollection,
}

impl NodeIdxError {
    /// A short description of the error.
    pub fn as_str(&self) -> (r: &'static str)
        ensures
            *self is RemovedNode ==> r@ == "RemovedNode"@,
            *self is OutOfBounds ==> r@ == "OutOfBounds"@,
            *self is ReorganizedCollection ==> r@ == "ReorganizedCollection"@,
    {
        match self {
            NodeIdxError::RemovedNode => "RemovedNode",
            NodeIdxError::OutOfBounds => "OutOfBounds",
            NodeIdxError::ReorganizedCollection => "ReorganizedCollection",
        }
    }
}

} // verus!
