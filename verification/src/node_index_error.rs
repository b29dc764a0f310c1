//! Error observed while using a checked node index to access a node.

use vstd::prelude::*;

verus! {

/// Why a checked node index is invalid for a collection.
#[derive(Debug, PartialEq, Eq, Clone, Copy, Structural)]
pub enum NodeIndexError {
    /// The referenced node was removed from the collection. A node index can
    /// only be used while the corresponding node still belongs to the
    /// collection.
    RemovedNode,
    /// The index was used on a collection different from the one it was
    /// created for. Node indices can only be used for the collection they
    /// belong to.
    WrongCollection,
    /// All nodes of the containing collection were reorganized in order to
    /// reclaim the memory of closed nodes. In this case the references need
    /// to be recreated.
    ReorganizedCollection,
}

impl NodeIndexError {
    /// The message describing the error.
    pub fn message(&self) -> (r: String)
        ensures
            *self is RemovedNode ==> r@
                == "RemovedNode => Referenced node is removed from the collection. Node index can only be used if the corresponding node still belongs to the collection."@,
            *self is WrongCollection ==> r@
                == "WrongCollection => Node index is used on a collection different than the collection it is created for.  Node indices can only be used for the collection they belong to."@,
            *self is ReorganizedCollection ==> r@
                == "ReorganizedCollection => All nodes of the containing collection is re-organized in order to reclaim memory of closed nodes. Such a reorganization happens only if the collection uses `MemoryReclaimOnThreshold` policy and utilization level of memory drops below the threshold due to pop and remove operations. It is never observed if the list only grows or if `MemoryReclaimNever` policy is used. In this case, the references need to be recreated."@,
    {
        match self {
            NodeIndexError::RemovedNode => "RemovedNode => Referenced node is removed from the collection. Node index can only be used if the corresponding node still belongs to the collection.".to_owned(),
            NodeIndexError::WrongCollection => "WrongCollection => Node index is used on a collection different than the collection it is created for.  Node indices can only be used for the collection they belong to.".to_owned(),
            NodeIndexError::ReorganizedCollection => "ReorganizedCollection => All nodes of the containing collection is re-organized in order to reclaim memory of closed nodes. Such a reorganization happens only if the collection uses `MemoryReclaimOnThreshold` policy and utilization level of memory drops below the threshold due to pop and remove operations. It is never observed if the list only grows or if `MemoryReclaimNever` policy is used. In this case, the references need to be recreated.".to_owned(),
        }
    }
}

} // verus!
