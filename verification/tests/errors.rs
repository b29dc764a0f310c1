use selfref_col::{NodeIdxError, NodeIndexError};

#[test]
fn debug() {
    assert_eq!(&NodeIndexError::RemovedNode.message(),
        "RemovedNode => Referenced node is removed from the collection. Node index can only be used if the corresponding node still belongs to the collection.");

    assert_eq!(&NodeIndexError::WrongCollection.message(),
        "WrongCollection => Node index is used on a collection different than the collection it is created for.  Node indices can only be used for the collection they belong to.");

    assert_eq!(&NodeIndexError::ReorganizedCollection.message(),
        "ReorganizedCollection => All nodes of the containing collection is re-organized in order to reclaim memory of closed nodes. Such a reorganization happens only if the collection uses `MemoryReclaimOnThreshold` policy and utilization level of memory drops below the threshold due to pop and remove operations. It is never observed if the list only grows or if `MemoryReclaimNever` policy is used. In this case, the references need to be recreated.");
}

#[test]
fn node_idx_error_names() {
    assert_eq!(NodeIdxError::RemovedNode.as_str(), "RemovedNode");
    assert_eq!(NodeIdxError::OutOfBounds.as_str(), "OutOfBounds");
    assert_eq!(
        NodeIdxError::ReorganizedCollection.as_str(),
        "ReorganizedCollection"
    );
}
