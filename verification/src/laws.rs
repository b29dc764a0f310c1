//! Collection-level laws, proved from the contracts of the operations.

use vstd::prelude::*;
use crate::compaction::{rename_addr, rename_addrs, relabeling};
use crate::core_col::CoreCol;
use crate::memory::MemoryPolicy;
use crate::node_idx::NodeIdx;
use crate::refs::Refs;
use crate::selfref_col::{closed_version, SelfRefCol};
use crate::variant::Variant;

verus! {

/// Law: an address handle stays valid across the closing of any other node.
/// Under the never-reclaim policy, closing a node leaves every other node in
/// its slot (`close_and_reclaim` ensures the collection is a
/// `closed_version` of its former self), so an address handle taken after a
/// push remains valid until that specific node is closed, no matter how
/// many other nodes are closed in between.
pub proof fn lemma_handle_soundness_close<V: Variant>(
    c1: CoreCol<V>,
    c2: CoreCol<V>,
    p: usize,
    q: usize,
)
    requires
        closed_version(c1, q, c2),
        p != q,
        p < c1.storage_len(),
        c1.nodes_spec()[p as int].is_active_spec(),
    ensures
        p < c2.storage_len(),
        c2.nodes_spec()[p as int].is_active_spec(),
{
}

/// Law: an address handle stays valid across a push. Growing the storage
/// never moves an already stored node: every slot below the former storage
/// length holds the node it held before.
pub proof fn lemma_handle_soundness_push<V: Variant>(c1: CoreCol<V>, c2: CoreCol<V>, p: usize)
    requires
        c2.nodes_spec().len() >= c1.storage_len(),
        forall|i: int| 0 <= i < c1.storage_len() ==> c2.nodes_spec()[i] == c1.nodes_spec()[i],
        p < c1.storage_len(),
        c1.nodes_spec()[p as int].is_active_spec(),
    ensures
        p < c2.storage_len(),
        c2.nodes_spec()[p as int].is_active_spec(),
{
}

/// Law: once a reorganization actually moves at least one node, the
/// collection's memory state advances, and every index handle stamped with
/// the earlier state reports invalid for the collection, even where the
/// referenced node is still logically present.
pub proof fn lemma_handle_invalidation_on_move<V: Variant, M: MemoryPolicy<V>>(
    c1: SelfRefCol<V, M>,
    c2: SelfRefCol<V, M>,
    idx: NodeIdx,
)
    requires
        idx.state_spec() == c1.state_spec(),
        c2.state_spec().id == c1.state_spec().id + 1,
    ensures
        !c2.idx_valid(idx),
{
}

/// The collection `c2` is what `clear` leaves behind when applied to a
/// collection in state `s1`: empty storage, empty anchors, no active
/// elements, and the memory state advanced once.
pub open spec fn cleared_from<V: Variant, M: MemoryPolicy<V>>(
    s1: crate::memory_state::MemoryState,
    c2: SelfRefCol<V, M>,
) -> bool {
    &&& c2.nodes_spec().len() == 0
    &&& c2.ends_spec().addrs().len() == 0
    &&& c2.len_spec() == 0
    &&& c2.state_spec().id == s1.id + 1
}

/// Law: `clear` is idempotent. A second `clear` leaves the collection in
/// the same observable state as the first one — empty storage, empty
/// anchors, no active elements — with the memory state advanced exactly
/// once more.
pub proof fn lemma_clear_idempotent<V: Variant, M: MemoryPolicy<V>>(
    c1: SelfRefCol<V, M>,
    c2: SelfRefCol<V, M>,
    c3: SelfRefCol<V, M>,
)
    requires
        cleared_from(c1.state_spec(), c2),
        cleared_from(c2.state_spec(), c3),
    ensures
        c3.nodes_spec() == c2.nodes_spec(),
        c3.ends_spec().addrs() == c2.ends_spec().addrs(),
        c3.len_spec() == c2.len_spec(),
        c3.state_spec().id == c2.state_spec().id + 1,
{
    assert(c3.nodes_spec() =~= c2.nodes_spec());
    assert(c3.ends_spec().addrs() =~= c2.ends_spec().addrs());
}

/// Law: compaction preserves the structural edges. Where a node of the old
/// collection held the address `x` at position `k` of its next references,
/// its image in the compacted collection holds the image of `x` at the same
/// position `k` — and likewise for the previous references — so every
/// traversal of the compacted collection visits the images of the nodes the
/// old traversal visited, in the same order.
pub proof fn lemma_relabeling_preserves_edges<V: Variant>(
    o: CoreCol<V>,
    n: CoreCol<V>,
    pi: Map<usize, usize>,
    a: usize,
    k: int,
)
    requires
        relabeling(o, n, pi),
        pi.dom().contains(a),
    ensures
        n.nodes_spec()[pi[a] as int].payload() == o.nodes_spec()[a as int].payload(),
        n.nodes_spec()[pi[a] as int].nexts().len() == o.nodes_spec()[a as int].nexts().len(),
        n.nodes_spec()[pi[a] as int].prevs().len() == o.nodes_spec()[a as int].prevs().len(),
        0 <= k < o.nodes_spec()[a as int].nexts().len() ==> n.nodes_spec()[
            pi[a] as int].nexts()[k] == rename_addr(pi, o.nodes_spec()[a as int].nexts()[k]),
        0 <= k < o.nodes_spec()[a as int].prevs().len() ==> n.nodes_spec()[
            pi[a] as int].prevs()[k] == rename_addr(pi, o.nodes_spec()[a as int].prevs()[k]),
{
}

/// A forward walk through the collection: every visited address is an
/// active node, and each next address of the walk stands among the next
/// references of the node before it.
pub open spec fn is_forward_path<V: Variant>(c: CoreCol<V>, p: Seq<usize>) -> bool {
    &&& forall|k: int|
        0 <= k < p.len() ==> (#[trigger] p[k]) < c.storage_len() && c.nodes_spec()[
            p[k] as int].is_active_spec()
    &&& forall|k: int|
        0 <= k < p.len() - 1 ==> c.nodes_spec()[(#[trigger] p[k]) as int].nexts().contains(
            p[k + 1],
        )
}

/// Law: compaction preserves traversals. Every forward walk of the old
/// collection maps, address by address, to a forward walk of the compacted
/// collection that visits the images of the same nodes with the same
/// payloads in the same order — so the surviving structure traverses as it
/// would had the closed nodes never been pushed.
pub proof fn lemma_relabeling_preserves_paths<V: Variant>(
    o: CoreCol<V>,
    n: CoreCol<V>,
    pi: Map<usize, usize>,
    p: Seq<usize>,
)
    requires
        relabeling(o, n, pi),
        is_forward_path(o, p),
    ensures
        is_forward_path(n, rename_addrs(p, pi)),
        rename_addrs(p, pi).len() == p.len(),
        forall|k: int|
            0 <= k < p.len() ==> n.nodes_spec()[(#[trigger] rename_addrs(p, pi)[k]) as int].payload()
                == o.nodes_spec()[p[k] as int].payload(),
{
    let q = rename_addrs(p, pi);
    assert forall|k: int|
        0 <= k < q.len() implies (#[trigger] q[k]) < n.storage_len() && n.nodes_spec()[
        q[k] as int].is_active_spec() && n.nodes_spec()[q[k] as int].payload() == o.nodes_spec()[
        p[k] as int].payload() by {
        let a = p[k];
        assert(pi.dom().contains(a));
        assert(q[k] == pi[a]);
    }
    assert forall|k: int|
        0 <= k < q.len() - 1 implies n.nodes_spec()[(#[trigger] q[k]) as int].nexts().contains(
        q[k + 1],
    ) by {
        let a = p[k];
        assert(pi.dom().contains(a));
        assert(q[k] == pi[a]);
        assert(n.nodes_spec()[pi[a] as int].nexts() == rename_addrs(
            o.nodes_spec()[a as int].nexts(),
            pi,
        ));
        let s = o.nodes_spec()[a as int].nexts();
        let j = choose|j: int| 0 <= j < s.len() && s[j] == p[k + 1];
        assert(s[j] == p[k + 1]);
        assert(rename_addrs(s, pi)[j] == rename_addr(pi, p[k + 1]));
        assert(rename_addr(pi, p[k + 1]) == q[k + 1]);
    }
}

/// Law: compaction preserves the anchors. The `k`-th anchor reference of
/// the compacted collection is the image of the `k`-th anchor reference of
/// the old collection.
pub proof fn lemma_relabeling_preserves_ends<V: Variant>(
    o: CoreCol<V>,
    n: CoreCol<V>,
    pi: Map<usize, usize>,
    k: int,
)
    requires
        relabeling(o, n, pi),
    ensures
        n.ends_spec().addrs().len() == o.ends_spec().addrs().len(),
        0 <= k < o.ends_spec().addrs().len() ==> n.ends_spec().addrs()[k] == rename_addr(
            pi,
            o.ends_spec().addrs()[k],
        ),
{
}

} // verus!
