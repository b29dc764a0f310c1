//! Memory reclamation policies.
//!
//! A policy decides, after each removal, whether the collection compacts
//! its storage; the compaction itself is delegated to a reclaimer supplied
//! by the structure built on top of the collection.

use vstd::prelude::*;
use core::marker::PhantomData;
use crate::compaction::{compacted, relabeling};
use crate::core_col::CoreCol;
use crate::node_ptr::NodePtr;
use crate::variant::Variant;

verus! {

/// Reclaimer which reorganizes the collection nodes, moving every active
/// node in front of every vacant slot so that the storage can be truncated
/// to the active count.
///
/// The reorganization relabels the addresses of the moved nodes; the
/// reclaimer rewrites every reference container and the collection anchors
/// accordingly, so that the structural edges are preserved.
pub trait MemoryReclaimer<V: Variant>: Sized {
    /// Moves the active nodes of `col` over its vacant slots until the
    /// active nodes form a prefix of the storage, rewriting every reference
    /// that pointed at a moved node. Returns whether any node moved.
    fn reclaim_nodes(col: &mut CoreCol<V>) -> (moved: bool)
        requires
            old(col).wf(),
            old(col).no_dangling(),
            old(col).closed_detached(),
        ensures
            final(col).wf(),
            final(col).no_dangling(),
            final(col).closed_detached(),
            final(col).len_spec() == old(col).len_spec(),
            final(col).storage_len() == old(col).storage_len(),
            forall|i: int|
                0 <= i < final(col).storage_len() ==> ((#[trigger] final(col).nodes_spec()[i]).is_active_spec() <==> i < final(col).len_spec()),
            !moved ==> *final(col) == *old(col),
            exists|pi: Map<usize, usize>| relabeling(*old(col), *final(col), pi),
    ;
}

/// Policy which determines how the memory of closed nodes is reclaimed.
///
/// The two implementors are [`MemoryReclaimNever`], which never reclaims on
/// its own, and [`MemoryReclaimOnThreshold`], which compacts whenever the
/// vacancy ratio exceeds a threshold.
pub trait MemoryPolicy<V: Variant>: Sized {
    /// Whether this policy ever reorganizes the collection on its own after
    /// a removal.
    spec fn auto_reclaims() -> bool;

    /// Whether the policy compacts a collection whose storage uses `used`
    /// slots with `num_active` of them holding data.
    spec fn reclaims_at(used: usize, num_active: usize) -> bool;

    /// Reclaims closed nodes after the node at `closed_node_ptr` was
    /// closed, if the policy calls for it. Returns whether any node moved,
    /// in which case the caller must advance the collection's memory state.
    fn reclaim_closed_nodes(col: &mut CoreCol<V>, closed_node_ptr: &NodePtr) -> (moved: bool)
        requires
            old(col).wf(),
            old(col).no_dangling(),
            old(col).closed_detached(),
        ensures
            final(col).wf(),
            final(col).no_dangling(),
            final(col).closed_detached(),
            final(col).len_spec() == old(col).len_spec(),
            !Self::auto_reclaims() ==> !moved && *final(col) == *old(col),
            !Self::reclaims_at(old(col).storage_len() as usize, old(col).len_spec()) ==> !moved
                && *final(col) == *old(col),
            Self::reclaims_at(old(col).storage_len() as usize, old(col).len_spec()) ==> final(col).storage_len() == final(col).len_spec(),
            !moved ==> final(col).ends_spec() == old(col).ends_spec() && final(col).storage_len()
                <= old(col).storage_len() && final(col).nodes_spec() == old(col).nodes_spec().subrange(0, final(col).storage_len() as int),
            moved ==> compacted(*old(col), *final(col)),
    ;
}

/// A do-nothing policy which never reclaims the memory of closed nodes on
/// its own, leaving them as holes in the underlying storage.
///
/// This has the advantage that a node index is never invalidated by a
/// surprise reorganization; node utilization can still be restored by
/// triggering a reclaimer manually.
#[derive(Clone, Copy, Debug)]
pub struct MemoryReclaimNever;

impl<V: Variant> MemoryPolicy<V> for MemoryReclaimNever {
    open spec fn auto_reclaims() -> bool {
        false
    }

    open spec fn reclaims_at(used: usize, num_active: usize) -> bool {
        false
    }

    fn reclaim_closed_nodes(col: &mut CoreCol<V>, closed_node_ptr: &NodePtr) -> (moved: bool) {
        proof {
            assert(col.nodes_spec() =~= col.nodes_spec().subrange(
                0,
                col.storage_len() as int,
            ));
        }
        false
    }
}

/// Memory reclaim policy which triggers reclamation whenever the vacancy
/// ratio exceeds one over `2^D` after a close: with `D = 2`, for instance,
/// the storage is compacted as soon as more than a quarter of it is vacant.
///
/// With `D = 0` the comparison `vacant > used >> 0` is `vacant > used`,
/// which never holds, so `D = 0` behaves like [`MemoryReclaimNever`].
pub struct MemoryReclaimOnThreshold<const D: usize, V: Variant, R: MemoryReclaimer<V>> {
    phantom: PhantomData<(V, R)>,
}

impl<const D: usize, V: Variant, R: MemoryReclaimer<V>> MemoryReclaimOnThreshold<D, V, R> {
    /// Whether the vacancy of a storage with `used` slots and `num_active`
    /// active nodes exceeds the policy's threshold: true exactly when
    /// `used - num_active > used >> D` (with the shift saturating to zero
    /// for a shift width beyond the machine word).
    pub fn needs_reclaim(used: usize, num_active: usize) -> (r: bool)
        requires
            num_active <= used,
        ensures
            r == (used - num_active > (if D < usize::BITS as usize {
                used >> D
            } else {
                0usize
            })),
    {
        let allowed_vacant: usize = if D < usize::BITS as usize {
            used >> D
        } else {
            0
        };
        let num_vacant = used - num_active;
        num_vacant > allowed_vacant
    }
}

impl<const D: usize, V: Variant, R: MemoryReclaimer<V>> MemoryPolicy<
    V,
> for MemoryReclaimOnThreshold<D, V, R> {
    open spec fn auto_reclaims() -> bool {
        true
    }

    open spec fn reclaims_at(used: usize, num_active: usize) -> bool {
        used - num_active > (if D < usize::BITS as usize {
            used >> D
        } else {
            0usize
        })
    }

    fn reclaim_closed_nodes(col: &mut CoreCol<V>, closed_node_ptr: &NodePtr) -> (moved: bool) {
        let num_active = col.len();
        let used = col.nodes().len();
        proof {
            crate::core_col::lemma_active_count_le_len(col.nodes_spec());
        }
        if !Self::needs_reclaim(used, num_active) {
            proof {
                assert(col.nodes_spec() =~= col.nodes_spec().subrange(
                    0,
                    col.storage_len() as int,
                ));
            }
            false
        } else {
            let nodes_moved = R::reclaim_nodes(col);
            let ghost mid = *col;
            col.truncate_storage(num_active);
            proof {
                if nodes_moved {
                    let pi = choose|pi: Map<usize, usize>|
                        relabeling(*old(col), mid, pi);
                    assert(relabeling(*old(col), *col, pi)) by {
                        assert(col.nodes_spec() =~= mid.nodes_spec().subrange(
                            0,
                            num_active as int,
                        ));
                        assert(forall|a: usize| #[trigger]
                            pi.dom().contains(a) ==> pi[a] < num_active);
                    }
                } else {
                    assert(col.nodes_spec() =~= old(col).nodes_spec().subrange(
                        0,
                        col.storage_len() as int,
                    ));
                }
            }
            nodes_moved
        }
    }
}

} // verus!
