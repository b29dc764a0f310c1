//! Self referential collection: the core collection together with a memory
//! state and a reclamation policy.

use vstd::prelude::*;
use core::marker::PhantomData;
use crate::compaction::compacted;
use crate::core_col::CoreCol;
use crate::memory::MemoryPolicy;
use crate::memory_state::MemoryState;
use crate::node::Node;
use crate::node_idx::NodeIdx;
use crate::node_idx_error::NodeIdxError;
use crate::node_ptr::NodePtr;
use crate::refs::Refs;
use crate::utilization::Utilization;
use crate::variant::Variant;

verus! {

/// A self referential collection: a core data structure to build safe and
/// efficient linked lists, trees and other structures whose nodes reference
/// each other, with a pluggable memory reclamation policy.
pub struct SelfRefCol<V: Variant, M: MemoryPolicy<V>> {
    core: CoreCol<V>,
    state: MemoryState,
    phantom: PhantomData<M>,
}

impl<V: Variant, M: MemoryPolicy<V>> SelfRefCol<V, M> {
    /// The core collection.
    pub closed spec fn core_spec(&self) -> CoreCol<V> {
        self.core
    }

    /// The current memory state.
    pub closed spec fn state_spec(&self) -> MemoryState {
        self.state
    }

    /// The storage of nodes, in slot order.
    pub open spec fn nodes_spec(&self) -> Seq<Node<V>> {
        self.core_spec().nodes_spec()
    }

    /// The collection-level anchor references.
    pub open spec fn ends_spec(&self) -> V::Ends {
        self.core_spec().ends_spec()
    }

    /// The number of active nodes.
    pub open spec fn len_spec(&self) -> usize {
        self.core_spec().len_spec()
    }

    /// The number of storage slots in use.
    pub open spec fn storage_len(&self) -> nat {
        self.core_spec().storage_len()
    }

    /// Conservation invariant of the core collection.
    pub open spec fn wf(&self) -> bool {
        self.core_spec().wf()
    }

    /// No reference reachable from the anchors or from an active node
    /// dangles.
    pub open spec fn no_dangling(&self) -> bool {
        self.core_spec().no_dangling()
    }

    /// Closed nodes retain no edges.
    pub open spec fn closed_detached(&self) -> bool {
        self.core_spec().closed_detached()
    }

    /// Whether a node index is valid for this collection: its state stamp
    /// matches the collection's, its address belongs to the storage, and
    /// the node there is active.
    pub open spec fn idx_valid(&self, idx: NodeIdx) -> bool {
        &&& idx.state_spec() == self.state_spec()
        &&& idx.addr() < self.storage_len()
        &&& self.nodes_spec()[idx.addr() as int].is_active_spec()
    }

    /// Creates a new empty collection.
    pub fn new() -> (r: Self)
        ensures
            r.nodes_spec() == Seq::<Node<V>>::empty(),
            r.ends_spec().addrs() == Seq::<usize>::empty(),
            r.len_spec() == 0,
            r.state_spec().id == 0,
            r.wf(),
            r.no_dangling(),
            r.closed_detached(),
    {
        Self { core: CoreCol::new(), state: MemoryState::new(), phantom: PhantomData }
    }

    /// Breaks the collection into its core collection and memory state.
    pub fn into_inner(self) -> (r: (CoreCol<V>, MemoryState))
        ensures
            r.0 == self.core_spec(),
            r.1 == self.state_spec(),
    {
        (self.core, self.state)
    }

    /// The memory state of the collection.
    pub fn memory_state(&self) -> (r: MemoryState)
        ensures
            r == self.state_spec(),
    {
        self.state
    }

    /// Closes the node at the given `node_ptr`, returns its taken-out
    /// value, and reclaims closed nodes if the policy calls for it. The
    /// node must be active and the caller must already have unlinked every
    /// edge pointing into it.
    pub fn close_and_reclaim(&mut self, node_ptr: &NodePtr) -> (r: V::Item)
        requires
            old(self).wf(),
            old(self).no_dangling(),
            old(self).closed_detached(),
            node_ptr.addr < old(self).storage_len(),
            old(self).nodes_spec()[node_ptr.addr as int].is_active_spec(),
            old(self).core_spec().unlinked(node_ptr.addr),
            old(self).state_spec().id < usize::MAX,
        ensures
            Some(r) == old(self).nodes_spec()[node_ptr.addr as int].payload(),
            final(self).wf(),
            final(self).no_dangling(),
            final(self).closed_detached(),
            final(self).len_spec() == old(self).len_spec() - 1,
            final(self).state_spec().id == old(self).state_spec().id || final(self).state_spec().id == old(self).state_spec().id + 1,
            !M::auto_reclaims() ==> final(self).state_spec() == old(self).state_spec() && final(self).nodes_spec().len() == old(self).storage_len() && final(self).ends_spec() == old(self).ends_spec() && final(self).nodes_spec()[node_ptr.addr as int].payload() is None
                && (forall|i: int|
                0 <= i < old(self).storage_len() && i != node_ptr.addr ==> final(self).nodes_spec()[i] == old(self).nodes_spec()[i]),
            final(self).state_spec() != old(self).state_spec() ==> exists|c1: CoreCol<V>|
                closed_version(old(self).core_spec(), node_ptr.addr, c1) && #[trigger] compacted(
                    c1,
                    final(self).core_spec(),
                ),
            final(self).state_spec() == old(self).state_spec() ==> final(self).ends_spec() == old(self).ends_spec() && final(self).storage_len() <= old(self).storage_len() && (forall|
                i: int,
            |
                0 <= i < final(self).storage_len() && i != node_ptr.addr ==> final(self).nodes_spec()[i] == old(self).nodes_spec()[i]) && (node_ptr.addr
                < final(self).storage_len() ==> final(self).nodes_spec()[node_ptr.addr as int].payload() is None),
            !M::reclaims_at(
                old(self).storage_len() as usize,
                (old(self).len_spec() - 1) as usize,
            ) ==> final(self).state_spec() == old(self).state_spec() && final(self).nodes_spec().len() == old(self).storage_len() && final(self).ends_spec() == old(self).ends_spec() && final(self).nodes_spec()[node_ptr.addr as int].payload() is None && (forall|i: int|
                0 <= i < old(self).storage_len() && i != node_ptr.addr ==> final(self).nodes_spec()[i] == old(self).nodes_spec()[i]),
            M::reclaims_at(
                old(self).storage_len() as usize,
                (old(self).len_spec() - 1) as usize,
            ) ==> final(self).storage_len() == final(self).len_spec(),
    {
        let data = self.core.close(node_ptr);
        let ghost c1 = self.core;
        proof {
            assert(c1.storage_len() == old(self).storage_len());
            assert(c1.len_spec() == old(self).len_spec() - 1);
        }
        let state_changed = M::reclaim_closed_nodes(&mut self.core, node_ptr);
        self.update_state(state_changed);
        proof {
            if state_changed {
                assert(closed_version(old(self).core_spec(), node_ptr.addr, c1));
            }
        }
        data
    }

    /// Succeeding the closing of the node at `node_ptr`, reclaims closed
    /// nodes if the policy calls for it. Returns whether the memory state
    /// changed.
    pub fn reclaim_from_closed_node(&mut self, node_ptr: &NodePtr) -> (r: bool)
        requires
            old(self).wf(),
            old(self).no_dangling(),
            old(self).closed_detached(),
            old(self).state_spec().id < usize::MAX,
        ensures
            final(self).wf(),
            final(self).no_dangling(),
            final(self).closed_detached(),
            final(self).len_spec() == old(self).len_spec(),
            r == (final(self).state_spec() != old(self).state_spec()),
            r ==> final(self).state_spec().id == old(self).state_spec().id + 1 && compacted(
                old(self).core_spec(),
                final(self).core_spec(),
            ),
            !r ==> final(self).state_spec() == old(self).state_spec() && final(self).ends_spec()
                == old(self).ends_spec() && final(self).nodes_spec() == old(self).nodes_spec().subrange(0, final(self).storage_len() as int),
            !M::auto_reclaims() ==> *final(self) == *old(self) && !r,
            !M::reclaims_at(old(self).storage_len() as usize, old(self).len_spec()) ==> !r
                && *final(self) == *old(self),
            M::reclaims_at(old(self).storage_len() as usize, old(self).len_spec()) ==> final(self).storage_len() == final(self).len_spec(),
    {
        let state_changed = M::reclaim_closed_nodes(&mut self.core, node_ptr);
        self.update_state(state_changed);
        state_changed
    }

    /// Manually compacts the collection with the given reclaimer,
    /// truncating the vacant tail and advancing the memory state if any
    /// node moved. Permitted under every policy; under the never-reclaim
    /// policy this is the only way the collection is ever compacted, and it
    /// behaves exactly like a threshold policy's compaction.
    pub fn reclaim_closed_nodes<R: crate::memory::MemoryReclaimer<V>>(&mut self) -> (r: bool)
        requires
            old(self).wf(),
            old(self).no_dangling(),
            old(self).closed_detached(),
            old(self).state_spec().id < usize::MAX,
        ensures
            final(self).wf(),
            final(self).no_dangling(),
            final(self).closed_detached(),
            final(self).len_spec() == old(self).len_spec(),
            final(self).storage_len() == final(self).len_spec(),
            r == (final(self).state_spec() != old(self).state_spec()),
            r ==> final(self).state_spec().id == old(self).state_spec().id + 1 && compacted(
                old(self).core_spec(),
                final(self).core_spec(),
            ),
            !r ==> final(self).state_spec() == old(self).state_spec() && final(self).ends_spec()
                == old(self).ends_spec() && final(self).nodes_spec() == old(self).nodes_spec().subrange(0, final(self).storage_len() as int),
    {
        let moved = R::reclaim_nodes(&mut self.core);
        let num_active = self.core.len();
        proof {
            crate::core_col::lemma_active_count_le_len(self.core.nodes_spec());
        }
        let ghost mid = self.core;
        self.core.truncate_storage(num_active);
        self.update_state(moved);
        proof {
            if moved {
                let pi = choose|pi: Map<usize, usize>|
                    crate::compaction::relabeling(old(self).core_spec(), mid, pi);
                assert(crate::compaction::relabeling(
                    old(self).core_spec(),
                    self.core_spec(),
                    pi,
                )) by {
                    assert(self.core_spec().nodes_spec() =~= mid.nodes_spec().subrange(
                        0,
                        num_active as int,
                    ));
                    assert(forall|a: usize| #[trigger]
                        pi.dom().contains(a) ==> pi[a] < num_active);
                }
            } else {
                assert(self.nodes_spec() =~= old(self).nodes_spec().subrange(
                    0,
                    self.storage_len() as int,
                ));
            }
        }
        moved
    }

    /// If `state_changed` is true, advances the collection to the next
    /// memory state.
    pub fn update_state(&mut self, state_changed: bool)
        requires
            state_changed ==> old(self).state_spec().id < usize::MAX,
        ensures
            state_changed ==> final(self).state_spec().id == old(self).state_spec().id + 1,
            !state_changed ==> final(self).state_spec() == old(self).state_spec(),
            final(self).core_spec() == old(self).core_spec(),
    {
        if state_changed {
            self.state = self.state.successor_state();
        }
    }

    /// Clears the collection and advances the memory state.
    pub fn clear(&mut self)
        requires
            old(self).state_spec().id < usize::MAX,
        ensures
            final(self).nodes_spec() == Seq::<Node<V>>::empty(),
            final(self).ends_spec().addrs() == Seq::<usize>::empty(),
            final(self).len_spec() == 0,
            final(self).state_spec().id == old(self).state_spec().id + 1,
            final(self).wf(),
            final(self).no_dangling(),
            final(self).closed_detached(),
    {
        self.core.clear_core();
        self.state = self.state.successor_state();
    }

    /// Returns a reference to the node with the given index; `None` if the
    /// index's state stamp does not match or its address does not belong to
    /// the collection.
    pub fn node_from_idx(&self, idx: &NodeIdx) -> (r: Option<&Node<V>>)
        ensures
            (idx.state_spec() == self.state_spec() && idx.addr() < self.storage_len()) ==> r
                is Some && *r.unwrap() == self.nodes_spec()[idx.addr() as int],
            (idx.state_spec() != self.state_spec() || idx.addr() >= self.storage_len()) ==> r
                is None,
    {
        if idx.is_in_state(self.memory_state()) && idx.node_ptr().addr < self.core.nodes().len() {
            Some(self.core.node(&idx.node_ptr()))
        } else {
            None
        }
    }

    /// Tries to return a reference to the node with the given index;
    /// returns the error describing why the index is invalid otherwise.
    /// The state stamp is checked first, then the address.
    pub fn try_node_from_idx(&self, idx: &NodeIdx) -> (r: Result<&Node<V>, NodeIdxError>)
        ensures
            idx.state_spec() != self.state_spec() ==> r == Err::<&Node<V>, NodeIdxError>(
                NodeIdxError::ReorganizedCollection,
            ),
            idx.state_spec() == self.state_spec() && idx.addr() >= self.storage_len() ==> r
                == Err::<&Node<V>, NodeIdxError>(NodeIdxError::OutOfBounds),
            idx.state_spec() == self.state_spec() && idx.addr() < self.storage_len() ==> r is Ok
                && *r.unwrap() == self.nodes_spec()[idx.addr() as int],
    {
        if idx.is_in_state(self.memory_state()) {
            if idx.node_ptr().addr < self.core.nodes().len() {
                Ok(self.core.node(&idx.node_ptr()))
            } else {
                Err(NodeIdxError::OutOfBounds)
            }
        } else {
            Err(NodeIdxError::ReorganizedCollection)
        }
    }

    /// Returns the error that makes the given index invalid; `None` if the
    /// index is valid. The state stamp is checked first, then the address,
    /// then the liveness of the node.
    pub fn node_idx_error(&self, idx: &NodeIdx) -> (r: Option<NodeIdxError>)
        ensures
            idx.state_spec() != self.state_spec() ==> r == Some(
                NodeIdxError::ReorganizedCollection,
            ),
            idx.state_spec() == self.state_spec() && idx.addr() >= self.storage_len() ==> r
                == Some(NodeIdxError::OutOfBounds),
            self.idx_valid(*idx) ==> r is None,
            idx.state_spec() == self.state_spec() && idx.addr() < self.storage_len()
                && !self.nodes_spec()[idx.addr() as int].is_active_spec() ==> r == Some(
                NodeIdxError::RemovedNode,
            ),
    {
        match self.try_node_from_idx(idx) {
            Ok(node) => {
                if node.is_active() {
                    None
                } else {
                    Some(NodeIdxError::RemovedNode)
                }
            },
            Err(err) => Some(err),
        }
    }

    /// Tries to convert the given index into a valid pointer to its node;
    /// returns the error describing why the index is invalid otherwise. The
    /// state stamp is checked first, then the address, then the liveness of
    /// the node.
    pub fn try_get_ptr(&self, idx: &NodeIdx) -> (r: Result<NodePtr, NodeIdxError>)
        ensures
            idx.state_spec() != self.state_spec() ==> r == Err::<NodePtr, NodeIdxError>(
                NodeIdxError::ReorganizedCollection,
            ),
            idx.state_spec() == self.state_spec() && idx.addr() >= self.storage_len() ==> r
                == Err::<NodePtr, NodeIdxError>(NodeIdxError::OutOfBounds),
            idx.state_spec() == self.state_spec() && idx.addr() < self.storage_len() && !self
                .nodes_spec()[idx.addr() as int].is_active_spec() ==> r == Err::<
                NodePtr,
                NodeIdxError,
            >(NodeIdxError::RemovedNode),
            self.idx_valid(*idx) ==> r is Ok && r->Ok_0.addr == idx.addr(),
    {
        if idx.is_in_state(self.memory_state()) {
            if idx.node_ptr().addr < self.core.nodes().len() {
                let ptr = idx.node_ptr();
                if self.core.node(&ptr).is_active() {
                    Ok(ptr)
                } else {
                    Err(NodeIdxError::RemovedNode)
                }
            } else {
                Err(NodeIdxError::OutOfBounds)
            }
        } else {
            Err(NodeIdxError::ReorganizedCollection)
        }
    }

    /// Tries to convert the given index into a valid pointer to its node;
    /// `None` if the index is invalid.
    pub fn get_ptr(&self, idx: &NodeIdx) -> (r: Option<NodePtr>)
        ensures
            self.idx_valid(*idx) ==> r is Some && r->Some_0.addr == idx.addr(),
            !self.idx_valid(*idx) ==> r is None,
    {
        match self.try_get_ptr(idx) {
            Ok(ptr) => Some(ptr),
            Err(_) => None,
        }
    }

    /// Returns a mutable reference to the node with the given index; `None`
    /// if the index's state stamp does not match or its address does not
    /// belong to the collection.
    pub fn node_mut_from_idx(&mut self, idx: &NodeIdx) -> (r: Option<&mut Node<V>>)
        ensures
            (idx.state_spec() != old(self).state_spec() || idx.addr() >= old(self).storage_len()) ==> r is None && *final(self) == *old(self),
            (idx.state_spec() == old(self).state_spec() && idx.addr() < old(self).storage_len())
                ==> r is Some && *r.unwrap() == old(self).nodes_spec()[idx.addr() as int] && final(self).nodes_spec() == old(self).nodes_spec().update(idx.addr() as int, *final(r.unwrap()))
                && final(self).ends_spec() == old(self).ends_spec() && final(self).len_spec()
                == old(self).len_spec() && final(self).state_spec() == old(self).state_spec(),
    {
        if idx.is_in_state(self.memory_state()) && idx.node_ptr().addr < self.core.nodes().len() {
            Some(self.core.node_mut(&idx.node_ptr()))
        } else {
            None
        }
    }

    /// Pushes the element with the given `data` and returns its checked
    /// index.
    pub fn push_get_idx(&mut self, data: V::Item) -> (r: NodeIdx)
        requires
            old(self).wf(),
            old(self).storage_len() < usize::MAX,
        ensures
            r.addr() == old(self).storage_len(),
            r.state_spec() == old(self).state_spec(),
            final(self).state_spec() == old(self).state_spec(),
            final(self).nodes_spec().len() == old(self).storage_len() + 1,
            final(self).nodes_spec()[r.addr() as int].payload() == Some(data),
            final(self).nodes_spec()[r.addr() as int].prevs() == Seq::<usize>::empty(),
            final(self).nodes_spec()[r.addr() as int].nexts() == Seq::<usize>::empty(),
            forall|i: int|
                0 <= i < old(self).storage_len() ==> final(self).nodes_spec()[i] == old(self).nodes_spec()[i],
            final(self).ends_spec() == old(self).ends_spec(),
            final(self).len_spec() == old(self).len_spec() + 1,
            final(self).wf(),
            old(self).no_dangling() ==> final(self).no_dangling(),
            old(self).closed_detached() ==> final(self).closed_detached(),
            final(self).idx_valid(r),
    {
        let node_ptr = self.push(data);
        NodeIdx::new(self.memory_state(), &node_ptr)
    }

    // Forwarders to the core collection.

    /// Pushes the element with the given `data` as a new active, detached
    /// node and returns its pointer.
    pub fn push(&mut self, data: V::Item) -> (r: NodePtr)
        requires
            old(self).wf(),
            old(self).storage_len() < usize::MAX,
        ensures
            r.addr == old(self).storage_len(),
            final(self).state_spec() == old(self).state_spec(),
            final(self).nodes_spec().len() == old(self).storage_len() + 1,
            final(self).nodes_spec()[r.addr as int].payload() == Some(data),
            final(self).nodes_spec()[r.addr as int].prevs() == Seq::<usize>::empty(),
            final(self).nodes_spec()[r.addr as int].nexts() == Seq::<usize>::empty(),
            forall|i: int|
                0 <= i < old(self).storage_len() ==> final(self).nodes_spec()[i] == old(self).nodes_spec()[i],
            final(self).ends_spec() == old(self).ends_spec(),
            final(self).len_spec() == old(self).len_spec() + 1,
            final(self).wf(),
            old(self).no_dangling() ==> final(self).no_dangling(),
            old(self).closed_detached() ==> final(self).closed_detached(),
    {
        self.core.push(data)
    }

    /// Returns the number of active elements of the collection.
    pub fn len(&self) -> (r: usize)
        ensures
            r == self.len_spec(),
    {
        self.core.len()
    }

    /// Returns whether the collection holds no active element.
    pub fn is_empty(&self) -> (r: bool)
        ensures
            r == (self.len_spec() == 0),
    {
        self.core.is_empty()
    }

    /// Returns a reference to the underlying node storage.
    pub fn nodes(&self) -> (r: &Vec<Node<V>>)
        ensures
            r@ == self.nodes_spec(),
    {
        self.core.nodes()
    }

    /// Returns a reference to the node at the given `node_ptr`, which must
    /// belong to the collection's storage.
    pub fn node(&self, node_ptr: &NodePtr) -> (r: &Node<V>)
        requires
            node_ptr.addr < self.storage_len(),
        ensures
            *r == self.nodes_spec()[node_ptr.addr as int],
    {
        self.core.node(node_ptr)
    }

    /// Returns a mutable reference to the node at the given `node_ptr`,
    /// which must belong to the collection's storage.
    pub fn node_mut(&mut self, node_ptr: &NodePtr) -> (r: &mut Node<V>)
        requires
            node_ptr.addr < old(self).storage_len(),
        ensures
            *r == old(self).nodes_spec()[node_ptr.addr as int],
            final(self).nodes_spec() == old(self).nodes_spec().update(
                node_ptr.addr as int,
                *final(r),
            ),
            final(self).ends_spec() == old(self).ends_spec(),
            final(self).len_spec() == old(self).len_spec(),
            final(self).state_spec() == old(self).state_spec(),
    {
        self.core.node_mut(node_ptr)
    }

    /// Returns a reference to the ends of the collection.
    pub fn ends(&self) -> (r: &V::Ends)
        ensures
            *r == self.ends_spec(),
    {
        self.core.ends()
    }

    /// Returns a mutable reference to the ends of the collection.
    pub fn ends_mut(&mut self) -> (r: &mut V::Ends)
        ensures
            *r == old(self).ends_spec(),
            final(self).ends_spec() == *final(r),
            final(self).nodes_spec() == old(self).nodes_spec(),
            final(self).len_spec() == old(self).len_spec(),
            final(self).state_spec() == old(self).state_spec(),
    {
        self.core.ends_mut()
    }

    /// Returns the pointer of the element at the given `node_position` of
    /// the underlying storage, which must be within bounds.
    pub fn node_ptr_at_pos(&self, node_position: usize) -> (r: NodePtr)
        requires
            node_position < self.storage_len(),
        ensures
            r.addr == node_position,
    {
        self.core.node_ptr_at_pos(node_position)
    }

    /// Returns the position of the node with the given `node_ptr`; `None`
    /// if the pointer does not belong to the collection.
    pub fn position_of(&self, node_ptr: &NodePtr) -> (r: Option<usize>)
        ensures
            node_ptr.addr < self.storage_len() ==> r == Some(node_ptr.addr),
            node_ptr.addr >= self.storage_len() ==> r is None,
    {
        self.core.position_of(node_ptr)
    }

    /// Returns the position of the node with the given `node_ptr`, which
    /// must belong to the collection.
    pub fn position_of_unchecked(&self, node_ptr: &NodePtr) -> (r: usize)
        requires
            node_ptr.addr < self.storage_len(),
        ensures
            r == node_ptr.addr,
    {
        self.core.position_of_unchecked(node_ptr)
    }

    /// Swaps the closed node at `closed_position` with the active node at
    /// `active_position`; used only by reclaimers.
    pub fn move_node(&mut self, closed_position: usize, active_position: usize)
        requires
            old(self).wf(),
            closed_position < active_position,
            active_position < old(self).storage_len(),
            !old(self).nodes_spec()[closed_position as int].is_active_spec(),
            old(self).nodes_spec()[active_position as int].is_active_spec(),
        ensures
            final(self).nodes_spec() == old(self).nodes_spec().update(
                closed_position as int,
                old(self).nodes_spec()[active_position as int],
            ).update(active_position as int, old(self).nodes_spec()[closed_position as int]),
            final(self).ends_spec() == old(self).ends_spec(),
            final(self).len_spec() == old(self).len_spec(),
            final(self).state_spec() == old(self).state_spec(),
            final(self).wf(),
    {
        self.core.move_node(closed_position, active_position)
    }

    /// Swaps the underlying data of the node at the given `node_ptr` with
    /// the `new_value` and returns the old value. The node must belong to
    /// the collection and be active.
    pub fn swap_data(&mut self, node_ptr: &NodePtr, new_value: V::Item) -> (r: V::Item)
        requires
            old(self).wf(),
            node_ptr.addr < old(self).storage_len(),
            old(self).nodes_spec()[node_ptr.addr as int].is_active_spec(),
        ensures
            Some(r) == old(self).nodes_spec()[node_ptr.addr as int].payload(),
            final(self).nodes_spec().len() == old(self).storage_len(),
            final(self).nodes_spec()[node_ptr.addr as int].payload() == Some(new_value),
            forall|i: int|
                0 <= i < old(self).storage_len() && i != node_ptr.addr ==> final(self).nodes_spec()[i] == old(self).nodes_spec()[i],
            final(self).ends_spec() == old(self).ends_spec(),
            final(self).len_spec() == old(self).len_spec(),
            final(self).state_spec() == old(self).state_spec(),
            final(self).wf(),
    {
        self.core.swap_data(node_ptr, new_value)
    }

    /// Returns a mutable reference to the underlying node storage.
    pub fn nodes_mut(&mut self) -> (r: &mut Vec<Node<V>>)
        ensures
            r@ == old(self).nodes_spec(),
            final(self).nodes_spec() == final(r)@,
            final(self).ends_spec() == old(self).ends_spec(),
            final(self).len_spec() == old(self).len_spec(),
            final(self).state_spec() == old(self).state_spec(),
    {
        self.core.nodes_mut()
    }

    /// Returns the current node utilization of the collection.
    pub fn utilization(&self) -> (r: Utilization)
        requires
            self.wf(),
        ensures
            r.num_active_nodes == self.len_spec(),
            r.num_closed_nodes == self.storage_len() - self.len_spec(),
            r.capacity >= self.storage_len(),
    {
        self.core.utilization()
    }
}

impl<V: Variant, const D: usize, R: crate::memory::MemoryReclaimer<V>> From<
    SelfRefCol<V, crate::memory::MemoryReclaimNever>,
> for SelfRefCol<V, crate::memory::MemoryReclaimOnThreshold<D, V, R>> {
    /// Converts the collection to one with a threshold reclaim policy,
    /// keeping its nodes, anchors and memory state.
    fn from(value: SelfRefCol<V, crate::memory::MemoryReclaimNever>) -> (r: Self) {
        let (core, state) = value.into_inner();
        Self { core, state, phantom: PhantomData }
    }
}

impl<V: Variant, const D: usize, R: crate::memory::MemoryReclaimer<V>> vstd::std_specs::convert::FromSpecImpl<
    SelfRefCol<V, crate::memory::MemoryReclaimNever>,
> for SelfRefCol<V, crate::memory::MemoryReclaimOnThreshold<D, V, R>> {
    open spec fn obeys_from_spec() -> bool {
        true
    }

    closed spec fn from_spec(v: SelfRefCol<V, crate::memory::MemoryReclaimNever>) -> Self {
        SelfRefCol { core: v.core, state: v.state, phantom: PhantomData }
    }
}

impl<V: Variant, const D: usize, R: crate::memory::MemoryReclaimer<V>> From<
    SelfRefCol<V, crate::memory::MemoryReclaimOnThreshold<D, V, R>>,
> for SelfRefCol<V, crate::memory::MemoryReclaimNever> {
    /// Converts the collection to one with the never-reclaim policy,
    /// keeping its nodes, anchors and memory state.
    fn from(value: SelfRefCol<V, crate::memory::MemoryReclaimOnThreshold<D, V, R>>) -> (r: Self) {
        let (core, state) = value.into_inner();
        Self { core, state, phantom: PhantomData }
    }
}

impl<V: Variant, const D: usize, R: crate::memory::MemoryReclaimer<V>> vstd::std_specs::convert::FromSpecImpl<
    SelfRefCol<V, crate::memory::MemoryReclaimOnThreshold<D, V, R>>,
> for SelfRefCol<V, crate::memory::MemoryReclaimNever> {
    open spec fn obeys_from_spec() -> bool {
        true
    }

    closed spec fn from_spec(
        v: SelfRefCol<V, crate::memory::MemoryReclaimOnThreshold<D, V, R>>,
    ) -> Self {
        SelfRefCol { core: v.core, state: v.state, phantom: PhantomData }
    }
}

/// Switching the memory policy of a collection keeps its core collection
/// and its memory state.
pub broadcast proof fn lemma_policy_switch_keeps_state<V: Variant, const D: usize, R: crate::memory::MemoryReclaimer<V>>(
    v: SelfRefCol<V, crate::memory::MemoryReclaimNever>,
)
    ensures
        (#[trigger] <SelfRefCol<
            V,
            crate::memory::MemoryReclaimOnThreshold<D, V, R>,
        > as vstd::std_specs::convert::FromSpec<
            SelfRefCol<V, crate::memory::MemoryReclaimNever>,
        >>::from_spec(v)).core_spec() == v.core_spec(),
        <SelfRefCol<
            V,
            crate::memory::MemoryReclaimOnThreshold<D, V, R>,
        > as vstd::std_specs::convert::FromSpec<
            SelfRefCol<V, crate::memory::MemoryReclaimNever>,
        >>::from_spec(v).state_spec() == v.state_spec(),
{
}

impl<V: Variant, M: MemoryPolicy<V>> Default for SelfRefCol<V, M> {
    /// Creates a new empty collection.
    fn default() -> (r: Self)
        ensures
            r.nodes_spec() == Seq::<Node<V>>::empty(),
            r.ends_spec().addrs() == Seq::<usize>::empty(),
            r.len_spec() == 0,
            r.state_spec().id == 0,
            r.wf(),
            r.no_dangling(),
            r.closed_detached(),
    {
        Self::new()
    }
}

/// The collection `c` is the collection `o` with the node at address `addr`
/// closed and detached, and nothing else changed: what the collection looks
/// like right after `close` and before any reclamation.
pub open spec fn closed_version<V: Variant>(o: CoreCol<V>, addr: usize, c: CoreCol<V>) -> bool {
    &&& c.nodes_spec().len() == o.storage_len()
    &&& addr < o.storage_len()
    &&& c.nodes_spec()[addr as int].payload() is None
    &&& c.nodes_spec()[addr as int].prevs() == Seq::<usize>::empty()
    &&& c.nodes_spec()[addr as int].nexts() == Seq::<usize>::empty()
    &&& forall|i: int|
        0 <= i < o.storage_len() && i != addr ==> c.nodes_spec()[i] == o.nodes_spec()[i]
    &&& c.ends_spec() == o.ends_spec()
    &&& c.len_spec() == o.len_spec() - 1
}

impl NodeIdx {
    /// Returns true only if this index is valid for the given `collection`:
    /// the collection's memory state has not changed since the index was
    /// created, the address still belongs to the collection's storage, and
    /// the node at that address is active. The three checks run in that
    /// order.
    pub fn is_valid_for<V: Variant, M: MemoryPolicy<V>>(&self, collection: &SelfRefCol<V, M>) -> (r:
        bool)
        ensures
            r == collection.idx_valid(*self),
    {
        self.is_in_state(collection.memory_state()) && self.node_ptr().addr
            < collection.nodes().len() && collection.node(&self.node_ptr()).is_active()
    }
}

impl NodePtr {
    /// Returns true exactly when this pointer's address belongs to the
    /// collection's storage and the node there is still active.
    ///
    /// No state stamp is checked: the caller accepts responsibility for
    /// knowing that the collection has not reorganized since the handle was
    /// taken, as is the case under the never-reclaim policy.
    pub fn is_valid_for<V: Variant, M: MemoryPolicy<V>>(&self, collection: &SelfRefCol<V, M>) -> (r:
        bool)
        ensures
            r == (self.addr < collection.storage_len()
                && collection.nodes_spec()[self.addr as int].is_active_spec()),
    {
        self.addr < collection.nodes().len() && collection.node(self).is_active()
    }
}

} // verus!
