//! Core collection of the self referential collection.
//!
//! The core owns the storage of nodes, the collection-level anchor
//! references (ends), and the active-element count; it exposes raw,
//! bounds-safe operations to push, close, swap data, and relocate nodes.
//! Unlinking the edges that point into a node before closing it is the
//! calling structure's responsibility.

use vstd::prelude::*;
use crate::node::Node;
use crate::node_ptr::NodePtr;
use crate::refs::Refs;
use crate::utilization::Utilization;
use crate::variant::Variant;

verus! {

/// Number of active nodes in a storage sequence.
pub open spec fn active_count<V: Variant>(s: Seq<Node<V>>) -> nat
    decreases s.len(),
{
    if s.len() == 0 {
        0
    } else {
        active_count(s.drop_last()) + (if s.last().is_active_spec() {
            1nat
        } else {
            0nat
        })
    }
}

/// Active nodes of a concatenation are counted part by part.
pub proof fn lemma_active_count_concat<V: Variant>(a: Seq<Node<V>>, b: Seq<Node<V>>)
    ensures
        active_count(a + b) == active_count(a) + active_count(b),
    decreases b.len(),
{
    if b.len() == 0 {
        assert(a + b =~= a);
    } else {
        assert((a + b).drop_last() =~= a + b.drop_last());
        assert((a + b).last() == b.last());
        lemma_active_count_concat(a, b.drop_last());
    }
}

/// Splitting the storage at position `i` splits the active count around the
/// contribution of slot `i`.
pub proof fn lemma_active_count_split<V: Variant>(s: Seq<Node<V>>, i: int)
    requires
        0 <= i < s.len(),
    ensures
        active_count(s) == active_count(s.subrange(0, i)) + (if s[i].is_active_spec() {
            1int
        } else {
            0int
        }) + active_count(s.subrange(i + 1, s.len() as int)),
{
    let a = s.subrange(0, i);
    let m = seq![s[i]];
    let b = s.subrange(i + 1, s.len() as int);
    assert(s =~= (a + m) + b);
    lemma_active_count_concat(a + m, b);
    lemma_active_count_concat(a, m);
    assert(m.drop_last() =~= Seq::<Node<V>>::empty());
    assert(active_count(m.drop_last()) == 0);
    assert(m.last() == s[i]);
}

/// Updating one slot changes the active count by the difference of the old
/// and new slot's activity.
pub proof fn lemma_active_count_update<V: Variant>(s: Seq<Node<V>>, i: int, n: Node<V>)
    requires
        0 <= i < s.len(),
    ensures
        active_count(s.update(i, n)) == active_count(s) - (if s[i].is_active_spec() {
            1int
        } else {
            0int
        }) + (if n.is_active_spec() {
            1int
        } else {
            0int
        }),
{
    lemma_active_count_split(s, i);
    lemma_active_count_split(s.update(i, n), i);
    assert(s.update(i, n).subrange(0, i) =~= s.subrange(0, i));
    assert(s.update(i, n).subrange(i + 1, s.len() as int) =~= s.subrange(i + 1, s.len() as int));
}

/// There are at most as many active nodes as storage slots.
pub proof fn lemma_active_count_le_len<V: Variant>(s: Seq<Node<V>>)
    ensures
        active_count(s) <= s.len(),
    decreases s.len(),
{
    if s.len() != 0 {
        lemma_active_count_le_len(s.drop_last());
    }
}

/// Every address of `addrs` is the address of an active node of `s`.
pub open spec fn refs_ok<V: Variant>(s: Seq<Node<V>>, addrs: Seq<usize>) -> bool {
    forall|k: int|
        0 <= k < addrs.len() ==> (#[trigger] addrs[k]) < s.len() && s[addrs[k] as int].is_active_spec()
}

/// Core collection of the self referential collection.
pub struct CoreCol<V: Variant> {
    nodes: Vec<Node<V>>,
    ends: V::Ends,
    len: usize,
}

impl<V: Variant> CoreCol<V> {
    /// The storage of nodes, in slot order.
    pub closed spec fn nodes_spec(&self) -> Seq<Node<V>> {
        self.nodes@
    }

    /// The collection-level anchor references.
    pub closed spec fn ends_spec(&self) -> V::Ends {
        self.ends
    }

    /// The number of active nodes.
    pub closed spec fn len_spec(&self) -> usize {
        self.len
    }

    /// The number of storage slots in use, active and closed together.
    pub open spec fn storage_len(&self) -> nat {
        self.nodes_spec().len()
    }

    /// Conservation invariant: the active-element count equals the number of
    /// storage slots whose payload is present; reference containers satisfy
    /// their structural invariants.
    pub open spec fn wf(&self) -> bool {
        &&& self.len_spec() == active_count(self.nodes_spec())
        &&& self.ends_spec().inv()
        &&& forall|i: int| 0 <= i < self.storage_len() ==> (#[trigger] self.nodes_spec()[i]).wf()
    }

    /// No dangling references: every reference reachable from the
    /// collection's anchors or from any active node holds only addresses of
    /// currently active nodes.
    pub open spec fn no_dangling(&self) -> bool {
        &&& refs_ok(self.nodes_spec(), self.ends_spec().addrs())
        &&& forall|i: int|
            0 <= i < self.storage_len() && (#[trigger] self.nodes_spec()[i]).is_active_spec()
                ==> refs_ok(self.nodes_spec(), self.nodes_spec()[i].prevs()) && refs_ok(
                self.nodes_spec(),
                self.nodes_spec()[i].nexts(),
            )
    }

    /// Closed nodes retain no edges: the engine clears a node's references
    /// when it is closed, and reclamation keeps it that way.
    pub open spec fn closed_detached(&self) -> bool {
        forall|i: int|
            0 <= i < self.storage_len() && !(#[trigger] self.nodes_spec()[i]).is_active_spec()
                ==> self.nodes_spec()[i].prevs() == Seq::<usize>::empty()
                && self.nodes_spec()[i].nexts() == Seq::<usize>::empty()
    }

    /// No active node and no anchor references the address `addr`: the
    /// caller has unlinked every edge pointing into that node.
    pub open spec fn unlinked(&self, addr: usize) -> bool {
        &&& !self.ends_spec().addrs().contains(addr)
        &&& forall|i: int|
            0 <= i < self.storage_len() && (#[trigger] self.nodes_spec()[i]).is_active_spec()
                ==> !self.nodes_spec()[i].prevs().contains(addr)
                && !self.nodes_spec()[i].nexts().contains(addr)
    }

    /// Creates a new empty collection.
    pub fn new() -> (r: Self)
        ensures
            r.nodes_spec() == Seq::<Node<V>>::empty(),
            r.ends_spec().addrs() == Seq::<usize>::empty(),
            r.len_spec() == 0,
            r.wf(),
            r.no_dangling(),
            r.closed_detached(),
    {
        Self { nodes: Vec::new(), ends: Refs::empty(), len: 0 }
    }

    /// Builds a collection from a node storage and anchor references,
    /// counting the active nodes.
    pub fn from_raw_parts(nodes: Vec<Node<V>>, ends: V::Ends) -> (r: Self)
        ensures
            r.nodes_spec() == nodes@,
            r.ends_spec() == ends,
            r.len_spec() == active_count(nodes@),
            ends.inv() && (forall|i: int|
                0 <= i < nodes@.len() ==> (#[trigger] nodes@[i]).wf()) ==> r.wf(),
    {
        let n = nodes.len();
        let mut len: usize = 0;
        let mut i: usize = 0;
        while i < n
            invariant
                n == nodes@.len(),
                i <= n,
                len <= i,
                len == active_count(nodes@.subrange(0, i as int)),
            decreases n - i,
        {
            proof {
                assert(nodes@.subrange(0, i + 1).drop_last() =~= nodes@.subrange(0, i as int));
                assert(nodes@.subrange(0, i + 1).last() == nodes@[i as int]);
            }
            if nodes[i].is_active() {
                len = len + 1;
            }
            i = i + 1;
        }
        proof {
            assert(nodes@.subrange(0, n as int) =~= nodes@);
        }
        Self { nodes, ends, len }
    }

    /// Destructs the collection into its storage, ends and length.
    pub fn into_inner(self) -> (r: (Vec<Node<V>>, V::Ends, usize))
        ensures
            r.0@ == self.nodes_spec(),
            r.1 == self.ends_spec(),
            r.2 == self.len_spec(),
    {
        (self.nodes, self.ends, self.len)
    }

    /// Returns the current node utilization of the collection.
    pub fn utilization(&self) -> (r: Utilization)
        requires
            self.wf(),
        ensures
            r.num_active_nodes == self.len_spec(),
            r.num_closed_nodes == self.storage_len() - self.len_spec(),
            r.capacity >= self.storage_len(),
    {
        proof {
            lemma_active_count_le_len(self.nodes_spec());
        }
        Utilization {
            capacity: vec_capacity(&self.nodes),
            num_active_nodes: self.len,
            num_closed_nodes: self.nodes.len() - self.len,
        }
    }

    /// Returns the number of active elements of the collection.
    pub fn len(&self) -> (r: usize)
        ensures
            r == self.len_spec(),
    {
        self.len
    }

    /// Returns whether the collection holds no active element.
    pub fn is_empty(&self) -> (r: bool)
        ensures
            r == (self.len_spec() == 0),
    {
        self.len == 0
    }

    /// Returns a reference to the underlying node storage.
    pub fn nodes(&self) -> (r: &Vec<Node<V>>)
        ensures
            r@ == self.nodes_spec(),
    {
        &self.nodes
    }

    /// Returns a mutable reference to the underlying node storage.
    pub fn nodes_mut(&mut self) -> (r: &mut Vec<Node<V>>)
        ensures
            r@ == old(self).nodes_spec(),
            final(self).nodes_spec() == final(r)@,
            final(self).ends_spec() == old(self).ends_spec(),
            final(self).len_spec() == old(self).len_spec(),
    {
        &mut self.nodes
    }

    /// Returns a reference to the node at the given `node_ptr`. The pointer
    /// must belong to the collection's storage.
    pub fn node(&self, node_ptr: &NodePtr) -> (r: &Node<V>)
        requires
            node_ptr.addr < self.storage_len(),
        ensures
            *r == self.nodes_spec()[node_ptr.addr as int],
    {
        &self.nodes[node_ptr.addr]
    }

    /// Returns a mutable reference to the node at the given `node_ptr`. The
    /// pointer must belong to the collection's storage.
    pub fn node_mut(&mut self, node_ptr: &NodePtr) -> (r: &mut Node<V>)
        requires
            node_ptr.addr < old(self).storage_len(),
        ensures
            *r == old(self).nodes_spec()[node_ptr.addr as int],
            final(self).nodes_spec() == old(self).nodes_spec().update(
                node_ptr.addr as int,
                *final(r),
            ),
            final(self).ends_spec() == old(self).ends_spec(),
            final(self).len_spec() == old(self).len_spec(),
    {
        &mut self.nodes[node_ptr.addr]
    }

    /// Returns the position of the node with the given `node_ptr`; `None` if
    /// the pointer does not belong to the collection.
    pub fn position_of(&self, node_ptr: &NodePtr) -> (r: Option<usize>)
        ensures
            node_ptr.addr < self.storage_len() ==> r == Some(node_ptr.addr),
            node_ptr.addr >= self.storage_len() ==> r is None,
    {
        if node_ptr.addr < self.nodes.len() {
            Some(node_ptr.addr)
        } else {
            None
        }
    }

    /// Returns the position of the node with the given `node_ptr`, which
    /// must belong to the collection.
    pub fn position_of_unchecked(&self, node_ptr: &NodePtr) -> (r: usize)
        requires
            node_ptr.addr < self.storage_len(),
        ensures
            r == node_ptr.addr,
    {
        node_ptr.addr
    }

    /// Returns a reference to the data of the node at `node_ptr`, which must
    /// belong to the collection and be active.
    pub fn data_unchecked(&self, node_ptr: &NodePtr) -> (r: &V::Item)
        requires
            node_ptr.addr < self.storage_len(),
            self.nodes_spec()[node_ptr.addr as int].is_active_spec(),
        ensures
            Some(*r) == self.nodes_spec()[node_ptr.addr as int].payload(),
    {
        match self.nodes[node_ptr.addr].data() {
            Some(d) => d,
            None => unreached(),
        }
    }

    /// Returns a reference to the ends of the collection.
    pub fn ends(&self) -> (r: &V::Ends)
        ensures
            *r == self.ends_spec(),
    {
        &self.ends
    }

    /// Returns a mutable reference to the ends of the collection.
    pub fn ends_mut(&mut self) -> (r: &mut V::Ends)
        ensures
            *r == old(self).ends_spec(),
            final(self).ends_spec() == *final(r),
            final(self).nodes_spec() == old(self).nodes_spec(),
            final(self).len_spec() == old(self).len_spec(),
    {
        &mut self.ends
    }

    /// Returns the pointer of the element at the given `node_position` of
    /// the underlying storage, which must be within bounds.
    pub fn node_ptr_at_pos(&self, node_position: usize) -> (r: NodePtr)
        requires
            node_position < self.storage_len(),
        ensures
            r.addr == node_position,
    {
        NodePtr::new(node_position)
    }

    /// Clears the storage, the ends and the active count.
    pub fn clear_core(&mut self)
        ensures
            final(self).nodes_spec() == Seq::<Node<V>>::empty(),
            final(self).ends_spec().addrs() == Seq::<usize>::empty(),
            final(self).ends_spec().inv(),
            final(self).len_spec() == 0,
            final(self).wf(),
            final(self).no_dangling(),
            final(self).closed_detached(),
    {
        self.len = 0;
        self.ends = Refs::empty();
        self.nodes.clear();
    }

    /// Pushes the element with the given `data` as a new active, detached
    /// node and returns its pointer.
    pub fn push(&mut self, data: V::Item) -> (r: NodePtr)
        requires
            old(self).wf(),
            old(self).storage_len() < usize::MAX,
        ensures
            r.addr == old(self).storage_len(),
            final(self).nodes_spec().len() == old(self).storage_len() + 1,
            final(self).nodes_spec()[r.addr as int].payload() == Some(data),
            final(self).nodes_spec()[r.addr as int].prevs() == Seq::<usize>::empty(),
            final(self).nodes_spec()[r.addr as int].nexts() == Seq::<usize>::empty(),
            forall|i: int|
                0 <= i < old(self).storage_len() ==> final(self).nodes_spec()[i] == old(self).nodes_spec()[i],
            final(self).ends_spec() == old(self).ends_spec(),
            final(self).len_spec() == old(self).len_spec() + 1,
            final(self).wf(),
            old(self).no_dangling() ==> final(self).no_dangling(),
            old(self).closed_detached() ==> final(self).closed_detached(),
    {
        proof {
            lemma_active_count_le_len(self.nodes_spec());
        }
        let addr = self.nodes.len();
        self.len = self.len + 1;
        self.nodes.push(Node::new_free_node(data));
        proof {
            lemma_active_count_concat(
                old(self).nodes_spec(),
                seq![self.nodes_spec().last()],
            );
            assert(old(self).nodes_spec() + seq![self.nodes_spec().last()]
                =~= self.nodes_spec());
            let x = self.nodes_spec().last();
            assert(seq![x].drop_last() =~= Seq::<Node<V>>::empty());
            assert(active_count(Seq::<Node<V>>::empty()) == 0);
            assert(seq![x].last() == x);
            assert(x.is_active_spec());
            assert(active_count(seq![x]) == 1);
        }
        NodePtr::new(addr)
    }

    /// Closes the node at the given `node_ptr` and returns its data. The
    /// node must belong to the collection and be active; the caller must
    /// already have unlinked every edge pointing into it.
    pub fn close(&mut self, node_ptr: &NodePtr) -> (r: V::Item)
        requires
            old(self).wf(),
            node_ptr.addr < old(self).storage_len(),
            old(self).nodes_spec()[node_ptr.addr as int].is_active_spec(),
        ensures
            Some(r) == old(self).nodes_spec()[node_ptr.addr as int].payload(),
            final(self).nodes_spec().len() == old(self).storage_len(),
            final(self).nodes_spec()[node_ptr.addr as int].payload() is None,
            final(self).nodes_spec()[node_ptr.addr as int].prevs() == Seq::<usize>::empty(),
            final(self).nodes_spec()[node_ptr.addr as int].nexts() == Seq::<usize>::empty(),
            forall|i: int|
                0 <= i < old(self).storage_len() && i != node_ptr.addr ==> final(self).nodes_spec()[i] == old(self).nodes_spec()[i],
            final(self).ends_spec() == old(self).ends_spec(),
            final(self).len_spec() == old(self).len_spec() - 1,
            final(self).wf(),
            old(self).no_dangling() && old(self).unlinked(node_ptr.addr) ==> final(self).no_dangling(),
            old(self).closed_detached() ==> final(self).closed_detached(),
    {
        proof {
            lemma_active_count_split(self.nodes_spec(), node_ptr.addr as int);
        }
        let node = &mut self.nodes[node_ptr.addr];
        let data = node.close();
        self.len = self.len - 1;
        proof {
            lemma_active_count_update(
                old(self).nodes_spec(),
                node_ptr.addr as int,
                self.nodes_spec()[node_ptr.addr as int],
            );
        }
        data
    }

    /// Closes the node at the given `node_ptr` and returns its data if it
    /// was active; does nothing and returns `None` if it was already closed.
    pub fn close_if_active(&mut self, node_ptr: &NodePtr) -> (r: Option<V::Item>)
        requires
            old(self).wf(),
            node_ptr.addr < old(self).storage_len(),
        ensures
            old(self).nodes_spec()[node_ptr.addr as int].is_active_spec() ==> r == old(self).nodes_spec()[node_ptr.addr as int].payload() && final(self).len_spec() == old(self).len_spec() - 1 && final(self).nodes_spec()[node_ptr.addr as int].payload() is None
                && final(self).nodes_spec()[node_ptr.addr as int].prevs() == Seq::<usize>::empty()
                && final(self).nodes_spec()[node_ptr.addr as int].nexts() == Seq::<usize>::empty(),
            !old(self).nodes_spec()[node_ptr.addr as int].is_active_spec() ==> r is None && *final(self) == *old(self),
            final(self).nodes_spec().len() == old(self).storage_len(),
            forall|i: int|
                0 <= i < old(self).storage_len() && i != node_ptr.addr ==> final(self).nodes_spec()[i] == old(self).nodes_spec()[i],
            final(self).ends_spec() == old(self).ends_spec(),
            final(self).wf(),
            old(self).no_dangling() && old(self).unlinked(node_ptr.addr) ==> final(self).no_dangling(),
            old(self).closed_detached() ==> final(self).closed_detached(),
    {
        let active = self.nodes[node_ptr.addr].is_active();
        if active {
            Some(self.close(node_ptr))
        } else {
            None
        }
    }

    /// Swaps the closed node at `closed_position` with the active node at
    /// `active_position`; used only by reclaimers. The content moves, the
    /// slot addresses stay.
    pub fn move_node(&mut self, closed_position: usize, active_position: usize)
        requires
            old(self).wf(),
            closed_position < active_position,
            active_position < old(self).storage_len(),
            !old(self).nodes_spec()[closed_position as int].is_active_spec(),
            old(self).nodes_spec()[active_position as int].is_active_spec(),
        ensures
            final(self).nodes_spec() == old(self).nodes_spec().update(
                closed_position as int,
                old(self).nodes_spec()[active_position as int],
            ).update(active_position as int, old(self).nodes_spec()[closed_position as int]),
            final(self).ends_spec() == old(self).ends_spec(),
            final(self).len_spec() == old(self).len_spec(),
            final(self).wf(),
    {
        swap_nodes(&mut self.nodes, closed_position, active_position);
        proof {
            let s = old(self).nodes_spec();
            let t = self.nodes_spec();
            lemma_active_count_update(s, closed_position as int, s[active_position as int]);
            lemma_active_count_update(
                s.update(closed_position as int, s[active_position as int]),
                active_position as int,
                s[closed_position as int],
            );
        }
    }

    /// Swaps the underlying data of the node at the given `node_ptr` with
    /// the `new_value` and returns the old value. The node must belong to
    /// the collection and be active.
    pub fn swap_data(&mut self, node_ptr: &NodePtr, new_value: V::Item) -> (r: V::Item)
        requires
            old(self).wf(),
            node_ptr.addr < old(self).storage_len(),
            old(self).nodes_spec()[node_ptr.addr as int].is_active_spec(),
        ensures
            Some(r) == old(self).nodes_spec()[node_ptr.addr as int].payload(),
            final(self).nodes_spec().len() == old(self).storage_len(),
            final(self).nodes_spec()[node_ptr.addr as int].payload() == Some(new_value),
            final(self).nodes_spec()[node_ptr.addr as int].prev_spec() == old(self).nodes_spec()[node_ptr.addr as int].prev_spec(),
            final(self).nodes_spec()[node_ptr.addr as int].next_spec() == old(self).nodes_spec()[node_ptr.addr as int].next_spec(),
            forall|i: int|
                0 <= i < old(self).storage_len() && i != node_ptr.addr ==> final(self).nodes_spec()[i] == old(self).nodes_spec()[i],
            final(self).ends_spec() == old(self).ends_spec(),
            final(self).len_spec() == old(self).len_spec(),
            final(self).wf(),
    {
        let node = &mut self.nodes[node_ptr.addr];
        let r = node.swap_data(new_value);
        proof {
            lemma_active_count_update(
                old(self).nodes_spec(),
                node_ptr.addr as int,
                self.nodes_spec()[node_ptr.addr as int],
            );
        }
        r
    }

    /// Truncates the storage to the first `new_len` slots. All dropped
    /// slots must be closed.
    pub fn truncate_storage(&mut self, new_len: usize)
        requires
            old(self).wf(),
            new_len <= old(self).storage_len(),
            forall|i: int|
                new_len <= i < old(self).storage_len() ==> !(#[trigger] old(self).nodes_spec()[i]).is_active_spec(),
        ensures
            final(self).nodes_spec() == old(self).nodes_spec().subrange(0, new_len as int),
            final(self).ends_spec() == old(self).ends_spec(),
            final(self).len_spec() == old(self).len_spec(),
            final(self).wf(),
    {
        self.nodes.truncate(new_len);
        proof {
            let s = old(self).nodes_spec();
            let a = s.subrange(0, new_len as int);
            let b = s.subrange(new_len as int, s.len() as int);
            assert(s =~= a + b);
            lemma_active_count_concat(a, b);
            lemma_active_count_zero(b);
        }
    }
}

impl<V: Variant> Default for CoreCol<V> {
    /// Creates a new empty collection.
    fn default() -> (r: Self)
        ensures
            r.nodes_spec() == Seq::<Node<V>>::empty(),
            r.ends_spec().addrs() == Seq::<usize>::empty(),
            r.len_spec() == 0,
            r.wf(),
            r.no_dangling(),
            r.closed_detached(),
    {
        Self::new()
    }
}

/// A storage sequence whose active nodes are exactly the first `k` slots
/// counts `k`.
pub proof fn lemma_active_count_prefix<V: Variant>(s: Seq<Node<V>>, k: int)
    requires
        0 <= k <= s.len(),
        forall|i: int| 0 <= i < s.len() ==> ((#[trigger] s[i]).is_active_spec() <==> i < k),
    ensures
        active_count(s) == k,
{
    let a = s.subrange(0, k);
    let b = s.subrange(k, s.len() as int);
    assert(s =~= a + b);
    lemma_active_count_concat(a, b);
    lemma_active_count_zero(b);
    lemma_active_count_full(a);
}

/// A storage sequence of active nodes only counts its length.
pub proof fn lemma_active_count_full<V: Variant>(s: Seq<Node<V>>)
    requires
        forall|i: int| 0 <= i < s.len() ==> (#[trigger] s[i]).is_active_spec(),
    ensures
        active_count(s) == s.len(),
    decreases s.len(),
{
    if s.len() != 0 {
        lemma_active_count_full(s.drop_last());
    }
}

/// A storage sequence without active nodes counts zero.
pub proof fn lemma_active_count_zero<V: Variant>(s: Seq<Node<V>>)
    requires
        forall|i: int| 0 <= i < s.len() ==> !(#[trigger] s[i]).is_active_spec(),
    ensures
        active_count(s) == 0,
    decreases s.len(),
{
    if s.len() != 0 {
        lemma_active_count_zero(s.drop_last());
    }
}

/// Swaps the elements at positions `i` and `j` of the vector.
fn swap_nodes<T>(v: &mut Vec<T>, i: usize, j: usize)
    requires
        i < j,
        j < old(v)@.len(),
    ensures
        final(v)@ == old(v)@.update(i as int, old(v)@[j as int]).update(
            j as int,
            old(v)@[i as int],
        ),
{
    let ghost orig = v@;
    let s = v.as_mut_slice();
    let (left, right) = s.split_at_mut(j);
    let (_, mid) = left.split_at_mut(i);
    match mid.first_mut() {
        Some(x) => {
            match right.first_mut() {
                Some(y) => {
                    core::mem::swap(x, y);
                },
                None => {
                    proof {
                        assert(false);
                    }
                },
            }
        },
        None => {
            proof {
                assert(false);
            }
        },
    }
    proof {
        assert(final(v)@ =~= orig.update(i as int, orig[j as int]).update(
            j as int,
            orig[i as int],
        ));
    }
}

/// Relies on std's `Vec::capacity`: the number of elements the vector can
/// hold without reallocating, at least its length.
#[verifier::external_body]
fn vec_capacity<T>(v: &Vec<T>) -> (r: usize)
    ensures
        r >= v@.len(),
{
    v.capacity()
}

} // verus!
