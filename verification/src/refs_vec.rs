//! A dynamic number of references.

use vstd::prelude::*;
use crate::node_ptr::NodePtr;
use crate::refs::{lemma_remove_value_at, subst_addrs, Refs};

verus! {

/// A container holding a dynamic number of node references, such as the
/// children of a tree node with unbounded fan-out.
#[derive(Clone, Debug)]
pub struct RefsVec(Vec<NodePtr>);

impl RefsVec {
    /// The held references, in order.
    pub closed spec fn ptrs(&self) -> Seq<NodePtr> {
        self.0@
    }

    /// Returns the number of references.
    pub fn len(&self) -> (r: usize)
        ensures
            r == self.ptrs().len(),
    {
        self.0.len()
    }

    /// Returns the node pointers as a slice.
    pub fn as_slice(&self) -> (r: &[NodePtr])
        ensures
            r@ == self.ptrs(),
    {
        self.0.as_slice()
    }

    /// Returns the `i`-th node pointer; `None` if out of bounds.
    pub fn get(&self, i: usize) -> (r: Option<&NodePtr>)
        ensures
            i < self.ptrs().len() ==> r is Some && *r->Some_0 == self.ptrs()[i as int],
            i >= self.ptrs().len() ==> r is None,
    {
        self.0.get(i)
    }

    /// Pushes the node reference to the end of the references collection.
    pub fn push(&mut self, node_ptr: NodePtr)
        ensures
            final(self).ptrs() == old(self).ptrs().push(node_ptr),
    {
        self.0.push(node_ptr);
    }

    /// Inserts the reference with the given `node_ptr` at the given
    /// `position` of the references collection.
    pub fn insert(&mut self, position: usize, node_ptr: NodePtr)
        requires
            position <= old(self).ptrs().len(),
        ensures
            final(self).ptrs() == old(self).ptrs().insert(position as int, node_ptr),
    {
        self.0.insert(position, node_ptr);
    }

    /// Position of the first reference equal to `ptr`, or `None`.
    fn position_of(&self, ptr: &NodePtr) -> (r: Option<usize>)
        ensures
            match r {
                Some(p) => p < self.ptrs().len() && self.ptrs()[p as int] == *ptr && (forall|j: int|
                    0 <= j < p ==> self.ptrs()[j] != *ptr),
                None => !self.ptrs().contains(*ptr),
            },
    {
        let n = self.0.len();
        let mut i: usize = 0;
        while i < n
            invariant
                n == self.ptrs().len(),
                i <= n,
                forall|j: int| 0 <= j < i ==> self.ptrs()[j] != *ptr,
            decreases n - i,
        {
            if self.0[i].addr == ptr.addr {
                return Some(i);
            }
            i = i + 1;
        }
        None
    }

    /// Inserts `node_ptr` just before the reference equal to `pivot_ptr`, and
    /// returns the position the pivot occupied. Does nothing and returns
    /// `None` if the pivot is absent.
    pub fn push_before(&mut self, pivot_ptr: &NodePtr, node_ptr: NodePtr) -> (r: Option<usize>)
        ensures
            match r {
                Some(p) => p < old(self).ptrs().len() && old(self).ptrs()[p as int] == *pivot_ptr
                    && (forall|j: int| 0 <= j < p ==> old(self).ptrs()[j] != *pivot_ptr) && final(self).ptrs() == old(self).ptrs().insert(p as int, node_ptr),
                None => !old(self).ptrs().contains(*pivot_ptr) && final(self).ptrs() == old(self).ptrs(),
            },
    {
        let position = self.position_of(pivot_ptr);
        if let Some(p) = position {
            self.insert(p, node_ptr);
        }
        position
    }

    /// Inserts `node_ptr` just after the reference equal to `pivot_ptr`, and
    /// returns the position the pivot occupied. Does nothing and returns
    /// `None` if the pivot is absent.
    pub fn push_after(&mut self, pivot_ptr: &NodePtr, node_ptr: NodePtr) -> (r: Option<usize>)
        ensures
            match r {
                Some(p) => p < old(self).ptrs().len() && old(self).ptrs()[p as int] == *pivot_ptr
                    && (forall|j: int| 0 <= j < p ==> old(self).ptrs()[j] != *pivot_ptr) && final(self).ptrs() == old(self).ptrs().insert(p as int + 1, node_ptr),
                None => !old(self).ptrs().contains(*pivot_ptr) && final(self).ptrs() == old(self).ptrs(),
            },
    {
        let position = self.position_of(pivot_ptr);
        if let Some(p) = position {
            let n = self.0.len();
            self.insert(p + 1, node_ptr);
        }
        position
    }

    /// Replaces the reference equal to `old_node_ptr` with `new_node_ptr` and
    /// returns its position. Does nothing and returns `None` if absent.
    pub fn replace_with(&mut self, old_node_ptr: &NodePtr, new_node_ptr: NodePtr) -> (r: Option<
        usize,
    >)
        ensures
            match r {
                Some(p) => p < old(self).ptrs().len() && old(self).ptrs()[p as int]
                    == *old_node_ptr && (forall|j: int|
                    0 <= j < p ==> old(self).ptrs()[j] != *old_node_ptr) && final(self).ptrs()
                    == old(self).ptrs().update(p as int, new_node_ptr),
                None => !old(self).ptrs().contains(*old_node_ptr) && final(self).ptrs() == old(self).ptrs(),
            },
    {
        let position = self.position_of(old_node_ptr);
        if let Some(p) = position {
            let slot = &mut self.0[p];
            *slot = new_node_ptr;
        }
        position
    }
}

impl Refs for RefsVec {
    closed spec fn addrs(&self) -> Seq<usize> {
        self.0@.map_values(|p: NodePtr| p.addr)
    }

    open spec fn inv(&self) -> bool {
        true
    }

    open spec fn can_remove_at(&self, ref_idx: usize) -> bool {
        ref_idx < self.ptrs().len()
    }

    fn empty() -> (r: Self)
        ensures
            r.ptrs() == Seq::<NodePtr>::empty(),
    {
        Self(Vec::new())
    }

    fn is_empty(&self) -> (r: bool) {
        self.0.is_empty()
    }

    fn clear(&mut self)
        ensures
            final(self).ptrs() == Seq::<NodePtr>::empty(),
    {
        self.0.clear();
    }

    fn remove_at(&mut self, ref_idx: usize)
        ensures
            final(self).ptrs() == old(self).ptrs().remove(ref_idx as int),
            final(self).addrs() == old(self).addrs().remove(ref_idx as int),
    {
        self.0.remove(ref_idx);
        proof {
            assert(self.addrs() =~= old(self).addrs().remove(ref_idx as int));
        }
    }

    fn remove(&mut self, addr: usize) -> (r: Option<usize>)
        ensures
            old(self).addrs().contains(addr) ==> (r matches Some(i) && i < old(self).addrs().len() && old(self).addrs()[i as int] == addr && (forall|j: int|
                0 <= j < i ==> old(self).addrs()[j] != addr) && final(self).ptrs() == old(self).ptrs().remove(i as int)),
    {
        let n = self.0.len();
        let mut i: usize = 0;
        while i < n
            invariant
                n == self.0@.len(),
                i <= n,
                self.0@ == old(self).0@,
                forall|j: int| 0 <= j < i ==> self.0@[j].addr != addr,
            decreases n - i,
        {
            if self.0[i].addr == addr {
                proof {
                    assert(old(self).addrs()[i as int] == addr);
                    assert(forall|j: int| 0 <= j < i ==> old(self).addrs()[j] != addr);
                    lemma_remove_value_at(old(self).addrs(), addr, i as int);
                }
                self.0.remove(i);
                proof {
                    assert(self.addrs() =~= old(self).addrs().remove(i as int));
                }
                return Some(i);
            }
            i = i + 1;
        }
        proof {
            assert(forall|j: int|
                0 <= j < self.addrs().len() ==> self.addrs()[j] == self.0@[j].addr);
        }
        None
    }

    fn update_reference(&mut self, old_addr: usize, new_addr: usize) {
        let n = self.0.len();
        let mut i: usize = 0;
        while i < n
            invariant
                n == self.0@.len(),
                i <= n,
                self.0@.len() == old(self).0@.len(),
                forall|j: int|
                    i <= j < n ==> self.0@[j] == old(self).0@[j],
                forall|j: int|
                    0 <= j < i ==> self.0@[j].addr == crate::refs::subst_addr(
                        old_addr,
                        new_addr,
                        old(self).0@[j].addr,
                    ),
            decreases n - i,
        {
            if self.0[i].addr == old_addr {
                let slot = &mut self.0[i];
                *slot = NodePtr::new(new_addr);
            }
            i = i + 1;
        }
        proof {
            assert(self.addrs() =~= subst_addrs(old(self).addrs(), old_addr, new_addr));
        }
    }
}

/// The addresses of a dynamic reference container are its pointers' slot
/// addresses, in order.
pub broadcast proof fn lemma_refs_vec_addrs(r: RefsVec)
    ensures
        #[trigger] r.addrs() == r.ptrs().map_values(|p: NodePtr| p.addr),
{
}

} // verus!
