//! A constant number of left-aligned references.

use vstd::prelude::*;
use crate::node_ptr::NodePtr;
use crate::refs::{lemma_remove_value_at, subst_addr, subst_addrs, Refs};

verus! {

/// A container holding up to `N` node references with the additional
/// requirement that all filled slots stand to the left of all empty slots,
/// such as the children of a tree node with bounded fan-out.
///
/// `remove_at` and `remove` shift the subsequent references one slot to the
/// left, keeping their order.
pub struct RefsArrayLeftMost<const N: usize> {
    array: Vec<Option<NodePtr>>,
    len: usize,
}

impl<const N: usize> RefsArrayLeftMost<N> {
    /// The held references, in order.
    pub closed spec fn ptrs(&self) -> Seq<NodePtr> {
        Seq::new(self.len as nat, |i: int| self.array@[i]->Some_0)
    }

    /// Returns the number of references.
    pub fn len(&self) -> (r: usize)
        ensures
            r == self.ptrs().len(),
    {
        self.len
    }

    /// Returns whether the collection has room for another reference.
    pub fn has_room(&self) -> (r: bool)
        ensures
            r == (self.ptrs().len() < N),
    {
        self.len < N
    }

    /// Returns a reference to the node pointer at the `ref_idx` position of
    /// the references collection; `None` when `ref_idx` is not filled.
    pub fn get(&self, ref_idx: usize) -> (r: Option<&NodePtr>)
        requires
            self.inv(),
        ensures
            ref_idx < self.ptrs().len() ==> r is Some && *r.unwrap() == self.ptrs()[ref_idx as int],
            ref_idx >= self.ptrs().len() ==> r is None,
    {
        if ref_idx < N {
            self.array[ref_idx].as_ref()
        } else {
            None
        }
    }

    /// Pushes the node reference to the end of the references collection.
    /// The collection must have room for it.
    pub fn push(&mut self, node_ptr: NodePtr)
        requires
            old(self).inv(),
            old(self).ptrs().len() < N,
        ensures
            final(self).inv(),
            final(self).ptrs() == old(self).ptrs().push(node_ptr),
    {
        let slot = &mut self.array[self.len];
        *slot = Some(node_ptr);
        self.len = self.len + 1;
        proof {
            assert(self.ptrs() =~= old(self).ptrs().push(node_ptr));
        }
    }

    /// Inserts the reference with the given `node_ptr` at the given
    /// `position` of the references collection, shifting the subsequent
    /// references one slot to the right. The collection must have room.
    pub fn insert(&mut self, position: usize, node_ptr: NodePtr)
        requires
            old(self).inv(),
            old(self).ptrs().len() < N,
            position <= old(self).ptrs().len(),
        ensures
            final(self).inv(),
            final(self).ptrs() == old(self).ptrs().insert(position as int, node_ptr),
    {
        let mut q: usize = self.len;
        while q > position
            invariant
                position <= q <= self.len,
                self.len == old(self).len,
                self.len < N,
                self.array@.len() == N,
                forall|j: int| 0 <= j < q ==> self.array@[j] == old(self).array@[j],
                forall|j: int|
                    q < j <= self.len ==> self.array@[j] == old(self).array@[j - 1],
                forall|j: int| self.len < j < N ==> self.array@[j] is None,
            decreases q,
        {
            let moved = self.array[q - 1];
            let slot = &mut self.array[q];
            *slot = moved;
            q = q - 1;
        }
        let slot = &mut self.array[position];
        *slot = Some(node_ptr);
        self.len = self.len + 1;
        proof {
            assert(self.ptrs() =~= old(self).ptrs().insert(position as int, node_ptr));
        }
    }

    /// Position of the first reference equal to `ptr`, or `None`.
    fn position_of(&self, ptr: &NodePtr) -> (r: Option<usize>)
        requires
            self.inv(),
        ensures
            match r {
                Some(p) => p < self.ptrs().len() && self.ptrs()[p as int] == *ptr && (forall|j: int|
                    0 <= j < p ==> self.ptrs()[j] != *ptr),
                None => !self.ptrs().contains(*ptr),
            },
    {
        let n = self.len;
        let mut i: usize = 0;
        while i < n
            invariant
                self.inv(),
                n == self.len,
                i <= n,
                forall|j: int| 0 <= j < i ==> self.ptrs()[j] != *ptr,
            decreases n - i,
        {
            let hit = match &self.array[i] {
                Some(p) => p.addr == ptr.addr,
                None => false,
            };
            if hit {
                return Some(i);
            }
            i = i + 1;
        }
        None
    }

    /// Inserts `node_ptr` just before the reference equal to `pivot_ptr`, and
    /// returns the position the pivot occupied. Does nothing and returns
    /// `None` if the pivot is absent. The collection must have room.
    pub fn push_before(&mut self, pivot_ptr: &NodePtr, node_ptr: NodePtr) -> (r: Option<usize>)
        requires
            old(self).inv(),
            old(self).ptrs().len() < N,
        ensures
            final(self).inv(),
            match r {
                Some(p) => p < old(self).ptrs().len() && old(self).ptrs()[p as int] == *pivot_ptr
                    && (forall|j: int| 0 <= j < p ==> old(self).ptrs()[j] != *pivot_ptr) && final(self).ptrs() == old(self).ptrs().insert(p as int, node_ptr),
                None => !old(self).ptrs().contains(*pivot_ptr) && final(self).ptrs() == old(self).ptrs(),
            },
    {
        let position = self.position_of(pivot_ptr);
        if let Some(p) = position {
            self.insert(p, node_ptr);
        }
        position
    }

    /// Inserts `node_ptr` just after the reference equal to `pivot_ptr`, and
    /// returns the position the pivot occupied. Does nothing and returns
    /// `None` if the pivot is absent. The collection must have room.
    pub fn push_after(&mut self, pivot_ptr: &NodePtr, node_ptr: NodePtr) -> (r: Option<usize>)
        requires
            old(self).inv(),
            old(self).ptrs().len() < N,
        ensures
            final(self).inv(),
            match r {
                Some(p) => p < old(self).ptrs().len() && old(self).ptrs()[p as int] == *pivot_ptr
                    && (forall|j: int| 0 <= j < p ==> old(self).ptrs()[j] != *pivot_ptr) && final(self).ptrs() == old(self).ptrs().insert(p as int + 1, node_ptr),
                None => !old(self).ptrs().contains(*pivot_ptr) && final(self).ptrs() == old(self).ptrs(),
            },
    {
        let position = self.position_of(pivot_ptr);
        if let Some(p) = position {
            let n = self.len;
            self.insert(p + 1, node_ptr);
        }
        position
    }

    /// Replaces the reference equal to `old_node_ptr` with `new_node_ptr` and
    /// returns its position. Does nothing and returns `None` if absent.
    pub fn replace_with(&mut self, old_node_ptr: &NodePtr, new_node_ptr: NodePtr) -> (r: Option<
        usize,
    >)
        requires
            old(self).inv(),
        ensures
            final(self).inv(),
            match r {
                Some(p) => p < old(self).ptrs().len() && old(self).ptrs()[p as int]
                    == *old_node_ptr && (forall|j: int|
                    0 <= j < p ==> old(self).ptrs()[j] != *old_node_ptr) && final(self).ptrs()
                    == old(self).ptrs().update(p as int, new_node_ptr),
                None => !old(self).ptrs().contains(*old_node_ptr) && final(self).ptrs() == old(self).ptrs(),
            },
    {
        let position = self.position_of(old_node_ptr);
        if let Some(p) = position {
            let slot = &mut self.array[p];
            *slot = Some(new_node_ptr);
            proof {
                assert(self.ptrs() =~= old(self).ptrs().update(p as int, new_node_ptr));
            }
        }
        position
    }
}

impl<const N: usize> Refs for RefsArrayLeftMost<N> {
    closed spec fn addrs(&self) -> Seq<usize> {
        Seq::new(self.len as nat, |i: int| self.array@[i]->Some_0.addr)
    }

    closed spec fn inv(&self) -> bool {
        &&& self.array@.len() == N
        &&& self.len <= N
        &&& forall|j: int| 0 <= j < self.len ==> self.array@[j] is Some
        &&& forall|j: int| self.len <= j < N ==> self.array@[j] is None
    }

    open spec fn can_remove_at(&self, ref_idx: usize) -> bool {
        ref_idx < self.ptrs().len()
    }

    fn empty() -> (r: Self)
        ensures
            r.ptrs() == Seq::<NodePtr>::empty(),
    {
        let mut v: Vec<Option<NodePtr>> = Vec::new();
        let mut i: usize = 0;
        while i < N
            invariant
                i <= N,
                v@.len() == i,
                forall|j: int| 0 <= j < i ==> v@[j] is None,
            decreases N - i,
        {
            v.push(None);
            i = i + 1;
        }
        let r = Self { array: v, len: 0 };
        proof {
            assert(r.addrs() =~= Seq::<usize>::empty());
        }
        r
    }

    fn is_empty(&self) -> (r: bool) {
        self.len == 0
    }

    fn clear(&mut self)
        ensures
            final(self).ptrs() == Seq::<NodePtr>::empty(),
    {
        let n = self.len;
        let mut i: usize = 0;
        while i < n
            invariant
                i <= n,
                n == old(self).len,
                self.len == old(self).len,
                self.array@.len() == N,
                n <= N,
                forall|j: int| 0 <= j < i ==> self.array@[j] is None,
                forall|j: int| n <= j < N ==> self.array@[j] is None,
            decreases n - i,
        {
            let slot = &mut self.array[i];
            *slot = None;
            i = i + 1;
        }
        self.len = 0;
        proof {
            assert(self.addrs() =~= Seq::<usize>::empty());
        }
    }

    fn remove_at(&mut self, ref_idx: usize)
        ensures
            final(self).ptrs() == old(self).ptrs().remove(ref_idx as int),
            final(self).addrs() == old(self).addrs().remove(ref_idx as int),
    {
        self.remove_at_shifting(ref_idx);
    }

    fn remove(&mut self, addr: usize) -> (r: Option<usize>)
        ensures
            old(self).addrs().contains(addr) ==> (r matches Some(i) && i < old(self).addrs().len() && old(self).addrs()[i as int] == addr && (forall|j: int|
                0 <= j < i ==> old(self).addrs()[j] != addr) && final(self).ptrs() == old(self).ptrs().remove(i as int)),
    {
        let n = self.len;
        let mut i: usize = 0;
        while i < n
            invariant
                self.inv(),
                *self == *old(self),
                n == self.len,
                i <= n,
                forall|j: int| 0 <= j < i ==> self.addrs()[j] != addr,
            decreases n - i,
        {
            let hit = match &self.array[i] {
                Some(p) => p.addr == addr,
                None => false,
            };
            if hit {
                proof {
                    lemma_remove_value_at(old(self).addrs(), addr, i as int);
                }
                self.remove_at_shifting(i);
                proof {
                    assert(self.addrs() =~= old(self).addrs().remove(i as int));
                }
                return Some(i);
            }
            i = i + 1;
        }
        None
    }

    fn update_reference(&mut self, old_addr: usize, new_addr: usize) {
        let n = self.len;
        let mut i: usize = 0;
        while i < n
            invariant
                old(self).inv(),
                i <= n,
                n == self.len,
                self.len == old(self).len,
                self.array@.len() == N,
                n <= N,
                forall|j: int| i <= j < N ==> self.array@[j] == old(self).array@[j],
                forall|j: int| 0 <= j < i ==> old(self).array@[j] is Some,
                forall|j: int|
                    0 <= j < i ==> self.array@[j] == Some(
                        NodePtr {
                            addr: subst_addr(
                                old_addr,
                                new_addr,
                                old(self).array@[j]->Some_0.addr,
                            ),
                        },
                    ),
            decreases n - i,
        {
            let hit = match &self.array[i] {
                Some(p) => p.addr == old_addr,
                None => false,
            };
            if hit {
                let slot = &mut self.array[i];
                *slot = Some(NodePtr::new(new_addr));
            }
            i = i + 1;
        }
        proof {
            assert(self.addrs() =~= subst_addrs(old(self).addrs(), old_addr, new_addr));
        }
    }
}

impl<const N: usize> RefsArrayLeftMost<N> {
    /// Drops the reference at slot `ref_idx` and shifts the subsequent
    /// references one slot to the left.
    fn remove_at_shifting(&mut self, ref_idx: usize)
        requires
            old(self).inv(),
            ref_idx < old(self).ptrs().len(),
        ensures
            final(self).inv(),
            final(self).ptrs() == old(self).ptrs().remove(ref_idx as int),
            final(self).addrs() == old(self).addrs().remove(ref_idx as int),
    {
        let n = self.len;
        let mut i: usize = ref_idx + 1;
        while i < n
            invariant
                ref_idx < n,
                ref_idx + 1 <= i <= n,
                n == self.len,
                self.len == old(self).len,
                self.array@.len() == N,
                n <= N,
                forall|j: int| 0 <= j < ref_idx ==> self.array@[j] == old(self).array@[j],
                forall|j: int|
                    ref_idx <= j < i - 1 ==> self.array@[j] == old(self).array@[j + 1],
                forall|j: int| i - 1 <= j < n ==> self.array@[j] == old(self).array@[j],
                forall|j: int| n <= j < N ==> self.array@[j] is None,
            decreases n - i,
        {
            let moved = self.array[i];
            let slot = &mut self.array[i - 1];
            *slot = moved;
            i = i + 1;
        }
        let slot = &mut self.array[n - 1];
        *slot = None;
        self.len = n - 1;
        proof {
            assert(self.ptrs() =~= old(self).ptrs().remove(ref_idx as int));
            assert(self.addrs() =~= old(self).addrs().remove(ref_idx as int));
        }
    }
}

} // verus!
