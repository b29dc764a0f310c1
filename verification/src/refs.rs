//! References among nodes.
//!
//! A reference container holds zero or more addresses of other nodes within
//! the same collection. Four interchangeable shapes exist: none, single,
//! bounded array, and dynamic vector; a collection's anchors use the same
//! shapes as the node-to-node edges. The uniform operation set below is what
//! lets the reclaimer be written once per shape rather than once per data
//! structure.

use vstd::prelude::*;

verus! {

/// Replaces `a` by `new_addr` when it equals `old_addr`, otherwise keeps it.
pub open spec fn subst_addr(old_addr: usize, new_addr: usize, a: usize) -> usize {
    if a == old_addr {
        new_addr
    } else {
        a
    }
}

/// The sequence `s` with every occurrence of `old_addr` replaced by
/// `new_addr`.
pub open spec fn subst_addrs(s: Seq<usize>, old_addr: usize, new_addr: usize) -> Seq<usize> {
    s.map_values(|a: usize| subst_addr(old_addr, new_addr, a))
}

/// When `v` first occurs in `s` at position `i`, removing the first
/// occurrence of `v` is removing position `i`.
pub proof fn lemma_remove_value_at<A>(s: Seq<A>, v: A, i: int)
    requires
        0 <= i < s.len(),
        s[i] == v,
        forall|j: int| 0 <= j < i ==> s[j] != v,
    ensures
        s.contains(v),
        s.remove_value(v) == s.remove(i),
{
    assert(s.contains(v));
    s.index_of_first_ensures(v);
}

/// References among nodes.
///
/// The view of a container is the sequence of addresses it holds, in slot
/// order; `inv` is the shape's structural invariant (capacity bounds,
/// alignment of filled slots).
pub trait Refs: Sized {
    /// The addresses held, in slot order.
    spec fn addrs(&self) -> Seq<usize>;

    /// Shape-specific structural invariant.
    spec fn inv(&self) -> bool;

    /// Whether `remove_at` may be called for the logical slot `ref_idx`.
    spec fn can_remove_at(&self, ref_idx: usize) -> bool;

    /// Creates an empty references container.
    fn empty() -> (r: Self)
        ensures
            r.addrs() == Seq::<usize>::empty(),
            r.inv(),
    ;

    /// Returns true if the references container holds no address.
    fn is_empty(&self) -> (r: bool)
        requires
            self.inv(),
        ensures
            r == (self.addrs().len() == 0),
    ;

    /// Clears the references.
    fn clear(&mut self)
        requires
            old(self).inv(),
        ensures
            final(self).addrs() == Seq::<usize>::empty(),
            final(self).inv(),
    ;

    /// Drops the occurrence at the given logical slot. Whether subsequent
    /// entries shift or the slot is merely emptied is the shape's documented
    /// choice; each implementation states its choice exactly in its own
    /// contract.
    fn remove_at(&mut self, ref_idx: usize)
        requires
            old(self).inv(),
            old(self).can_remove_at(ref_idx),
        ensures
            final(self).inv(),
            final(self).addrs().len() <= old(self).addrs().len(),
    ;

    /// Removes the first occurrence of the given address, returning the slot
    /// it occupied, or `None` if the address is absent. Which logical slot
    /// the returned index denotes is the shape's documented choice; each
    /// implementation pins it exactly in its own contract.
    fn remove(&mut self, addr: usize) -> (r: Option<usize>)
        requires
            old(self).inv(),
        ensures
            final(self).inv(),
            old(self).addrs().contains(addr) ==> r is Some && final(self).addrs()
                == old(self).addrs().remove_value(addr),
            !old(self).addrs().contains(addr) ==> r is None && final(self).addrs() == old(self).addrs(),
    ;

    /// Replaces every occurrence of `old_addr` with `new_addr`; used by the
    /// reclaimer when a node moves to a new slot.
    fn update_reference(&mut self, old_addr: usize, new_addr: usize)
        requires
            old(self).inv(),
        ensures
            final(self).inv(),
            final(self).addrs() == subst_addrs(old(self).addrs(), old_addr, new_addr),
    ;
}

} // verus!
