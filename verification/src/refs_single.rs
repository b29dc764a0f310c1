//! A single node reference.

use vstd::prelude::*;
use crate::node_ptr::NodePtr;
use crate::refs::{subst_addrs, Refs};

verus! {

/// A container holding zero or one node reference, such as the next
/// reference of a singly linked list node or the front anchor of a list.
#[derive(Clone, Debug)]
pub struct RefsSingle(Option<NodePtr>);

impl RefsSingle {
    /// Returns the pointer to the referenced node, or `None` when unset.
    pub fn get(&self) -> (r: Option<NodePtr>)
        ensures
            r == self.get_spec(),
    {
        self.0
    }

    /// The held reference as an option.
    pub closed spec fn get_spec(&self) -> Option<NodePtr> {
        self.0
    }

    /// Sets the reference to the given optional pointer.
    pub fn set(&mut self, node_ptr: Option<NodePtr>)
        ensures
            final(self).get_spec() == node_ptr,
            final(self).inv(),
    {
        self.0 = node_ptr;
    }

    /// Sets the reference to the given pointer.
    pub fn set_some(&mut self, node_ptr: NodePtr)
        ensures
            final(self).get_spec() == Some(node_ptr),
            final(self).inv(),
    {
        self.0 = Some(node_ptr);
    }

    /// Un-sets the reference.
    pub fn set_none(&mut self)
        ensures
            final(self).get_spec() is None,
            final(self).inv(),
    {
        self.0 = None;
    }
}

impl Refs for RefsSingle {
    closed spec fn addrs(&self) -> Seq<usize> {
        match self.0 {
            Some(p) => seq![p.addr],
            None => Seq::empty(),
        }
    }

    open spec fn inv(&self) -> bool {
        true
    }

    open spec fn can_remove_at(&self, ref_idx: usize) -> bool {
        ref_idx == 0
    }

    fn empty() -> (r: Self) {
        Self(None)
    }

    fn is_empty(&self) -> (r: bool) {
        self.0.is_none()
    }

    fn clear(&mut self) {
        self.0 = None;
    }

    fn remove_at(&mut self, ref_idx: usize)
        ensures
            final(self).addrs() == Seq::<usize>::empty(),
            final(self).get_spec() is None,
    {
        self.0 = None;
    }

    fn remove(&mut self, addr: usize) -> (r: Option<usize>)
        ensures
            old(self).addrs().contains(addr) ==> r == Some(0usize),
    {
        match &self.0 {
            None => None,
            Some(x) => {
                if x.addr == addr {
                    proof {
                        crate::refs::lemma_remove_value_at(old(self).addrs(), addr, 0);
                        assert(old(self).addrs().remove(0) =~= Seq::<usize>::empty());
                    }
                    self.0 = None;
                    Some(0)
                } else {
                    None
                }
            },
        }
    }

    fn update_reference(&mut self, old_addr: usize, new_addr: usize) {
        match &self.0 {
            None => {
                proof {
                    assert(subst_addrs(old(self).addrs(), old_addr, new_addr) =~= Seq::<
                        usize,
                    >::empty());
                }
            },
            Some(x) => {
                if x.addr == old_addr {
                    self.0 = Some(NodePtr::new(new_addr));
                    proof {
                        assert(subst_addrs(old(self).addrs(), old_addr, new_addr) =~= seq![new_addr]);
                    }
                } else {
                    proof {
                        assert(subst_addrs(old(self).addrs(), old_addr, new_addr) =~= old(self).addrs());
                    }
                }
            },
        }
    }
}

/// The addresses of a single-reference container follow its option view:
/// empty when unset, exactly the referenced address when set.
pub broadcast proof fn lemma_refs_single_addrs(r: RefsSingle)
    ensures
        #[trigger] r.addrs() == (match r.get_spec() {
            Some(p) => seq![p.addr],
            None => Seq::<usize>::empty(),
        }),
{
}

} // verus!
