//! Zero-sized no-reference container.

use vstd::prelude::*;
use crate::refs::{subst_addrs, Refs};

verus! {

/// Zero-sized reference container that never holds an address; used for the
/// absent direction of a structure, such as the previous references of a
/// singly linked list.
#[derive(Clone, Debug)]
pub struct RefsNone;

impl Refs for RefsNone {
    open spec fn addrs(&self) -> Seq<usize> {
        Seq::empty()
    }

    open spec fn inv(&self) -> bool {
        true
    }

    open spec fn can_remove_at(&self, ref_idx: usize) -> bool {
        true
    }

    fn empty() -> (r: Self) {
        Self
    }

    fn is_empty(&self) -> (r: bool) {
        true
    }

    fn clear(&mut self) {
    }

    fn remove_at(&mut self, ref_idx: usize) {
    }

    fn remove(&mut self, addr: usize) -> (r: Option<usize>) {
        None
    }

    fn update_reference(&mut self, old_addr: usize, new_addr: usize) {
        proof {
            assert(subst_addrs(Seq::<usize>::empty(), old_addr, new_addr) =~= Seq::<
                usize,
            >::empty());
        }
    }
}

} // verus!
