//! Node of a self referential collection.

use vstd::prelude::*;
use crate::refs::Refs;
use crate::variant::Variant;

verus! {

/// Node of a self referential collection: an optional payload (absent when
/// the node is closed) together with the containers for its previous and
/// next references.
pub struct Node<V: Variant> {
    data: Option<V::Item>,
    prev: V::Prev,
    next: V::Next,
}

impl<V: Variant> Node<V> {
    /// The payload of the node; `None` when the node is closed.
    pub closed spec fn payload(&self) -> Option<V::Item> {
        self.data
    }

    /// The previous reference container of the node.
    pub closed spec fn prev_spec(&self) -> V::Prev {
        self.prev
    }

    /// The next reference container of the node.
    pub closed spec fn next_spec(&self) -> V::Next {
        self.next
    }

    /// The addresses of the previous references.
    pub open spec fn prevs(&self) -> Seq<usize> {
        self.prev_spec().addrs()
    }

    /// The addresses of the next references.
    pub open spec fn nexts(&self) -> Seq<usize> {
        self.next_spec().addrs()
    }

    /// Structural invariant of the node's reference containers.
    pub open spec fn wf(&self) -> bool {
        self.prev_spec().inv() && self.next_spec().inv()
    }

    /// Whether the node currently holds a payload.
    pub open spec fn is_active_spec(&self) -> bool {
        self.payload() is Some
    }

    /// Creates a new active node with the given `data`, and `prev` and
    /// `next` references.
    pub fn new_active(data: V::Item, prev: V::Prev, next: V::Next) -> (r: Self)
        ensures
            r.payload() == Some(data),
            r.prev_spec() == prev,
            r.next_spec() == next,
    {
        Self { data: Some(data), prev, next }
    }

    /// Creates a new active node with the given `data` but with no
    /// connections.
    pub fn new_free_node(data: V::Item) -> (r: Self)
        ensures
            r.payload() == Some(data),
            r.prevs() == Seq::<usize>::empty(),
            r.nexts() == Seq::<usize>::empty(),
            r.wf(),
    {
        Self { data: Some(data), prev: Refs::empty(), next: Refs::empty() }
    }

    /// Creates a new closed node with no payload and no connections.
    pub fn closed_node() -> (r: Self)
        ensures
            r.payload() is None,
            r.prevs() == Seq::<usize>::empty(),
            r.nexts() == Seq::<usize>::empty(),
            r.wf(),
    {
        Self { data: None, prev: Refs::empty(), next: Refs::empty() }
    }

    /// Takes and returns the data of the node, consuming it.
    pub fn into_data(self) -> (r: Option<V::Item>)
        ensures
            r == self.payload(),
    {
        self.data
    }

    /// Returns a reference to the data of the node; `None` if the node is
    /// closed.
    pub fn data(&self) -> (r: Option<&V::Item>)
        ensures
            match self.payload() {
                Some(v) => r.is_some() && *r.unwrap() == v,
                None => r.is_none(),
            },
    {
        self.data.as_ref()
    }

    /// Returns a reference to the previous references.
    pub fn prev(&self) -> (r: &V::Prev)
        ensures
            *r == self.prev_spec(),
    {
        &self.prev
    }

    /// Returns a reference to the next references.
    pub fn next(&self) -> (r: &V::Next)
        ensures
            *r == self.next_spec(),
    {
        &self.next
    }

    /// Returns true if the node is active, false if it is closed.
    pub fn is_active(&self) -> (r: bool)
        ensures
            r == self.is_active_spec(),
    {
        self.data.is_some()
    }

    /// Returns true if the node is closed, false if it is active.
    pub fn is_closed(&self) -> (r: bool)
        ensures
            r == !self.is_active_spec(),
    {
        self.data.is_none()
    }

    /// Returns a mutable reference to the underlying data; `None` if the
    /// node is closed.
    pub fn data_mut(&mut self) -> (r: Option<&mut V::Item>)
        ensures
            match old(self).payload() {
                Some(v) => r.is_some() && *r.unwrap() == v && final(self).payload() == Some(
                    *final(r.unwrap()),
                ),
                None => r.is_none() && final(self).payload() is None,
            },
            final(self).prev_spec() == old(self).prev_spec(),
            final(self).next_spec() == old(self).next_spec(),
    {
        self.data.as_mut()
    }

    /// Returns a mutable reference to the previous references.
    pub fn prev_mut(&mut self) -> (r: &mut V::Prev)
        ensures
            *r == old(self).prev_spec(),
            final(self).prev_spec() == *final(r),
            final(self).payload() == old(self).payload(),
            final(self).next_spec() == old(self).next_spec(),
    {
        &mut self.prev
    }

    /// Returns a mutable reference to the next references.
    pub fn next_mut(&mut self) -> (r: &mut V::Next)
        ensures
            *r == old(self).next_spec(),
            final(self).next_spec() == *final(r),
            final(self).payload() == old(self).payload(),
            final(self).prev_spec() == old(self).prev_spec(),
    {
        &mut self.next
    }

    /// Closes the node and returns its data; clears its connections, since a
    /// closed node must not retain stale edges. Only an active node can be
    /// closed.
    pub fn close(&mut self) -> (r: V::Item)
        requires
            old(self).wf(),
            old(self).is_active_spec(),
        ensures
            Some(r) == old(self).payload(),
            final(self).payload() is None,
            final(self).prevs() == Seq::<usize>::empty(),
            final(self).nexts() == Seq::<usize>::empty(),
            final(self).wf(),
    {
        self.prev.clear();
        self.next.clear();
        match self.data.take() {
            Some(v) => v,
            None => unreached(),
        }
    }

    /// Swaps the data of the node with the `new_value` and returns the old
    /// value. Only an active node can swap its data.
    pub fn swap_data(&mut self, new_value: V::Item) -> (r: V::Item)
        requires
            old(self).is_active_spec(),
        ensures
            Some(r) == old(self).payload(),
            final(self).payload() == Some(new_value),
            final(self).prev_spec() == old(self).prev_spec(),
            final(self).next_spec() == old(self).next_spec(),
    {
        let output = self.data.take();
        self.data = Some(new_value);
        match output {
            Some(v) => v,
            None => unreached(),
        }
    }

    /// Closes the node and returns its data; `None` if the node was already
    /// closed. The connections are left as they are.
    pub fn take_data(&mut self) -> (r: Option<V::Item>)
        ensures
            r == old(self).payload(),
            final(self).payload() is None,
            final(self).prev_spec() == old(self).prev_spec(),
            final(self).next_spec() == old(self).next_spec(),
    {
        self.data.take()
    }
}

} // verus!
