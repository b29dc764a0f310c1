//! Storage of a node's payload.
//!
//! A payload store is either active (holding a value) or closed (the value
//! was taken out on logical removal). The lazy store keeps the closed slot in
//! place awaiting reclamation; the eager store is for collections that remove
//! slots immediately and therefore is never closed.

use vstd::prelude::*;

verus! {

/// How the payload of a node is stored in a self referential collection.
pub trait NodeData<T>: Sized {
    /// The stored value; `None` when the store is closed.
    spec fn stored(&self) -> Option<T>;

    /// Creates a new active store holding `value`.
    fn active(value: T) -> (r: Self)
        ensures
            r.stored() == Some(value),
    ;

    /// Returns a reference to the stored value; `None` if the store is
    /// closed.
    fn get(&self) -> (r: Option<&T>)
        ensures
            match self.stored() {
                Some(v) => r.is_some() && *r.unwrap() == v,
                None => r.is_none(),
            },
    ;

    /// Returns a mutable reference to the stored value; `None` if the store
    /// is closed.
    fn get_mut(&mut self) -> (r: Option<&mut T>)
        ensures
            match old(self).stored() {
                Some(v) => r.is_some() && *r.unwrap() == v && final(self).stored() == Some(
                    *final(r.unwrap()),
                ),
                None => r.is_none() && final(self).stored() is None,
            },
    ;

    /// Replaces the stored value with `new_value` and returns the old value.
    /// Only an active store can swap its value.
    fn swap_data(&mut self, new_value: T) -> (r: T)
        requires
            old(self).stored() is Some,
        ensures
            r == old(self).stored().unwrap(),
            final(self).stored() == Some(new_value),
    ;
}

/// Payload store with eager closure: the value is stored as it is, and
/// closing a node means removing its slot from the storage altogether, so
/// the store itself is always active.
pub struct NodeDataEagerClose<T>(T);

impl<T> NodeData<T> for NodeDataEagerClose<T> {
    closed spec fn stored(&self) -> Option<T> {
        Some(self.0)
    }

    fn active(value: T) -> (r: Self) {
        Self(value)
    }

    fn get(&self) -> (r: Option<&T>) {
        Some(&self.0)
    }

    fn get_mut(&mut self) -> (r: Option<&mut T>) {
        Some(&mut self.0)
    }

    fn swap_data(&mut self, new_value: T) -> (r: T) {
        let mut storage = new_value;
        core::mem::swap(&mut self.0, &mut storage);
        storage
    }
}

impl<T> From<T> for NodeDataEagerClose<T> {
    fn from(value: T) -> (r: Self) {
        Self(value)
    }
}

impl<T> vstd::std_specs::convert::FromSpecImpl<T> for NodeDataEagerClose<T> {
    open spec fn obeys_from_spec() -> bool {
        true
    }

    closed spec fn from_spec(v: T) -> Self {
        NodeDataEagerClose(v)
    }
}

/// Whatever value an eager-close store was built from, it stores it.
pub broadcast proof fn lemma_eager_close_from<T>(v: T)
    ensures
        (#[trigger] <NodeDataEagerClose<T> as vstd::std_specs::convert::FromSpec<T>>::from_spec(
            v,
        )).stored() == Some(v),
{
}

/// Payload store with lazy closure: closing a node sets the stored value to
/// `None`, leaving the slot in place until the collection reclaims it.
pub struct NodeDataLazyClose<T>(Option<T>);

impl<T> NodeData<T> for NodeDataLazyClose<T> {
    closed spec fn stored(&self) -> Option<T> {
        self.0
    }

    fn active(value: T) -> (r: Self) {
        Self(Some(value))
    }

    fn get(&self) -> (r: Option<&T>) {
        self.0.as_ref()
    }

    fn get_mut(&mut self) -> (r: Option<&mut T>) {
        self.0.as_mut()
    }

    fn swap_data(&mut self, new_value: T) -> (r: T) {
        let output = self.0.take();
        self.0 = Some(new_value);
        match output {
            Some(v) => v,
            None => unreached(),
        }
    }
}

impl<T> NodeDataLazyClose<T> {
    /// Creates a new closed store.
    pub fn closed() -> (r: Self)
        ensures
            r.stored() is None,
    {
        Self(None)
    }

    /// Returns whether the store holds a value.
    pub fn is_active(&self) -> (r: bool)
        ensures
            r == (self.stored() is Some),
    {
        self.0.is_some()
    }

    /// Returns whether the store was closed.
    pub fn is_closed(&self) -> (r: bool)
        ensures
            r == (self.stored() is None),
    {
        self.0.is_none()
    }

    /// Closes the store and returns the value it held; `None` if it was
    /// already closed.
    pub fn close(&mut self) -> (r: Option<T>)
        ensures
            r == old(self).stored(),
            final(self).stored() is None,
    {
        self.0.take()
    }
}

impl<T> Default for NodeDataLazyClose<T> {
    /// A lazy-close store starts out closed by default.
    fn default() -> (r: Self)
        ensures
            r.stored() is None,
    {
        Self::closed()
    }
}

impl<T> From<T> for NodeDataLazyClose<T> {
    fn from(value: T) -> (r: Self) {
        Self(Some(value))
    }
}

impl<T> vstd::std_specs::convert::FromSpecImpl<T> for NodeDataLazyClose<T> {
    open spec fn obeys_from_spec() -> bool {
        true
    }

    closed spec fn from_spec(v: T) -> Self {
        NodeDataLazyClose(Some(v))
    }
}

/// Whatever value a lazy-close store was built from, it stores it.
pub broadcast proof fn lemma_lazy_close_from<T>(v: T)
    ensures
        (#[trigger] <NodeDataLazyClose<T> as vstd::std_specs::convert::FromSpec<T>>::from_spec(
            v,
        )).stored() == Some(v),
{
}

} // verus!
