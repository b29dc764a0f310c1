//! Variant defining the specification of a self referential collection.

use vstd::prelude::*;
use crate::refs::Refs;

verus! {

/// Variant defining a self referential collection: the element type together
/// with the reference shapes of the node edges and of the collection ends.
pub trait Variant: Sized {
    /// Elements of the collection.
    type Item;

    /// The way the previous node references are stored.
    type Prev: Refs;

    /// The way the next node references are stored.
    type Next: Refs;

    /// The way the ends of the collection are stored, such as the front of a
    /// linked list or the root of a tree.
    type Ends: Refs;
}

} // verus!
