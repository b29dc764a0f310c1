//! A constant number of references.

use vstd::prelude::*;
use crate::node_ptr::NodePtr;
use crate::refs::{lemma_remove_value_at, subst_addr, subst_addrs, Refs};

verus! {

/// The address sequence contributed by one optional reference slot.
pub open spec fn opt_elem(o: Option<NodePtr>) -> Seq<usize> {
    match o {
        Some(p) => seq![p.addr],
        None => Seq::empty(),
    }
}

/// The addresses held by a sequence of optional reference slots, in slot
/// order, skipping the empty slots.
pub open spec fn opt_addrs(s: Seq<Option<NodePtr>>) -> Seq<usize>
    decreases s.len(),
{
    if s.len() == 0 {
        Seq::empty()
    } else {
        opt_elem(s[0]) + opt_addrs(s.drop_first())
    }
}

/// The held addresses of a concatenation are the concatenated held
/// addresses.
pub proof fn lemma_opt_addrs_concat(a: Seq<Option<NodePtr>>, b: Seq<Option<NodePtr>>)
    ensures
        opt_addrs(a + b) == opt_addrs(a) + opt_addrs(b),
    decreases a.len(),
{
    if a.len() == 0 {
        assert(a + b =~= b);
        assert(opt_addrs(a) + opt_addrs(b) =~= opt_addrs(b));
    } else {
        assert((a + b).drop_first() =~= a.drop_first() + b);
        lemma_opt_addrs_concat(a.drop_first(), b);
        assert((a + b).len() != 0);
        assert((a + b)[0] == a[0]);
        assert(opt_elem(a[0]) + (opt_addrs(a.drop_first()) + opt_addrs(b)) =~= (opt_elem(a[0])
            + opt_addrs(a.drop_first())) + opt_addrs(b));
    }
}

/// Splitting the slots at position `i` splits the held addresses around the
/// contribution of slot `i`.
pub proof fn lemma_opt_addrs_split(s: Seq<Option<NodePtr>>, i: int)
    requires
        0 <= i < s.len(),
    ensures
        opt_addrs(s) == opt_addrs(s.subrange(0, i)) + opt_elem(s[i]) + opt_addrs(
            s.subrange(i + 1, s.len() as int),
        ),
{
    let a = s.subrange(0, i);
    let m = seq![s[i]];
    let b = s.subrange(i + 1, s.len() as int);
    assert(s =~= (a + m) + b);
    lemma_opt_addrs_concat(a + m, b);
    lemma_opt_addrs_concat(a, m);
    assert(m.drop_first() =~= Seq::<Option<NodePtr>>::empty());
    assert(m.len() == 1);
    assert(m[0] == s[i]);
    assert(opt_addrs(m) == opt_elem(m[0]) + opt_addrs(m.drop_first()));
    assert(opt_addrs(Seq::<Option<NodePtr>>::empty()) == Seq::<usize>::empty());
    assert(opt_elem(s[i]) + Seq::<usize>::empty() =~= opt_elem(s[i]));
    assert(opt_addrs(s) == (opt_addrs(a) + opt_elem(s[i])) + opt_addrs(b));
    assert((opt_addrs(a) + opt_elem(s[i])) + opt_addrs(b) =~= opt_addrs(a) + opt_elem(s[i])
        + opt_addrs(b));
}

/// Slots that never hold `addr` contribute no occurrence of `addr`.
pub proof fn lemma_opt_addrs_no_addr(s: Seq<Option<NodePtr>>, addr: usize)
    requires
        forall|j: int| 0 <= j < s.len() ==> (#[trigger] s[j] matches Some(p) ==> p.addr != addr),
    ensures
        !opt_addrs(s).contains(addr),
    decreases s.len(),
{
    if s.len() != 0 {
        lemma_opt_addrs_no_addr(s.drop_first(), addr);
        assert forall|m: int| 0 <= m < opt_addrs(s).len() implies opt_addrs(s)[m] != addr by {
            if m >= opt_elem(s[0]).len() {
                assert(opt_addrs(s)[m] == opt_addrs(s.drop_first())[m - opt_elem(s[0]).len()]);
                assert(opt_addrs(s.drop_first()).contains(opt_addrs(s)[m]) || opt_addrs(
                    s.drop_first(),
                )[m - opt_elem(s[0]).len()] != addr);
            }
        }
    }
}

/// Substituting an address slot-wise substitutes it in the held addresses.
pub proof fn lemma_opt_addrs_subst(s: Seq<Option<NodePtr>>, old_addr: usize, new_addr: usize)
    ensures
        opt_addrs(
            s.map_values(
                |o: Option<NodePtr>| match o {
                    Some(p) => Some(NodePtr { addr: subst_addr(old_addr, new_addr, p.addr) }),
                    None => None,
                },
            ),
        ) == subst_addrs(opt_addrs(s), old_addr, new_addr),
    decreases s.len(),
{
    let f = |o: Option<NodePtr>| match o {
        Some(p) => Some(NodePtr { addr: subst_addr(old_addr, new_addr, p.addr) }),
        None => None,
    };
    if s.len() == 0 {
        assert(s.map_values(f) =~= Seq::<Option<NodePtr>>::empty());
        assert(subst_addrs(opt_addrs(s), old_addr, new_addr) =~= Seq::<usize>::empty());
    } else {
        lemma_opt_addrs_subst(s.drop_first(), old_addr, new_addr);
        assert(s.map_values(f).drop_first() =~= s.drop_first().map_values(f));
        assert(s.map_values(f).len() != 0);
        assert(s.map_values(f)[0] == f(s[0]));
        assert(opt_addrs(s.map_values(f)) == opt_elem(f(s[0])) + subst_addrs(
            opt_addrs(s.drop_first()),
            old_addr,
            new_addr,
        ));
        assert(opt_elem(f(s[0])) + subst_addrs(opt_addrs(s.drop_first()), old_addr, new_addr)
            =~= subst_addrs(opt_elem(s[0]) + opt_addrs(s.drop_first()), old_addr, new_addr));
    }
}

/// A container holding up to `N` node references in `N` independent slots; a
/// slot may be empty, such as the front and back anchors of a doubly linked
/// list stored as two slots.
pub struct RefsArray<const N: usize>(Vec<Option<NodePtr>>);

impl<const N: usize> RefsArray<N> {
    /// The reference slots, in order.
    pub closed spec fn slots(&self) -> Seq<Option<NodePtr>> {
        self.0@
    }

    /// Returns the node pointers as a slice of optional slots.
    pub fn as_slice(&self) -> (r: &[Option<NodePtr>])
        ensures
            r@ == self.slots(),
    {
        self.0.as_slice()
    }

    /// Returns the node pointer at the `ref_idx` position of the references
    /// array.
    pub fn get(&self, ref_idx: usize) -> (r: Option<NodePtr>)
        requires
            ref_idx < self.slots().len(),
        ensures
            r == self.slots()[ref_idx as int],
    {
        self.0[ref_idx]
    }

    /// Sets the node pointer at the `ref_idx` position of the references
    /// array to the given optional `node_ptr`.
    pub fn set(&mut self, ref_idx: usize, node_ptr: Option<NodePtr>)
        requires
            ref_idx < old(self).slots().len(),
        ensures
            final(self).slots() == old(self).slots().update(ref_idx as int, node_ptr),
            final(self).inv() == old(self).inv(),
    {
        let slot = &mut self.0[ref_idx];
        *slot = node_ptr;
    }

    /// Sets the node pointer at the `ref_idx` position of the references
    /// array to the given `node_ptr`.
    pub fn set_some(&mut self, ref_idx: usize, node_ptr: NodePtr)
        requires
            ref_idx < old(self).slots().len(),
        ensures
            final(self).slots() == old(self).slots().update(ref_idx as int, Some(node_ptr)),
            final(self).inv() == old(self).inv(),
    {
        self.set(ref_idx, Some(node_ptr));
    }

    /// Un-sets the node pointer at the `ref_idx` position of the references
    /// array.
    pub fn set_none(&mut self, ref_idx: usize)
        requires
            ref_idx < old(self).slots().len(),
        ensures
            final(self).slots() == old(self).slots().update(ref_idx as int, None),
            final(self).inv() == old(self).inv(),
    {
        self.set(ref_idx, None);
    }
}

impl<const N: usize> Refs for RefsArray<N> {
    closed spec fn addrs(&self) -> Seq<usize> {
        opt_addrs(self.0@)
    }

    open spec fn inv(&self) -> bool {
        self.slots().len() == N
    }

    open spec fn can_remove_at(&self, ref_idx: usize) -> bool {
        ref_idx < N
    }

    fn empty() -> (r: Self)
        ensures
            forall|j: int| 0 <= j < r.slots().len() ==> r.slots()[j] is None,
    {
        let mut v: Vec<Option<NodePtr>> = Vec::new();
        let mut i: usize = 0;
        while i < N
            invariant
                i <= N,
                v@.len() == i,
                forall|j: int| 0 <= j < i ==> v@[j] is None,
            decreases N - i,
        {
            v.push(None);
            i = i + 1;
        }
        proof {
            lemma_all_none_empty(v@);
        }
        Self(v)
    }

    fn is_empty(&self) -> (r: bool) {
        let n = self.0.len();
        let mut i: usize = 0;
        while i < n
            invariant
                n == self.0@.len(),
                i <= n,
                forall|j: int| 0 <= j < i ==> self.0@[j] is None,
            decreases n - i,
        {
            if self.0[i].is_some() {
                proof {
                    lemma_opt_addrs_split(self.0@, i as int);
                }
                return false;
            }
            i = i + 1;
        }
        proof {
            lemma_all_none_empty(self.0@);
        }
        true
    }

    fn clear(&mut self)
        ensures
            forall|j: int| 0 <= j < final(self).slots().len() ==> final(self).slots()[j] is None,
    {
        let n = self.0.len();
        let mut i: usize = 0;
        while i < n
            invariant
                n == self.0@.len(),
                self.0@.len() == old(self).0@.len(),
                i <= n,
                forall|j: int| 0 <= j < i ==> self.0@[j] is None,
            decreases n - i,
        {
            let slot = &mut self.0[i];
            *slot = None;
            i = i + 1;
        }
        proof {
            lemma_all_none_empty(self.0@);
        }
    }

    fn remove_at(&mut self, ref_idx: usize)
        ensures
            final(self).slots() == old(self).slots().update(ref_idx as int, None),
    {
        proof {
            lemma_opt_addrs_split(self.0@, ref_idx as int);
        }
        let slot = &mut self.0[ref_idx];
        *slot = None;
        proof {
            lemma_opt_addrs_split(self.0@, ref_idx as int);
            assert(self.0@.subrange(0, ref_idx as int) =~= old(self).0@.subrange(
                0,
                ref_idx as int,
            ));
            assert(self.0@.subrange(ref_idx + 1, self.0@.len() as int) =~= old(self).0@.subrange(ref_idx + 1, old(self).0@.len() as int));
        }
    }

    fn remove(&mut self, addr: usize) -> (r: Option<usize>)
        ensures
            old(self).addrs().contains(addr) ==> (r matches Some(i) && i < old(self).slots().len() && (old(self).slots()[i as int] matches Some(p) && p.addr == addr)
                && (forall|j: int|
                0 <= j < i ==> !((#[trigger] old(self).slots()[j]) matches Some(q) && q.addr
                    == addr)) && final(self).slots() == old(self).slots().update(i as int, None)),
    {
        let n = self.0.len();
        let mut i: usize = 0;
        while i < n
            invariant
                n == self.0@.len(),
                n == N,
                i <= n,
                self.0@ == old(self).0@,
                forall|j: int|
                    0 <= j < i ==> (#[trigger] self.0@[j] matches Some(p) ==> p.addr != addr),
            decreases n - i,
        {
            let hit = match &self.0[i] {
                Some(p) => p.addr == addr,
                None => false,
            };
            if hit {
                proof {
                    let s = self.0@;
                    lemma_opt_addrs_split(s, i as int);
                    lemma_opt_addrs_no_addr(s.subrange(0, i as int), addr);
                    let a = opt_addrs(s.subrange(0, i as int));
                    let b = opt_addrs(s.subrange(i + 1, s.len() as int));
                    assert(opt_addrs(s) == a + opt_elem(s[i as int]) + b);
                    assert(opt_addrs(s)[a.len() as int] == addr);
                    assert(forall|m: int| 0 <= m < a.len() ==> opt_addrs(s)[m] == a[m]);
                    lemma_remove_value_at(opt_addrs(s), addr, a.len() as int);
                    assert(opt_addrs(s).remove(a.len() as int) =~= a + b);
                }
                let slot = &mut self.0[i];
                *slot = None;
                proof {
                    lemma_opt_addrs_split(self.0@, i as int);
                    assert(self.0@.subrange(0, i as int) =~= old(self).0@.subrange(0, i as int));
                    assert(self.0@.subrange(i + 1, self.0@.len() as int) =~= old(self).0@.subrange(i + 1, old(self).0@.len() as int));
                    assert(self.0@.len() == old(self).0@.len());
                    assert(self.addrs() =~= old(self).addrs().remove_value(addr));
                }
                return Some(i);
            }
            i = i + 1;
        }
        proof {
            lemma_opt_addrs_no_addr(self.0@, addr);
        }
        None
    }

    fn update_reference(&mut self, old_addr: usize, new_addr: usize) {
        let n = self.0.len();
        let mut i: usize = 0;
        while i < n
            invariant
                n == self.0@.len(),
                self.0@.len() == old(self).0@.len(),
                i <= n,
                forall|j: int| i <= j < n ==> self.0@[j] == old(self).0@[j],
                forall|j: int|
                    0 <= j < i ==> self.0@[j] == (match old(self).0@[j] {
                        Some(p) => Some(
                            NodePtr { addr: subst_addr(old_addr, new_addr, p.addr) },
                        ),
                        None => None,
                    }),
            decreases n - i,
        {
            let hit = match &self.0[i] {
                Some(p) => p.addr == old_addr,
                None => false,
            };
            if hit {
                let slot = &mut self.0[i];
                *slot = Some(NodePtr::new(new_addr));
            }
            i = i + 1;
        }
        proof {
            let f = |o: Option<NodePtr>| match o {
                Some(p) => Some(NodePtr { addr: subst_addr(old_addr, new_addr, p.addr) }),
                None => None,
            };
            assert(self.0@ =~= old(self).0@.map_values(f));
            lemma_opt_addrs_subst(old(self).0@, old_addr, new_addr);
        }
    }
}

/// Slots that are all empty hold no address.
pub proof fn lemma_all_none_empty(s: Seq<Option<NodePtr>>)
    requires
        forall|j: int| 0 <= j < s.len() ==> s[j] is None,
    ensures
        opt_addrs(s) == Seq::<usize>::empty(),
    decreases s.len(),
{
    if s.len() != 0 {
        lemma_all_none_empty(s.drop_first());
        assert(opt_elem(s[0]) + Seq::<usize>::empty() =~= Seq::<usize>::empty());
    }
}

/// The addresses of a bounded reference array are the addresses of its
/// filled slots, in slot order.
pub broadcast proof fn lemma_refs_array_addrs<const N: usize>(r: RefsArray<N>)
    ensures
        #[trigger] r.addrs() == opt_addrs(r.slots()),
{
}

} // verus!
