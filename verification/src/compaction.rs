//! Relabeling relation between a collection before and after compaction.
//!
//! Compaction moves active nodes over vacant slots. A relabeling map sends
//! each active node's old address to its new address; every reference
//! container and the collection anchors are rewritten through that map, so
//! the structural edges are preserved up to the renaming of addresses.

use vstd::prelude::*;
use crate::core_col::CoreCol;
use crate::refs::Refs;
use crate::variant::Variant;

verus! {

/// The image of address `a` under the relabeling `pi`; addresses outside
/// the map's domain keep their value.
pub open spec fn rename_addr(pi: Map<usize, usize>, a: usize) -> usize {
    if pi.dom().contains(a) {
        pi[a]
    } else {
        a
    }
}

/// The sequence `s` with every address replaced by its image under `pi`.
pub open spec fn rename_addrs(s: Seq<usize>, pi: Map<usize, usize>) -> Seq<usize> {
    s.map_values(|a: usize| rename_addr(pi, a))
}

/// The collection `n` is the collection `o` with its active nodes relabeled
/// by `pi`: the map's domain is exactly the active addresses of `o`, it is
/// injective, every active node of `o` reappears at its image address with
/// the same payload and with its references renamed through `pi`, the
/// anchors are renamed through `pi`, and `n` has no active nodes beyond the
/// images.
pub open spec fn relabeling<V: Variant>(o: CoreCol<V>, n: CoreCol<V>, pi: Map<usize, usize>) -> bool {
    &&& forall|a: usize|
        pi.dom().contains(a) <==> (a < o.storage_len() && o.nodes_spec()[a as int].is_active_spec())
    &&& forall|a: usize| #[trigger] pi.dom().contains(a) ==> pi[a] < n.storage_len()
    &&& forall|a: usize, b: usize|
        pi.dom().contains(a) && pi.dom().contains(b) && a != b ==> pi[a] != pi[b]
    &&& forall|a: usize| #[trigger]
        pi.dom().contains(a) ==> n.nodes_spec()[pi[a] as int].payload() == o.nodes_spec()[a as int].payload() && n.nodes_spec()[pi[a] as int].prevs() == rename_addrs(
            o.nodes_spec()[a as int].prevs(),
            pi,
        ) && n.nodes_spec()[pi[a] as int].nexts() == rename_addrs(
            o.nodes_spec()[a as int].nexts(),
            pi,
        )
    &&& n.ends_spec().addrs() == rename_addrs(o.ends_spec().addrs(), pi)
    &&& forall|b: int|
        0 <= b < n.storage_len() ==> ((#[trigger] n.nodes_spec()[b]).is_active_spec() <==> exists|
            a: usize,
        |
            pi.dom().contains(a) && pi[a] == b)
}

/// The collection `n` is the collection `o` compacted: relabeled by some
/// map and truncated so that every slot is active.
pub open spec fn compacted<V: Variant>(o: CoreCol<V>, n: CoreCol<V>) -> bool {
    &&& exists|pi: Map<usize, usize>| relabeling(o, n, pi)
    &&& n.storage_len() == n.len_spec()
}

/// Substituting `o` by `v` after renaming through `pi` is renaming through
/// `pi` extended with `o -> v`, provided `pi` maps `o` to itself and maps
/// nothing else onto `o`.
pub proof fn lemma_subst_rename_compose(
    s: Seq<usize>,
    pi: Map<usize, usize>,
    o: usize,
    v: usize,
)
    requires
        rename_addr(pi, o) == o,
        forall|x: usize| x != o ==> rename_addr(pi, x) != o,
    ensures
        crate::refs::subst_addrs(rename_addrs(s, pi), o, v) == rename_addrs(s, pi.insert(o, v)),
{
    let lhs = crate::refs::subst_addrs(rename_addrs(s, pi), o, v);
    let rhs = rename_addrs(s, pi.insert(o, v));
    assert forall|k: int| 0 <= k < s.len() implies lhs[k] == rhs[k] by {
        let a = s[k];
        assert(rename_addrs(s, pi)[k] == rename_addr(pi, a));
        if a == o {
            assert(rename_addr(pi, a) == o);
        } else {
            assert(rename_addr(pi, a) != o);
        }
    }
    assert(lhs =~= rhs);
}

/// Rewrites every reference container of the collection, nodes and anchors
/// alike, replacing the address `old_addr` by `new_addr`.
fn update_all_refs<V: Variant>(col: &mut CoreCol<V>, old_addr: usize, new_addr: usize)
    requires
        old(col).wf(),
    ensures
        final(col).wf(),
        final(col).storage_len() == old(col).storage_len(),
        final(col).len_spec() == old(col).len_spec(),
        forall|i: int|
            0 <= i < old(col).storage_len() ==> (#[trigger] final(col).nodes_spec()[i]).payload()
                == old(col).nodes_spec()[i].payload() && final(col).nodes_spec()[i].prevs()
                == crate::refs::subst_addrs(old(col).nodes_spec()[i].prevs(), old_addr, new_addr)
                && final(col).nodes_spec()[i].nexts() == crate::refs::subst_addrs(
                old(col).nodes_spec()[i].nexts(),
                old_addr,
                new_addr,
            ),
        final(col).ends_spec().addrs() == crate::refs::subst_addrs(
            old(col).ends_spec().addrs(),
            old_addr,
            new_addr,
        ),
{
    let n = col.nodes().len();
    let mut i: usize = 0;
    while i < n
        invariant
            col.wf(),
            n == col.storage_len(),
            col.storage_len() == old(col).storage_len(),
            col.len_spec() == old(col).len_spec(),
            col.ends_spec() == old(col).ends_spec(),
            i <= n,
            forall|k: int| i <= k < n ==> col.nodes_spec()[k] == old(col).nodes_spec()[k],
            forall|k: int|
                0 <= k < i ==> (#[trigger] col.nodes_spec()[k]).payload() == old(col).nodes_spec()[k].payload() && col.nodes_spec()[k].prevs()
                == crate::refs::subst_addrs(old(col).nodes_spec()[k].prevs(), old_addr, new_addr)
                && col.nodes_spec()[k].nexts() == crate::refs::subst_addrs(
                old(col).nodes_spec()[k].nexts(),
                old_addr,
                new_addr,
            ),
        decreases n - i,
    {
        let ghost before = *col;
        let ptr = col.node_ptr_at_pos(i);
        let node = col.node_mut(&ptr);
        let pr = node.prev_mut();
        pr.update_reference(old_addr, new_addr);
        let nx = node.next_mut();
        nx.update_reference(old_addr, new_addr);
        proof {
            crate::core_col::lemma_active_count_update(
                before.nodes_spec(),
                i as int,
                col.nodes_spec()[i as int],
            );
        }
        i = i + 1;
    }
    let ends = col.ends_mut();
    ends.update_reference(old_addr, new_addr);
}

/// Reorganizes the nodes of the collection so that all active nodes stand
/// in front of all vacant slots, rewriting every reference that pointed at
/// a moved node, the anchors included. Returns whether any node moved.
///
/// The storage keeps its length; truncating the vacant tail afterwards is
/// the memory policy's part.
pub fn reorganize_nodes<V: Variant>(col: &mut CoreCol<V>) -> (moved: bool)
    requires
        old(col).wf(),
        old(col).no_dangling(),
        old(col).closed_detached(),
    ensures
        final(col).wf(),
        final(col).no_dangling(),
        final(col).closed_detached(),
        final(col).len_spec() == old(col).len_spec(),
        final(col).storage_len() == old(col).storage_len(),
        forall|i: int|
            0 <= i < final(col).storage_len() ==> ((#[trigger] final(col).nodes_spec()[i]).is_active_spec() <==> i < final(col).len_spec()),
        !moved ==> *final(col) == *old(col),
        exists|pi: Map<usize, usize>| relabeling(*old(col), *final(col), pi),
{
    let n = col.nodes().len();
    let ghost mut pi: Map<usize, usize> = Map::<usize, usize>::new(
        |a: usize| a < n && old(col).nodes_spec()[a as int].is_active_spec(),
        |a: usize| a,
    );
    let mut v: usize = 0;
    let mut o: usize = n;
    let mut moved = false;
    proof {
        assert forall|b: int|
            0 <= b < n implies ((#[trigger] col.nodes_spec()[b]).is_active_spec() <==> exists|
            a: usize,
        | pi.dom().contains(a) && pi[a] == b) by {
            if col.nodes_spec()[b].is_active_spec() {
                assert(pi.dom().contains(b as usize) && pi[b as usize] == b);
            }
        }
    }
    while v < o
        invariant
            old(col).wf(),
            old(col).no_dangling(),
            old(col).closed_detached(),
            col.wf(),
            col.closed_detached(),
            n == col.storage_len(),
            col.storage_len() == old(col).storage_len(),
            col.len_spec() == old(col).len_spec(),
            v <= o <= n,
            forall|i: int| 0 <= i < v ==> (#[trigger] col.nodes_spec()[i]).is_active_spec(),
            forall|i: int| o <= i < n ==> !(#[trigger] col.nodes_spec()[i]).is_active_spec(),
            forall|a: usize|
                pi.dom().contains(a) <==> (a < n && (#[trigger] old(col).nodes_spec()[a as int]).is_active_spec()),
            forall|a: usize| #[trigger]
                pi.dom().contains(a) ==> ((pi[a] == a && a < o) || (pi[a] < v && a >= o)),
            forall|a: usize, b: usize|
                pi.dom().contains(a) && pi.dom().contains(b) && a != b ==> pi[a] != pi[b],
            forall|a: usize| #[trigger]
                pi.dom().contains(a) ==> col.nodes_spec()[pi[a] as int].payload() == old(col).nodes_spec()[a as int].payload() && col.nodes_spec()[pi[a] as int].prevs()
                    == rename_addrs(old(col).nodes_spec()[a as int].prevs(), pi)
                    && col.nodes_spec()[pi[a] as int].nexts() == rename_addrs(
                    old(col).nodes_spec()[a as int].nexts(),
                    pi,
                ),
            col.ends_spec().addrs() == rename_addrs(old(col).ends_spec().addrs(), pi),
            forall|b: int|
                0 <= b < n ==> ((#[trigger] col.nodes_spec()[b]).is_active_spec() <==> exists|
                    a: usize,
                |
                    pi.dom().contains(a) && pi[a] == b),
            !moved ==> *col == *old(col) && (forall|a: usize| #[trigger]
                pi.dom().contains(a) ==> pi[a] == a),
        decreases o - v,
    {
        let active_front = col.nodes()[v].is_active();
        if active_front {
            v = v + 1;
        } else {
            let active_back = col.nodes()[o - 1].is_active();
            if !active_back {
                o = o - 1;
            } else {
                let ghost before = *col;
                let src: usize = o - 1;
                proof {
                    assert(pi.dom().contains(src) && pi[src] == src) by {
                        let a = choose|a: usize| pi.dom().contains(a) && pi[a] == src as int;
                        assert(pi.dom().contains(a));
                        assert(pi[a] == src);
                    }
                }
                col.move_node(v, src);
                let ghost mid = *col;
                update_all_refs(col, src, v);
                proof {
                    let pi2 = pi.insert(src, v);
                    assert(rename_addr(pi, src) == src);
                    assert forall|x: usize| x != src implies rename_addr(pi, x) != src by {
                        if pi.dom().contains(x) {
                            assert((pi[x] == x && x < o) || (pi[x] < v && x >= o));
                        }
                    }
                    assert(mid.nodes_spec() == before.nodes_spec().update(
                        v as int,
                        before.nodes_spec()[src as int],
                    ).update(src as int, before.nodes_spec()[v as int]));
                    assert(crate::refs::subst_addrs(Seq::<usize>::empty(), src, v) =~= Seq::<
                        usize,
                    >::empty());
                    assert forall|a: usize| #[trigger]
                        pi2.dom().contains(a) implies col.nodes_spec()[pi2[a] as int].payload()
                        == old(col).nodes_spec()[a as int].payload() && col.nodes_spec()[
                        pi2[a] as int].prevs() == rename_addrs(
                        old(col).nodes_spec()[a as int].prevs(),
                        pi2,
                    ) && col.nodes_spec()[pi2[a] as int].nexts() == rename_addrs(
                        old(col).nodes_spec()[a as int].nexts(),
                        pi2,
                    ) by {
                        lemma_subst_rename_compose(
                            old(col).nodes_spec()[a as int].prevs(),
                            pi,
                            src,
                            v,
                        );
                        lemma_subst_rename_compose(
                            old(col).nodes_spec()[a as int].nexts(),
                            pi,
                            src,
                            v,
                        );
                        if a == src {
                            assert(pi2[a] == v);
                            assert(mid.nodes_spec()[v as int] == before.nodes_spec()[
                                src as int]);
                            assert(col.nodes_spec()[v as int].prevs()
                                == crate::refs::subst_addrs(
                                mid.nodes_spec()[v as int].prevs(),
                                src,
                                v,
                            ));
                            assert(before.nodes_spec()[src as int].prevs() == rename_addrs(
                                old(col).nodes_spec()[src as int].prevs(),
                                pi,
                            ));
                        } else {
                            assert(pi.dom().contains(a));
                            assert(pi2[a] == pi[a]);
                            assert(pi[a] != src);
                            assert(pi[a] != v) by {
                                if pi[a] == v {
                                    assert(before.nodes_spec()[v as int].is_active_spec());
                                }
                            }
                            assert(mid.nodes_spec()[pi[a] as int] == before.nodes_spec()[
                                pi[a] as int]);
                        }
                    }
                    lemma_subst_rename_compose(old(col).ends_spec().addrs(), pi, src, v);
                    assert(mid.ends_spec() == before.ends_spec());
                    assert forall|b: int|
                        0 <= b < n implies ((#[trigger] col.nodes_spec()[b]).is_active_spec()
                        <==> exists|a: usize| pi2.dom().contains(a) && pi2[a] == b) by {
                        assert(col.nodes_spec()[b].payload() == mid.nodes_spec()[b].payload());
                        if b == v {
                            assert(col.nodes_spec()[b].is_active_spec());
                            assert(pi2.dom().contains(src) && pi2[src] == v);
                        } else if b == src {
                            assert(!col.nodes_spec()[b].is_active_spec());
                            assert forall|a: usize| #[trigger]
                                pi2.dom().contains(a) implies pi2[a] != src by {
                                if a != src {
                                    assert(pi[a] != src);
                                }
                            }
                        } else {
                            assert(col.nodes_spec()[b].is_active_spec() == before.nodes_spec()[
                                b].is_active_spec());
                            if col.nodes_spec()[b].is_active_spec() {
                                let a = choose|a: usize| pi.dom().contains(a) && pi[a] == b;
                                assert(pi.dom().contains(a) && pi[a] == b);
                                assert(a != src);
                                assert(pi2.dom().contains(a) && pi2[a] == b);
                            }
                            if exists|a: usize| pi2.dom().contains(a) && pi2[a] == b {
                                let a = choose|a: usize| pi2.dom().contains(a) && pi2[a] == b;
                                assert(a != src);
                                assert(pi.dom().contains(a) && pi[a] == b);
                                assert(col.nodes_spec()[b].is_active_spec());
                            }
                        }
                    }
                    assert forall|i: int|
                        0 <= i < n && !(#[trigger] col.nodes_spec()[i]).is_active_spec() implies
                        col.nodes_spec()[i].prevs() == Seq::<usize>::empty()
                        && col.nodes_spec()[i].nexts() == Seq::<usize>::empty() by {
                        assert(col.nodes_spec()[i].payload() == mid.nodes_spec()[i].payload());
                        if i == src {
                            assert(mid.nodes_spec()[i] == before.nodes_spec()[v as int]);
                            assert(before.nodes_spec()[v as int].prevs() == Seq::<
                                usize,
                            >::empty());
                            assert(before.nodes_spec()[v as int].nexts() == Seq::<
                                usize,
                            >::empty());
                        } else if i != v {
                            assert(mid.nodes_spec()[i] == before.nodes_spec()[i]);
                            assert(!before.nodes_spec()[i].is_active_spec());
                        }
                        assert(col.nodes_spec()[i].prevs() == crate::refs::subst_addrs(
                            mid.nodes_spec()[i].prevs(),
                            src,
                            v,
                        ));
                    }
                    pi = pi2;
                }
                moved = true;
                v = v + 1;
                o = o - 1;
            }
        }
    }
    proof {
        crate::core_col::lemma_active_count_prefix(col.nodes_spec(), v as int);
        assert(col.len_spec() == v);
        assert(relabeling(*old(col), *col, pi));
        assert forall|i: int|
            0 <= i < col.storage_len() && (#[trigger] col.nodes_spec()[i]).is_active_spec() implies
            crate::core_col::refs_ok(col.nodes_spec(), col.nodes_spec()[i].prevs())
            && crate::core_col::refs_ok(col.nodes_spec(), col.nodes_spec()[i].nexts()) by {
            let a = choose|a: usize| pi.dom().contains(a) && pi[a] == i;
            assert(pi.dom().contains(a) && pi[a] == i);
            lemma_renamed_refs_ok(*old(col), *col, pi, old(col).nodes_spec()[a as int].prevs());
            lemma_renamed_refs_ok(*old(col), *col, pi, old(col).nodes_spec()[a as int].nexts());
        }
        lemma_renamed_refs_ok(*old(col), *col, pi, old(col).ends_spec().addrs());
    }
    moved
}

/// References that pointed only at active nodes point only at active nodes
/// after renaming through a relabeling map.
proof fn lemma_renamed_refs_ok<V: Variant>(
    o: CoreCol<V>,
    n: CoreCol<V>,
    pi: Map<usize, usize>,
    addrs: Seq<usize>,
)
    requires
        crate::core_col::refs_ok(o.nodes_spec(), addrs),
        forall|a: usize|
            pi.dom().contains(a) <==> (a < o.storage_len() && (#[trigger] o.nodes_spec()[
                a as int]).is_active_spec()),
        forall|a: usize| #[trigger] pi.dom().contains(a) ==> pi[a] < n.storage_len(),
        forall|b: int|
            0 <= b < n.storage_len() ==> ((#[trigger] n.nodes_spec()[b]).is_active_spec() <==>
                exists|a: usize| pi.dom().contains(a) && pi[a] == b),
    ensures
        crate::core_col::refs_ok(n.nodes_spec(), rename_addrs(addrs, pi)),
{
    let mapped = rename_addrs(addrs, pi);
    assert forall|k: int| 0 <= k < mapped.len() implies (#[trigger] mapped[k])
        < n.storage_len() && n.nodes_spec()[mapped[k] as int].is_active_spec() by {
        let a = addrs[k];
        assert(a < o.storage_len() && o.nodes_spec()[a as int].is_active_spec());
        assert(pi.dom().contains(a));
        assert(mapped[k] == pi[a]);
    }
}

/// Reclaimer usable with every variant: it compacts by moving the rearmost
/// active node into the foremost vacant slot and rewrites every reference
/// container of the collection for each move, making no assumption about
/// which nodes hold the references.
pub struct GenericReclaimer;

impl<V: Variant> crate::memory::MemoryReclaimer<V> for GenericReclaimer {
    fn reclaim_nodes(col: &mut CoreCol<V>) -> (moved: bool) {
        reorganize_nodes(col)
    }
}

} // verus!
