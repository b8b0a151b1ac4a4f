//! The specification of the emission order: a breadth-first flattening of a
//! layout tree into a sequence of entries, each carrying the position of
//! its parent in the same sequence.
//!
//! This is the mathematical yardstick the emission engine is proved
//! against: the engine produces exactly one emitted node per entry of the
//! flattening, in order, and every entry's parent stands earlier in the
//! sequence than the entry itself.

use vstd::prelude::*;

use crate::layout::LayoutView;

verus! {

/// One tree node as emission sees it: its name, its tags, and the position
/// of its parent in the emission sequence (`None` for the root).
pub struct FlatNode {
    pub name: Seq<char>,
    pub tags: Seq<Seq<char>>,
    pub parent: Option<int>,
}

/// The number of nodes in a tree.
pub open spec fn size_of(v: LayoutView) -> nat
    decreases v,
{
    1 + sizes_of(v.children)
}

/// The total number of nodes in a forest.
pub open spec fn sizes_of(s: Seq<LayoutView>) -> nat
    decreases s,
{
    if s.len() == 0 {
        0
    } else {
        size_of(s[0]) + sizes_of(s.drop_first())
    }
}

/// The total number of nodes in all subtrees waiting in a queue.
pub open spec fn queue_size(q: Seq<(LayoutView, Option<int>)>) -> nat
    decreases q,
{
    if q.len() == 0 {
        0
    } else {
        size_of(q[0].0) + queue_size(q.drop_first())
    }
}

/// The queue entries for `v`'s children, each recording that its parent
/// stands at position `p` of the emission sequence.
pub open spec fn child_entries(v: LayoutView, p: int) -> Seq<(LayoutView, Option<int>)> {
    Seq::new(v.children.len(), |i: int| (v.children[i], Some(p)))
}

pub proof fn lemma_queue_size_concat(a: Seq<(LayoutView, Option<int>)>, b: Seq<(LayoutView, Option<int>)>)
    ensures
        queue_size(a + b) == queue_size(a) + queue_size(b),
    decreases a,
{
    if a.len() == 0 {
        assert(a + b =~= b);
    } else {
        assert((a + b).drop_first() =~= a.drop_first() + b);
        lemma_queue_size_concat(a.drop_first(), b);
    }
}

pub proof fn lemma_child_entries_size(s: Seq<LayoutView>, p: int)
    ensures
        queue_size(Seq::new(s.len(), |i: int| (s[i], Some(p)))) == sizes_of(s),
    decreases s,
{
    let q = Seq::new(s.len(), |i: int| (s[i], Some(p)));
    if s.len() != 0 {
        let s2 = s.drop_first();
        let q2 = Seq::new(s2.len(), |i: int| (s2[i], Some(p)));
        assert(q.drop_first() =~= q2);
        lemma_child_entries_size(s2, p);
    }
}

/// The emission sequence produced from a queue of pending subtrees, where
/// the entry for the queue's first subtree will stand at position `base`:
/// the first subtree's root comes out, and its children join the back of
/// the queue.
pub open spec fn bfs_flatten(q: Seq<(LayoutView, Option<int>)>, base: int) -> Seq<FlatNode>
    decreases queue_size(q),
    when true
    via bfs_flatten_decreases
{
    if q.len() == 0 {
        Seq::empty()
    } else {
        seq![FlatNode { name: q[0].0.name, tags: q[0].0.tags, parent: q[0].1 }]
            + bfs_flatten(q.drop_first() + child_entries(q[0].0, base), base + 1)
    }
}

#[via_fn]
proof fn bfs_flatten_decreases(q: Seq<(LayoutView, Option<int>)>, base: int) {
    if q.len() != 0 {
        lemma_queue_size_concat(q.drop_first(), child_entries(q[0].0, base));
        lemma_child_entries_size(q[0].0.children, base);
        assert(child_entries(q[0].0, base)
            =~= Seq::new(q[0].0.children.len(), |i: int| (q[0].0.children[i], Some(base))));
        assert(queue_size(q) == size_of(q[0].0) + queue_size(q.drop_first()));
    }
}

/// The emission sequence of a whole tree: breadth-first from the root,
/// which has no parent.
pub open spec fn flatten(root: LayoutView) -> Seq<FlatNode> {
    bfs_flatten(seq![(root, None)], 0)
}

pub proof fn lemma_bfs_flatten_len(q: Seq<(LayoutView, Option<int>)>, base: int)
    ensures
        bfs_flatten(q, base).len() == queue_size(q),
    decreases queue_size(q),
{
    if q.len() != 0 {
        let q2 = q.drop_first() + child_entries(q[0].0, base);
        lemma_queue_size_concat(q.drop_first(), child_entries(q[0].0, base));
        lemma_child_entries_size(q[0].0.children, base);
        assert(child_entries(q[0].0, base)
            =~= Seq::new(q[0].0.children.len(), |i: int| (q[0].0.children[i], Some(base))));
        lemma_bfs_flatten_len(q2, base + 1);
    }
}

/// Emission yields exactly one entry per tree node.
pub proof fn lemma_flatten_len(root: LayoutView)
    ensures
        flatten(root).len() == size_of(root),
{
    let q = seq![(root, None::<int>)];
    assert(q.drop_first() =~= Seq::<(LayoutView, Option<int>)>::empty());
    assert(q[0] == (root, None::<int>));
    assert(queue_size(q.drop_first()) == 0);
    assert(queue_size(q) == size_of(q[0].0) + queue_size(q.drop_first()));
    lemma_bfs_flatten_len(q, 0);
}

pub proof fn lemma_bfs_flatten_parents(q: Seq<(LayoutView, Option<int>)>, base: int)
    requires
        0 <= base,
        forall|k: int| #![trigger q[k]] 0 <= k < q.len() && q[k].1 is Some
            ==> 0 <= q[k].1->0 < base,
    ensures
        forall|i: int| #![trigger bfs_flatten(q, base)[i]]
            0 <= i < bfs_flatten(q, base).len() && bfs_flatten(q, base)[i].parent is Some
            ==> 0 <= bfs_flatten(q, base)[i].parent->0 < base + i,
    decreases queue_size(q),
{
    if q.len() != 0 {
        let ch = child_entries(q[0].0, base);
        let q2 = q.drop_first() + ch;
        lemma_queue_size_concat(q.drop_first(), ch);
        lemma_child_entries_size(q[0].0.children, base);
        assert(ch =~= Seq::new(q[0].0.children.len(), |i: int| (q[0].0.children[i], Some(base))));
        assert(queue_size(q) == size_of(q[0].0) + queue_size(q.drop_first()));
        assert forall|k: int| 0 <= k < q2.len() && #[trigger] q2[k].1 is Some
            implies 0 <= q2[k].1->0 < base + 1 by {
            if k < q.len() - 1 {
                assert(q2[k] == q.drop_first()[k]);
                assert(q.drop_first()[k] == q[k + 1]);
            } else {
                assert(q2[k] == ch[k - (q.len() - 1)]);
            }
        }
        lemma_bfs_flatten_parents(q2, base + 1);
        assert(bfs_flatten(q, base)
            == seq![FlatNode { name: q[0].0.name, tags: q[0].0.tags, parent: q[0].1 }]
                + bfs_flatten(q2, base + 1));
    }
}

/// Every non-root entry's parent stands strictly earlier in the emission
/// sequence: a node's scene handle exists before any of its children are
/// created.
pub proof fn lemma_flatten_parent_before_child(root: LayoutView)
    ensures
        flatten(root)[0].parent is None,
        forall|i: int| #![trigger flatten(root)[i]]
            0 <= i < flatten(root).len() && flatten(root)[i].parent is Some
            ==> 0 <= flatten(root)[i].parent->0 < i,
{
    let q = seq![(root, None::<int>)];
    lemma_bfs_flatten_parents(q, 0);
    lemma_flatten_len(root);
    assert(size_of(root) >= 1);
    assert(flatten(root) == seq![FlatNode { name: root.name, tags: root.tags, parent: None::<int> }]
        + bfs_flatten(q.drop_first() + child_entries(root, 0), 1));
}

} // verus!
