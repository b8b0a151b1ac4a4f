//! The emission session: the record of one emission pass, and the
//! operations it allows afterwards — attaching payloads to nodes selected
//! by name or tag, and committing resolved styles onto the sink.

use vstd::prelude::*;

use crate::sink::{SceneSink, SinkNode};
use crate::style_description::{concrete_of, StyleDescription};
use crate::text::str_eq;

verus! {

/// The model of one emitted node: the tree node's name and tags, the scene
/// handle created for it, and the style resolved for it at emission time.
pub struct EmNodeView {
    pub name: Seq<char>,
    pub tags: Seq<Seq<char>>,
    pub handle: u64,
    pub style: StyleDescription,
}

/// One emitted node: a tree node's name and tags, the scene handle created
/// for it, and its resolved style, fixed at emission time.
#[derive(Debug)]
pub(crate) struct EmissionNode {
    pub(crate) name: String,
    pub(crate) tags: Vec<String>,
    pub(crate) handle: u64,
    pub(crate) style: StyleDescription,
}

impl View for EmissionNode {
    type V = EmNodeView;

    open(crate) spec fn view(&self) -> EmNodeView {
        EmNodeView {
            name: self.name@,
            tags: self.tags.deep_view(),
            handle: self.handle,
            style: self.style,
        }
    }
}

/// The ordered collection of all nodes produced by one emission pass.
pub struct GuiBuilderEmission {
    pub(crate) nodes: Vec<EmissionNode>,
}

impl View for GuiBuilderEmission {
    type V = Seq<EmNodeView>;

    open(crate) spec fn view(&self) -> Seq<EmNodeView> {
        Seq::new(self.nodes@.len(), |i: int| self.nodes@[i]@)
    }
}

impl GuiBuilderEmission {
    /// Every emitted node holds a distinct scene handle.
    pub open spec fn wf(&self) -> bool {
        forall|i: int, j: int|
            0 <= i < j < self@.len() ==> self@[i].handle != self@[j].handle
    }

    /// How many nodes the emission pass produced.
    pub fn len(&self) -> (n: usize)
        ensures
            n == self@.len(),
    {
        self.nodes.len()
    }

    /// The scene handle of the emitted node at position `i`.
    pub fn handle_at(&self, i: usize) -> (h: u64)
        requires
            i < self@.len(),
        ensures
            h == self@[i as int].handle,
    {
        self.nodes[i].handle
    }

    /// The name of the emitted node at position `i`.
    pub fn name_at(&self, i: usize) -> (r: &String)
        requires
            i < self@.len(),
        ensures
            r@ == self@[i as int].name,
    {
        &self.nodes[i].name
    }

    /// The style resolved for the emitted node at position `i`.
    pub fn style_at(&self, i: usize) -> (r: StyleDescription)
        requires
            i < self@.len(),
        ensures
            r == self@[i as int].style,
    {
        self.nodes[i].style
    }
}

/// Whether `h` is the handle of an emitted node named `name`.
pub open spec fn selects_name(em: Seq<EmNodeView>, name: Seq<char>, h: u64) -> bool {
    exists|i: int| 0 <= i < em.len() && em[i].handle == h && em[i].name == name
}

/// Whether `h` is the handle of an emitted node whose tag list holds `tag`.
pub open spec fn selects_tag(em: Seq<EmNodeView>, tag: Seq<char>, h: u64) -> bool {
    exists|i: int| 0 <= i < em.len() && em[i].handle == h && em[i].tags.contains(tag)
}

/// The record `r` with its payload slot replaced by `p`.
pub open spec fn with_payload<P>(r: SinkNode<P>, p: P) -> SinkNode<P> {
    SinkNode { parent: r.parent, style: r.style, payload: Some(p) }
}

/// The sink state `m` after committing the resolved styles of `em`: every
/// node selected by some emitted handle carries that emitted node's
/// concrete style; every other node, and every other slot, is untouched.
pub open spec fn committed<P>(m: Map<u64, SinkNode<P>>, em: Seq<EmNodeView>) -> Map<
    u64,
    SinkNode<P>,
> {
    Map::new(
        |h: u64| m.dom().contains(h),
        |h: u64|
            if exists|i: int| 0 <= i < em.len() && em[i].handle == h {
                let i = choose|i: int| 0 <= i < em.len() && em[i].handle == h;
                (SinkNode {
                    parent: m[h].parent,
                    style: Some(concrete_of(em[i].style)),
                    payload: m[h].payload,
                })
            } else {
                m[h]
            },
    )
}

/// Committing is idempotent: committing the same emission onto an already
/// committed sink rewrites the same styles and changes nothing.
pub proof fn lemma_commit_idempotent<P>(m: Map<u64, SinkNode<P>>, em: Seq<EmNodeView>)
    ensures
        committed(committed(m, em), em) == committed(m, em),
{
    let once = committed(m, em);
    let twice = committed(once, em);
    assert forall|h: u64| #[trigger] twice.dom().contains(h) implies twice[h] == once[h] by {
        if exists|i: int| 0 <= i < em.len() && em[i].handle == h {
            let i = choose|i: int| 0 <= i < em.len() && em[i].handle == h;
            assert(once[h].parent == m[h].parent);
            assert(once[h].payload == m[h].payload);
        }
    }
    assert(twice =~= once);
}

/// Whether a tag list holds `tag`.
fn has_tag(tags: &Vec<String>, tag: &str) -> (r: bool)
    ensures
        r == tags.deep_view().contains(tag@),
{
    let mut j: usize = 0;
    while j < tags.len()
        invariant
            j <= tags@.len(),
            forall|k: int| 0 <= k < j ==> tags.deep_view()[k] != tag@,
        decreases tags@.len() - j,
    {
        if str_eq(tags[j].as_str(), tag) {
            proof {
                assert(tags.deep_view()[j as int] == tag@);
            }
            return true;
        }
        j = j + 1;
    }
    proof {
        assert forall|k: int| 0 <= k < tags.deep_view().len() implies tags.deep_view()[k] != tag@
            by {}
    }
    false
}

/// Attach `bundle` to every handle in `handles` that the sink still holds;
/// handles the sink does not hold are skipped silently.
fn bundle_targets<P: Copy, S: SceneSink<P>>(handles: &Vec<u64>, sink: &mut S, bundle: P)
    ensures
        final(sink).nodes().dom() == old(sink).nodes().dom(),
        forall|h: u64| #[trigger] old(sink).nodes().dom().contains(h)
            ==> final(sink).nodes()[h] == if handles@.contains(h) {
                with_payload(old(sink).nodes()[h], bundle)
            } else {
                old(sink).nodes()[h]
            },
{
    let mut k: usize = 0;
    #[verifier::loop_isolation(false)]
    while k < handles.len()
        invariant
            k <= handles@.len(),
            sink.nodes().dom() == old(sink).nodes().dom(),
            forall|h: u64| #[trigger] old(sink).nodes().dom().contains(h)
                ==> sink.nodes()[h] == if handles@.take(k as int).contains(h) {
                    with_payload(old(sink).nodes()[h], bundle)
                } else {
                    old(sink).nodes()[h]
                },
        decreases handles@.len() - k,
    {
        let h = handles[k];
        sink.attach_data(h, bundle);
        proof {
            assert forall|x: u64| handles@.take(k as int + 1).contains(x) implies handles@.take(
                k as int,
            ).contains(x) || x == h by {
                let w = choose|w: int|
                    0 <= w < k as int + 1 && #[trigger] handles@.take(k as int + 1)[w] == x;
                if w < k as int {
                    assert(handles@.take(k as int)[w] == x);
                }
            }
            assert forall|x: u64| handles@.take(k as int).contains(x) implies handles@.take(
                k as int + 1,
            ).contains(x) by {
                let w = choose|w: int| 0 <= w < k as int && handles@.take(k as int)[w] == x;
                assert(handles@.take(k as int + 1)[w] == x);
            }
            assert(handles@.take(k as int + 1)[k as int] == h);
        }
        k = k + 1;
    }
    proof {
        assert(handles@.take(handles@.len() as int) =~= handles@);
    }
}

impl GuiBuilderEmission {
    /// Attach `bundle` to every emitted node whose name is exactly `name`:
    /// zero, one, or many nodes, duplicates included. Selecting no node is
    /// a silent no-op, as is a node whose handle the sink no longer holds.
    /// Nothing else about the sink changes.
    pub fn bundle_by_name<P: Copy, S: SceneSink<P>>(&self, name: &str, bundle: P, sink: &mut S)
        ensures
            final(sink).nodes().dom() == old(sink).nodes().dom(),
            forall|h: u64| #[trigger] old(sink).nodes().dom().contains(h)
                ==> final(sink).nodes()[h] == if selects_name(self@, name@, h) {
                    with_payload(old(sink).nodes()[h], bundle)
                } else {
                    old(sink).nodes()[h]
                },
    {
        let mut handles: Vec<u64> = Vec::new();
        let mut i: usize = 0;
        #[verifier::loop_isolation(false)]
        while i < self.nodes.len()
            invariant
                i <= self@.len(),
                forall|j: int| #![trigger self@[j]] 0 <= j < i && self@[j].name == name@
                    ==> handles@.contains(self@[j].handle),
                forall|h: u64| #[trigger] handles@.contains(h) ==> exists|j: int|
                    #![trigger self@[j]] 0 <= j < i && self@[j].handle == h && self@[j].name
                        == name@,
            decreases self@.len() - i,
        {
            let ghost handles0 = handles@;
            let matched = str_eq(self.nodes[i].name.as_str(), name);
            if matched {
                handles.push(self.nodes[i].handle);
            }
            proof {
                if matched {
                    assert(handles@ == handles0.push(self@[i as int].handle));
                    assert(handles@[handles0.len() as int] == self@[i as int].handle);
                } else {
                    assert(self@[i as int].name != name@);
                }
                assert forall|j: int| 0 <= j < i as int + 1 && (#[trigger] self@[j]).name == name@
                    implies handles@.contains(self@[j].handle) by {
                    if j < i as int {
                        assert(handles0.contains(self@[j].handle));
                        let w = choose|w: int|
                            0 <= w < handles0.len() && handles0[w] == self@[j].handle;
                        assert(handles@[w] == self@[j].handle);
                    } else {
                        assert(handles@[handles0.len() as int] == self@[j].handle);
                    }
                }
                assert forall|h: u64| #[trigger] handles@.contains(h) implies exists|j: int|
                    #![trigger self@[j]] 0 <= j < i as int + 1 && self@[j].handle == h
                        && self@[j].name == name@ by {
                    let w = choose|w: int| 0 <= w < handles@.len() && handles@[w] == h;
                    if w < handles0.len() {
                        assert(handles0[w] == h);
                        assert(handles0.contains(h));
                    } else {
                        assert(self@[i as int].handle == h && self@[i as int].name == name@);
                    }
                }
            }
            i = i + 1;
        }
        proof {
            assert forall|h: u64| #[trigger]
                handles@.contains(h) == selects_name(self@, name@, h) by {
                if selects_name(self@, name@, h) {
                    let j = choose|j: int|
                        0 <= j < self@.len() && (#[trigger] self@[j]).handle == h && self@[j].name
                            == name@;
                    assert(handles@.contains(self@[j].handle));
                }
            }
        }
        bundle_targets(&handles, sink, bundle);
    }

    /// Attach `bundle` to every emitted node whose tag list holds `tag`,
    /// with the same semantics as `bundle_by_name`.
    pub fn bundle_by_tag<P: Copy, S: SceneSink<P>>(&self, tag: &str, bundle: P, sink: &mut S)
        ensures
            final(sink).nodes().dom() == old(sink).nodes().dom(),
            forall|h: u64| #[trigger] old(sink).nodes().dom().contains(h)
                ==> final(sink).nodes()[h] == if selects_tag(self@, tag@, h) {
                    with_payload(old(sink).nodes()[h], bundle)
                } else {
                    old(sink).nodes()[h]
                },
    {
        let mut handles: Vec<u64> = Vec::new();
        let mut i: usize = 0;
        #[verifier::loop_isolation(false)]
        while i < self.nodes.len()
            invariant
                i <= self@.len(),
                forall|j: int| #![trigger self@[j]] 0 <= j < i && self@[j].tags.contains(tag@)
                    ==> handles@.contains(self@[j].handle),
                forall|h: u64| #[trigger] handles@.contains(h) ==> exists|j: int|
                    #![trigger self@[j]] 0 <= j < i && self@[j].handle == h
                        && self@[j].tags.contains(tag@),
            decreases self@.len() - i,
        {
            let ghost handles0 = handles@;
            let matched = has_tag(&self.nodes[i].tags, tag);
            if matched {
                handles.push(self.nodes[i].handle);
            }
            proof {
                if matched {
                    assert(handles@ == handles0.push(self@[i as int].handle));
                    assert(handles@[handles0.len() as int] == self@[i as int].handle);
                } else {
                    assert(!self@[i as int].tags.contains(tag@));
                }
                assert forall|j: int|
                    0 <= j < i as int + 1 && (#[trigger] self@[j]).tags.contains(tag@)
                    implies handles@.contains(self@[j].handle) by {
                    if j < i as int {
                        assert(handles0.contains(self@[j].handle));
                        let w = choose|w: int|
                            0 <= w < handles0.len() && handles0[w] == self@[j].handle;
                        assert(handles@[w] == self@[j].handle);
                    } else {
                        assert(handles@[handles0.len() as int] == self@[j].handle);
                    }
                }
                assert forall|h: u64| #[trigger] handles@.contains(h) implies exists|j: int|
                    #![trigger self@[j]] 0 <= j < i as int + 1 && self@[j].handle == h
                        && self@[j].tags.contains(tag@) by {
                    let w = choose|w: int| 0 <= w < handles@.len() && handles@[w] == h;
                    if w < handles0.len() {
                        assert(handles0[w] == h);
                        assert(handles0.contains(h));
                    } else {
                        assert(self@[i as int].handle == h
                            && self@[i as int].tags.contains(tag@));
                    }
                }
            }
            i = i + 1;
        }
        proof {
            assert forall|h: u64| #[trigger]
                handles@.contains(h) == selects_tag(self@, tag@, h) by {
                if selects_tag(self@, tag@, h) {
                    let j = choose|j: int|
                        0 <= j < self@.len() && (#[trigger] self@[j]).handle == h
                            && self@[j].tags.contains(tag@);
                    assert(handles@.contains(self@[j].handle));
                }
            }
        }
        bundle_targets(&handles, sink, bundle);
    }

    /// Commit every emitted node's resolved style: convert it to a concrete
    /// style and write it onto the node's handle, once per node. Nodes the
    /// sink no longer holds are skipped. Committing again rewrites the same
    /// styles, leaving the sink unchanged.
    pub fn finish<P, S: SceneSink<P>>(&self, sink: &mut S)
        requires
            self.wf(),
        ensures
            final(sink).nodes() == committed(old(sink).nodes(), self@),
    {
        let mut k: usize = 0;
        #[verifier::loop_isolation(false)]
        while k < self.nodes.len()
            invariant
                k <= self@.len(),
                sink.nodes() == committed(old(sink).nodes(), self@.take(k as int)),
            decreases self@.len() - k,
        {
            let ghost prefix = self@.take(k as int);
            let ghost prefix1 = self@.take(k as int + 1);
            let style = self.nodes[k].style.to_concrete();
            let h = self.nodes[k].handle;
            sink.set_style(h, style);
            proof {
                assert(prefix1[k as int] == self@[k as int]);
                assert(forall|j: int| 0 <= j < k as int ==> prefix1[j] == prefix[j]);
                assert forall|x: u64| #[trigger]
                    committed(old(sink).nodes(), prefix1).dom().contains(x) implies committed(
                    old(sink).nodes(),
                    prefix1,
                )[x] == sink.nodes()[x] by {
                    let m = old(sink).nodes();
                    if x == h {
                        assert(prefix1[k as int].handle == h);
                        let i = choose|i: int| 0 <= i < prefix1.len() && prefix1[i].handle == x;
                        if i < k as int {
                            assert(self@[i].handle == self@[k as int].handle);
                            assert(false);
                        }
                        assert(i == k as int);
                    } else {
                        if exists|i: int| 0 <= i < prefix1.len() && prefix1[i].handle == x {
                            let i = choose|i: int|
                                0 <= i < prefix1.len() && prefix1[i].handle == x;
                            assert(i < k as int);
                            assert(prefix[i].handle == x);
                            let i0 = choose|i0: int|
                                0 <= i0 < prefix.len() && prefix[i0].handle == x;
                            assert(self@[i0].handle == x && self@[i].handle == x);
                            assert(i0 == i);
                        } else {
                            assert(!exists|i: int|
                                0 <= i < prefix.len() && prefix[i].handle == x);
                        }
                    }
                }
                assert(sink.nodes() =~= committed(old(sink).nodes(), prefix1));
            }
            k = k + 1;
        }
        proof {
            assert(self@.take(self@.len() as int) =~= self@);
        }
    }
}

} // verus!
