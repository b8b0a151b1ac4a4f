//! The builder: accumulates a layout tree plus three kinds of style rules
//! (a global theme, rules by node name, rules by tag) as a plain value,
//! then emits the tree breadth-first into a scene sink, resolving one
//! effective style per node.
//!
//! The cascade precedence is fixed: the theme applies first, then every tag
//! rule that matches one of the node's tags, in the node's own tag order
//! (a later tag overrides an earlier one on conflicting attributes), and
//! the name rule last, overriding everything else.

use std::collections::VecDeque;

use vstd::prelude::*;

use crate::emission::{EmissionNode, GuiBuilderEmission};
use crate::flatten::{
    bfs_flatten, child_entries, flatten, lemma_child_entries_size,
    lemma_flatten_len, lemma_flatten_parent_before_child, lemma_queue_size_concat, queue_size,
    size_of, FlatNode,
};
use crate::layout::{
    lemma_views_of_index, lemma_views_of_len, node_view, views_of, Gui, IntoLayoutNode, LayoutNode,
    LayoutView,
};
use crate::rules::RuleStore;
use crate::sink::SceneSink;
use crate::style_description::{empty_style, spec_merge, StyleDescription};

verus! {

/// The style after merging, onto `base`, every tag rule that applies to one
/// of `tags`, in tag order: a later tag's rule overrides an earlier one's.
pub open spec fn apply_tag_rules(
    by_tag: Map<Seq<char>, StyleDescription>,
    base: StyleDescription,
    tags: Seq<Seq<char>>,
) -> StyleDescription
    decreases tags.len(),
{
    if tags.len() == 0 {
        base
    } else {
        let next = if by_tag.dom().contains(tags[0]) {
            spec_merge(base, by_tag[tags[0]])
        } else {
            base
        };
        apply_tag_rules(by_tag, next, tags.drop_first())
    }
}

/// The effective style of a node named `name` carrying `tags`: the theme,
/// then the applicable tag rules in tag order, then the name rule, each
/// layer overriding the previous on the attributes it sets.
pub open spec fn resolved_style(
    theme: StyleDescription,
    by_tag: Map<Seq<char>, StyleDescription>,
    by_name: Map<Seq<char>, StyleDescription>,
    name: Seq<char>,
    tags: Seq<Seq<char>>,
) -> StyleDescription {
    let tagged = apply_tag_rules(by_tag, theme, tags);
    if by_name.dom().contains(name) {
        spec_merge(tagged, by_name[name])
    } else {
        tagged
    }
}

/// Cascade precedence over a node with two tags, a rule for each tag, and a
/// name rule: the effective style is the theme overridden by the first
/// tag's rule, then the second tag's rule, then the name rule. Combined
/// with the rightmost-wins law of merging, each attribute resolves to the
/// name rule's value when set, else the second tag rule's, else the first
/// tag rule's, else the theme's.
pub proof fn lemma_cascade_precedence(
    theme: StyleDescription,
    by_tag: Map<Seq<char>, StyleDescription>,
    by_name: Map<Seq<char>, StyleDescription>,
    name: Seq<char>,
    tag_a: Seq<char>,
    tag_b: Seq<char>,
)
    requires
        by_tag.dom().contains(tag_a),
        by_tag.dom().contains(tag_b),
        by_name.dom().contains(name),
    ensures
        resolved_style(theme, by_tag, by_name, name, seq![tag_a, tag_b]) == spec_merge(
            spec_merge(spec_merge(theme, by_tag[tag_a]), by_tag[tag_b]),
            by_name[name],
        ),
{
    let tags = seq![tag_a, tag_b];
    let t0 = spec_merge(theme, by_tag[tag_a]);
    let t1 = spec_merge(t0, by_tag[tag_b]);
    assert(tags.drop_first() =~= seq![tag_b]);
    assert(tags.drop_first().drop_first() =~= Seq::<Seq<char>>::empty());
    assert(apply_tag_rules(by_tag, theme, tags) == apply_tag_rules(by_tag, t0, tags.drop_first()));
    assert(apply_tag_rules(by_tag, t0, tags.drop_first()) == apply_tag_rules(
        by_tag,
        t1,
        tags.drop_first().drop_first(),
    ));
    assert(apply_tag_rules(by_tag, t1, Seq::<Seq<char>>::empty()) == t1);
}

/// Accumulates one layout tree and the style rules to cascade over it.
/// Every configuration call consumes the builder and returns the updated
/// value; nothing external aliases its state.
pub struct GuiBuilder {
    root: LayoutNode,
    theme: StyleDescription,
    style_named: RuleStore,
    style_tagged: RuleStore,
}

impl GuiBuilder {
    /// Both rule stores hold at most one rule per key.
    pub closed spec fn wf(&self) -> bool {
        self.style_named.wf() && self.style_tagged.wf()
    }

    /// The shape of the tree this builder will emit.
    pub closed spec fn root_view(&self) -> LayoutView {
        node_view(self.root)
    }

    /// The accumulated theme: the style every node starts from.
    pub closed spec fn theme_spec(&self) -> StyleDescription {
        self.theme
    }

    /// The accumulated name rules, keyed by node name.
    pub closed spec fn named_rules(&self) -> Map<Seq<char>, StyleDescription> {
        self.style_named@
    }

    /// The accumulated tag rules, keyed by tag.
    pub closed spec fn tagged_rules(&self) -> Map<Seq<char>, StyleDescription> {
        self.style_tagged@
    }

    /// A builder over the tree `gui` describes, with no rules yet.
    pub fn new(gui: Gui) -> (r: Self)
        ensures
            r.wf(),
            r.root_view() == gui.layout_shape(),
            r.theme_spec() == empty_style(),
            r.named_rules() =~= Map::<Seq<char>, StyleDescription>::empty(),
            r.tagged_rules() =~= Map::<Seq<char>, StyleDescription>::empty(),
    {
        GuiBuilder {
            root: gui.to_layout_node(),
            theme: StyleDescription::empty(),
            style_named: RuleStore::new(),
            style_tagged: RuleStore::new(),
        }
    }

    /// Merge `style` into the theme, which applies to every node.
    pub fn style_all(self, style: StyleDescription) -> (r: Self)
        requires
            self.wf(),
        ensures
            r.wf(),
            r.root_view() == self.root_view(),
            r.theme_spec() == spec_merge(self.theme_spec(), style),
            r.named_rules() == self.named_rules(),
            r.tagged_rules() == self.tagged_rules(),
    {
        let mut b = self;
        b.theme.apply(&style);
        b
    }

    /// Add a rule for nodes named `name`: merged into the existing rule for
    /// that name when one exists, stored as its initial rule otherwise.
    pub fn style_by_name(self, name: &str, style: StyleDescription) -> (r: Self)
        requires
            self.wf(),
        ensures
            r.wf(),
            r.root_view() == self.root_view(),
            r.theme_spec() == self.theme_spec(),
            r.tagged_rules() == self.tagged_rules(),
            r.named_rules() =~= self.named_rules().insert(
                name@,
                if self.named_rules().dom().contains(name@) {
                    spec_merge(self.named_rules()[name@], style)
                } else {
                    style
                },
            ),
    {
        let mut b = self;
        b.style_named.add(name, style);
        b
    }

    /// Add a rule for nodes tagged `tag`: merged into the existing rule for
    /// that tag when one exists, stored as its initial rule otherwise. Tag
    /// rules always live in the tag table, also when a name rule shares the
    /// same key: name rules and tag rules never mix.
    pub fn style_by_tag(self, tag: &str, style: StyleDescription) -> (r: Self)
        requires
            self.wf(),
        ensures
            r.wf(),
            r.root_view() == self.root_view(),
            r.theme_spec() == self.theme_spec(),
            r.named_rules() == self.named_rules(),
            r.tagged_rules() =~= self.tagged_rules().insert(
                tag@,
                if self.tagged_rules().dom().contains(tag@) {
                    spec_merge(self.tagged_rules()[tag@], style)
                } else {
                    style
                },
            ),
    {
        let mut b = self;
        b.style_tagged.add(tag, style);
        b
    }

    /// Walk the tree breadth-first, creating one scene node per tree node
    /// through the sink, wiring each node under its parent, and recording
    /// one emitted node with its resolved style. The sink afterwards holds
    /// exactly the nodes it held before plus one fresh, distinct handle per
    /// tree node; every non-root node's parent relation points at the
    /// handle of its tree parent, which is emitted earlier; no styles or
    /// payloads are attached yet; and nodes the sink held before are left
    /// untouched.
    #[verifier::loop_isolation(false)]
    pub fn emit<P, S: SceneSink<P>>(self, sink: &mut S) -> (em: GuiBuilderEmission)
        requires
            self.wf(),
        ensures
            em.wf(),
            em@.len() == flatten(self.root_view()).len(),
            em@.len() == size_of(self.root_view()),
            forall|i: int| #![trigger em@[i]] 0 <= i < em@.len() ==> {
                let f = flatten(self.root_view())[i];
                &&& em@[i].name == f.name
                &&& em@[i].tags == f.tags
                &&& em@[i].style == resolved_style(
                    self.theme_spec(),
                    self.tagged_rules(),
                    self.named_rules(),
                    f.name,
                    f.tags,
                )
                &&& (f.parent is Some ==> 0 <= f.parent->0 < i)
                &&& !old(sink).nodes().dom().contains(em@[i].handle)
                &&& final(sink).nodes().dom().contains(em@[i].handle)
                &&& final(sink).nodes()[em@[i].handle].style is None
                &&& final(sink).nodes()[em@[i].handle].payload is None
                &&& final(sink).nodes()[em@[i].handle].parent == (match f.parent {
                    Some(j) => Some(em@[j].handle),
                    None => None::<u64>,
                })
            },
            forall|h: u64| #[trigger] old(sink).nodes().dom().contains(h)
                ==> final(sink).nodes().dom().contains(h)
                    && final(sink).nodes()[h] == old(sink).nodes()[h],
            forall|h: u64| #[trigger] final(sink).nodes().dom().contains(h)
                ==> old(sink).nodes().dom().contains(h)
                    || exists|i: int| 0 <= i < em@.len() && em@[i].handle == h,
    {
        let GuiBuilder { root, theme, style_named, style_tagged } = self;
        let ghost rootv: LayoutView = node_view(root);
        let ghost flat: Seq<FlatNode> = flatten(rootv);
        proof {
            lemma_flatten_len(rootv);
            lemma_flatten_parent_before_child(rootv);
        }
        let mut nodes: Vec<EmissionNode> = Vec::new();
        let mut queue: VecDeque<(LayoutNode, Option<u64>)> = VecDeque::new();
        queue.push_back((root, None));
        let ghost gq: Seq<(LayoutView, Option<int>)> = seq![(rootv, None::<int>)];
        proof {
            assert(flat.take(0) =~= Seq::<FlatNode>::empty());
            assert(flat =~= flat.take(0) + bfs_flatten(gq, 0));
        }
        while queue.len() != 0
            invariant
                queue@.len() == gq.len(),
                forall|k: int| #![trigger queue@[k]] 0 <= k < gq.len()
                    ==> node_view(queue@[k].0) == gq[k].0,
                forall|k: int| #![trigger gq[k]] 0 <= k < gq.len() ==> match gq[k].1 {
                    Some(j) => 0 <= j < nodes@.len() && queue@[k].1 == Some(
                        nodes@[j].handle,
                    ),
                    None => queue@[k].1 is None,
                },
                flat == flat.take(nodes@.len() as int) + bfs_flatten(
                    gq,
                    nodes@.len() as int,
                ),
                nodes@.len() <= flat.len(),
                forall|i: int| #![trigger nodes@[i]] 0 <= i < nodes@.len() ==> {
                    &&& nodes@[i].name@ == flat[i].name
                    &&& nodes@[i].tags.deep_view() == flat[i].tags
                    &&& nodes@[i].style == resolved_style(
                        theme,
                        style_tagged@,
                        style_named@,
                        flat[i].name,
                        flat[i].tags,
                    )
                    &&& !old(sink).nodes().dom().contains(nodes@[i].handle)
                    &&& sink.nodes().dom().contains(nodes@[i].handle)
                    &&& sink.nodes()[nodes@[i].handle].style is None
                    &&& sink.nodes()[nodes@[i].handle].payload is None
                    &&& sink.nodes()[nodes@[i].handle].parent == (match flat[i].parent {
                        Some(j) => Some(nodes@[j].handle),
                        None => None::<u64>,
                    })
                },
                forall|i: int, j: int|
                    0 <= i < j < nodes@.len() ==> nodes@[i].handle != nodes@[j].handle,
                forall|h: u64| #[trigger] old(sink).nodes().dom().contains(h)
                    ==> sink.nodes().dom().contains(h)
                        && sink.nodes()[h] == old(sink).nodes()[h],
                forall|h: u64| #[trigger] sink.nodes().dom().contains(h)
                    ==> old(sink).nodes().dom().contains(h)
                        || exists|i: int| 0 <= i < nodes@.len() && nodes@[i].handle == h,
            decreases queue_size(gq),
        {
            let ghost sink_entry: Map<u64, crate::sink::SinkNode<P>> = sink.nodes();
            let ghost nodes0: Seq<EmissionNode> = nodes@;
            let popped = queue.pop_front().unwrap();
            let (node, parent_handle) = popped;
            let ghost gq0: Seq<(LayoutView, Option<int>)> = gq;
            let ghost n0: int = nodes@.len() as int;
            let ghost v0: LayoutView = gq0[0].0;
            let ghost fhead: FlatNode = FlatNode { name: v0.name, tags: v0.tags, parent: gq0[0].1 };
            proof {
                assert(node_view(node) == v0);
                assert(bfs_flatten(gq0, n0) == seq![fhead] + bfs_flatten(
                    gq0.drop_first() + child_entries(v0, n0),
                    n0 + 1,
                ));
                assert(flat[n0] == fhead);
            }
            let LayoutNode { name, tags, children } = node;
            let ghost tagviews: Seq<Seq<char>> = tags.deep_view();
            let mut style = theme;
            proof {
                assert(tagviews.skip(0) =~= tagviews);
            }
            let mut ti: usize = 0;
            while ti < tags.len()
                invariant
                    ti <= tags@.len(),
                    apply_tag_rules(style_tagged@, style, tagviews.skip(ti as int))
                        == apply_tag_rules(style_tagged@, theme, tagviews),
                decreases tags@.len() - ti,
            {
                proof {
                    assert(tagviews.skip(ti as int)[0] == tags@[ti as int]@);
                    assert(tagviews.skip(ti as int).drop_first() =~= tagviews.skip(ti as int + 1));
                }
                match style_tagged.get(tags[ti].as_str()) {
                    Some(s) => {
                        style.apply(s);
                    },
                    None => {},
                }
                ti = ti + 1;
            }
            proof {
                assert(tagviews.skip(tags@.len() as int) =~= Seq::<Seq<char>>::empty());
                assert(style == apply_tag_rules(style_tagged@, theme, tagviews));
            }
            match style_named.get(name.as_str()) {
                Some(s) => {
                    style.apply(s);
                },
                None => {},
            }
            proof {
                assert(style == resolved_style(theme, style_tagged@, style_named@, name@, tagviews));
                assert(fhead.name == name@);
                assert(fhead.tags == tagviews);
            }
            let handle = sink.create_node();
            match parent_handle {
                Some(p) => {
                    sink.set_parent(handle, p);
                },
                None => {},
            }
            nodes.push(EmissionNode { name, tags, handle, style });
            proof {
                gq = gq0.drop_first();
            }
            let ghost corig: Seq<LayoutNode> = children@;
            let ghost mut ci: int = 0;
            let mut rest = children;
            while rest.len() > 0
                invariant
                    0 <= ci <= corig.len(),
                    rest@ == corig.skip(ci),
                    gq == gq0.drop_first() + child_entries(v0, n0).take(ci),
                    queue@.len() == gq.len(),
                    forall|k: int| #![trigger queue@[k]] 0 <= k < gq.len()
                        ==> node_view(queue@[k].0) == gq[k].0,
                    forall|k: int| #![trigger gq[k]] 0 <= k < gq.len() ==> match gq[k].1 {
                        Some(j) => 0 <= j < nodes@.len() && queue@[k].1 == Some(
                            nodes@[j].handle,
                        ),
                        None => queue@[k].1 is None,
                    },
                decreases rest@.len(),
            {
                let c = rest.remove(0);
                proof {
                    assert(c == corig[ci]);
                    assert(v0.children == views_of(corig));
                    lemma_views_of_index(corig, ci);
                    lemma_views_of_len(corig);
                    assert(child_entries(v0, n0)[ci] == (node_view(c), Some(n0)));
                }
                queue.push_back((c, Some(handle)));
                proof {
                    gq = gq.push((node_view(c), Some(n0)));
                    assert(gq =~= gq0.drop_first() + child_entries(v0, n0).take(ci + 1));
                    assert(rest@ =~= corig.skip(ci + 1));
                    ci = ci + 1;
                }
            }
            proof {
                lemma_views_of_len(corig);
                assert(child_entries(v0, n0).take(ci) =~= child_entries(v0, n0));
                assert(gq == gq0.drop_first() + child_entries(v0, n0));
                lemma_queue_size_concat(gq0.drop_first(), child_entries(v0, n0));
                lemma_child_entries_size(v0.children, n0);
                assert(child_entries(v0, n0) =~= Seq::new(
                    v0.children.len(),
                    |i: int| (v0.children[i], Some(n0)),
                ));
                assert(queue_size(gq0) == size_of(v0) + queue_size(gq0.drop_first()));
                assert(queue_size(gq) < queue_size(gq0));
                assert(flat.take(n0 + 1) =~= flat.take(n0).push(fhead));
                assert(flat == flat.take(n0 + 1) + bfs_flatten(gq, n0 + 1));
                assert forall|h: u64|
                    #[trigger] sink.nodes().dom().contains(h) && !old(sink).nodes().dom().contains(
                        h,
                    ) implies exists|i: int| 0 <= i < nodes@.len() && nodes@[i].handle == h by {
                    if h == handle {
                        assert(nodes@[n0].handle == h);
                    } else {
                        assert(sink_entry.dom().contains(h));
                        let i = choose|i: int| 0 <= i < nodes0.len() && nodes0[i].handle == h;
                        assert(nodes@[i].handle == h);
                    }
                }
            }
        }
        proof {
            assert(gq.len() == 0);
            assert(bfs_flatten(gq, nodes@.len() as int) =~= Seq::<FlatNode>::empty());
            assert(flat =~= flat.take(nodes@.len() as int));
            assert(nodes@.len() == flat.len());
        }
        let em = GuiBuilderEmission { nodes };
        proof {
            assert(em@.len() == flat.len());
            assert forall|i: int| 0 <= i < em@.len() implies #[trigger] em@[i] == nodes@[i]@ by {}
            assert forall|h: u64|
                #[trigger] sink.nodes().dom().contains(h) && !old(sink).nodes().dom().contains(h)
                implies exists|i: int| 0 <= i < em@.len() && em@[i].handle == h by {
                let i = choose|i: int| 0 <= i < nodes@.len() && nodes@[i].handle == h;
                assert(em@[i].handle == h);
            }
        }
        em
    }
}

} // verus!
