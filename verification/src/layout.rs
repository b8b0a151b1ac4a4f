//! The layout tree model: a declarative literal description (`Gui`) and the
//! internal tree it is converted into (`LayoutNode`).
//!
//! Names and tags are selector keys, not identifiers: duplicates are legal
//! and selectors match every node that carries the key. The tree is built
//! once from the literal description and never mutated afterwards.

use vstd::prelude::*;

verus! {

/// The mathematical shape of a layout tree node: its name, its tags in
/// order, and its children in order.
#[verifier::ext_equal]
pub struct LayoutView {
    pub name: Seq<char>,
    pub tags: Seq<Seq<char>>,
    pub children: Seq<LayoutView>,
}

/// An immutable tree node: a name, an ordered list of tags, and an ordered
/// list of children.
#[derive(Debug)]
pub struct LayoutNode {
    pub name: String,
    pub tags: Vec<String>,
    pub children: Vec<LayoutNode>,
}

/// The views of a sequence of tree nodes, in order.
pub open spec fn views_of(s: Seq<LayoutNode>) -> Seq<LayoutView>
    decreases s,
{
    if s.len() == 0 {
        Seq::empty()
    } else {
        seq![node_view(s[0])] + views_of(s.drop_first())
    }
}

/// The view of one tree node.
pub open spec fn node_view(n: LayoutNode) -> LayoutView
    decreases n,
{
    LayoutView { name: n.name@, tags: n.tags.deep_view(), children: views_of(n.children@) }
}

impl View for LayoutNode {
    type V = LayoutView;

    open spec fn view(&self) -> LayoutView {
        node_view(*self)
    }
}

pub proof fn lemma_views_of_len(s: Seq<LayoutNode>)
    ensures
        views_of(s).len() == s.len(),
    decreases s,
{
    if s.len() != 0 {
        lemma_views_of_len(s.drop_first());
    }
}

pub proof fn lemma_views_of_index(s: Seq<LayoutNode>, i: int)
    requires
        0 <= i < s.len(),
    ensures
        views_of(s).len() == s.len(),
        views_of(s)[i] == node_view(s[i]),
    decreases s,
{
    lemma_views_of_len(s);
    if i > 0 {
        lemma_views_of_index(s.drop_first(), i - 1);
    }
}

/// A declarative literal description of a tree: a leaf with a name and
/// tags, or a parent that also carries children.
#[derive(Debug)]
pub enum Gui {
    Node(&'static str, &'static [&'static str]),
    Parent(&'static str, &'static [&'static str], Vec<Gui>),
}

/// The views of a sequence of literal descriptions, in order.
pub open spec fn gui_views_of(s: Seq<Gui>) -> Seq<LayoutView>
    decreases s,
{
    if s.len() == 0 {
        Seq::empty()
    } else {
        seq![gui_view(s[0])] + gui_views_of(s.drop_first())
    }
}

/// The tree shape a literal description stands for.
pub open spec fn gui_view(g: Gui) -> LayoutView
    decreases g,
{
    match g {
        Gui::Node(name, tags) => LayoutView {
            name: name@,
            tags: tags.deep_view(),
            children: Seq::empty(),
        },
        Gui::Parent(name, tags, children) => LayoutView {
            name: name@,
            tags: tags.deep_view(),
            children: gui_views_of(children@),
        },
    }
}

pub proof fn lemma_gui_views_of_index(s: Seq<Gui>, i: int)
    requires
        0 <= i < s.len(),
    ensures
        gui_views_of(s).len() == s.len(),
        gui_views_of(s)[i] == gui_view(s[i]),
    decreases s,
{
    lemma_gui_views_of_len(s);
    if i > 0 {
        lemma_gui_views_of_index(s.drop_first(), i - 1);
    }
}

pub proof fn lemma_gui_views_of_len(s: Seq<Gui>)
    ensures
        gui_views_of(s).len() == s.len(),
    decreases s,
{
    if s.len() != 0 {
        lemma_gui_views_of_len(s.drop_first());
    }
}

/// Anything that can be converted into the internal layout tree.
pub trait IntoLayoutNode<T>: Sized {
    /// The tree shape the conversion produces.
    spec fn layout_shape(&self) -> LayoutView;

    /// Convert into the internal tree representation.
    fn to_layout_node(self) -> (r: LayoutNode)
        ensures
            r@ == self.layout_shape(),
    ;
}

/// Copy a list of static tag strings into owned strings, preserving order.
fn tags_to_vec(tags: &[&str]) -> (r: Vec<String>)
    ensures
        r.deep_view() == tags.deep_view(),
{
    let mut out: Vec<String> = Vec::new();
    let mut i: usize = 0;
    while i < tags.len()
        invariant
            i <= tags@.len(),
            out.deep_view().len() == i as int,
            forall|j: int| 0 <= j < i ==> out.deep_view()[j] == tags.deep_view()[j],
        decreases tags@.len() - i,
    {
        out.push(tags[i].to_owned());
        i = i + 1;
    }
    proof {
        assert(out.deep_view() =~= tags.deep_view());
    }
    out
}

impl IntoLayoutNode<Gui> for Gui {
    open spec fn layout_shape(&self) -> LayoutView {
        gui_view(*self)
    }

    fn to_layout_node(self) -> (r: LayoutNode)
        decreases self,
    {
        match self {
            Gui::Node(name, tags) => LayoutNode {
                name: name.to_owned(),
                tags: tags_to_vec(tags),
                children: Vec::new(),
            },
            Gui::Parent(name, tags, children) => {
                let ghost orig: Seq<Gui> = children@;
                let mut rest: Vec<Gui> = children;
                let mut out: Vec<LayoutNode> = Vec::new();
                #[verifier::loop_isolation(false)]
                while rest.len() > 0
                    invariant
                        out@.len() + rest@.len() == orig.len(),
                        rest@ == orig.skip(out@.len() as int),
                        forall|j: int| 0 <= j < out@.len()
                            ==> node_view(#[trigger] out@[j]) == gui_view(orig[j]),
                    decreases rest@.len(),
                {
                    let ghost k: int = out@.len() as int;
                    let child = rest.remove(0);
                    proof {
                        assert(child == orig[k]);
                        assert(children == self->Parent_2);
                        assert(decreases_to!(self => self->Parent_2));
                        vstd::std_specs::vec::axiom_vec_decreases_to_view(children);
                        vstd::seq::axiom_seq_index_decreases(orig, k);
                        assert(decreases_to!(self => child));
                        assert(rest@ =~= orig.skip(k + 1));
                    }
                    let node = child.to_layout_node();
                    out.push(node);
                    proof {
                        lemma_gui_views_of_index(orig, k);
                    }
                }
                let r = LayoutNode { name: name.to_owned(), tags: tags_to_vec(tags), children: out };
                proof {
                    assert forall|j: int| 0 <= j < r.children@.len() implies views_of(r.children@)[j]
                        == gui_views_of(orig)[j] by {
                        lemma_views_of_index(r.children@, j);
                        lemma_gui_views_of_index(orig, j);
                    };
                    lemma_views_of_len(r.children@);
                    lemma_gui_views_of_len(orig);
                    assert(views_of(r.children@) =~= gui_views_of(orig));
                    assert(node_view(r) =~= gui_view(self));
                }
                r
            },
        }
    }
}

} // verus!
