//! The scene-graph sink capability, and a verified in-memory sink.
//!
//! The emission engine never assumes a concrete scene backend: it works
//! against this small mutation capability, which any host can supply over
//! its own scene graph. Node lifetime is owned by the host, so operations
//! on a handle the sink no longer knows are silent no-ops, not errors.
//! `LocalSink` is a self-contained implementation backed by a vector,
//! suitable for headless use and for exercising the engine.

use vstd::prelude::*;

use crate::style_description::ConcreteStyle;

verus! {

/// The model of one node held by a sink: its parent relation, its committed
/// style, and the payload attached to it, each absent until set.
pub struct SinkNode<P> {
    pub parent: Option<u64>,
    pub style: Option<ConcreteStyle>,
    pub payload: Option<P>,
}

/// A freshly created node: parentless, unstyled, without payload.
pub open spec fn fresh_node<P>() -> SinkNode<P> {
    SinkNode { parent: None, style: None, payload: None }
}

/// The scene-graph mutation capability: create nodes, wire parent/child
/// relations, attach typed payloads, and write styles. The sink's state is
/// modelled as a map from opaque handles to node records. A call that names
/// a handle the sink does not hold leaves the sink unchanged.
pub trait SceneSink<P>: Sized {
    /// The nodes the sink holds, by handle. A verified sink overrides this
    /// with its own model; a host sink outside the verifier can leave the
    /// default, under which nothing is claimed about its state.
    open spec fn nodes(&self) -> Map<u64, SinkNode<P>> {
        Map::empty()
    }

    /// Create one addressable node and return its fresh handle.
    fn create_node(&mut self) -> (h: u64)
        ensures
            !old(self).nodes().dom().contains(h),
            final(self).nodes() == old(self).nodes().insert(h, fresh_node::<P>()),
    ;

    /// Establish a single-parent relation; a later call on the same child
    /// re-parents it. An absent child is skipped.
    fn set_parent(&mut self, child: u64, parent: u64)
        ensures
            final(self).nodes() == if old(self).nodes().dom().contains(child) {
                old(self).nodes().insert(
                    child,
                    (SinkNode {
                        parent: Some(parent),
                        style: old(self).nodes()[child].style,
                        payload: old(self).nodes()[child].payload,
                    }),
                )
            } else {
                old(self).nodes()
            },
    ;

    /// Attach a payload to a node, replacing any payload already attached.
    /// An absent target is skipped.
    fn attach_data(&mut self, target: u64, payload: P)
        ensures
            final(self).nodes() == if old(self).nodes().dom().contains(target) {
                old(self).nodes().insert(
                    target,
                    (SinkNode {
                        parent: old(self).nodes()[target].parent,
                        style: old(self).nodes()[target].style,
                        payload: Some(payload),
                    }),
                )
            } else {
                old(self).nodes()
            },
    ;

    /// Replace a node's full style. An absent target is skipped.
    fn set_style(&mut self, target: u64, style: ConcreteStyle)
        ensures
            final(self).nodes() == if old(self).nodes().dom().contains(target) {
                old(self).nodes().insert(
                    target,
                    (SinkNode {
                        parent: old(self).nodes()[target].parent,
                        style: Some(style),
                        payload: old(self).nodes()[target].payload,
                    }),
                )
            } else {
                old(self).nodes()
            },
    ;
}

struct SinkEntry<P> {
    parent: Option<u64>,
    style: Option<ConcreteStyle>,
    payload: Option<P>,
}

/// An in-memory scene graph: handles are issued densely from zero, and
/// nodes live as long as the sink.
pub struct LocalSink<P> {
    entries: Vec<SinkEntry<P>>,
}

impl<P> LocalSink<P> {
    /// An empty sink holding no nodes.
    pub fn new() -> (r: Self)
        ensures
            r.nodes() =~= Map::<u64, SinkNode<P>>::empty(),
    {
        LocalSink { entries: Vec::new() }
    }

    /// How many nodes the sink holds; the handles in use are exactly those
    /// below the count.
    pub fn node_count(&self) -> (n: usize)
        ensures
            forall|h: u64| self.nodes().dom().contains(h) <==> (h as int) < (n as int),
    {
        self.entries.len()
    }

    /// The parent relation of the node behind `h`.
    pub fn parent_of(&self, h: u64) -> (r: Option<u64>)
        requires
            self.nodes().dom().contains(h),
        ensures
            r == self.nodes()[h].parent,
    {
        proof {
            vstd::std_specs::vec::axiom_spec_len(&self.entries);
            assert((h as int) < self.entries@.len());
            assert(h as usize as int == h as int);
        }
        self.entries[h as usize].parent
    }

    /// The style committed onto the node behind `h`, if any.
    pub fn style_of(&self, h: u64) -> (r: Option<ConcreteStyle>)
        requires
            self.nodes().dom().contains(h),
        ensures
            r == self.nodes()[h].style,
    {
        proof {
            vstd::std_specs::vec::axiom_spec_len(&self.entries);
            assert((h as int) < self.entries@.len());
            assert(h as usize as int == h as int);
        }
        self.entries[h as usize].style
    }
}

impl<P: Copy> LocalSink<P> {
    /// The payload attached to the node behind `h`, if any.
    pub fn payload_of(&self, h: u64) -> (r: Option<P>)
        requires
            self.nodes().dom().contains(h),
        ensures
            r == self.nodes()[h].payload,
    {
        proof {
            vstd::std_specs::vec::axiom_spec_len(&self.entries);
            assert((h as int) < self.entries@.len());
            assert(h as usize as int == h as int);
        }
        self.entries[h as usize].payload
    }
}

impl<P> SceneSink<P> for LocalSink<P> {
    closed spec fn nodes(&self) -> Map<u64, SinkNode<P>> {
        Map::new(
            |h: u64| (h as int) < self.entries@.len(),
            |h: u64| (SinkNode {
                parent: self.entries@[h as int].parent,
                style: self.entries@[h as int].style,
                payload: self.entries@[h as int].payload,
            }),
        )
    }

    fn create_node(&mut self) -> (h: u64)
    {
        let h = self.entries.len() as u64;
        self.entries.push(SinkEntry { parent: None, style: None, payload: None });
        proof {
            assert(self.nodes() =~= old(self).nodes().insert(h, fresh_node::<P>()));
        }
        h
    }

    fn set_parent(&mut self, child: u64, parent: u64)
    {
        if child < self.entries.len() as u64 {
            let i = child as usize;
            self.entries[i].parent = Some(parent);
            proof {
                assert(self.nodes() =~= old(self).nodes().insert(
                    child,
                    (SinkNode {
                        parent: Some(parent),
                        style: old(self).nodes()[child].style,
                        payload: old(self).nodes()[child].payload,
                    }),
                ));
            }
        }
    }

    fn attach_data(&mut self, target: u64, payload: P)
    {
        if target < self.entries.len() as u64 {
            let i = target as usize;
            self.entries[i].payload = Some(payload);
            proof {
                assert(self.nodes() =~= old(self).nodes().insert(
                    target,
                    (SinkNode {
                        parent: old(self).nodes()[target].parent,
                        style: old(self).nodes()[target].style,
                        payload: Some(payload),
                    }),
                ));
            }
        }
    }

    fn set_style(&mut self, target: u64, style: ConcreteStyle)
    {
        if target < self.entries.len() as u64 {
            let i = target as usize;
            self.entries[i].style = Some(style);
            proof {
                assert(self.nodes() =~= old(self).nodes().insert(
                    target,
                    (SinkNode {
                        parent: old(self).nodes()[target].parent,
                        style: Some(style),
                        payload: old(self).nodes()[target].payload,
                    }),
                ));
            }
        }
    }
}

} // verus!
