//! A declarative UI-tree builder with cascading style resolution.
//!
//! A caller describes a tree of named, tagged nodes, attaches style rules
//! keyed by node name, by tag, or globally, and emits the tree into a scene
//! graph supplied as an abstract sink capability. Emission resolves one
//! effective style per node under a fixed precedence order (theme, then tag
//! rules in the node's tag order, then the name rule) and records one
//! emitted node per tree node, preserving the tree shape in the sink.
//! Afterwards, arbitrary extra payloads can be attached to nodes selected
//! by name or tag, and the resolved styles are committed onto the sink.

pub mod builder;
pub mod emission;
pub mod flatten;
pub mod layout;
pub mod rules;
pub mod sink;
pub mod style_description;
mod text;

