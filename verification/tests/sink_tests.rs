use ui_builder::builder::GuiBuilder;
use ui_builder::layout::Gui;
use ui_builder::sink::{LocalSink, SceneSink};
use ui_builder::style_description::StyleDescription;

#[derive(Clone, Copy, PartialEq, Eq, Debug)]
struct Marker(u8);

#[test]
fn local_sink_issues_fresh_handles_and_wires_parents() {
    let mut sink: LocalSink<Marker> = LocalSink::new();
    let a = sink.create_node();
    let b = sink.create_node();
    assert_ne!(a, b);
    assert_eq!(sink.node_count(), 2);
    assert_eq!(sink.parent_of(a), None);
    sink.set_parent(b, a);
    assert_eq!(sink.parent_of(b), Some(a));
    // Re-parenting: the last call wins.
    let c = sink.create_node();
    sink.set_parent(b, c);
    assert_eq!(sink.parent_of(b), Some(c));
}

#[test]
fn operations_on_unknown_handles_are_silent_no_ops() {
    let mut sink: LocalSink<Marker> = LocalSink::new();
    let a = sink.create_node();
    let unknown: u64 = 1000;
    sink.set_parent(unknown, a);
    sink.attach_data(unknown, Marker(1));
    sink.set_style(unknown, StyleDescription::empty().to_concrete());
    assert_eq!(sink.node_count(), 1);
    assert_eq!(sink.parent_of(a), None);
    assert_eq!(sink.payload_of(a), None);
    assert_eq!(sink.style_of(a), None);
}

#[test]
fn attach_data_replaces_an_existing_payload() {
    let mut sink: LocalSink<Marker> = LocalSink::new();
    let a = sink.create_node();
    sink.attach_data(a, Marker(1));
    assert_eq!(sink.payload_of(a), Some(Marker(1)));
    sink.attach_data(a, Marker(2));
    assert_eq!(sink.payload_of(a), Some(Marker(2)));
}

#[test]
fn a_second_emission_pass_leaves_earlier_nodes_untouched() {
    let mut sink: LocalSink<Marker> = LocalSink::new();
    let em1 = GuiBuilder::new(Gui::Parent("first", &[], vec![Gui::Node("x", &[])]))
        .emit(&mut sink);
    em1.bundle_by_name("x", Marker(9), &mut sink);
    let em2 = GuiBuilder::new(Gui::Node("second", &[])).emit(&mut sink);
    assert_eq!(sink.node_count(), 3);
    // The new pass got a handle of its own.
    assert_ne!(em2.handle_at(0), em1.handle_at(0));
    assert_ne!(em2.handle_at(0), em1.handle_at(1));
    // The first pass's nodes kept their relations and payloads.
    assert_eq!(sink.parent_of(em1.handle_at(1)), Some(em1.handle_at(0)));
    assert_eq!(sink.payload_of(em1.handle_at(1)), Some(Marker(9)));
    assert_eq!(sink.payload_of(em2.handle_at(0)), None);
}
