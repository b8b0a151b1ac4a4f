use ui_builder::builder::GuiBuilder;
use ui_builder::layout::Gui;
use ui_builder::sink::LocalSink;
use ui_builder::style_description::{StyleDescription, Val};

#[derive(Clone, Copy, PartialEq, Eq, Debug)]
struct ButtonMarker;

fn gui_layout() -> Gui {
    Gui::Parent(
        "root",
        &[],
        vec![Gui::Node("a", &["btn"]), Gui::Node("c", &[]), Gui::Node("c", &[])],
    )
}

fn setup_gui(sink: &mut LocalSink<ButtonMarker>) {
    let layout = gui_layout();
    let em = GuiBuilder::new(layout)
        .style_all(StyleDescription {
            width: Some(Val::Percent(50)),
            height: Some(Val::Percent(50)),
            ..StyleDescription::empty()
        })
        .emit(sink);
    em.bundle_by_tag("btn", ButtonMarker, sink);
    em.finish(sink);
}

fn prep_test() -> LocalSink<ButtonMarker> {
    let mut sink: LocalSink<ButtonMarker> = LocalSink::new();
    setup_gui(&mut sink);
    sink
}

#[test]
fn test_display_structure() {
    println!("{:#?}", gui_layout());
}

#[test]
fn test_nodes_present() {
    let sink = prep_test();
    assert_eq!(sink.node_count(), 4);
}

#[test]
fn test_button_present() {
    let sink = prep_test();
    let mut buttons = 0;
    for h in 0..sink.node_count() as u64 {
        if sink.payload_of(h) == Some(ButtonMarker) {
            buttons += 1;
        }
    }
    assert_eq!(buttons, 1);
}

#[test]
fn emission_is_breadth_first_parent_before_child() {
    let layout = Gui::Parent(
        "root",
        &[],
        vec![
            Gui::Parent("left", &[], vec![Gui::Node("leaf1", &[]), Gui::Node("leaf2", &[])]),
            Gui::Node("right", &[]),
        ],
    );
    let mut sink: LocalSink<ButtonMarker> = LocalSink::new();
    let em = GuiBuilder::new(layout).emit(&mut sink);
    assert_eq!(em.len(), 5);
    // Breadth-first: the root, both its children, then the grandchildren.
    assert_eq!(em.name_at(0).as_str(), "root");
    assert_eq!(em.name_at(1).as_str(), "left");
    assert_eq!(em.name_at(2).as_str(), "right");
    assert_eq!(em.name_at(3).as_str(), "leaf1");
    assert_eq!(em.name_at(4).as_str(), "leaf2");
    // Each node's parent relation points at the handle created for its
    // tree parent; the root stays parentless.
    assert_eq!(sink.parent_of(em.handle_at(0)), None);
    assert_eq!(sink.parent_of(em.handle_at(1)), Some(em.handle_at(0)));
    assert_eq!(sink.parent_of(em.handle_at(2)), Some(em.handle_at(0)));
    assert_eq!(sink.parent_of(em.handle_at(3)), Some(em.handle_at(1)));
    assert_eq!(sink.parent_of(em.handle_at(4)), Some(em.handle_at(1)));
}

#[test]
fn cascade_scenario_tag_overrides_theme() {
    // root with children a (tagged "btn"), b, c; the theme sets width and
    // height to 50%; a tag rule for "btn" sets width to 100 pixels.
    let layout = Gui::Parent(
        "root",
        &[],
        vec![Gui::Node("a", &["btn"]), Gui::Node("b", &[]), Gui::Node("c", &[])],
    );
    let mut sink: LocalSink<ButtonMarker> = LocalSink::new();
    let em = GuiBuilder::new(layout)
        .style_all(StyleDescription {
            width: Some(Val::Percent(50)),
            height: Some(Val::Percent(50)),
            ..StyleDescription::empty()
        })
        .style_by_tag(
            "btn",
            StyleDescription { width: Some(Val::Px(100)), ..StyleDescription::empty() },
        )
        .emit(&mut sink);
    assert_eq!(em.len(), 4);
    // The tag rule beats the theme on width for the tagged node only.
    assert_eq!(em.style_at(1).width, Some(Val::Px(100)));
    assert_eq!(em.style_at(1).height, Some(Val::Percent(50)));
    assert_eq!(em.style_at(2).width, Some(Val::Percent(50)));
    assert_eq!(em.style_at(3).width, Some(Val::Percent(50)));
    // The marker lands on exactly the tagged node.
    em.bundle_by_tag("btn", ButtonMarker, &mut sink);
    assert_eq!(sink.payload_of(em.handle_at(0)), None);
    assert_eq!(sink.payload_of(em.handle_at(1)), Some(ButtonMarker));
    assert_eq!(sink.payload_of(em.handle_at(2)), None);
    assert_eq!(sink.payload_of(em.handle_at(3)), None);
}

#[test]
fn cascade_precedence_name_beats_tags_beats_theme() {
    // A node with tags ["a", "b"], rules for both tags, a name rule, and a
    // theme: on each attribute the name rule wins when set, else the later
    // tag's rule, else the earlier tag's, else the theme's.
    let layout = Gui::Node("node", &["a", "b"]);
    let theme = StyleDescription {
        width: Some(Val::Px(1)),
        height: Some(Val::Px(1)),
        top: Some(Val::Px(1)),
        left: Some(Val::Px(1)),
        ..StyleDescription::empty()
    };
    let rule_a = StyleDescription {
        height: Some(Val::Px(2)),
        top: Some(Val::Px(2)),
        left: Some(Val::Px(2)),
        ..StyleDescription::empty()
    };
    let rule_b = StyleDescription {
        top: Some(Val::Px(3)),
        left: Some(Val::Px(3)),
        ..StyleDescription::empty()
    };
    let rule_name =
        StyleDescription { left: Some(Val::Px(4)), ..StyleDescription::empty() };
    let mut sink: LocalSink<ButtonMarker> = LocalSink::new();
    let em = GuiBuilder::new(layout)
        .style_all(theme)
        .style_by_tag("a", rule_a)
        .style_by_tag("b", rule_b)
        .style_by_name("node", rule_name)
        .emit(&mut sink);
    let resolved = em.style_at(0);
    assert_eq!(resolved.width, Some(Val::Px(1)));
    assert_eq!(resolved.height, Some(Val::Px(2)));
    assert_eq!(resolved.top, Some(Val::Px(3)));
    assert_eq!(resolved.left, Some(Val::Px(4)));
}

#[test]
fn later_tag_wins_over_earlier_tag() {
    let layout = Gui::Node("n", &["first", "second"]);
    let mut sink: LocalSink<ButtonMarker> = LocalSink::new();
    let em = GuiBuilder::new(layout)
        .style_by_tag(
            "first",
            StyleDescription { width: Some(Val::Px(10)), ..StyleDescription::empty() },
        )
        .style_by_tag(
            "second",
            StyleDescription { width: Some(Val::Px(20)), ..StyleDescription::empty() },
        )
        .emit(&mut sink);
    assert_eq!(em.style_at(0).width, Some(Val::Px(20)));
}

#[test]
fn repeated_rule_for_same_key_merges_into_existing_rule() {
    let layout = Gui::Node("n", &[]);
    let mut sink: LocalSink<ButtonMarker> = LocalSink::new();
    let em = GuiBuilder::new(layout)
        .style_by_name(
            "n",
            StyleDescription {
                width: Some(Val::Px(10)),
                height: Some(Val::Px(10)),
                ..StyleDescription::empty()
            },
        )
        .style_by_name(
            "n",
            StyleDescription { width: Some(Val::Px(99)), ..StyleDescription::empty() },
        )
        .emit(&mut sink);
    // The second rule overrides width but the first rule's height survives.
    assert_eq!(em.style_at(0).width, Some(Val::Px(99)));
    assert_eq!(em.style_at(0).height, Some(Val::Px(10)));
}

#[test]
fn tag_rules_keep_to_tag_table() {
    // Name rules and tag rules never mix, also when they share a key: a
    // tag rule under a key that already names a name rule still lands in
    // the tag table.
    let layout = Gui::Parent(
        "root",
        &[],
        vec![Gui::Node("x", &[]), Gui::Node("y", &["x"])],
    );
    let mut sink: LocalSink<ButtonMarker> = LocalSink::new();
    let em = GuiBuilder::new(layout)
        .style_by_name(
            "x",
            StyleDescription { width: Some(Val::Px(11)), ..StyleDescription::empty() },
        )
        .style_by_tag(
            "x",
            StyleDescription { height: Some(Val::Px(22)), ..StyleDescription::empty() },
        )
        .emit(&mut sink);
    // The node named "x" gets only the name rule.
    assert_eq!(em.style_at(1).width, Some(Val::Px(11)));
    assert_eq!(em.style_at(1).height, None);
    // The node tagged "x" gets only the tag rule.
    assert_eq!(em.style_at(2).width, None);
    assert_eq!(em.style_at(2).height, Some(Val::Px(22)));
}

#[test]
fn name_selection_matches_duplicates() {
    let layout = Gui::Parent(
        "root",
        &[],
        vec![Gui::Node("c", &[]), Gui::Node("other", &[]), Gui::Node("c", &[])],
    );
    let mut sink: LocalSink<ButtonMarker> = LocalSink::new();
    let em = GuiBuilder::new(layout).emit(&mut sink);
    em.bundle_by_name("c", ButtonMarker, &mut sink);
    assert_eq!(sink.payload_of(em.handle_at(0)), None);
    assert_eq!(sink.payload_of(em.handle_at(1)), Some(ButtonMarker));
    assert_eq!(sink.payload_of(em.handle_at(2)), None);
    assert_eq!(sink.payload_of(em.handle_at(3)), Some(ButtonMarker));
}

#[test]
fn selecting_no_node_is_a_silent_no_op() {
    let layout = Gui::Node("only", &[]);
    let mut sink: LocalSink<ButtonMarker> = LocalSink::new();
    let em = GuiBuilder::new(layout).emit(&mut sink);
    em.bundle_by_name("absent", ButtonMarker, &mut sink);
    em.bundle_by_tag("absent", ButtonMarker, &mut sink);
    assert_eq!(sink.node_count(), 1);
    assert_eq!(sink.payload_of(em.handle_at(0)), None);
}

#[test]
fn commit_writes_resolved_styles_and_is_idempotent() {
    let layout = Gui::Parent("root", &[], vec![Gui::Node("a", &["btn"])]);
    let mut sink: LocalSink<ButtonMarker> = LocalSink::new();
    let em = GuiBuilder::new(layout)
        .style_all(StyleDescription {
            width: Some(Val::Percent(50)),
            ..StyleDescription::empty()
        })
        .style_by_tag(
            "btn",
            StyleDescription { width: Some(Val::Px(100)), ..StyleDescription::empty() },
        )
        .emit(&mut sink);
    // Before the commit no styles are on the sink.
    assert_eq!(sink.style_of(em.handle_at(0)), None);
    em.finish(&mut sink);
    let root_style = sink.style_of(em.handle_at(0)).unwrap();
    let a_style = sink.style_of(em.handle_at(1)).unwrap();
    assert_eq!(root_style.width, Val::Percent(50));
    assert_eq!(a_style.width, Val::Px(100));
    // Committing a second time rewrites the same styles: the sink state
    // is unchanged.
    em.finish(&mut sink);
    assert_eq!(sink.style_of(em.handle_at(0)).unwrap(), root_style);
    assert_eq!(sink.style_of(em.handle_at(1)).unwrap(), a_style);
    assert_eq!(sink.node_count(), 2);
}

#[test]
fn name_rules_apply_only_to_exact_name_matches() {
    let layout = Gui::Parent(
        "root",
        &[],
        vec![Gui::Node("alpha", &[]), Gui::Node("alphabet", &[])],
    );
    let mut sink: LocalSink<ButtonMarker> = LocalSink::new();
    let em = GuiBuilder::new(layout)
        .style_by_name(
            "alpha",
            StyleDescription { width: Some(Val::Px(42)), ..StyleDescription::empty() },
        )
        .emit(&mut sink);
    assert_eq!(em.style_at(1).width, Some(Val::Px(42)));
    assert_eq!(em.style_at(2).width, None);
}
