//! The emission engine works against any host that supplies the scene-sink
//! capability: these tests drive it over a host-defined sink that records
//! the calls it receives.

use ui_builder::builder::GuiBuilder;
use ui_builder::layout::Gui;
use ui_builder::sink::SceneSink;
use ui_builder::style_description::{ConcreteStyle, StyleDescription, Val};

#[derive(Clone, Copy, PartialEq, Eq, Debug)]
struct Tagged;

/// A host sink that logs every mutation it is asked to perform.
#[derive(Default)]
struct RecordingSink {
    next_handle: u64,
    created: Vec<u64>,
    parents: Vec<(u64, u64)>,
    payloads: Vec<(u64, Tagged)>,
    styles: Vec<(u64, ConcreteStyle)>,
}

impl SceneSink<Tagged> for RecordingSink {
    fn create_node(&mut self) -> u64 {
        let h = self.next_handle;
        self.next_handle += 1;
        self.created.push(h);
        h
    }

    fn set_parent(&mut self, child: u64, parent: u64) {
        if child < self.next_handle {
            self.parents.push((child, parent));
        }
    }

    fn attach_data(&mut self, target: u64, payload: Tagged) {
        if target < self.next_handle {
            self.payloads.push((target, payload));
        }
    }

    fn set_style(&mut self, target: u64, style: ConcreteStyle) {
        if target < self.next_handle {
            self.styles.push((target, style));
        }
    }
}

#[test]
fn emission_drives_a_host_defined_sink() {
    let layout = Gui::Parent(
        "root",
        &[],
        vec![Gui::Node("a", &["btn"]), Gui::Node("b", &[])],
    );
    let mut sink = RecordingSink::default();
    let em = GuiBuilder::new(layout)
        .style_all(StyleDescription {
            width: Some(Val::Percent(50)),
            ..StyleDescription::empty()
        })
        .style_by_tag(
            "btn",
            StyleDescription { width: Some(Val::Px(100)), ..StyleDescription::empty() },
        )
        .emit(&mut sink);
    em.bundle_by_tag("btn", Tagged, &mut sink);
    em.finish(&mut sink);

    // One creation per tree node, both children wired under the root.
    assert_eq!(sink.created, vec![0, 1, 2]);
    assert_eq!(sink.parents, vec![(1, 0), (2, 0)]);
    // The payload went to the tagged node alone.
    assert_eq!(sink.payloads, vec![(1, Tagged)]);
    // One style write per node, with the cascade already resolved.
    assert_eq!(sink.styles.len(), 3);
    assert_eq!(sink.styles[0].0, 0);
    assert_eq!(sink.styles[0].1.width, Val::Percent(50));
    assert_eq!(sink.styles[1].1.width, Val::Px(100));
    assert_eq!(sink.styles[2].1.width, Val::Percent(50));
}
