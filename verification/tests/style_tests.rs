use ui_builder::style_description::{
    AlignContent, AlignItems, AlignSelf, Direction, DisplayMode, FlexDirection, FlexWrap,
    GridAutoFlow, GridPlacement, JustifyContent, JustifyItems, JustifySelf, OverflowAxis,
    PositionType, StyleDescription, Val,
};

fn set_a() -> StyleDescription {
    StyleDescription {
        width: Some(Val::Px(1)),
        height: Some(Val::Px(1)),
        top: Some(Val::Px(1)),
        flex_grow: Some(7),
        ..StyleDescription::empty()
    }
}

fn set_b() -> StyleDescription {
    StyleDescription {
        height: Some(Val::Px(2)),
        top: Some(Val::Px(2)),
        direction: Some(Direction::RightToLeft),
        ..StyleDescription::empty()
    }
}

fn set_c() -> StyleDescription {
    StyleDescription { top: Some(Val::Px(3)), ..StyleDescription::empty() }
}

fn merged(base: &StyleDescription, over: &StyleDescription) -> StyleDescription {
    let mut out = *base;
    out.apply(over);
    out
}

#[test]
fn merge_rightmost_set_value_wins_per_attribute() {
    let ab_c = merged(&merged(&set_a(), &set_b()), &set_c());
    // Attribute by attribute: c's value when set, else b's, else a's.
    assert_eq!(ab_c.top, Some(Val::Px(3)));
    assert_eq!(ab_c.height, Some(Val::Px(2)));
    assert_eq!(ab_c.direction, Some(Direction::RightToLeft));
    assert_eq!(ab_c.width, Some(Val::Px(1)));
    assert_eq!(ab_c.flex_grow, Some(7));
    assert_eq!(ab_c.display, None);
}

#[test]
fn merge_is_associative() {
    let left = merged(&merged(&set_a(), &set_b()), &set_c());
    let right = merged(&set_a(), &merged(&set_b(), &set_c()));
    assert_eq!(left, right);
}

#[test]
fn merge_with_empty_on_the_right_changes_nothing() {
    let x = set_a();
    assert_eq!(merged(&x, &StyleDescription::empty()), x);
    let y = set_b();
    assert_eq!(merged(&y, &StyleDescription::empty()), y);
    let e = StyleDescription::empty();
    assert_eq!(merged(&e, &StyleDescription::empty()), e);
}

#[test]
fn merge_is_not_commutative_where_both_sides_set_a_value() {
    let ab = merged(&set_a(), &set_b());
    let ba = merged(&set_b(), &set_a());
    assert_eq!(ab.top, Some(Val::Px(2)));
    assert_eq!(ba.top, Some(Val::Px(1)));
}

#[test]
fn unset_attribute_never_overrides_a_set_one() {
    let base = StyleDescription {
        display: Some(DisplayMode::Grid),
        ..StyleDescription::empty()
    };
    let opinionless = StyleDescription::empty();
    assert_eq!(merged(&base, &opinionless).display, Some(DisplayMode::Grid));
}

#[test]
fn concrete_style_substitutes_defaults_for_unset_attributes() {
    let c = StyleDescription::empty().to_concrete();
    assert_eq!(c.display, DisplayMode::Flex);
    assert_eq!(c.position_type, PositionType::Relative);
    assert_eq!(c.overflow.x, OverflowAxis::Visible);
    assert_eq!(c.overflow.y, OverflowAxis::Visible);
    assert_eq!(c.direction, Direction::Inherit);
    assert_eq!(c.left, Val::Auto);
    assert_eq!(c.width, Val::Auto);
    assert_eq!(c.max_height, Val::Auto);
    assert_eq!(c.aspect_ratio, None);
    assert_eq!(c.align_items, AlignItems::Default);
    assert_eq!(c.justify_items, JustifyItems::Default);
    assert_eq!(c.align_self, AlignSelf::Auto);
    assert_eq!(c.justify_self, JustifySelf::Auto);
    assert_eq!(c.align_content, AlignContent::Default);
    assert_eq!(c.justify_content, JustifyContent::Default);
    assert_eq!(c.margin.left, Val::Px(0));
    assert_eq!(c.padding.bottom, Val::Px(0));
    assert_eq!(c.border.top, Val::Px(0));
    assert_eq!(c.flex_direction, FlexDirection::Row);
    assert_eq!(c.flex_wrap, FlexWrap::NoWrap);
    assert_eq!(c.flex_grow, 0);
    assert_eq!(c.flex_shrink, 1);
    assert_eq!(c.flex_basis, Val::Auto);
    assert_eq!(c.row_gap, Val::Px(0));
    assert_eq!(c.column_gap, Val::Px(0));
    assert_eq!(c.grid_auto_flow, GridAutoFlow::Row);
    assert_eq!(c.grid_template_rows, None);
    assert_eq!(c.grid_auto_rows, None);
    assert_eq!(
        c.grid_row,
        GridPlacement { start: None, span: Some(1), end: None }
    );
}

#[test]
fn concrete_style_keeps_set_attributes() {
    let s = StyleDescription {
        display: Some(DisplayMode::Grid),
        width: Some(Val::Percent(75)),
        flex_shrink: Some(3),
        aspect_ratio: Some(2),
        ..StyleDescription::empty()
    };
    let c = s.to_concrete();
    assert_eq!(c.display, DisplayMode::Grid);
    assert_eq!(c.width, Val::Percent(75));
    assert_eq!(c.flex_shrink, 3);
    assert_eq!(c.aspect_ratio, Some(2));
}

#[test]
fn default_is_the_empty_attribute_set() {
    let d: StyleDescription = Default::default();
    assert_eq!(d, StyleDescription::empty());
    assert_eq!(d.width, None);
    assert_eq!(d.grid_column, None);
}
