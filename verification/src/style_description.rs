//! Sparse style attribute sets and their override-wins merge.
//!
//! A `StyleDescription` is a record of independently optional layout
//! attributes. An unset attribute ("no opinion") never overrides a set one;
//! a set attribute always wins. `apply` merges another description into this
//! one, with the other side taking precedence. `to_concrete` turns a sparse
//! description into a fully populated `ConcreteStyle` by substituting each
//! attribute's default value.
//!
//! Attribute values are atomic units: merging never looks inside a value.
//! Lengths and weights carry whole-number payloads; the host that hands a
//! `ConcreteStyle` to a layout engine converts them to whatever numeric type
//! that engine expects.

use vstd::prelude::*;

verus! {

/// Which layout algorithm lays out a node's contents, or whether the node
/// is hidden entirely.
#[derive(Clone, Copy, Debug, PartialEq, Eq, Structural)]
pub enum DisplayMode {
    Flex,
    Grid,
    Hidden,
}

/// Whether a node is laid out in-flow with its siblings or positioned
/// independently of them.
#[derive(Clone, Copy, Debug, PartialEq, Eq, Structural)]
pub enum PositionType {
    Relative,
    Absolute,
}

/// Whether overflowing content on one axis is shown or clipped.
#[derive(Clone, Copy, Debug, PartialEq, Eq, Structural)]
pub enum OverflowAxis {
    Visible,
    Clip,
}

/// Overflow behaviour for both axes.
#[derive(Clone, Copy, Debug, PartialEq, Eq, Structural)]
pub struct Overflow {
    pub x: OverflowAxis,
    pub y: OverflowAxis,
}

/// Text and layout direction.
#[derive(Clone, Copy, Debug, PartialEq, Eq, Structural)]
pub enum Direction {
    Inherit,
    LeftToRight,
    RightToLeft,
}

/// A length: automatic, in whole pixels, or as a whole percentage of the
/// parent's size or of the viewport.
#[derive(Clone, Copy, Debug, PartialEq, Eq, Structural)]
pub enum Val {
    Auto,
    Px(i64),
    Percent(i64),
    Vw(i64),
    Vh(i64),
    VMin(i64),
    VMax(i64),
}

/// Default cross-axis alignment of child items.
#[derive(Clone, Copy, Debug, PartialEq, Eq, Structural)]
pub enum AlignItems {
    Default,
    Start,
    End,
    FlexStart,
    FlexEnd,
    Center,
    Baseline,
    Stretch,
}

/// Default inline-axis alignment of child items.
#[derive(Clone, Copy, Debug, PartialEq, Eq, Structural)]
pub enum JustifyItems {
    Default,
    Start,
    End,
    Center,
    Baseline,
    Stretch,
}

/// Cross-axis alignment of this item within its own slot.
#[derive(Clone, Copy, Debug, PartialEq, Eq, Structural)]
pub enum AlignSelf {
    Auto,
    Start,
    End,
    FlexStart,
    FlexEnd,
    Center,
    Baseline,
    Stretch,
}

/// Inline-axis alignment of this item within its own slot.
#[derive(Clone, Copy, Debug, PartialEq, Eq, Structural)]
pub enum JustifySelf {
    Auto,
    Start,
    End,
    Center,
    Baseline,
    Stretch,
}

/// Distribution of lines or rows along the cross axis.
#[derive(Clone, Copy, Debug, PartialEq, Eq, Structural)]
pub enum AlignContent {
    Default,
    Start,
    End,
    FlexStart,
    FlexEnd,
    Center,
    Stretch,
    SpaceBetween,
    SpaceEvenly,
    SpaceAround,
}

/// Distribution of items or columns along the main axis.
#[derive(Clone, Copy, Debug, PartialEq, Eq, Structural)]
pub enum JustifyContent {
    Default,
    Start,
    End,
    FlexStart,
    FlexEnd,
    Center,
    Stretch,
    SpaceBetween,
    SpaceEvenly,
    SpaceAround,
}

/// One length per edge, used for margins, padding and borders.
#[derive(Clone, Copy, Debug, PartialEq, Eq, Structural)]
pub struct UiRect {
    pub left: Val,
    pub right: Val,
    pub top: Val,
    pub bottom: Val,
}

/// Main-axis orientation of a flex container.
#[derive(Clone, Copy, Debug, PartialEq, Eq, Structural)]
pub enum FlexDirection {
    Row,
    Column,
    RowReverse,
    ColumnReverse,
}

/// Whether a flex container wraps onto multiple lines.
#[derive(Clone, Copy, Debug, PartialEq, Eq, Structural)]
pub enum FlexWrap {
    NoWrap,
    Wrap,
    WrapReverse,
}

/// Placement strategy for automatically placed grid items.
#[derive(Clone, Copy, Debug, PartialEq, Eq, Structural)]
pub enum GridAutoFlow {
    Row,
    Column,
    RowDense,
    ColumnDense,
}

/// The sizing of one grid track.
#[derive(Clone, Copy, Debug, PartialEq, Eq, Structural)]
pub enum GridTrack {
    Auto,
    MinContent,
    MaxContent,
    Px(i64),
    Percent(i64),
    Fraction(i64),
}

/// How often a repeated track specification repeats.
#[derive(Clone, Copy, Debug, PartialEq, Eq, Structural)]
pub enum GridTrackRepetition {
    Count(u16),
    AutoFill,
    AutoFit,
}

/// A track sizing repeated some number of times, describing the explicit
/// tracks of a grid template.
#[derive(Clone, Copy, Debug, PartialEq, Eq, Structural)]
pub struct RepeatedGridTrack {
    pub repetition: GridTrackRepetition,
    pub track: GridTrack,
}

/// Where a grid item starts, how many tracks it spans, and where it ends.
/// Unset parts are resolved by the layout engine's automatic placement.
#[derive(Clone, Copy, Debug, PartialEq, Eq, Structural)]
pub struct GridPlacement {
    pub start: Option<i16>,
    pub span: Option<u16>,
    pub end: Option<i16>,
}

/// A sparse attribute set: every attribute is independently optional.
/// `None` means "no opinion" and never overrides a set value during merge.
#[derive(Clone, Copy, Debug, PartialEq, Eq, Structural)]
#[verifier::ext_equal]
pub struct StyleDescription {
    /// Which layout algorithm lays out this node's contents.
    pub display: Option<DisplayMode>,
    /// In-flow or absolute positioning.
    pub position_type: Option<PositionType>,
    /// Whether overflowing content is shown or clipped.
    pub overflow: Option<Overflow>,
    /// Text direction.
    pub direction: Option<Direction>,
    /// Position of the left edge.
    pub left: Option<Val>,
    /// Position of the right edge.
    pub right: Option<Val>,
    /// Position of the top edge.
    pub top: Option<Val>,
    /// Position of the bottom edge.
    pub bottom: Option<Val>,
    /// Ideal width.
    pub width: Option<Val>,
    /// Ideal height.
    pub height: Option<Val>,
    /// Minimum width.
    pub min_width: Option<Val>,
    /// Minimum height.
    pub min_height: Option<Val>,
    /// Maximum width.
    pub max_width: Option<Val>,
    /// Maximum height.
    pub max_height: Option<Val>,
    /// Width-to-height ratio, in whole units.
    pub aspect_ratio: Option<i64>,
    /// Default cross-axis alignment of children.
    pub align_items: Option<AlignItems>,
    /// Default inline-axis alignment of children.
    pub justify_items: Option<JustifyItems>,
    /// Cross-axis alignment of this node within its slot.
    pub align_self: Option<AlignSelf>,
    /// Inline-axis alignment of this node within its slot.
    pub justify_self: Option<JustifySelf>,
    /// Distribution of lines or rows along the cross axis.
    pub align_content: Option<AlignContent>,
    /// Distribution of items or columns along the main axis.
    pub justify_content: Option<JustifyContent>,
    /// Space around the node, outside its border.
    pub margin: Option<UiRect>,
    /// Space between the node's edges and its contents.
    pub padding: Option<UiRect>,
    /// Border width per edge.
    pub border: Option<UiRect>,
    /// Main-axis orientation of a flex container.
    pub flex_direction: Option<FlexDirection>,
    /// Whether a flex container wraps.
    pub flex_wrap: Option<FlexWrap>,
    /// How much this item grows when space is available, as a whole weight.
    pub flex_grow: Option<i64>,
    /// How much this item shrinks when space is short, as a whole weight.
    pub flex_shrink: Option<i64>,
    /// Initial main-axis length before growing or shrinking.
    pub flex_basis: Option<Val>,
    /// Gutter between rows.
    pub row_gap: Option<Val>,
    /// Gutter between columns.
    pub column_gap: Option<Val>,
    /// Placement strategy for automatically placed grid items.
    pub grid_auto_flow: Option<GridAutoFlow>,
    /// Explicit rows of a grid template.
    pub grid_template_rows: Option<RepeatedGridTrack>,
    /// Explicit columns of a grid template.
    pub grid_template_columns: Option<RepeatedGridTrack>,
    /// Sizing of implicitly created rows.
    pub grid_auto_rows: Option<GridTrack>,
    /// Sizing of implicitly created columns.
    pub grid_auto_columns: Option<GridTrack>,
    /// Row placement of this node as a grid item.
    pub grid_row: Option<GridPlacement>,
    /// Column placement of this node as a grid item.
    pub grid_column: Option<GridPlacement>,
}

/// One merge step on a single attribute slot: the overriding side wins
/// exactly when it is set.
pub open spec fn pick<T>(base: Option<T>, over: Option<T>) -> Option<T> {
    if over is Some {
        over
    } else {
        base
    }
}

/// The attribute set with every attribute unset.
pub open spec fn empty_style() -> StyleDescription {
    StyleDescription {
        display: None,
        position_type: None,
        overflow: None,
        direction: None,
        left: None,
        right: None,
        top: None,
        bottom: None,
        width: None,
        height: None,
        min_width: None,
        min_height: None,
        max_width: None,
        max_height: None,
        aspect_ratio: None,
        align_items: None,
        justify_items: None,
        align_self: None,
        justify_self: None,
        align_content: None,
        justify_content: None,
        margin: None,
        padding: None,
        border: None,
        flex_direction: None,
        flex_wrap: None,
        flex_grow: None,
        flex_shrink: None,
        flex_basis: None,
        row_gap: None,
        column_gap: None,
        grid_auto_flow: None,
        grid_template_rows: None,
        grid_template_columns: None,
        grid_auto_rows: None,
        grid_auto_columns: None,
        grid_row: None,
        grid_column: None,
    }
}

/// Override-wins merge: for every attribute the result takes `over`'s value
/// when `over` sets it, else `base`'s value.
pub open spec fn spec_merge(base: StyleDescription, over: StyleDescription) -> StyleDescription {
    StyleDescription {
        display: pick(base.display, over.display),
        position_type: pick(base.position_type, over.position_type),
        overflow: pick(base.overflow, over.overflow),
        direction: pick(base.direction, over.direction),
        left: pick(base.left, over.left),
        right: pick(base.right, over.right),
        top: pick(base.top, over.top),
        bottom: pick(base.bottom, over.bottom),
        width: pick(base.width, over.width),
        height: pick(base.height, over.height),
        min_width: pick(base.min_width, over.min_width),
        min_height: pick(base.min_height, over.min_height),
        max_width: pick(base.max_width, over.max_width),
        max_height: pick(base.max_height, over.max_height),
        aspect_ratio: pick(base.aspect_ratio, over.aspect_ratio),
        align_items: pick(base.align_items, over.align_items),
        justify_items: pick(base.justify_items, over.justify_items),
        align_self: pick(base.align_self, over.align_self),
        justify_self: pick(base.justify_self, over.justify_self),
        align_content: pick(base.align_content, over.align_content),
        justify_content: pick(base.justify_content, over.justify_content),
        margin: pick(base.margin, over.margin),
        padding: pick(base.padding, over.padding),
        border: pick(base.border, over.border),
        flex_direction: pick(base.flex_direction, over.flex_direction),
        flex_wrap: pick(base.flex_wrap, over.flex_wrap),
        flex_grow: pick(base.flex_grow, over.flex_grow),
        flex_shrink: pick(base.flex_shrink, over.flex_shrink),
        flex_basis: pick(base.flex_basis, over.flex_basis),
        row_gap: pick(base.row_gap, over.row_gap),
        column_gap: pick(base.column_gap, over.column_gap),
        grid_auto_flow: pick(base.grid_auto_flow, over.grid_auto_flow),
        grid_template_rows: pick(base.grid_template_rows, over.grid_template_rows),
        grid_template_columns: pick(base.grid_template_columns, over.grid_template_columns),
        grid_auto_rows: pick(base.grid_auto_rows, over.grid_auto_rows),
        grid_auto_columns: pick(base.grid_auto_columns, over.grid_auto_columns),
        grid_row: pick(base.grid_row, over.grid_row),
        grid_column: pick(base.grid_column, over.grid_column),
    }
}

/// One attribute slot resolved over three layers: the rightmost set value
/// wins; when all three are unset the slot stays unset.
pub open spec fn rightmost<T>(a: Option<T>, b: Option<T>, c: Option<T>) -> Option<T> {
    if c is Some {
        c
    } else if b is Some {
        b
    } else {
        a
    }
}

fn do_override<T>(base: Option<T>, next: Option<T>) -> (r: Option<T>)
    ensures
        r == pick(base, next),
{
    if next.is_some() {
        next
    } else {
        base
    }
}

impl StyleDescription {
    /// The attribute set with every attribute unset.
    pub fn empty() -> (r: Self)
        ensures
            r == empty_style(),
    {
        StyleDescription {
            display: None,
            position_type: None,
            overflow: None,
            direction: None,
            left: None,
            right: None,
            top: None,
            bottom: None,
            width: None,
            height: None,
            min_width: None,
            min_height: None,
            max_width: None,
            max_height: None,
            aspect_ratio: None,
            align_items: None,
            justify_items: None,
            align_self: None,
            justify_self: None,
            align_content: None,
            justify_content: None,
            margin: None,
            padding: None,
            border: None,
            flex_direction: None,
            flex_wrap: None,
            flex_grow: None,
            flex_shrink: None,
            flex_basis: None,
            row_gap: None,
            column_gap: None,
            grid_auto_flow: None,
            grid_template_rows: None,
            grid_template_columns: None,
            grid_auto_rows: None,
            grid_auto_columns: None,
            grid_row: None,
            grid_column: None,
        }
    }

    /// Merge `other` into this description; `other`'s set attributes win,
    /// unset attributes of `other` leave this description's values alone.
    pub fn apply(&mut self, other: &StyleDescription)
        ensures
            *final(self) == spec_merge(*old(self), *other),
    {
        self.display = do_override(self.display, other.display);
        self.position_type = do_override(self.position_type, other.position_type);
        self.overflow = do_override(self.overflow, other.overflow);
        self.direction = do_override(self.direction, other.direction);
        self.left = do_override(self.left, other.left);
        self.right = do_override(self.right, other.right);
        self.top = do_override(self.top, other.top);
        self.bottom = do_override(self.bottom, other.bottom);
        self.width = do_override(self.width, other.width);
        self.height = do_override(self.height, other.height);
        self.min_width = do_override(self.min_width, other.min_width);
        self.min_height = do_override(self.min_height, other.min_height);
        self.max_width = do_override(self.max_width, other.max_width);
        self.max_height = do_override(self.max_height, other.max_height);
        self.aspect_ratio = do_override(self.aspect_ratio, other.aspect_ratio);
        self.align_items = do_override(self.align_items, other.align_items);
        self.justify_items = do_override(self.justify_items, other.justify_items);
        self.align_self = do_override(self.align_self, other.align_self);
        self.justify_self = do_override(self.justify_self, other.justify_self);
        self.align_content = do_override(self.align_content, other.align_content);
        self.justify_content = do_override(self.justify_content, other.justify_content);
        self.margin = do_override(self.margin, other.margin);
        self.padding = do_override(self.padding, other.padding);
        self.border = do_override(self.border, other.border);
        self.flex_direction = do_override(self.flex_direction, other.flex_direction);
        self.flex_wrap = do_override(self.flex_wrap, other.flex_wrap);
        self.flex_grow = do_override(self.flex_grow, other.flex_grow);
        self.flex_shrink = do_override(self.flex_shrink, other.flex_shrink);
        self.flex_basis = do_override(self.flex_basis, other.flex_basis);
        self.row_gap = do_override(self.row_gap, other.row_gap);
        self.column_gap = do_override(self.column_gap, other.column_gap);
        self.grid_auto_flow = do_override(self.grid_auto_flow, other.grid_auto_flow);
        self.grid_template_rows = do_override(self.grid_template_rows, other.grid_template_rows);
        self.grid_template_columns = do_override(
            self.grid_template_columns,
            other.grid_template_columns,
        );
        self.grid_auto_rows = do_override(self.grid_auto_rows, other.grid_auto_rows);
        self.grid_auto_columns = do_override(self.grid_auto_columns, other.grid_auto_columns);
        self.grid_row = do_override(self.grid_row, other.grid_row);
        self.grid_column = do_override(self.grid_column, other.grid_column);
    }
}

impl Default for StyleDescription {
    /// Same as `empty`: every attribute unset.
    fn default() -> (r: Self)
        ensures
            r == empty_style(),
    {
        StyleDescription::empty()
    }
}

/// Merging is associative, and over two merges each attribute slot resolves
/// to the rightmost set value: `C`'s value when `C` sets the slot, else
/// `B`'s, else `A`'s. This holds attribute by attribute.
pub proof fn lemma_merge_rightmost_wins(a: StyleDescription, b: StyleDescription, c: StyleDescription)
    ensures
        spec_merge(spec_merge(a, b), c) == spec_merge(a, spec_merge(b, c)),
        spec_merge(spec_merge(a, b), c) == (StyleDescription {
            display: rightmost(a.display, b.display, c.display),
            position_type: rightmost(a.position_type, b.position_type, c.position_type),
            overflow: rightmost(a.overflow, b.overflow, c.overflow),
            direction: rightmost(a.direction, b.direction, c.direction),
            left: rightmost(a.left, b.left, c.left),
            right: rightmost(a.right, b.right, c.right),
            top: rightmost(a.top, b.top, c.top),
            bottom: rightmost(a.bottom, b.bottom, c.bottom),
            width: rightmost(a.width, b.width, c.width),
            height: rightmost(a.height, b.height, c.height),
            min_width: rightmost(a.min_width, b.min_width, c.min_width),
            min_height: rightmost(a.min_height, b.min_height, c.min_height),
            max_width: rightmost(a.max_width, b.max_width, c.max_width),
            max_height: rightmost(a.max_height, b.max_height, c.max_height),
            aspect_ratio: rightmost(a.aspect_ratio, b.aspect_ratio, c.aspect_ratio),
            align_items: rightmost(a.align_items, b.align_items, c.align_items),
            justify_items: rightmost(a.justify_items, b.justify_items, c.justify_items),
            align_self: rightmost(a.align_self, b.align_self, c.align_self),
            justify_self: rightmost(a.justify_self, b.justify_self, c.justify_self),
            align_content: rightmost(a.align_content, b.align_content, c.align_content),
            justify_content: rightmost(a.justify_content, b.justify_content, c.justify_content),
            margin: rightmost(a.margin, b.margin, c.margin),
            padding: rightmost(a.padding, b.padding, c.padding),
            border: rightmost(a.border, b.border, c.border),
            flex_direction: rightmost(a.flex_direction, b.flex_direction, c.flex_direction),
            flex_wrap: rightmost(a.flex_wrap, b.flex_wrap, c.flex_wrap),
            flex_grow: rightmost(a.flex_grow, b.flex_grow, c.flex_grow),
            flex_shrink: rightmost(a.flex_shrink, b.flex_shrink, c.flex_shrink),
            flex_basis: rightmost(a.flex_basis, b.flex_basis, c.flex_basis),
            row_gap: rightmost(a.row_gap, b.row_gap, c.row_gap),
            column_gap: rightmost(a.column_gap, b.column_gap, c.column_gap),
            grid_auto_flow: rightmost(a.grid_auto_flow, b.grid_auto_flow, c.grid_auto_flow),
            grid_template_rows: rightmost(
                a.grid_template_rows,
                b.grid_template_rows,
                c.grid_template_rows,
            ),
            grid_template_columns: rightmost(
                a.grid_template_columns,
                b.grid_template_columns,
                c.grid_template_columns,
            ),
            grid_auto_rows: rightmost(a.grid_auto_rows, b.grid_auto_rows, c.grid_auto_rows),
            grid_auto_columns: rightmost(
                a.grid_auto_columns,
                b.grid_auto_columns,
                c.grid_auto_columns,
            ),
            grid_row: rightmost(a.grid_row, b.grid_row, c.grid_row),
            grid_column: rightmost(a.grid_column, b.grid_column, c.grid_column),
        }),
{
}

/// Merging the all-unset set into any set is a no-op: `merge(x, empty) == x`.
pub proof fn lemma_merge_right_identity(x: StyleDescription)
    ensures
        spec_merge(x, empty_style()) == x,
{
}

/// A fully populated style, ready to hand to a layout engine: every
/// attribute of a `StyleDescription` with its default substituted where the
/// description had no opinion. The aspect ratio and the grid track fields
/// keep an explicit "absent" state because the engine's own defaults for
/// them are "no ratio" and "no explicit tracks".
#[derive(Clone, Copy, Debug, PartialEq, Eq, Structural)]
#[verifier::ext_equal]
pub struct ConcreteStyle {
    pub display: DisplayMode,
    pub position_type: PositionType,
    pub overflow: Overflow,
    pub direction: Direction,
    pub left: Val,
    pub right: Val,
    pub top: Val,
    pub bottom: Val,
    pub width: Val,
    pub height: Val,
    pub min_width: Val,
    pub min_height: Val,
    pub max_width: Val,
    pub max_height: Val,
    pub aspect_ratio: Option<i64>,
    pub align_items: AlignItems,
    pub justify_items: JustifyItems,
    pub align_self: AlignSelf,
    pub justify_self: JustifySelf,
    pub align_content: AlignContent,
    pub justify_content: JustifyContent,
    pub margin: UiRect,
    pub padding: UiRect,
    pub border: UiRect,
    pub flex_direction: FlexDirection,
    pub flex_wrap: FlexWrap,
    pub flex_grow: i64,
    pub flex_shrink: i64,
    pub flex_basis: Val,
    pub row_gap: Val,
    pub column_gap: Val,
    pub grid_auto_flow: GridAutoFlow,
    pub grid_template_rows: Option<RepeatedGridTrack>,
    pub grid_template_columns: Option<RepeatedGridTrack>,
    pub grid_auto_rows: Option<GridTrack>,
    pub grid_auto_columns: Option<GridTrack>,
    pub grid_row: GridPlacement,
    pub grid_column: GridPlacement,
}

/// A rectangle of zero-pixel edges: the default margin, padding and border.
pub open spec fn zero_rect() -> UiRect {
    UiRect { left: Val::Px(0), right: Val::Px(0), top: Val::Px(0), bottom: Val::Px(0) }
}

/// Automatic grid placement spanning one track: the default placement.
pub open spec fn auto_placement() -> GridPlacement {
    GridPlacement { start: None, span: Some(1u16), end: None }
}

/// The fully populated style a description stands for: each set attribute
/// keeps its value, each unset attribute becomes its default.
pub open spec fn concrete_of(s: StyleDescription) -> ConcreteStyle {
    ConcreteStyle {
        display: s.display.unwrap_or(DisplayMode::Flex),
        position_type: s.position_type.unwrap_or(PositionType::Relative),
        overflow: s.overflow.unwrap_or(
            Overflow { x: OverflowAxis::Visible, y: OverflowAxis::Visible },
        ),
        direction: s.direction.unwrap_or(Direction::Inherit),
        left: s.left.unwrap_or(Val::Auto),
        right: s.right.unwrap_or(Val::Auto),
        top: s.top.unwrap_or(Val::Auto),
        bottom: s.bottom.unwrap_or(Val::Auto),
        width: s.width.unwrap_or(Val::Auto),
        height: s.height.unwrap_or(Val::Auto),
        min_width: s.min_width.unwrap_or(Val::Auto),
        min_height: s.min_height.unwrap_or(Val::Auto),
        max_width: s.max_width.unwrap_or(Val::Auto),
        max_height: s.max_height.unwrap_or(Val::Auto),
        aspect_ratio: s.aspect_ratio,
        align_items: s.align_items.unwrap_or(AlignItems::Default),
        justify_items: s.justify_items.unwrap_or(JustifyItems::Default),
        align_self: s.align_self.unwrap_or(AlignSelf::Auto),
        justify_self: s.justify_self.unwrap_or(JustifySelf::Auto),
        align_content: s.align_content.unwrap_or(AlignContent::Default),
        justify_content: s.justify_content.unwrap_or(JustifyContent::Default),
        margin: s.margin.unwrap_or(zero_rect()),
        padding: s.padding.unwrap_or(zero_rect()),
        border: s.border.unwrap_or(zero_rect()),
        flex_direction: s.flex_direction.unwrap_or(FlexDirection::Row),
        flex_wrap: s.flex_wrap.unwrap_or(FlexWrap::NoWrap),
        flex_grow: s.flex_grow.unwrap_or(0),
        flex_shrink: s.flex_shrink.unwrap_or(1),
        flex_basis: s.flex_basis.unwrap_or(Val::Auto),
        row_gap: s.row_gap.unwrap_or(Val::Px(0)),
        column_gap: s.column_gap.unwrap_or(Val::Px(0)),
        grid_auto_flow: s.grid_auto_flow.unwrap_or(GridAutoFlow::Row),
        grid_template_rows: s.grid_template_rows,
        grid_template_columns: s.grid_template_columns,
        grid_auto_rows: s.grid_auto_rows,
        grid_auto_columns: s.grid_auto_columns,
        grid_row: s.grid_row.unwrap_or(auto_placement()),
        grid_column: s.grid_column.unwrap_or(auto_placement()),
    }
}

impl StyleDescription {
    /// Populate every unset attribute with its default value.
    pub fn to_concrete(&self) -> (r: ConcreteStyle)
        ensures
            r == concrete_of(*self),
    {
        ConcreteStyle {
            display: self.display.unwrap_or(DisplayMode::Flex),
            position_type: self.position_type.unwrap_or(PositionType::Relative),
            overflow: self.overflow.unwrap_or(
                Overflow { x: OverflowAxis::Visible, y: OverflowAxis::Visible },
            ),
            direction: self.direction.unwrap_or(Direction::Inherit),
            left: self.left.unwrap_or(Val::Auto),
            right: self.right.unwrap_or(Val::Auto),
            top: self.top.unwrap_or(Val::Auto),
            bottom: self.bottom.unwrap_or(Val::Auto),
            width: self.width.unwrap_or(Val::Auto),
            height: self.height.unwrap_or(Val::Auto),
            min_width: self.min_width.unwrap_or(Val::Auto),
            min_height: self.min_height.unwrap_or(Val::Auto),
            max_width: self.max_width.unwrap_or(Val::Auto),
            max_height: self.max_height.unwrap_or(Val::Auto),
            aspect_ratio: self.aspect_ratio,
            align_items: self.align_items.unwrap_or(AlignItems::Default),
            justify_items: self.justify_items.unwrap_or(JustifyItems::Default),
            align_self: self.align_self.unwrap_or(AlignSelf::Auto),
            justify_self: self.justify_self.unwrap_or(JustifySelf::Auto),
            align_content: self.align_content.unwrap_or(AlignContent::Default),
            justify_content: self.justify_content.unwrap_or(JustifyContent::Default),
            margin: self.margin.unwrap_or(
                UiRect { left: Val::Px(0), right: Val::Px(0), top: Val::Px(0), bottom: Val::Px(0) },
            ),
            padding: self.padding.unwrap_or(
                UiRect { left: Val::Px(0), right: Val::Px(0), top: Val::Px(0), bottom: Val::Px(0) },
            ),
            border: self.border.unwrap_or(
                UiRect { left: Val::Px(0), right: Val::Px(0), top: Val::Px(0), bottom: Val::Px(0) },
            ),
            flex_direction: self.flex_direction.unwrap_or(FlexDirection::Row),
            flex_wrap: self.flex_wrap.unwrap_or(FlexWrap::NoWrap),
            flex_grow: self.flex_grow.unwrap_or(0),
            flex_shrink: self.flex_shrink.unwrap_or(1),
            flex_basis: self.flex_basis.unwrap_or(Val::Auto),
            row_gap: self.row_gap.unwrap_or(Val::Px(0)),
            column_gap: self.column_gap.unwrap_or(Val::Px(0)),
            grid_auto_flow: self.grid_auto_flow.unwrap_or(GridAutoFlow::Row),
            grid_template_rows: self.grid_template_rows,
            grid_template_columns: self.grid_template_columns,
            grid_auto_rows: self.grid_auto_rows,
            grid_auto_columns: self.grid_auto_columns,
            grid_row: self.grid_row.unwrap_or(GridPlacement { start: None, span: Some(1u16), end: None }),
            grid_column: self.grid_column.unwrap_or(
                GridPlacement { start: None, span: Some(1u16), end: None },
            ),
        }
    }
}

} // verus!
