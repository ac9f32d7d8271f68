//! The value model: lengths, box edges, colors, layout keywords, the sparse style
//! record that rules fill in, and the fully defaulted style handed to a host.
use vstd::prelude::*;

verus! {

/// A number as the tokenizer read it: the bit pattern of its single-precision value.
#[derive(Clone, Copy, Debug, PartialEq, Eq, Structural)]
pub struct Number {
    pub bits: u32,
}

/// 16.0 as a single-precision bit pattern: the font size when none is set.
pub const DEFAULT_FONT_SIZE_BITS: u32 = 0x4180_0000;

/// A length: pixels, a fraction of the parent (`Percent(0.5)` is 50%), `auto`, or unset.
#[derive(Clone, Copy, Debug, PartialEq, Eq, Structural)]
pub enum Length {
    Px(Number),
    Percent(Number),
    Auto,
    Undefined,
}

/// Four box edges.
#[derive(Clone, Copy, Debug, PartialEq, Eq, Structural)]
pub struct UiRect {
    pub left: Length,
    pub right: Length,
    pub top: Length,
    pub bottom: Length,
}

impl UiRect {
    /// The same length on all four edges.
    pub fn all(v: Length) -> (r: UiRect)
        ensures
            r == (UiRect { left: v, right: v, top: v, bottom: v }),
    {
        UiRect { left: v, right: v, top: v, bottom: v }
    }
}

/// Four corner radii.
#[derive(Clone, Copy, Debug, PartialEq, Eq, Structural)]
pub struct BorderRadius {
    pub top_left: Length,
    pub top_right: Length,
    pub bottom_right: Length,
    pub bottom_left: Length,
}

/// A color as four 8-bit channels; each channel stands for its value divided by 255.
#[derive(Clone, Copy, Debug, PartialEq, Eq, Structural)]
pub struct Rgba {
    pub red: u8,
    pub green: u8,
    pub blue: u8,
    pub alpha: u8,
}

/// A color as a style sheet writes it: a keyword or hexadecimal channels.
#[derive(Clone, Copy, Debug, PartialEq, Eq, Structural)]
pub enum CssColor {
    Red,
    Green,
    Blue,
    White,
    Black,
    Transparent,
    Hex(Rgba),
}

pub open spec fn rgba(red: u8, green: u8, blue: u8, alpha: u8) -> Rgba {
    Rgba { red, green, blue, alpha }
}

/// The channels that a color stands for.
pub open spec fn color_channels(c: CssColor) -> Rgba {
    match c {
        CssColor::Red => rgba(255, 0, 0, 255),
        CssColor::Green => rgba(0, 255, 0, 255),
        CssColor::Blue => rgba(0, 0, 255, 255),
        CssColor::White => rgba(255, 255, 255, 255),
        CssColor::Black => rgba(0, 0, 0, 255),
        CssColor::Transparent => rgba(0, 0, 0, 0),
        CssColor::Hex(c) => c,
    }
}

#[derive(Clone, Copy, Debug, PartialEq, Eq, Structural)]
pub enum DisplayMode {
    Flex,
    Hidden,
}

#[derive(Clone, Copy, Debug, PartialEq, Eq, Structural)]
pub enum PositionType {
    Relative,
    Absolute,
}

#[derive(Clone, Copy, Debug, PartialEq, Eq, Structural)]
pub enum Direction {
    Inherit,
    LeftToRight,
    RightToLeft,
}

#[derive(Clone, Copy, Debug, PartialEq, Eq, Structural)]
pub enum FlexDirection {
    Row,
    Column,
    RowReverse,
    ColumnReverse,
}

#[derive(Clone, Copy, Debug, PartialEq, Eq, Structural)]
pub enum FlexWrap {
    NoWrap,
    Wrap,
    WrapReverse,
}

#[derive(Clone, Copy, Debug, PartialEq, Eq, Structural)]
pub enum AlignItems {
    FlexStart,
    FlexEnd,
    Center,
    Baseline,
    Stretch,
}

#[derive(Clone, Copy, Debug, PartialEq, Eq, Structural)]
pub enum AlignSelf {
    Auto,
    FlexStart,
    FlexEnd,
    Center,
    Baseline,
    Stretch,
}

#[derive(Clone, Copy, Debug, PartialEq, Eq, Structural)]
pub enum AlignContent {
    FlexStart,
    FlexEnd,
    Center,
    SpaceBetween,
    SpaceAround,
    Stretch,
}

#[derive(Clone, Copy, Debug, PartialEq, Eq, Structural)]
pub enum JustifyContent {
    FlexStart,
    FlexEnd,
    Center,
    SpaceBetween,
    SpaceAround,
    SpaceEvenly,
}

#[derive(Clone, Copy, Debug, PartialEq, Eq, Structural)]
pub enum Overflow {
    Visible,
    Hidden,
    Scroll,
}

/// One optional slot per supported property; `None` is unset, which is not the same
/// as set to a default.
#[derive(Clone, Debug, PartialEq)]
pub struct StyleProperties {
    pub display: Option<DisplayMode>,
    pub position_type: Option<PositionType>,
    pub direction: Option<Direction>,
    pub flex_direction: Option<FlexDirection>,
    pub flex_wrap: Option<FlexWrap>,
    pub align_items: Option<AlignItems>,
    pub align_self: Option<AlignSelf>,
    pub align_content: Option<AlignContent>,
    pub justify_content: Option<JustifyContent>,
    pub position: Option<UiRect>,
    pub margin: Option<UiRect>,
    pub padding: Option<UiRect>,
    pub border: Option<UiRect>,
    pub border_radius: Option<BorderRadius>,
    pub width: Option<Length>,
    pub height: Option<Length>,
    pub min_width: Option<Length>,
    pub max_width: Option<Length>,
    pub min_height: Option<Length>,
    pub max_height: Option<Length>,
    pub aspect_ratio: Option<Number>,
    pub overflow: Option<Overflow>,
    pub background_color: Option<CssColor>,
    pub color: Option<CssColor>,
    pub font_size: Option<Length>,
    pub custom_property: Option<String>,
}

/// The record with every slot unset.
pub open spec fn unset_properties() -> StyleProperties {
    StyleProperties {
        display: None,
        position_type: None,
        direction: None,
        flex_direction: None,
        flex_wrap: None,
        align_items: None,
        align_self: None,
        align_content: None,
        justify_content: None,
        position: None,
        margin: None,
        padding: None,
        border: None,
        border_radius: None,
        width: None,
        height: None,
        min_width: None,
        max_width: None,
        min_height: None,
        max_height: None,
        aspect_ratio: None,
        overflow: None,
        background_color: None,
        color: None,
        font_size: None,
        custom_property: None,
    }
}

impl Default for StyleProperties {
    fn default() -> (r: StyleProperties)
        ensures
            r == unset_properties(),
    {
        StyleProperties {
            display: None,
            position_type: None,
            direction: None,
            flex_direction: None,
            flex_wrap: None,
            align_items: None,
            align_self: None,
            align_content: None,
            justify_content: None,
            position: None,
            margin: None,
            padding: None,
            border: None,
            border_radius: None,
            width: None,
            height: None,
            min_width: None,
            max_width: None,
            min_height: None,
            max_height: None,
            aspect_ratio: None,
            overflow: None,
            background_color: None,
            color: None,
            font_size: None,
            custom_property: None,
        }
    }
}

/// One decoded declaration: a property and its value.
#[derive(Clone, Debug, PartialEq)]
pub enum Declaration {
    Display(DisplayMode),
    PositionType(PositionType),
    Direction(Direction),
    FlexDirection(FlexDirection),
    FlexWrap(FlexWrap),
    AlignItems(AlignItems),
    AlignSelf(AlignSelf),
    AlignContent(AlignContent),
    JustifyContent(JustifyContent),
    Position(UiRect),
    Margin(UiRect),
    Padding(UiRect),
    Border(UiRect),
    BorderRadius(BorderRadius),
    Width(Length),
    Height(Length),
    MinWidth(Length),
    MaxWidth(Length),
    MinHeight(Length),
    MaxHeight(Length),
    AspectRatio(Number),
    Overflow(Overflow),
    BackgroundColor(CssColor),
    Color(CssColor),
    FontSize(Length),
    CustomProperty(String),
}

/// `p` with the slot of `d` set to its value; every other slot kept.
pub open spec fn with_declaration(p: StyleProperties, d: Declaration) -> StyleProperties {
    match d {
        Declaration::Display(v) => StyleProperties { display: Some(v), ..p },
        Declaration::PositionType(v) => StyleProperties { position_type: Some(v), ..p },
        Declaration::Direction(v) => StyleProperties { direction: Some(v), ..p },
        Declaration::FlexDirection(v) => StyleProperties { flex_direction: Some(v), ..p },
        Declaration::FlexWrap(v) => StyleProperties { flex_wrap: Some(v), ..p },
        Declaration::AlignItems(v) => StyleProperties { align_items: Some(v), ..p },
        Declaration::AlignSelf(v) => StyleProperties { align_self: Some(v), ..p },
        Declaration::AlignContent(v) => StyleProperties { align_content: Some(v), ..p },
        Declaration::JustifyContent(v) => StyleProperties { justify_content: Some(v), ..p },
        Declaration::Position(v) => StyleProperties { position: Some(v), ..p },
        Declaration::Margin(v) => StyleProperties { margin: Some(v), ..p },
        Declaration::Padding(v) => StyleProperties { padding: Some(v), ..p },
        Declaration::Border(v) => StyleProperties { border: Some(v), ..p },
        Declaration::BorderRadius(v) => StyleProperties { border_radius: Some(v), ..p },
        Declaration::Width(v) => StyleProperties { width: Some(v), ..p },
        Declaration::Height(v) => StyleProperties { height: Some(v), ..p },
        Declaration::MinWidth(v) => StyleProperties { min_width: Some(v), ..p },
        Declaration::MaxWidth(v) => StyleProperties { max_width: Some(v), ..p },
        Declaration::MinHeight(v) => StyleProperties { min_height: Some(v), ..p },
        Declaration::MaxHeight(v) => StyleProperties { max_height: Some(v), ..p },
        Declaration::AspectRatio(v) => StyleProperties { aspect_ratio: Some(v), ..p },
        Declaration::Overflow(v) => StyleProperties { overflow: Some(v), ..p },
        Declaration::BackgroundColor(v) => StyleProperties { background_color: Some(v), ..p },
        Declaration::Color(v) => StyleProperties { color: Some(v), ..p },
        Declaration::FontSize(v) => StyleProperties { font_size: Some(v), ..p },
        Declaration::CustomProperty(v) => StyleProperties { custom_property: Some(v), ..p },
    }
}

/// The slot of `over` where it is set, else the slot of `base`.
pub open spec fn pick<T>(base: Option<T>, over: Option<T>) -> Option<T> {
    if over is Some {
        over
    } else {
        base
    }
}

/// `over` laid on `base` slot by slot: a set slot of `over` wins, an unset one keeps
/// what `base` had.
pub open spec fn merged(base: StyleProperties, over: StyleProperties) -> StyleProperties {
    StyleProperties {
        display: pick(base.display, over.display),
        position_type: pick(base.position_type, over.position_type),
        direction: pick(base.direction, over.direction),
        flex_direction: pick(base.flex_direction, over.flex_direction),
        flex_wrap: pick(base.flex_wrap, over.flex_wrap),
        align_items: pick(base.align_items, over.align_items),
        align_self: pick(base.align_self, over.align_self),
        align_content: pick(base.align_content, over.align_content),
        justify_content: pick(base.justify_content, over.justify_content),
        position: pick(base.position, over.position),
        margin: pick(base.margin, over.margin),
        padding: pick(base.padding, over.padding),
        border: pick(base.border, over.border),
        border_radius: pick(base.border_radius, over.border_radius),
        width: pick(base.width, over.width),
        height: pick(base.height, over.height),
        min_width: pick(base.min_width, over.min_width),
        max_width: pick(base.max_width, over.max_width),
        min_height: pick(base.min_height, over.min_height),
        max_height: pick(base.max_height, over.max_height),
        aspect_ratio: pick(base.aspect_ratio, over.aspect_ratio),
        overflow: pick(base.overflow, over.overflow),
        background_color: pick(base.background_color, over.background_color),
        color: pick(base.color, over.color),
        font_size: pick(base.font_size, over.font_size),
        custom_property: pick(base.custom_property, over.custom_property),
    }
}

fn pick_copy<T: Copy>(base: Option<T>, over: Option<T>) -> (r: Option<T>)
    ensures
        r == pick(base, over),
{
    match over {
        Some(v) => Some(v),
        None => base,
    }
}

impl StyleProperties {
    /// Sets the slot that `d` names.
    pub fn apply(&mut self, d: Declaration)
        ensures
            *final(self) == with_declaration(*old(self), d),
    {
        match d {
            Declaration::Display(v) => self.display = Some(v),
            Declaration::PositionType(v) => self.position_type = Some(v),
            Declaration::Direction(v) => self.direction = Some(v),
            Declaration::FlexDirection(v) => self.flex_direction = Some(v),
            Declaration::FlexWrap(v) => self.flex_wrap = Some(v),
            Declaration::AlignItems(v) => self.align_items = Some(v),
            Declaration::AlignSelf(v) => self.align_self = Some(v),
            Declaration::AlignContent(v) => self.align_content = Some(v),
            Declaration::JustifyContent(v) => self.justify_content = Some(v),
            Declaration::Position(v) => self.position = Some(v),
            Declaration::Margin(v) => self.margin = Some(v),
            Declaration::Padding(v) => self.padding = Some(v),
            Declaration::Border(v) => self.border = Some(v),
            Declaration::BorderRadius(v) => self.border_radius = Some(v),
            Declaration::Width(v) => self.width = Some(v),
            Declaration::Height(v) => self.height = Some(v),
            Declaration::MinWidth(v) => self.min_width = Some(v),
            Declaration::MaxWidth(v) => self.max_width = Some(v),
            Declaration::MinHeight(v) => self.min_height = Some(v),
            Declaration::MaxHeight(v) => self.max_height = Some(v),
            Declaration::AspectRatio(v) => self.aspect_ratio = Some(v),
            Declaration::Overflow(v) => self.overflow = Some(v),
            Declaration::BackgroundColor(v) => self.background_color = Some(v),
            Declaration::Color(v) => self.color = Some(v),
            Declaration::FontSize(v) => self.font_size = Some(v),
            Declaration::CustomProperty(v) => self.custom_property = Some(v),
        }
    }

    /// Lays `over` on this record: every slot that `over` sets is copied, the others stay.
    pub fn merge_from(&mut self, over: &StyleProperties)
        ensures
            *final(self) == merged(*old(self), *over),
    {
        self.display = pick_copy(self.display, over.display);
        self.position_type = pick_copy(self.position_type, over.position_type);
        self.direction = pick_copy(self.direction, over.direction);
        self.flex_direction = pick_copy(self.flex_direction, over.flex_direction);
        self.flex_wrap = pick_copy(self.flex_wrap, over.flex_wrap);
        self.align_items = pick_copy(self.align_items, over.align_items);
        self.align_self = pick_copy(self.align_self, over.align_self);
        self.align_content = pick_copy(self.align_content, over.align_content);
        self.justify_content = pick_copy(self.justify_content, over.justify_content);
        self.position = pick_copy(self.position, over.position);
        self.margin = pick_copy(self.margin, over.margin);
        self.padding = pick_copy(self.padding, over.padding);
        self.border = pick_copy(self.border, over.border);
        self.border_radius = pick_copy(self.border_radius, over.border_radius);
        self.width = pick_copy(self.width, over.width);
        self.height = pick_copy(self.height, over.height);
        self.min_width = pick_copy(self.min_width, over.min_width);
        self.max_width = pick_copy(self.max_width, over.max_width);
        self.min_height = pick_copy(self.min_height, over.min_height);
        self.max_height = pick_copy(self.max_height, over.max_height);
        self.aspect_ratio = pick_copy(self.aspect_ratio, over.aspect_ratio);
        self.overflow = pick_copy(self.overflow, over.overflow);
        self.background_color = pick_copy(self.background_color, over.background_color);
        self.color = pick_copy(self.color, over.color);
        self.font_size = pick_copy(self.font_size, over.font_size);
        match &over.custom_property {
            Some(s) => self.custom_property = Some(s.clone()),
            None => {},
        }
    }
}

} // verus!
