//! The properties that declarations may set, by name, and the keywords each
//! keyword-valued property takes.
use crate::text::{eq_ignore_ascii_case, eq_ignoring_ascii_case};
use crate::types::{
    AlignContent, AlignItems, AlignSelf, BorderRadius, Declaration, Direction, DisplayMode,
    FlexDirection, FlexWrap, JustifyContent, Length, Overflow, PositionType, UiRect,
};
use vstd::prelude::*;
use vstd::string::*;

verus! {

/// The properties that the declaration parser knows.
#[derive(Clone, Copy, Debug, PartialEq, Eq, Structural)]
pub enum Property {
    Display,
    PositionType,
    Direction,
    FlexDirection,
    FlexWrap,
    AlignItems,
    AlignSelf,
    AlignContent,
    JustifyContent,
    Position,
    Margin,
    Padding,
    Border,
    BorderRadius,
    Width,
    Height,
    MinWidth,
    MaxWidth,
    MinHeight,
    MaxHeight,
    AspectRatio,
    Overflow,
    BackgroundColor,
    Color,
    FontSize,
    CustomProperty,
}

/// The property that a name stands for, letters compared without regard to ASCII case.
pub open spec fn property_named(name: Seq<char>) -> Option<Property> {
    if eq_ignoring_ascii_case(name, "display"@) {
        Some(Property::Display)
    } else if eq_ignoring_ascii_case(name, "position-type"@) {
        Some(Property::PositionType)
    } else if eq_ignoring_ascii_case(name, "direction"@) {
        Some(Property::Direction)
    } else if eq_ignoring_ascii_case(name, "flex-direction"@) {
        Some(Property::FlexDirection)
    } else if eq_ignoring_ascii_case(name, "flex-wrap"@) {
        Some(Property::FlexWrap)
    } else if eq_ignoring_ascii_case(name, "align-items"@) {
        Some(Property::AlignItems)
    } else if eq_ignoring_ascii_case(name, "align-self"@) {
        Some(Property::AlignSelf)
    } else if eq_ignoring_ascii_case(name, "align-content"@) {
        Some(Property::AlignContent)
    } else if eq_ignoring_ascii_case(name, "justify-content"@) {
        Some(Property::JustifyContent)
    } else if eq_ignoring_ascii_case(name, "position"@) {
        Some(Property::Position)
    } else if eq_ignoring_ascii_case(name, "margin"@) {
        Some(Property::Margin)
    } else if eq_ignoring_ascii_case(name, "padding"@) {
        Some(Property::Padding)
    } else if eq_ignoring_ascii_case(name, "border"@) {
        Some(Property::Border)
    } else if eq_ignoring_ascii_case(name, "border-radius"@) {
        Some(Property::BorderRadius)
    } else if eq_ignoring_ascii_case(name, "width"@) {
        Some(Property::Width)
    } else if eq_ignoring_ascii_case(name, "height"@) {
        Some(Property::Height)
    } else if eq_ignoring_ascii_case(name, "min-width"@) {
        Some(Property::MinWidth)
    } else if eq_ignoring_ascii_case(name, "max-width"@) {
        Some(Property::MaxWidth)
    } else if eq_ignoring_ascii_case(name, "min-height"@) {
        Some(Property::MinHeight)
    } else if eq_ignoring_ascii_case(name, "max-height"@) {
        Some(Property::MaxHeight)
    } else if eq_ignoring_ascii_case(name, "aspect-ratio"@) {
        Some(Property::AspectRatio)
    } else if eq_ignoring_ascii_case(name, "overflow"@) {
        Some(Property::Overflow)
    } else if eq_ignoring_ascii_case(name, "background-color"@) {
        Some(Property::BackgroundColor)
    } else if eq_ignoring_ascii_case(name, "color"@) {
        Some(Property::Color)
    } else if eq_ignoring_ascii_case(name, "font-size"@) {
        Some(Property::FontSize)
    } else if eq_ignoring_ascii_case(name, "custom-property"@) {
        Some(Property::CustomProperty)
    } else {
        None
    }
}

pub fn property_named_by(name: &str) -> (r: Option<Property>)
    ensures
        r == property_named(name@),
{
    if eq_ignore_ascii_case(name, "display") {
        Some(Property::Display)
    } else if eq_ignore_ascii_case(name, "position-type") {
        Some(Property::PositionType)
    } else if eq_ignore_ascii_case(name, "direction") {
        Some(Property::Direction)
    } else if eq_ignore_ascii_case(name, "flex-direction") {
        Some(Property::FlexDirection)
    } else if eq_ignore_ascii_case(name, "flex-wrap") {
        Some(Property::FlexWrap)
    } else if eq_ignore_ascii_case(name, "align-items") {
        Some(Property::AlignItems)
    } else if eq_ignore_ascii_case(name, "align-self") {
        Some(Property::AlignSelf)
    } else if eq_ignore_ascii_case(name, "align-content") {
        Some(Property::AlignContent)
    } else if eq_ignore_ascii_case(name, "justify-content") {
        Some(Property::JustifyContent)
    } else if eq_ignore_ascii_case(name, "position") {
        Some(Property::Position)
    } else if eq_ignore_ascii_case(name, "margin") {
        Some(Property::Margin)
    } else if eq_ignore_ascii_case(name, "padding") {
        Some(Property::Padding)
    } else if eq_ignore_ascii_case(name, "border") {
        Some(Property::Border)
    } else if eq_ignore_ascii_case(name, "border-radius") {
        Some(Property::BorderRadius)
    } else if eq_ignore_ascii_case(name, "width") {
        Some(Property::Width)
    } else if eq_ignore_ascii_case(name, "height") {
        Some(Property::Height)
    } else if eq_ignore_ascii_case(name, "min-width") {
        Some(Property::MinWidth)
    } else if eq_ignore_ascii_case(name, "max-width") {
        Some(Property::MaxWidth)
    } else if eq_ignore_ascii_case(name, "min-height") {
        Some(Property::MinHeight)
    } else if eq_ignore_ascii_case(name, "max-height") {
        Some(Property::MaxHeight)
    } else if eq_ignore_ascii_case(name, "aspect-ratio") {
        Some(Property::AspectRatio)
    } else if eq_ignore_ascii_case(name, "overflow") {
        Some(Property::Overflow)
    } else if eq_ignore_ascii_case(name, "background-color") {
        Some(Property::BackgroundColor)
    } else if eq_ignore_ascii_case(name, "color") {
        Some(Property::Color)
    } else if eq_ignore_ascii_case(name, "font-size") {
        Some(Property::FontSize)
    } else if eq_ignore_ascii_case(name, "custom-property") {
        Some(Property::CustomProperty)
    } else {
        None
    }
}

/// The declaration that a keyword gives for a property whose values are keywords.
pub open spec fn keyword_declaration(prop: Property, w: Seq<char>) -> Option<Declaration> {
    match prop {
        Property::Display => {
            if eq_ignoring_ascii_case(w, "none"@) {
                Some(Declaration::Display(DisplayMode::Hidden))
            } else if eq_ignoring_ascii_case(w, "flex"@) {
                Some(Declaration::Display(DisplayMode::Flex))
            } else {
                None
            }
        },
        Property::PositionType => {
            if eq_ignoring_ascii_case(w, "absolute"@) {
                Some(Declaration::PositionType(PositionType::Absolute))
            } else if eq_ignoring_ascii_case(w, "relative"@) {
                Some(Declaration::PositionType(PositionType::Relative))
            } else {
                None
            }
        },
        Property::Direction => {
            if eq_ignoring_ascii_case(w, "inherit"@) {
                Some(Declaration::Direction(Direction::Inherit))
            } else if eq_ignoring_ascii_case(w, "ltr"@) {
                Some(Declaration::Direction(Direction::LeftToRight))
            } else if eq_ignoring_ascii_case(w, "rtl"@) {
                Some(Declaration::Direction(Direction::RightToLeft))
            } else {
                None
            }
        },
        Property::FlexDirection => {
            if eq_ignoring_ascii_case(w, "row"@) {
                Some(Declaration::FlexDirection(FlexDirection::Row))
            } else if eq_ignoring_ascii_case(w, "column"@) {
                Some(Declaration::FlexDirection(FlexDirection::Column))
            } else if eq_ignoring_ascii_case(w, "row-reverse"@) {
                Some(Declaration::FlexDirection(FlexDirection::RowReverse))
            } else if eq_ignoring_ascii_case(w, "column-reverse"@) {
                Some(Declaration::FlexDirection(FlexDirection::ColumnReverse))
            } else {
                None
            }
        },
        Property::FlexWrap => {
            if eq_ignoring_ascii_case(w, "nowrap"@) {
                Some(Declaration::FlexWrap(FlexWrap::NoWrap))
            } else if eq_ignoring_ascii_case(w, "wrap"@) {
                Some(Declaration::FlexWrap(FlexWrap::Wrap))
            } else if eq_ignoring_ascii_case(w, "wrap-reverse"@) {
                Some(Declaration::FlexWrap(FlexWrap::WrapReverse))
            } else {
                None
            }
        },
        Property::AlignItems => {
            if eq_ignoring_ascii_case(w, "flex-start"@) {
                Some(Declaration::AlignItems(AlignItems::FlexStart))
            } else if eq_ignoring_ascii_case(w, "flex-end"@) {
                Some(Declaration::AlignItems(AlignItems::FlexEnd))
            } else if eq_ignoring_ascii_case(w, "center"@) {
                Some(Declaration::AlignItems(AlignItems::Center))
            } else if eq_ignoring_ascii_case(w, "baseline"@) {
                Some(Declaration::AlignItems(AlignItems::Baseline))
            } else if eq_ignoring_ascii_case(w, "stretch"@) {
                Some(Declaration::AlignItems(AlignItems::Stretch))
            } else {
                None
            }
        },
        Property::AlignSelf => {
            if eq_ignoring_ascii_case(w, "auto"@) {
                Some(Declaration::AlignSelf(AlignSelf::Auto))
            } else if eq_ignoring_ascii_case(w, "flex-start"@) {
                Some(Declaration::AlignSelf(AlignSelf::FlexStart))
            } else if eq_ignoring_ascii_case(w, "flex-end"@) {
                Some(Declaration::AlignSelf(AlignSelf::FlexEnd))
            } else if eq_ignoring_ascii_case(w, "center"@) {
                Some(Declaration::AlignSelf(AlignSelf::Center))
            } else if eq_ignoring_ascii_case(w, "baseline"@) {
                Some(Declaration::AlignSelf(AlignSelf::Baseline))
            } else if eq_ignoring_ascii_case(w, "stretch"@) {
                Some(Declaration::AlignSelf(AlignSelf::Stretch))
            } else {
                None
            }
        },
        Property::AlignContent => {
            if eq_ignoring_ascii_case(w, "flex-start"@) {
                Some(Declaration::AlignContent(AlignContent::FlexStart))
            } else if eq_ignoring_ascii_case(w, "flex-end"@) {
                Some(Declaration::AlignContent(AlignContent::FlexEnd))
            } else if eq_ignoring_ascii_case(w, "center"@) {
                Some(Declaration::AlignContent(AlignContent::Center))
            } else if eq_ignoring_ascii_case(w, "space-between"@) {
                Some(Declaration::AlignContent(AlignContent::SpaceBetween))
            } else if eq_ignoring_ascii_case(w, "space-around"@) {
                Some(Declaration::AlignContent(AlignContent::SpaceAround))
            } else if eq_ignoring_ascii_case(w, "stretch"@) {
                Some(Declaration::AlignContent(AlignContent::Stretch))
            } else {
                None
            }
        },
        Property::JustifyContent => {
            if eq_ignoring_ascii_case(w, "flex-start"@) {
                Some(Declaration::JustifyContent(JustifyContent::FlexStart))
            } else if eq_ignoring_ascii_case(w, "flex-end"@) {
                Some(Declaration::JustifyContent(JustifyContent::FlexEnd))
            } else if eq_ignoring_ascii_case(w, "center"@) {
                Some(Declaration::JustifyContent(JustifyContent::Center))
            } else if eq_ignoring_ascii_case(w, "space-between"@) {
                Some(Declaration::JustifyContent(JustifyContent::SpaceBetween))
            } else if eq_ignoring_ascii_case(w, "space-around"@) {
                Some(Declaration::JustifyContent(JustifyContent::SpaceAround))
            } else if eq_ignoring_ascii_case(w, "space-evenly"@) {
                Some(Declaration::JustifyContent(JustifyContent::SpaceEvenly))
            } else {
                None
            }
        },
        Property::Overflow => {
            if eq_ignoring_ascii_case(w, "visible"@) {
                Some(Declaration::Overflow(Overflow::Visible))
            } else if eq_ignoring_ascii_case(w, "hidden"@) {
                Some(Declaration::Overflow(Overflow::Hidden))
            } else if eq_ignoring_ascii_case(w, "scroll"@) {
                Some(Declaration::Overflow(Overflow::Scroll))
            } else {
                None
            }
        },
        _ => None,
    }
}

pub fn keyword_declaration_of(prop: Property, w: &str) -> (r: Option<Declaration>)
    ensures
        r == keyword_declaration(prop, w@),
{
    match prop {
        Property::Display => {
            if eq_ignore_ascii_case(w, "none") {
                Some(Declaration::Display(DisplayMode::Hidden))
            } else if eq_ignore_ascii_case(w, "flex") {
                Some(Declaration::Display(DisplayMode::Flex))
            } else {
                None
            }
        },
        Property::PositionType => {
            if eq_ignore_ascii_case(w, "absolute") {
                Some(Declaration::PositionType(PositionType::Absolute))
            } else if eq_ignore_ascii_case(w, "relative") {
                Some(Declaration::PositionType(PositionType::Relative))
            } else {
                None
            }
        },
        Property::Direction => {
            if eq_ignore_ascii_case(w, "inherit") {
                Some(Declaration::Direction(Direction::Inherit))
            } else if eq_ignore_ascii_case(w, "ltr") {
                Some(Declaration::Direction(Direction::LeftToRight))
            } else if eq_ignore_ascii_case(w, "rtl") {
                Some(Declaration::Direction(Direction::RightToLeft))
            } else {
                None
            }
        },
        Property::FlexDirection => {
            if eq_ignore_ascii_case(w, "row") {
                Some(Declaration::FlexDirection(FlexDirection::Row))
            } else if eq_ignore_ascii_case(w, "column") {
                Some(Declaration::FlexDirection(FlexDirection::Column))
            } else if eq_ignore_ascii_case(w, "row-reverse") {
                Some(Declaration::FlexDirection(FlexDirection::RowReverse))
            } else if eq_ignore_ascii_case(w, "column-reverse") {
                Some(Declaration::FlexDirection(FlexDirection::ColumnReverse))
            } else {
                None
            }
        },
        Property::FlexWrap => {
            if eq_ignore_ascii_case(w, "nowrap") {
                Some(Declaration::FlexWrap(FlexWrap::NoWrap))
            } else if eq_ignore_ascii_case(w, "wrap") {
                Some(Declaration::FlexWrap(FlexWrap::Wrap))
            } else if eq_ignore_ascii_case(w, "wrap-reverse") {
                Some(Declaration::FlexWrap(FlexWrap::WrapReverse))
            } else {
                None
            }
        },
        Property::AlignItems => {
            if eq_ignore_ascii_case(w, "flex-start") {
                Some(Declaration::AlignItems(AlignItems::FlexStart))
            } else if eq_ignore_ascii_case(w, "flex-end") {
                Some(Declaration::AlignItems(AlignItems::FlexEnd))
            } else if eq_ignore_ascii_case(w, "center") {
                Some(Declaration::AlignItems(AlignItems::Center))
            } else if eq_ignore_ascii_case(w, "baseline") {
                Some(Declaration::AlignItems(AlignItems::Baseline))
            } else if eq_ignore_ascii_case(w, "stretch") {
                Some(Declaration::AlignItems(AlignItems::Stretch))
            } else {
                None
            }
        },
        Property::AlignSelf => {
            if eq_ignore_ascii_case(w, "auto") {
                Some(Declaration::AlignSelf(AlignSelf::Auto))
            } else if eq_ignore_ascii_case(w, "flex-start") {
                Some(Declaration::AlignSelf(AlignSelf::FlexStart))
            } else if eq_ignore_ascii_case(w, "flex-end") {
                Some(Declaration::AlignSelf(AlignSelf::FlexEnd))
            } else if eq_ignore_ascii_case(w, "center") {
                Some(Declaration::AlignSelf(AlignSelf::Center))
            } else if eq_ignore_ascii_case(w, "baseline") {
                Some(Declaration::AlignSelf(AlignSelf::Baseline))
            } else if eq_ignore_ascii_case(w, "stretch") {
                Some(Declaration::AlignSelf(AlignSelf::Stretch))
            } else {
                None
            }
        },
        Property::AlignContent => {
            if eq_ignore_ascii_case(w, "flex-start") {
                Some(Declaration::AlignContent(AlignContent::FlexStart))
            } else if eq_ignore_ascii_case(w, "flex-end") {
                Some(Declaration::AlignContent(AlignContent::FlexEnd))
            } else if eq_ignore_ascii_case(w, "center") {
                Some(Declaration::AlignContent(AlignContent::Center))
            } else if eq_ignore_ascii_case(w, "space-between") {
                Some(Declaration::AlignContent(AlignContent::SpaceBetween))
            } else if eq_ignore_ascii_case(w, "space-around") {
                Some(Declaration::AlignContent(AlignContent::SpaceAround))
            } else if eq_ignore_ascii_case(w, "stretch") {
                Some(Declaration::AlignContent(AlignContent::Stretch))
            } else {
                None
            }
        },
        Property::JustifyContent => {
            if eq_ignore_ascii_case(w, "flex-start") {
                Some(Declaration::JustifyContent(JustifyContent::FlexStart))
            } else if eq_ignore_ascii_case(w, "flex-end") {
                Some(Declaration::JustifyContent(JustifyContent::FlexEnd))
            } else if eq_ignore_ascii_case(w, "center") {
                Some(Declaration::JustifyContent(JustifyContent::Center))
            } else if eq_ignore_ascii_case(w, "space-between") {
                Some(Declaration::JustifyContent(JustifyContent::SpaceBetween))
            } else if eq_ignore_ascii_case(w, "space-around") {
                Some(Declaration::JustifyContent(JustifyContent::SpaceAround))
            } else if eq_ignore_ascii_case(w, "space-evenly") {
                Some(Declaration::JustifyContent(JustifyContent::SpaceEvenly))
            } else {
                None
            }
        },
        Property::Overflow => {
            if eq_ignore_ascii_case(w, "visible") {
                Some(Declaration::Overflow(Overflow::Visible))
            } else if eq_ignore_ascii_case(w, "hidden") {
                Some(Declaration::Overflow(Overflow::Hidden))
            } else if eq_ignore_ascii_case(w, "scroll") {
                Some(Declaration::Overflow(Overflow::Scroll))
            } else {
                None
            }
        },
        _ => None,
    }
}

/// The properties whose value is one keyword.
pub open spec fn is_keyword_property(prop: Property) -> bool {
    ||| prop is Display
    ||| prop is PositionType
    ||| prop is Direction
    ||| prop is FlexDirection
    ||| prop is FlexWrap
    ||| prop is AlignItems
    ||| prop is AlignSelf
    ||| prop is AlignContent
    ||| prop is JustifyContent
    ||| prop is Overflow
}

/// The declaration that a length gives for a property whose value is one length.
pub open spec fn length_declaration(prop: Property, v: Length) -> Option<Declaration> {
    match prop {
        Property::Width => Some(Declaration::Width(v)),
        Property::Height => Some(Declaration::Height(v)),
        Property::MinWidth => Some(Declaration::MinWidth(v)),
        Property::MaxWidth => Some(Declaration::MaxWidth(v)),
        Property::MinHeight => Some(Declaration::MinHeight(v)),
        Property::MaxHeight => Some(Declaration::MaxHeight(v)),
        Property::FontSize => Some(Declaration::FontSize(v)),
        _ => None,
    }
}

/// The declaration that box edges give for a property whose value is box edges; the
/// corner radii take the edges in the order top, right, bottom, left as top-left,
/// top-right, bottom-right, bottom-left.
pub open spec fn rect_declaration(prop: Property, r: UiRect) -> Option<Declaration> {
    match prop {
        Property::Position => Some(Declaration::Position(r)),
        Property::Margin => Some(Declaration::Margin(r)),
        Property::Padding => Some(Declaration::Padding(r)),
        Property::Border => Some(Declaration::Border(r)),
        Property::BorderRadius => Some(
            Declaration::BorderRadius(
                BorderRadius {
                    top_left: r.top,
                    top_right: r.right,
                    bottom_right: r.bottom,
                    bottom_left: r.left,
                },
            ),
        ),
        _ => None,
    }
}

/// The properties whose value is box edges.
pub open spec fn is_rect_property(prop: Property) -> bool {
    prop is Position || prop is Margin || prop is Padding || prop is Border || prop is BorderRadius
}

/// The properties whose value is one length.
pub open spec fn is_length_property(prop: Property) -> bool {
    ||| prop is Width
    ||| prop is Height
    ||| prop is MinWidth
    ||| prop is MaxWidth
    ||| prop is MinHeight
    ||| prop is MaxHeight
    ||| prop is FontSize
}

} // verus!
