//! The cascade: the rules that match an element laid on one another in a fixed order,
//! then every unset slot filled with its default.
use crate::rules::{table_lookup, CssRules, Table};
use crate::text::string_views;
use crate::types::{
    color_channels, merged, rgba, unset_properties, AlignContent, AlignItems, AlignSelf,
    BorderRadius, CssColor, Direction, DisplayMode, FlexDirection, FlexWrap, JustifyContent,
    Length, Number, Overflow, PositionType, Rgba, StyleProperties, UiRect,
    DEFAULT_FONT_SIZE_BITS,
};
use vstd::prelude::*;
use vstd::string::*;

verus! {

/// `base` with the record found for a selector laid on it, if one was found.
pub open spec fn layer(base: StyleProperties, found: Option<StyleProperties>) -> StyleProperties {
    match found {
        Some(p) => merged(base, p),
        None => base,
    }
}

/// The selector of a class: `.` and the class name.
pub open spec fn class_selector(class: Seq<char>) -> Seq<char> {
    seq!['.'] + class
}

/// The selector of an id: `#` and the id.
pub open spec fn id_selector(id: Seq<char>) -> Seq<char> {
    seq!['#'] + id
}

/// `base` with the rules of `classes` laid on it, first class first.
pub open spec fn with_classes(t: Table, base: StyleProperties, classes: Seq<Seq<char>>) -> StyleProperties
    decreases classes.len(),
{
    if classes.len() == 0 {
        base
    } else {
        with_classes(t, layer(base, table_lookup(t, class_selector(classes[0]))), classes.drop_first())
    }
}

/// The merged record of an element: its tag's rule, then the rule of each class in the
/// order the classes were written, then its id's rule; each one overrides, slot by
/// slot, what it sets.
pub open spec fn cascade(
    t: Table,
    tag: Seq<char>,
    id: Option<Seq<char>>,
    classes: Seq<Seq<char>>,
) -> StyleProperties {
    let after_classes = with_classes(t, layer(unset_properties(), table_lookup(t, tag)), classes);
    match id {
        Some(i) => layer(after_classes, table_lookup(t, id_selector(i))),
        None => after_classes,
    }
}

pub open spec fn option_view(o: Option<String>) -> Option<Seq<char>> {
    match o {
        Some(s) => Some(s@),
        None => None,
    }
}

fn lay_rule(base: &mut StyleProperties, rules: &CssRules, sel: &String)
    ensures
        *final(base) == layer(*old(base), table_lookup(rules@, sel@)),
{
    match rules.get(sel) {
        Some(p) => base.merge_from(p),
        None => {},
    }
}

/// A one-character prefix followed by `name`.
fn prefixed(prefix: &str, name: &String) -> (r: String)
    requires
        prefix@.len() == 1,
    ensures
        r@ == prefix@ + name@,
{
    let mut s = String::from_str(prefix);
    s.append(name.as_str());
    s
}

/// Computes the merged record of an element with tag `tag`, id `id` and classes
/// `classes`, in the cascade order tag, classes, id.
pub fn compute_element_styles(
    tag: &String,
    id: &Option<String>,
    classes: &Vec<String>,
    rules: &CssRules,
) -> (r: StyleProperties)
    ensures
        r == cascade(rules@, tag@, option_view(*id), string_views(classes@)),
{
    let mut computed = StyleProperties::default();
    lay_rule(&mut computed, rules, tag);
    let ghost after_tag = computed;
    let mut i: usize = 0;
    proof {
        reveal_strlit("#");
        assert(string_views(classes@).skip(0) =~= string_views(classes@));
    }
    while i < classes.len()
        invariant
            i <= classes.len(),
            with_classes(rules@, computed, string_views(classes@).skip(i as int)) == with_classes(
                rules@,
                after_tag,
                string_views(classes@),
            ),
        decreases classes.len() - i,
    {
        proof {
            reveal_strlit(".");
        }
        let sel = prefixed(".", &classes[i]);
        assert(sel@ == class_selector(string_views(classes@).skip(i as int)[0]));
        assert(string_views(classes@).skip(i as int).drop_first() =~= string_views(classes@).skip(
            i + 1,
        ));
        lay_rule(&mut computed, rules, &sel);
        i += 1;
    }
    assert(string_views(classes@).skip(i as int) =~= Seq::<Seq<char>>::empty());
    match id {
        Some(id) => {
            let sel = prefixed("#", id);
            assert(sel@ == id_selector(id@));
            lay_rule(&mut computed, rules, &sel);
        },
        None => {},
    }
    computed
}

/// The fully defaulted layout record handed to a host.
#[derive(Clone, Copy, Debug, PartialEq, Eq, Structural)]
pub struct Style {
    pub display: DisplayMode,
    pub position_type: PositionType,
    pub direction: Direction,
    pub flex_direction: FlexDirection,
    pub flex_wrap: FlexWrap,
    pub align_items: AlignItems,
    pub align_self: AlignSelf,
    pub align_content: AlignContent,
    pub justify_content: JustifyContent,
    pub position: UiRect,
    pub margin: UiRect,
    pub padding: UiRect,
    pub border: UiRect,
    pub width: Length,
    pub height: Length,
    pub min_width: Length,
    pub max_width: Length,
    pub min_height: Length,
    pub max_height: Length,
    pub aspect_ratio: Option<Number>,
    pub overflow: Overflow,
}

pub open spec fn or_default<T>(o: Option<T>, d: T) -> T {
    match o {
        Some(v) => v,
        None => d,
    }
}

/// Box edges that are all unset.
pub open spec fn unset_rect() -> UiRect {
    UiRect {
        left: Length::Undefined,
        right: Length::Undefined,
        top: Length::Undefined,
        bottom: Length::Undefined,
    }
}

/// The layout record of a merged record: each set slot as it is, each unset one at its
/// default (flex layout, relative position, inherited direction, row, no wrap, stretch,
/// auto self-alignment, stretch, start, unset edges, `auto` dimensions, visible overflow).
pub open spec fn style_of(p: StyleProperties) -> Style {
    Style {
        display: or_default(p.display, DisplayMode::Flex),
        position_type: or_default(p.position_type, PositionType::Relative),
        direction: or_default(p.direction, Direction::Inherit),
        flex_direction: or_default(p.flex_direction, FlexDirection::Row),
        flex_wrap: or_default(p.flex_wrap, FlexWrap::NoWrap),
        align_items: or_default(p.align_items, AlignItems::Stretch),
        align_self: or_default(p.align_self, AlignSelf::Auto),
        align_content: or_default(p.align_content, AlignContent::Stretch),
        justify_content: or_default(p.justify_content, JustifyContent::FlexStart),
        position: or_default(p.position, unset_rect()),
        margin: or_default(p.margin, unset_rect()),
        padding: or_default(p.padding, unset_rect()),
        border: or_default(p.border, unset_rect()),
        width: or_default(p.width, Length::Auto),
        height: or_default(p.height, Length::Auto),
        min_width: or_default(p.min_width, Length::Auto),
        max_width: or_default(p.max_width, Length::Auto),
        min_height: or_default(p.min_height, Length::Auto),
        max_height: or_default(p.max_height, Length::Auto),
        aspect_ratio: p.aspect_ratio,
        overflow: or_default(p.overflow, Overflow::Visible),
    }
}

fn unwrap_or<T: Copy>(o: Option<T>, d: T) -> (r: T)
    ensures
        r == or_default(o, d),
{
    match o {
        Some(v) => v,
        None => d,
    }
}

/// Fills every unset slot of a merged record with its default.
pub fn convert_css_to_bevy_style(p: &StyleProperties) -> (r: Style)
    ensures
        r == style_of(*p),
{
    let unset = UiRect::all(Length::Undefined);
    Style {
        display: unwrap_or(p.display, DisplayMode::Flex),
        position_type: unwrap_or(p.position_type, PositionType::Relative),
        direction: unwrap_or(p.direction, Direction::Inherit),
        flex_direction: unwrap_or(p.flex_direction, FlexDirection::Row),
        flex_wrap: unwrap_or(p.flex_wrap, FlexWrap::NoWrap),
        align_items: unwrap_or(p.align_items, AlignItems::Stretch),
        align_self: unwrap_or(p.align_self, AlignSelf::Auto),
        align_content: unwrap_or(p.align_content, AlignContent::Stretch),
        justify_content: unwrap_or(p.justify_content, JustifyContent::FlexStart),
        position: unwrap_or(p.position, unset),
        margin: unwrap_or(p.margin, unset),
        padding: unwrap_or(p.padding, unset),
        border: unwrap_or(p.border, unset),
        width: unwrap_or(p.width, Length::Auto),
        height: unwrap_or(p.height, Length::Auto),
        min_width: unwrap_or(p.min_width, Length::Auto),
        max_width: unwrap_or(p.max_width, Length::Auto),
        min_height: unwrap_or(p.min_height, Length::Auto),
        max_height: unwrap_or(p.max_height, Length::Auto),
        aspect_ratio: p.aspect_ratio,
        overflow: unwrap_or(p.overflow, Overflow::Visible),
    }
}

/// The selector that a host element is styled by.
#[derive(Clone, Debug)]
pub struct CssSelector(pub String);

/// The style of a host element tagged with `selector`: the record of that selector's
/// rule with every unset slot at its default; `None` where no rule has the selector.
pub fn apply_css_system(rules: &CssRules, selector: &CssSelector) -> (r: Option<Style>)
    ensures
        r == (match table_lookup(rules@, selector.0@) {
            Some(p) => Some(style_of(p)),
            None => None,
        }),
{
    match rules.get(&selector.0) {
        Some(p) => Some(convert_css_to_bevy_style(p)),
        None => None,
    }
}

/// The channels of a decoded color.
pub fn css_color_to_bevy_color(c: &CssColor) -> (r: Rgba)
    ensures
        r == color_channels(*c),
{
    match c {
        CssColor::Red => Rgba { red: 255, green: 0, blue: 0, alpha: 255 },
        CssColor::Green => Rgba { red: 0, green: 255, blue: 0, alpha: 255 },
        CssColor::Blue => Rgba { red: 0, green: 0, blue: 255, alpha: 255 },
        CssColor::White => Rgba { red: 255, green: 255, blue: 255, alpha: 255 },
        CssColor::Black => Rgba { red: 0, green: 0, blue: 0, alpha: 255 },
        CssColor::Transparent => Rgba { red: 0, green: 0, blue: 0, alpha: 0 },
        CssColor::Hex(c) => *c,
    }
}

/// The background color of a merged record; transparent where unset.
pub open spec fn background_of(p: StyleProperties) -> Rgba {
    match p.background_color {
        Some(c) => color_channels(c),
        None => rgba(0, 0, 0, 0),
    }
}

/// The text color of a merged record; black where unset.
pub open spec fn text_color_of(p: StyleProperties) -> Rgba {
    match p.color {
        Some(c) => color_channels(c),
        None => rgba(0, 0, 0, 255),
    }
}

/// The font size of a merged record in pixels; 16 pixels where it is unset or not
/// given in pixels.
pub open spec fn font_size_of(p: StyleProperties) -> Length {
    match p.font_size {
        Some(Length::Px(v)) => Length::Px(v),
        _ => Length::Px(Number { bits: DEFAULT_FONT_SIZE_BITS }),
    }
}

/// The background color of a merged record; transparent where unset.
pub fn extract_background_color(p: &StyleProperties) -> (r: Rgba)
    ensures
        r == background_of(*p),
{
    match &p.background_color {
        Some(c) => css_color_to_bevy_color(c),
        None => Rgba { red: 0, green: 0, blue: 0, alpha: 0 },
    }
}

/// The text color of a merged record; black where unset.
pub fn extract_text_color(p: &StyleProperties) -> (r: Rgba)
    ensures
        r == text_color_of(*p),
{
    match &p.color {
        Some(c) => css_color_to_bevy_color(c),
        None => Rgba { red: 0, green: 0, blue: 0, alpha: 255 },
    }
}

/// The font size of a merged record in pixels; 16 pixels where it is unset or not
/// given in pixels.
pub fn extract_font_size(p: &StyleProperties) -> (r: Length)
    ensures
        r == font_size_of(*p),
{
    match p.font_size {
        Some(Length::Px(v)) => Length::Px(v),
        _ => Length::Px(Number { bits: DEFAULT_FONT_SIZE_BITS }),
    }
}

/// The corner radii of a merged record; square corners (zero pixels) where unset.
pub fn extract_border_radius(p: &StyleProperties) -> (r: BorderRadius)
    ensures
        r == or_default(
            p.border_radius,
            BorderRadius {
                top_left: Length::Px(Number { bits: 0 }),
                top_right: Length::Px(Number { bits: 0 }),
                bottom_right: Length::Px(Number { bits: 0 }),
                bottom_left: Length::Px(Number { bits: 0 }),
            },
        ),
{
    let zero = Length::Px(Number { bits: 0 });
    unwrap_or(
        p.border_radius,
        BorderRadius { top_left: zero, top_right: zero, bottom_right: zero, bottom_left: zero },
    )
}

} // verus!
