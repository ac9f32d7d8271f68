//! The element tree built from a markup walk, each element with the style that the
//! cascade gives it.
use crate::cascade::{
    background_of, cascade, compute_element_styles, convert_css_to_bevy_style,
    extract_background_color, extract_font_size, extract_text_color, font_size_of, style_of,
    text_color_of, Style,
};
use crate::markup::{attr_value, find_attr, MarkupEvent};
use crate::rules::{CssRules, Table};
use crate::text::{split_whitespace, split_words, string_views, trim, trimmed};
use crate::types::{Length, Rgba};
use vstd::prelude::*;
use vstd::string::*;

verus! {

/// An element: its tag, id, classes and own text, its children, and its computed style.
#[derive(Debug)]
pub struct UIElement {
    pub tag: String,
    pub id: Option<String>,
    pub classes: Vec<String>,
    pub text: String,
    pub children: Vec<UIElement>,
    pub computed_style: Style,
    pub background_color: Rgba,
    pub text_color: Rgba,
    pub font_size: Length,
}

/// What an element holds, with text as character sequences.
pub struct ElementView {
    pub tag: Seq<char>,
    pub id: Option<Seq<char>>,
    pub classes: Seq<Seq<char>>,
    pub text: Seq<char>,
    pub children: Seq<ElementView>,
    pub computed_style: Style,
    pub background_color: Rgba,
    pub text_color: Rgba,
    pub font_size: Length,
}

pub open spec fn option_view(o: Option<String>) -> Option<Seq<char>> {
    match o {
        Some(s) => Some(s@),
        None => None,
    }
}

pub open spec fn element_view(e: UIElement) -> ElementView
    decreases e,
{
    ElementView {
        tag: e.tag@,
        id: option_view(e.id),
        classes: string_views(e.classes@),
        text: e.text@,
        children: Seq::new(
            e.children.len() as nat,
            |i: int|
                if 0 <= i < e.children.len() {
                    element_view(e.children[i])
                } else {
                    empty_view()
                },
        ),
        computed_style: e.computed_style,
        background_color: e.background_color,
        text_color: e.text_color,
        font_size: e.font_size,
    }
}

pub open spec fn views_of(v: Seq<UIElement>) -> Seq<ElementView> {
    Seq::new(v.len(), |i: int| element_view(v[i]))
}

pub open spec fn empty_view() -> ElementView {
    ElementView {
        tag: seq![],
        id: None,
        classes: seq![],
        text: seq![],
        children: seq![],
        computed_style: style_of(crate::types::unset_properties()),
        background_color: background_of(crate::types::unset_properties()),
        text_color: text_color_of(crate::types::unset_properties()),
        font_size: font_size_of(crate::types::unset_properties()),
    }
}

/// The classes that a `class` attribute lists.
pub open spec fn classes_of(attrs: Seq<(String, String)>) -> Seq<Seq<char>> {
    match attr_value(attrs, "class"@) {
        Some(c) => split_words(c),
        None => seq![],
    }
}

/// The element with tag `tag` and attributes `attrs`, own text `text` (before trimming)
/// and children `children`, styled by the rules of `t`.
pub open spec fn make_element(
    tag: Seq<char>,
    attrs: Seq<(String, String)>,
    text: Seq<char>,
    children: Seq<ElementView>,
    t: Table,
) -> ElementView {
    let id = attr_value(attrs, "id"@);
    let props = cascade(t, tag, id, classes_of(attrs));
    ElementView {
        tag,
        id,
        classes: classes_of(attrs),
        text: trim(text),
        children,
        computed_style: style_of(props),
        background_color: background_of(props),
        text_color: text_color_of(props),
        font_size: font_size_of(props),
    }
}

/// Reads the contents of a node from `pos` up to its closing event: the text of its
/// text children is added to `text`, and each element child, built whole, to `kids`.
/// Other nodes are passed over with their contents; every child, text included, ends
/// with its own closing event. Gives the text, the children and
/// the position after the closing event.
pub open spec fn content(
    ev: Seq<MarkupEvent>,
    pos: int,
    t: Table,
    text: Seq<char>,
    kids: Seq<ElementView>,
) -> (Seq<char>, Seq<ElementView>, int)
    decreases ev.len() - pos, 1int,
{
    if pos < 0 || pos >= ev.len() {
        (text, kids, ev.len() as int)
    } else {
        match ev[pos] {
            MarkupEvent::Close => (text, kids, pos + 1),
            MarkupEvent::Text(s) => {
                let end = content(ev, pos + 1, t, seq![], seq![]).2;
                if pos < end <= ev.len() {
                    content(ev, end, t, text + s@, kids)
                } else {
                    (text, kids, ev.len() as int)
                }
            },
            MarkupEvent::OtherOpen => {
                let end = content(ev, pos + 1, t, seq![], seq![]).2;
                if pos < end <= ev.len() {
                    content(ev, end, t, text, kids)
                } else {
                    (text, kids, ev.len() as int)
                }
            },
            MarkupEvent::Open(_, _) => {
                let end = element_at(ev, pos, t).1;
                if pos < end <= ev.len() {
                    content(ev, end, t, text, kids.push(element_at(ev, pos, t).0))
                } else {
                    (text, kids, ev.len() as int)
                }
            },
        }
    }
}

/// The element that opens at `pos`, with all its descendants, and the position after
/// its closing event. Its text is that of its own text children, trimmed.
pub open spec fn element_at(ev: Seq<MarkupEvent>, pos: int, t: Table) -> (ElementView, int)
    decreases ev.len() - pos, 0int,
{
    if 0 <= pos < ev.len() {
        match ev[pos] {
            MarkupEvent::Open(tag, attrs) => {
                let c = content(ev, pos + 1, t, seq![], seq![]);
                (make_element(tag@, attrs@, c.0, c.1, t), c.2)
            },
            _ => (empty_view(), pos + 1),
        }
    } else {
        (empty_view(), pos + 1)
    }
}

/// Builds the element with tag `tag` and attributes `attrs`: its id and classes from
/// the attributes, its text trimmed, its style from the cascade over `rules`.
pub(crate) fn make_ui_element(
    tag: &String,
    attrs: &Vec<(String, String)>,
    raw_text: &String,
    children: Vec<UIElement>,
    rules: &CssRules,
) -> (r: UIElement)
    ensures
        element_view(r) == make_element(tag@, attrs@, raw_text@, views_of(children@), rules@),
{
    let id = match find_attr(attrs, "id") {
        Some(v) => Some(v.clone()),
        None => None,
    };
    let classes = match find_attr(attrs, "class") {
        Some(c) => split_whitespace(c.as_str()),
        None => {
            let v: Vec<String> = Vec::new();
            assert(string_views(v@) =~= Seq::<Seq<char>>::empty());
            v
        },
    };
    let props = compute_element_styles(tag, &id, &classes, rules);
    let r = UIElement {
        tag: tag.clone(),
        id,
        classes,
        text: trimmed(raw_text.as_str()),
        children,
        computed_style: convert_css_to_bevy_style(&props),
        background_color: extract_background_color(&props),
        text_color: extract_text_color(&props),
        font_size: extract_font_size(&props),
    };
    assert(element_view(r).children =~= views_of(children@));
    r
}

fn build_content(ev: &Vec<MarkupEvent>, pos: usize, rules: &CssRules) -> (r: (
    String,
    Vec<UIElement>,
    usize,
))
    requires
        pos <= ev.len(),
    ensures
        (r.0@, views_of(r.1@), r.2 as int) == content(ev@, pos as int, rules@, seq![], seq![]),
    decreases ev.len() - pos, 1int,
{
    let mut text = String::new();
    let mut kids: Vec<UIElement> = Vec::new();
    let mut at = pos;
    assert(views_of(kids@) =~= Seq::<ElementView>::empty());
    loop
        invariant
            pos <= at <= ev.len(),
            content(ev@, at as int, rules@, text@, views_of(kids@)) == content(
                ev@,
                pos as int,
                rules@,
                seq![],
                seq![],
            ),
        decreases ev.len() - at,
    {
        if at >= ev.len() {
            return (text, kids, ev.len());
        }
        match &ev[at] {
            MarkupEvent::Close => {
                return (text, kids, at + 1);
            },
            MarkupEvent::Text(s) => {
                let (_, _, end) = build_content(ev, at + 1, rules);
                if !(at < end && end <= ev.len()) {
                    return (text, kids, ev.len());
                }
                text.append(s.as_str());
                at = end;
            },
            MarkupEvent::OtherOpen => {
                let (_, _, end) = build_content(ev, at + 1, rules);
                if !(at < end && end <= ev.len()) {
                    return (text, kids, ev.len());
                }
                at = end;
            },
            MarkupEvent::Open(_, _) => {
                let (child, end) = build_element(ev, at, rules);
                if !(at < end && end <= ev.len()) {
                    return (text, kids, ev.len());
                }
                let ghost before = views_of(kids@);
                kids.push(child);
                assert(views_of(kids@) =~= before.push(element_view(child)));
                at = end;
            },
        }
    }
}

pub(crate) fn build_element(ev: &Vec<MarkupEvent>, pos: usize, rules: &CssRules) -> (r: (UIElement, usize))
    requires
        pos < ev.len(),
        ev@[pos as int] is Open,
    ensures
        (element_view(r.0), r.1 as int) == element_at(ev@, pos as int, rules@),
    decreases ev.len() - pos, 0int,
{
    match &ev[pos] {
        MarkupEvent::Open(tag, attrs) => {
            let (text, children, end) = build_content(ev, pos + 1, rules);
            (make_ui_element(tag, attrs, &text, children, rules), end)
        },
        _ => unreached(),
    }
}

} // verus!
