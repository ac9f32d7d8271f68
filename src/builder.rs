//! From a markup document with embedded style sheets to styled elements.
use crate::element::{element_at, element_view, make_element, views_of, ElementView, UIElement};
use crate::markup::{document_events, parse_markup, MarkupEvent};
use crate::parser::{parse_stylesheet, stylesheet_table};
use crate::rules::{CssRules, Table};
use crate::text::str_eq;
use vstd::prelude::*;
use vstd::string::*;

verus! {

impl UIElement {
    /// Builds the element that opens at `pos` with all its descendants; its text is that
    /// of its own text children. Gives the element and the position after it.
    pub fn from_html_element_with_children(
        events: &Vec<MarkupEvent>,
        pos: usize,
        rules: &CssRules,
    ) -> (r: (UIElement, usize))
        requires
            pos < events.len(),
            events@[pos as int] is Open,
        ensures
            (element_view(r.0), r.1 as int) == element_at(events@, pos as int, rules@),
    {
        crate::element::build_element(events, pos, rules)
    }

    /// Builds the element that opens at `pos` without children; its text is all the text
    /// inside it.
    pub fn from_html_element(events: &Vec<MarkupEvent>, pos: usize, rules: &CssRules) -> (r:
        UIElement)
        requires
            pos < events.len(),
            events@[pos as int] is Open,
        ensures
            element_view(r) == flat_element(events@, pos as int, rules@),
    {
        let (_, end) = crate::element::build_element(events, pos, rules);
        let text = descendant_text_of(events, pos + 1, end);
        let no_children: Vec<UIElement> = Vec::new();
        assert(views_of(no_children@) =~= Seq::<ElementView>::empty());
        match &events[pos] {
            MarkupEvent::Open(tag, attrs) => crate::element::make_ui_element(
                tag,
                attrs,
                &text,
                no_children,
                rules,
            ),
            _ => unreached(),
        }
    }
}

/// The text of the text events from `a` up to `b`.
pub open spec fn descendant_text(ev: Seq<MarkupEvent>, a: int, b: int) -> Seq<char>
    decreases b - a,
{
    if a < b && 0 <= a < ev.len() {
        (match ev[a] {
            MarkupEvent::Text(s) => s@,
            _ => seq![],
        }) + descendant_text(ev, a + 1, b)
    } else {
        seq![]
    }
}

fn descendant_text_of(ev: &Vec<MarkupEvent>, a: usize, b: usize) -> (r: String)
    ensures
        r@ == descendant_text(ev@, a as int, b as int),
{
    let mut s = String::new();
    let mut i = a;
    while i < b && i < ev.len()
        invariant
            a <= i,
            s@ + descendant_text(ev@, i as int, b as int) == descendant_text(ev@, a as int, b as int),
        decreases b - i,
    {
        let ghost before = s@;
        match &ev[i] {
            MarkupEvent::Text(t) => s.append(t.as_str()),
            _ => {},
        }
        assert(before + descendant_text(ev@, i as int, b as int) =~= s@ + descendant_text(
            ev@,
            i + 1,
            b as int,
        ));
        i += 1;
    }
    assert(s@ + descendant_text(ev@, i as int, b as int) =~= s@);
    s
}

/// The element that opens at `pos` without children, its text all the text inside it.
pub open spec fn flat_element(ev: Seq<MarkupEvent>, pos: int, t: Table) -> ElementView {
    match ev[pos] {
        MarkupEvent::Open(tag, attrs) => make_element(
            tag@,
            attrs@,
            descendant_text(ev, pos + 1, element_at(ev, pos, t).1),
            seq![],
            t,
        ),
        _ => crate::element::empty_view(),
    }
}

/// Every element that opens from `a` up to `b`, in document order, each without
/// children.
pub open spec fn flat_elements(ev: Seq<MarkupEvent>, a: int, b: int, t: Table) -> Seq<ElementView>
    decreases b - a,
{
    if a < b && 0 <= a < ev.len() {
        (if ev[a] is Open {
            seq![flat_element(ev, a, t)]
        } else {
            seq![]
        }) + flat_elements(ev, a + 1, b, t)
    } else {
        seq![]
    }
}

/// The position of the first element at or after `pos` whose tag is `name`, or the end.
pub open spec fn first_open(ev: Seq<MarkupEvent>, name: Seq<char>, pos: int) -> int
    decreases ev.len() - pos,
{
    if 0 <= pos < ev.len() && !(ev[pos] matches MarkupEvent::Open(tag, _) && tag@ == name) {
        first_open(ev, name, pos + 1)
    } else {
        pos
    }
}

fn find_open(ev: &Vec<MarkupEvent>, name: &str, pos: usize) -> (r: usize)
    requires
        pos <= ev.len(),
    ensures
        r as int == first_open(ev@, name@, pos as int),
        pos <= r <= ev.len(),
        r < ev.len() ==> ev@[r as int] is Open,
{
    let mut p = pos;
    while p < ev.len()
        invariant
            pos <= p <= ev.len(),
            first_open(ev@, name@, p as int) == first_open(ev@, name@, pos as int),
        decreases ev.len() - p,
    {
        match &ev[p] {
            MarkupEvent::Open(tag, _) => {
                if str_eq(tag.as_str(), name) {
                    return p;
                }
            },
            _ => {},
        }
        p += 1;
    }
    p
}

/// The elements inside the body of a document, as a tree.
pub open spec fn document_tree(ev: Seq<MarkupEvent>, t: Table) -> Seq<ElementView> {
    let b = first_open(ev, "body"@, 0);
    if b < ev.len() {
        element_at(ev, b, t).0.children
    } else {
        seq![]
    }
}

/// Every element inside the body of a document, in document order, each without
/// children.
pub open spec fn document_elements(ev: Seq<MarkupEvent>, t: Table) -> Seq<ElementView> {
    let b = first_open(ev, "body"@, 0);
    if b < ev.len() {
        flat_elements(ev, b + 1, element_at(ev, b, t).1, t)
    } else {
        seq![]
    }
}

/// The style sheets of a document from `pos` on: the text of each `style` element,
/// each followed by a line break.
pub open spec fn style_text(ev: Seq<MarkupEvent>, pos: int) -> Seq<char>
    decreases ev.len() - pos,
{
    if 0 <= pos < ev.len() {
        (if ev[pos] matches MarkupEvent::Open(tag, _) && tag@ == "style"@ {
            descendant_text(ev, pos + 1, element_at(ev, pos, seq![]).1) + seq!['\n']
        } else {
            seq![]
        }) + style_text(ev, pos + 1)
    } else {
        seq![]
    }
}

/// Collects the text of every `style` element of a document.
pub fn extract_css(ev: &Vec<MarkupEvent>) -> (r: String)
    ensures
        r@ == style_text(ev@, 0),
{
    let mut css = String::new();
    let mut p: usize = 0;
    while p < ev.len()
        invariant
            p <= ev.len(),
            css@ + style_text(ev@, p as int) == style_text(ev@, 0),
        decreases ev.len() - p,
    {
        let ghost before = css@;
        match &ev[p] {
            MarkupEvent::Open(tag, _) => {
                if str_eq(tag.as_str(), "style") {
                    let no_rules = CssRules::new();
                    assert(no_rules@ =~= seq![]);
                    let (_, end) = crate::element::build_element(ev, p, &no_rules);
                    let run = descendant_text_of(ev, p + 1, end);
                    css.append(run.as_str());
                    proof {
                        reveal_strlit("\n");
                    }
                    css.append("\n");
                }
            },
            _ => {},
        }
        assert(before + style_text(ev@, p as int) =~= css@ + style_text(ev@, p + 1));
        p += 1;
    }
    assert(css@ + style_text(ev@, p as int) =~= css@);
    css
}

/// Every element inside the body of a document, in document order, each without
/// children and with all the text inside it.
pub fn parse_html_elements(ev: &Vec<MarkupEvent>, rules: &CssRules) -> (r: Vec<UIElement>)
    ensures
        views_of(r@) == document_elements(ev@, rules@),
{
    let mut out: Vec<UIElement> = Vec::new();
    proof {
        reveal_strlit("body");
    }
    let b = find_open(ev, "body", 0);
    if b >= ev.len() {
        assert(views_of(out@) =~= Seq::<ElementView>::empty());
        return out;
    }
    let (_, end) = crate::element::build_element(ev, b, rules);
    let mut p = b + 1;
    assert(views_of(out@) =~= Seq::<ElementView>::empty());
    while p < end && p < ev.len()
        invariant
            b < p,
            b < ev.len(),
            end as int == element_at(ev@, b as int, rules@).1,
            views_of(out@) + flat_elements(ev@, p as int, end as int, rules@) == flat_elements(
                ev@,
                b + 1,
                end as int,
                rules@,
            ),
        decreases ev.len() - p,
    {
        let ghost before = views_of(out@);
        if matches!(ev[p], MarkupEvent::Open(_, _)) {
            let e = UIElement::from_html_element(ev, p, rules);
            out.push(e);
            assert(views_of(out@) =~= before + seq![element_view(e)]);
        }
        assert(before + flat_elements(ev@, p as int, end as int, rules@) =~= views_of(out@)
            + flat_elements(ev@, p + 1, end as int, rules@));
        p += 1;
    }
    assert(views_of(out@) + flat_elements(ev@, p as int, end as int, rules@) =~= views_of(out@));
    out
}

/// Builds the styled elements of a document: the style sheets of its `style` elements
/// make the rules, and the elements inside its body make a tree.
pub struct HtmlCssUIBuilder {
    pub stylesheet: CssRules,
}

/// The rules of the style sheets embedded in a markup text.
pub open spec fn markup_rules(html: Seq<char>) -> Table {
    stylesheet_table(style_text(document_events(html), 0), seq![])
}

/// The element tree of a markup text, styled by its own style sheets.
pub open spec fn markup_tree(html: Seq<char>) -> Seq<ElementView> {
    document_tree(document_events(html), markup_rules(html))
}

impl HtmlCssUIBuilder {
    pub fn new() -> (r: HtmlCssUIBuilder)
        ensures
            r.stylesheet@ == Seq::<(Seq<char>, crate::types::StyleProperties)>::empty(),
    {
        HtmlCssUIBuilder { stylesheet: CssRules::new() }
    }

    /// Parses `html`, takes the rules of its style sheets, and builds the tree of the
    /// elements inside its body.
    pub fn parse_and_build(&mut self, html: &str) -> (r: Vec<UIElement>)
        ensures
            final(self).stylesheet@ == markup_rules(html@),
            views_of(r@) == markup_tree(html@),
    {
        let events = parse_markup(html);
        let css = extract_css(&events);
        let mut rules = CssRules::new();
        parse_stylesheet(css.as_str(), &mut rules);
        self.stylesheet = rules;
        proof {
            reveal_strlit("body");
        }
        let b = find_open(&events, "body", 0);
        if b >= events.len() {
            let none: Vec<UIElement> = Vec::new();
            assert(views_of(none@) =~= Seq::<ElementView>::empty());
            return none;
        }
        let (body, _) = crate::element::build_element(&events, b, &self.stylesheet);
        let children = body.children;
        assert(views_of(children@) =~= element_view(body).children);
        children
    }
}

} // verus!
