//! Laws that relate the parser, the rule table and the cascade.
use crate::builder::markup_tree;
use crate::cascade::{cascade, class_selector, id_selector, with_classes};
use crate::element::{views_of, UIElement};
use crate::parser::stylesheet_table;
use crate::rules::{table_lookup, CssRules, Table};
use crate::types::{merged, unset_properties, StyleProperties};
use vstd::prelude::*;

verus! {

/// Parsing one style-sheet text twice, each time into an empty table, gives tables
/// with the same selectors in the same order and the same records.
pub proof fn lemma_parse_deterministic(css: Seq<char>, first: CssRules, second: CssRules)
    requires
        first@ == stylesheet_table(css, seq![]),
        second@ == stylesheet_table(css, seq![]),
    ensures
        first@ == second@,
{
}

/// Building the element tree twice from one markup text gives trees with the same tag,
/// id, classes, text, style and children at every position.
pub proof fn lemma_build_deterministic(html: Seq<char>, first: Vec<UIElement>, second: Vec<UIElement>)
    requires
        views_of(first@) == markup_tree(html),
        views_of(second@) == markup_tree(html),
    ensures
        views_of(first@) == views_of(second@),
{
}

/// The rule of an element's id is laid last: the element's record is the one it would
/// have without an id, with every slot that the id rule sets replaced by the id rule's
/// value.
pub proof fn lemma_id_rule_wins(
    t: Table,
    tag: Seq<char>,
    id: Seq<char>,
    classes: Seq<Seq<char>>,
    id_rule: StyleProperties,
)
    requires
        table_lookup(t, id_selector(id)) == Some(id_rule),
    ensures
        cascade(t, tag, Some(id), classes) == merged(cascade(t, tag, None, classes), id_rule),
        id_rule.width is Some ==> cascade(t, tag, Some(id), classes).width == id_rule.width,
{
}

/// Without an id, where the rule of an element's only class sets a slot, the element
/// gets that value over the one its tag rule sets.
pub proof fn lemma_class_rule_beats_tag_rule(
    t: Table,
    tag: Seq<char>,
    class: Seq<char>,
    class_rule: StyleProperties,
)
    requires
        table_lookup(t, class_selector(class)) == Some(class_rule),
        class_rule.width is Some,
    ensures
        cascade(t, tag, None, seq![class]).width == class_rule.width,
{
    let after_tag = crate::cascade::layer(unset_properties(), table_lookup(t, tag));
    let after_class = merged(after_tag, class_rule);
    assert(seq![class].drop_first() =~= Seq::<Seq<char>>::empty());
    assert(with_classes(t, after_class, Seq::<Seq<char>>::empty()) == after_class);
    assert(with_classes(t, after_tag, seq![class]) == after_class);
}

/// For an element that matches a tag rule and a class rule, every slot that either
/// rule sets is set in the result: a rule's unset slot never erases another rule's
/// value.
pub proof fn lemma_unset_slots_kept(
    t: Table,
    tag: Seq<char>,
    class: Seq<char>,
    first: StyleProperties,
    second: StyleProperties,
)
    requires
        table_lookup(t, tag) == Some(first),
        table_lookup(t, class_selector(class)) == Some(second),
    ensures
        ({
            let r = cascade(t, tag, None, seq![class]);
            &&& (first.display is Some || second.display is Some) ==> r.display is Some
            &&& (first.position_type is Some || second.position_type is Some) ==> r.position_type is Some
            &&& (first.direction is Some || second.direction is Some) ==> r.direction is Some
            &&& (first.flex_direction is Some || second.flex_direction is Some) ==> r.flex_direction is Some
            &&& (first.flex_wrap is Some || second.flex_wrap is Some) ==> r.flex_wrap is Some
            &&& (first.align_items is Some || second.align_items is Some) ==> r.align_items is Some
            &&& (first.align_self is Some || second.align_self is Some) ==> r.align_self is Some
            &&& (first.align_content is Some || second.align_content is Some) ==> r.align_content is Some
            &&& (first.justify_content is Some || second.justify_content is Some) ==> r.justify_content is Some
            &&& (first.position is Some || second.position is Some) ==> r.position is Some
            &&& (first.margin is Some || second.margin is Some) ==> r.margin is Some
            &&& (first.padding is Some || second.padding is Some) ==> r.padding is Some
            &&& (first.border is Some || second.border is Some) ==> r.border is Some
            &&& (first.border_radius is Some || second.border_radius is Some) ==> r.border_radius is Some
            &&& (first.width is Some || second.width is Some) ==> r.width is Some
            &&& (first.height is Some || second.height is Some) ==> r.height is Some
            &&& (first.min_width is Some || second.min_width is Some) ==> r.min_width is Some
            &&& (first.max_width is Some || second.max_width is Some) ==> r.max_width is Some
            &&& (first.min_height is Some || second.min_height is Some) ==> r.min_height is Some
            &&& (first.max_height is Some || second.max_height is Some) ==> r.max_height is Some
            &&& (first.aspect_ratio is Some || second.aspect_ratio is Some) ==> r.aspect_ratio is Some
            &&& (first.overflow is Some || second.overflow is Some) ==> r.overflow is Some
            &&& (first.background_color is Some || second.background_color is Some) ==> r.background_color is Some
            &&& (first.color is Some || second.color is Some) ==> r.color is Some
            &&& (first.font_size is Some || second.font_size is Some) ==> r.font_size is Some
            &&& (first.custom_property is Some || second.custom_property is Some) ==> r.custom_property is Some
        }),
{
    let after_tag = merged(unset_properties(), first);
    let r = merged(after_tag, second);
    assert(seq![class].drop_first() =~= Seq::<Seq<char>>::empty());
    assert(with_classes(t, r, Seq::<Seq<char>>::empty()) == r);
    assert(with_classes(t, after_tag, seq![class]) == r);
    assert(cascade(t, tag, None, seq![class]) == r);
}

} // verus!
