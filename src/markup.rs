//! A markup document as the sequence of events of a walk through its tree, read with
//! scraper's HTML parser.
use crate::text::str_eq;
use ego_tree::iter::Edge;
use scraper::{Html, Node};
use vstd::prelude::*;
use vstd::string::*;

verus! {

/// One step of a walk through a document tree: every node is opened, its children are
/// walked, and it is closed.
#[derive(Clone, Debug, PartialEq)]
pub enum MarkupEvent {
    /// An element opens: its tag name and its attributes as (name, value) pairs.
    Open(String, Vec<(String, String)>),
    /// A text node opens.
    Text(String),
    /// Another node opens: the document itself, a comment, a doctype.
    OtherOpen,
    /// The node opened last closes.
    Close,
}

/// The walk through the tree that scraper's HTML parser builds from a text.
pub uninterp spec fn document_events(html: Seq<char>) -> Seq<MarkupEvent>;

/// Relies on scraper's `Html::parse_document` and ego_tree's `NodeRef::traverse`: the
/// tree parsed from `html`, walked from its root.
#[verifier::external_body]
pub(crate) fn parse_markup(html: &str) -> (r: Vec<MarkupEvent>)
    ensures
        r@ == document_events(html@),
{
    let document = Html::parse_document(html);
    let events = document.tree.root().traverse().map(|edge| match edge {
        Edge::Close(_) => MarkupEvent::Close,
        Edge::Open(node) => match node.value() {
            Node::Element(e) => MarkupEvent::Open(
                e.name().to_string(),
                e.attrs().map(|(k, v)| (k.to_string(), v.to_string())).collect(),
            ),
            Node::Text(t) => MarkupEvent::Text(t.to_string()),
            _ => MarkupEvent::OtherOpen,
        },
    });
    events.collect()
}

/// The walk through the tree of a markup text.
pub fn parse_markup_events(html: &str) -> (r: Vec<MarkupEvent>)
    ensures
        r@ == document_events(html@),
{
    parse_markup(html)
}

/// The value of the first attribute named `name`.
pub open spec fn attr_value(attrs: Seq<(String, String)>, name: Seq<char>) -> Option<Seq<char>>
    decreases attrs.len(),
{
    if attrs.len() == 0 {
        None
    } else if attrs[0].0@ == name {
        Some(attrs[0].1@)
    } else {
        attr_value(attrs.drop_first(), name)
    }
}

pub fn find_attr<'a>(attrs: &'a Vec<(String, String)>, name: &str) -> (r: Option<&'a String>)
    ensures
        match r {
            Some(v) => attr_value(attrs@, name@) == Some(v@),
            None => attr_value(attrs@, name@) is None,
        },
{
    let mut i: usize = 0;
    assert(attrs@.skip(0) =~= attrs@);
    while i < attrs.len()
        invariant
            i <= attrs.len(),
            attr_value(attrs@.skip(i as int), name@) == attr_value(attrs@, name@),
        decreases attrs.len() - i,
    {
        assert(attrs@.skip(i as int)[0] == attrs@[i as int]);
        if str_eq(attrs[i].0.as_str(), name) {
            return Some(&attrs[i].1);
        }
        assert(attrs@.skip(i as int).drop_first() =~= attrs@.skip(i + 1));
        i += 1;
    }
    None
}

} // verus!
