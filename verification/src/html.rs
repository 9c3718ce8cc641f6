//! Reading elements out of an HTML page.

use vstd::prelude::*;
use crate::constants::{SELECTED_ATTR, VALUE_ATTR};

verus! {

/// What the rules read of one matched element: its `value` attribute, its
/// `selected` attribute and the text below it.
#[derive(Debug, Clone)]
pub struct Node {
    /// The `value` attribute, if the element has one.
    pub value: Option<String>,
    /// The `selected` attribute, if the element has one.
    pub selected: Option<String>,
    /// The text of all text nodes below the element, joined in document order.
    pub text: String,
}

/// The mathematical value of a [`Node`].
pub struct NodeView {
    pub value: Option<Seq<char>>,
    pub selected: Option<Seq<char>>,
    pub text: Seq<char>,
}

/// The characters of an optional string.
pub open spec fn opt_text(o: Option<String>) -> Option<Seq<char>> {
    match o {
        Some(s) => Some(s@),
        None => None,
    }
}

impl View for Node {
    type V = NodeView;

    open spec fn view(&self) -> NodeView {
        NodeView { value: opt_text(self.value), selected: opt_text(self.selected), text: self.text@ }
    }
}

/// The values of a list of nodes, in order.
pub open spec fn nodes_view(nodes: Seq<Node>) -> Seq<NodeView> {
    Seq::new(nodes.len(), |i: int| nodes[i]@)
}

/// The values of an optional list of nodes.
pub open spec fn opt_nodes_view(nodes: Option<Vec<Node>>) -> Option<Seq<NodeView>> {
    match nodes {
        Some(v) => Some(nodes_view(v@)),
        None => None,
    }
}

/// What the elements of the document `html` that the CSS selector group
/// `css` matches hold: of each, the attribute `value_attr`, the attribute
/// `selected_attr` and the text. They come in the order in which the parsed
/// document yields them, which is document order unless the parser had to
/// move misplaced markup. `None` where `css` is no selector group.
pub uninterp spec fn matched_elements(
    html: Seq<char>,
    css: Seq<char>,
    value_attr: Seq<char>,
    selected_attr: Seq<char>,
) -> Option<Seq<NodeView>>;

/// Calls `scraper::Html::parse_document`, `scraper::Selector::parse` and
/// `Html::select`, and copies from each matched element the two attributes
/// asked for and its text. The result is a function of the four texts alone,
/// named by [`matched_elements`]. Believed, not proved.
#[verifier::external_body]
pub(crate) fn select_elements(html: &str, css: &str, value_attr: &str, selected_attr: &str) -> (r: Option<
    Vec<Node>,
>)
    ensures
        opt_nodes_view(r) == matched_elements(html@, css@, value_attr@, selected_attr@),
{
    let document = scraper::Html::parse_document(html);
    match scraper::Selector::parse(css) {
        Ok(selector) => Some(document.select(&selector).map(|e| Node {
            value: e.value().attr(value_attr).map(|s| s.to_string()),
            selected: e.value().attr(selected_attr).map(|s| s.to_string()),
            text: e.text().collect::<String>(),
        }).collect()),
        Err(_) => None,
    }
}

/// The elements of a page that a selector matches, each with its `value`,
/// its `selected` attribute and its text.
pub open spec fn matched_nodes(html: Seq<char>, css: Seq<char>) -> Option<Seq<NodeView>> {
    matched_elements(html, css, VALUE_ATTR@, SELECTED_ATTR@)
}

/// Reads off a page the elements that a selector matches.
pub fn select_nodes(html: &str, css: &str) -> (r: Option<Vec<Node>>)
    ensures
        opt_nodes_view(r) == matched_nodes(html@, css@),
{
    select_elements(html, css, VALUE_ATTR, SELECTED_ATTR)
}

} // verus!
