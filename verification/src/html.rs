//! What the flow reads of an HTML page, through the `scraper` crate.
//!
//! Parsing HTML and matching CSS selectors is `scraper`'s work. The two
//! functions here hand its answers over as plain values, and each answer
//! has a name in specifications: the same page and selector always give
//! the same answer.

use vstd::prelude::*;

verus! {

/// One child node of an element: its tag when it is an element, and its
/// `name` and `value` attributes when it has them.
#[derive(Debug, PartialEq, Eq)]
pub struct ChildNode {
    pub tag: Option<String>,
    pub name: Option<String>,
    pub value: Option<String>,
}

/// The mathematical value of a `ChildNode`.
pub struct ChildNodeView {
    pub tag: Option<Seq<char>>,
    pub name: Option<Seq<char>>,
    pub value: Option<Seq<char>>,
}

impl View for ChildNode {
    type V = ChildNodeView;

    open spec fn view(&self) -> ChildNodeView {
        ChildNodeView {
            tag: self.tag.deep_view(),
            name: self.name.deep_view(),
            value: self.value.deep_view(),
        }
    }
}

/// The views of child nodes, in order.
pub open spec fn children_view(children: Seq<ChildNode>) -> Seq<ChildNodeView> {
    Seq::new(children.len(), |i: int| children[i]@)
}

/// The `value` attribute of every element of the page `html` that the CSS
/// selector `selector` matches, in the order in which `scraper` yields the
/// elements; `None` where an element has no such attribute, and `None` for
/// the whole when `selector` is not a selector.
pub uninterp spec fn selected_values(html: Seq<char>, selector: Seq<char>) -> Option<
    Seq<Option<Seq<char>>>,
>;

/// The children of the parent of the first element of the page `html`
/// that the CSS selector `selector` matches, in sibling order; `None` when
/// `selector` is not a selector or matches nothing.
pub uninterp spec fn first_match_siblings(html: Seq<char>, selector: Seq<char>) -> Option<
    Seq<ChildNodeView>,
>;

/// Calls `scraper::Html::parse_document`, `scraper::Selector::parse` and
/// `scraper::Html::select`, and reads the `value` attribute of each element
/// found. Trusted: the result is what `selected_values` names.
#[verifier::external_body]
pub(crate) fn select_values(html: &str, selector: &str) -> (found: Option<Vec<Option<String>>>)
    ensures
        found.deep_view() == selected_values(html@, selector@),
{
    let document = scraper::Html::parse_document(html);
    let selector = scraper::Selector::parse(selector).ok()?;
    Some(document.select(&selector).map(|e| e.attr("value").map(str::to_string)).collect())
}

/// Calls `scraper::Html::parse_document`, `scraper::Selector::parse` and
/// `scraper::Html::select`, takes the first element found, and lists the
/// children of its parent. Trusted: the result is what
/// `first_match_siblings` names.
#[verifier::external_body]
pub(crate) fn select_siblings(html: &str, selector: &str) -> (found: Option<Vec<ChildNode>>)
    ensures
        match found {
            Some(children) => first_match_siblings(html@, selector@) == Some(
                children_view(children@),
            ),
            None => first_match_siblings(html@, selector@) is None,
        },
{
    let document = scraper::Html::parse_document(html);
    let selector = scraper::Selector::parse(selector).ok()?;
    let parent = document.select(&selector).next()?.parent()?;
    Some(parent.children().map(|c| match c.value().as_element() {
        Some(e) => ChildNode {
            tag: Some(e.name().to_string()),
            name: e.attr("name").map(str::to_string),
            value: e.attr("value").map(str::to_string),
        },
        None => ChildNode { tag: None, name: None, value: None },
    }).collect())
}

} // verus!
