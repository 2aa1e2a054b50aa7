use vstd::prelude::*;
use select::document::Document;
use crate::page::{Node, Page};

verus! {

#[verifier::external_type_specification]
#[verifier::external_body]
pub struct ExDocument(Document);

/// The longest markup, in characters, that `parse_page` takes. select walks the
/// parsed tree recursively, one stack frame per level of nesting, so the
/// nesting depth, which the length bounds, must fit the stack of the calling
/// thread: parsing markup of this length takes a stack of 1 GiB at most.
pub const MAX_MARKUP_LEN: usize = 1000000;

/// Relies on select's `Document::from(&str)`: parses markup with html5ever,
/// which repairs malformed input rather than rejecting it.
#[verifier::external_body]
fn parse_document(markup: &str) -> Document
    requires
        markup@.len() <= MAX_MARKUP_LEN,
{
    Document::from(markup)
}

/// Relies on select's `Document::nodes`: the number of parsed nodes.
#[verifier::external_body]
fn node_count(doc: &Document) -> usize {
    doc.nodes.len()
}

/// Relies on select's `Document::nth` and `Node::name`: the tag name of an
/// element node.
#[verifier::external_body]
fn node_name(doc: &Document, i: usize) -> Option<String> {
    doc.nth(i).and_then(|n| n.name()).map(String::from)
}

/// Relies on select's `Document::nth` and `Node::attr`: the value of an
/// attribute of an element node.
#[verifier::external_body]
fn node_attr(doc: &Document, i: usize, attr: &str) -> Option<String> {
    doc.nth(i).and_then(|n| n.attr(attr)).map(String::from)
}

/// Relies on select's `Document::nth` and `Node::text`: the text of a node and
/// all of its descendants.
#[verifier::external_body]
fn node_text(doc: &Document, i: usize) -> Option<String> {
    doc.nth(i).map(|n| n.text())
}

/// Relies on select's `Document::nth` and `Node::parent`: the index of the
/// enclosing node. select appends a parent before its children, so the index
/// is smaller than the node's own.
#[verifier::external_body]
fn node_parent(doc: &Document, i: usize) -> (r: Option<usize>)
    ensures
        r matches Some(p) ==> p < i,
{
    doc.nth(i).and_then(|n| n.parent()).map(|p| p.index())
}

/// Relies on `str::split_whitespace`: the tokens of a class attribute.
#[verifier::external_body]
fn split_tokens(s: &str) -> Vec<String> {
    s.split_whitespace().map(String::from).collect()
}

/// The node at index `i` of a parsed document.
fn node_at(doc: &Document, i: usize) -> (r: Node)
    ensures
        r.parent matches Some(p) ==> p < i,
{
    let classes = match node_attr(doc, i, "class") {
        Some(c) => split_tokens(c.as_str()),
        None => Vec::new(),
    };
    Node {
        name: node_name(doc, i),
        classes,
        href: node_attr(doc, i, "href"),
        text: match node_text(doc, i) {
            Some(t) => t,
            None => String::new(),
        },
        parent: node_parent(doc, i),
    }
}

/// Parses a markup payload into a document of nodes in document order: every
/// node comes after the node that encloses it.
pub fn parse_page(markup: &str) -> (r: Page)
    requires
        markup@.len() <= MAX_MARKUP_LEN,
    ensures
        forall|k: int|
            0 <= k < r.nodes@.len() ==> ((#[trigger] r.nodes@[k]).parent matches Some(p) ==> p < k),
{
    let doc = parse_document(markup);
    let n = node_count(&doc);
    let mut nodes: Vec<Node> = Vec::new();
    let mut i: usize = 0;
    while i < n
        invariant
            i <= n,
            nodes@.len() == i,
            forall|k: int|
                0 <= k < nodes@.len() ==> ((#[trigger] nodes@[k]).parent matches Some(p) ==> p < k),
        decreases n - i,
    {
        nodes.push(node_at(&doc, i));
        i = i + 1;
    }
    Page { nodes }
}

} // verus!
