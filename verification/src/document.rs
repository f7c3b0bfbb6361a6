//! Parsed HTML documents.
//!
//! Parsing and selection are the work of the `select` crate. This module
//! declares its document type, says what such a document holds as far as
//! previews read it, and gives the calls into the crate their contracts.
//! Nothing in this module is proved: the contracts restate what the crate's
//! source shows.

use select::document::Document;
use select::predicate::{Attr, Name};
use vstd::prelude::*;
use vstd::utf8::valid_utf8;

verus! {

/// `select::document::Document`: an HTML document as a flat list of nodes in
/// document order. Its inside is not visible to the verifier.
#[verifier::external_type_specification]
#[verifier::external_body]
pub struct ExDocument(select::document::Document);

/// One node of a document, as far as previews read it.
pub struct NodeView {
    /// The local name of an element; `None` for text and comments.
    pub name: Option<Seq<char>>,
    /// The value that `Node::attr` finds under each attribute name.
    pub attrs: Map<Seq<char>, Seq<char>>,
    /// What `Node::text` gives: the text of the node and of everything below
    /// it, in document order.
    pub text: Seq<char>,
}

/// Longest body that is handed to the parser. The parser keeps lengths in 32
/// bits and stops the program when one overflows, and it may write three
/// bytes for one of its input; this bound keeps it clear of that.
pub const MAX_DOCUMENT_LEN: usize = 0x1000_0000;

/// The nodes of a document, in document order (the order of `Document::nodes`).
pub uninterp spec fn document_nodes(doc: Document) -> Seq<NodeView>;

/// The nodes of the document that the parser builds from `bytes`, where
/// these are UTF-8.
pub uninterp spec fn parsed_nodes(bytes: Seq<u8>) -> Seq<NodeView>;

impl NodeView {
    /// Whether the node carries attribute `name` with value `value`: what the
    /// predicate `Attr(name, value)` asks.
    pub open spec fn is_tag(self, name: Seq<char>, value: Seq<char>) -> bool {
        self.attrs.get(name) == Some(value)
    }

    /// Whether the node is an element called `name`: what the predicate
    /// `Name(name)` asks.
    pub open spec fn is_named(self, name: Seq<char>) -> bool {
        self.name == Some(name)
    }
}

/// The nodes that carry attribute `name` with value `value`, in document
/// order.
pub open spec fn with_attr(nodes: Seq<NodeView>, name: Seq<char>, value: Seq<char>) -> Seq<
    NodeView,
> {
    nodes.filter(|n: NodeView| n.is_tag(name, value))
}

/// The elements called `name`, in document order.
pub open spec fn named(nodes: Seq<NodeView>, name: Seq<char>) -> Seq<NodeView> {
    nodes.filter(|n: NodeView| n.is_named(name))
}

/// For each node that carries `name` = `value`, in document order, its
/// attribute `wanted`.
pub open spec fn attrs_where(
    nodes: Seq<NodeView>,
    name: Seq<char>,
    value: Seq<char>,
    wanted: Seq<char>,
) -> Seq<Option<Seq<char>>> {
    with_attr(nodes, name, value).map_values(|n: NodeView| n.attrs.get(wanted))
}

/// For each element called `name`, in document order, its text.
pub open spec fn text_where(nodes: Seq<NodeView>, name: Seq<char>) -> Seq<Seq<char>> {
    named(nodes, name).map_values(|n: NodeView| n.text)
}

/// `Document::from_read` on a byte slice. Reading a slice cannot fail, so the
/// call fails exactly when the bytes are not UTF-8; otherwise it returns the
/// document that the parser builds from them, which is a function of the
/// bytes alone. Bodies over [`MAX_DOCUMENT_LEN`] are left out. Exhaustion of
/// memory or stack on the way is not modelled.
#[verifier::external_body]
pub(crate) fn read_document(bytes: &[u8]) -> (r: Option<Document>)
    requires
        bytes@.len() <= MAX_DOCUMENT_LEN,
    ensures
        r is Some <==> valid_utf8(bytes@),
        r matches Some(doc) ==> document_nodes(doc) == parsed_nodes(bytes@),
{
    Document::from_read(bytes).ok()
}

/// `Document::find` with the predicate `Attr(name, value)`, and `Node::attr`
/// on each node found. `find` walks the nodes in document order and yields
/// those whose attribute `name` is `value`; `attr` gives the attribute's value
/// where the node has it.
#[verifier::external_body]
pub(crate) fn find_attrs(doc: &Document, name: &str, value: &str, wanted: &str) -> (r: Vec<
    Option<String>,
>)
    ensures
        r.deep_view() == attrs_where(document_nodes(*doc), name@, value@, wanted@),
{
    doc.find(Attr(name, value)).map(|node| node.attr(wanted).map(String::from)).collect()
}

/// `Document::find` with the predicate `Name(name)`, and `Node::text` on each
/// node found. `find` walks the nodes in document order and yields the
/// elements whose local name is `name`.
#[verifier::external_body]
pub(crate) fn find_text(doc: &Document, name: &str) -> (r: Vec<String>)
    ensures
        r.deep_view() == text_where(document_nodes(*doc), name@),
{
    doc.find(Name(name)).map(|node| node.text()).collect()
}

} // verus!
