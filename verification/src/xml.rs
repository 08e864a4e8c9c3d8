//! The trusted bridge from XML text to the element model. The XML
//! well-formedness check and the node traversal come from roxmltree; the
//! resulting tree is the library's own `Element` model, and everything that
//! reads it is verified.

use vstd::prelude::*;

use crate::element::{Attr, Element, ElemModel};

verus! {

/// What `roxmltree::Document::parse` accepts and yields: `None` where the
/// text is not well-formed XML, else the model of the tree of elements under
/// the document root.
pub uninterp spec fn xml_root_of(text: Seq<char>) -> Option<ElemModel>;

#[verifier::external_type_specification]
#[verifier::external_body]
pub struct ExNode<'a, 'input: 'a>(roxmltree::Node<'a, 'input>);

/// Relies on roxmltree's `Node::tag_name` (with `ExpandedName::name`),
/// `Node::attributes` (with `Attribute::name` and `Attribute::value`),
/// `Node::children` and `Node::is_element`: one node's local tag name, its
/// attributes in document order, and its element children in document order,
/// converted one for one into the element model.
#[verifier::external_body]
fn convert_node<'a, 'input>(n: roxmltree::Node<'a, 'input>) -> Element {
    Element {
        tag: n.tag_name().name().to_string(),
        attrs: n.attributes().map(
            |a: roxmltree::Attribute<'_, '_>| Attr {
                name: a.name().to_string(),
                value: a.value().to_string(),
            },
        ).collect(),
        children: n.children().filter(|c: &roxmltree::Node<'_, '_>| c.is_element()).map(
            convert_node,
        ).collect(),
    }
}

/// Relies on `roxmltree::Document::parse` — the full XML well-formedness
/// check — and `Document::root_element`: `None` exactly where the text is
/// not well-formed XML, else the document's element tree, converted by
/// `convert_node`.
#[verifier::external_body]
pub fn parse_xml_root(text: &str) -> (r: Option<Element>)
    ensures
        match r {
            Some(root) => xml_root_of(text@) == Some(root.deep_view()),
            None => xml_root_of(text@) is None,
        },
{
    match roxmltree::Document::parse(text) {
        Ok(doc) => Some(convert_node(doc.root_element())),
        Err(_) => None,
    }
}

} // verus!
