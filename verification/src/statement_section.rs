//! The decoding interface that every record kind implements.

use vstd::prelude::*;

use crate::element::{Element, ElemModel};
use crate::error::{res_model, DecodeError, ErrorModel};
use crate::time_utils::TzMapping;

verus! {

/// One record kind of a statement: a decoder from one element, together with
/// the abstract decoding function its contract is stated against.
pub trait StatementSection: Sized + DeepView {
    /// What decoding an element of this kind yields.
    spec fn spec_from_node(e: ElemModel) -> Result<Self::V, ErrorModel>;

    /// Decodes one element of this kind.
    fn from_node(node: &Element) -> (r: Result<Self, DecodeError>)
        ensures
            res_model(r) == Self::spec_from_node(node.deep_view()),
    ;
}

/// A record kind whose decoding needs the caller-supplied
/// timezone-abbreviation table.
pub trait StatementSectionWithTimezone: Sized + DeepView {
    /// What decoding an element of this kind yields, under a table.
    spec fn spec_from_node(e: ElemModel, timezone_map: Seq<(Seq<char>, Seq<char>)>) -> Result<
        Self::V,
        ErrorModel,
    >;

    /// Decodes one element of this kind.
    fn from_node(node: &Element, timezone_map: &Vec<TzMapping>) -> (r: Result<Self, DecodeError>)
        ensures
            res_model(r) == Self::spec_from_node(node.deep_view(), timezone_map.deep_view()),
    ;
}

} // verus!
