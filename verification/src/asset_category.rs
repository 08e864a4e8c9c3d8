//! The closed set of asset-category tags.

use vstd::prelude::*;

use crate::element::{spec_required_str, str_eq, Element, ElemModel};
use crate::error::{res_model, DecodeError, ErrorModel};

verus! {

/// A recognized asset category.
#[derive(Debug, PartialEq, Eq, Structural, Clone, Copy)]
pub enum AssetCategory {
    Crypto,
    Stock,
}

impl DeepView for AssetCategory {
    type V = AssetCategory;

    open spec fn deep_view(&self) -> AssetCategory {
        *self
    }
}

/// The decoding table: which raw tag maps to which variant; `None` for any
/// tag outside the closed set.
pub open spec fn spec_asset_category(s: Seq<char>) -> Option<AssetCategory> {
    if s == "CRYPTO"@ {
        Some(AssetCategory::Crypto)
    } else if s == "STK"@ {
        Some(AssetCategory::Stock)
    } else {
        None
    }
}

/// The canonical tag of each variant.
pub open spec fn spec_asset_category_tag(c: AssetCategory) -> Seq<char> {
    match c {
        AssetCategory::Crypto => "CRYPTO"@,
        AssetCategory::Stock => "STK"@,
    }
}

/// Law: decoding a recognized tag and re-encoding it yields the same tag,
/// and decoding fails exactly on the strings that are no variant's tag.
pub proof fn lemma_asset_category_round_trip(s: Seq<char>)
    ensures
        spec_asset_category(s) matches Some(c) ==> spec_asset_category_tag(c) == s,
        spec_asset_category(s) is None <==> (forall|c: AssetCategory| #[trigger] spec_asset_category_tag(c) != s),
{
    if spec_asset_category(s) is None {
        assert forall|c: AssetCategory| #[trigger] spec_asset_category_tag(c) != s by {
        }
    }
    if forall|c: AssetCategory| #[trigger] spec_asset_category_tag(c) != s {
        assert(spec_asset_category_tag(AssetCategory::Crypto) != s);
        assert(spec_asset_category_tag(AssetCategory::Stock) != s);
    }
}

/// The required `assetCategory` attribute of a `section` record, decoded.
pub open spec fn spec_asset_category_attr(e: ElemModel, section: Seq<char>) -> Result<
    AssetCategory,
    ErrorModel,
> {
    match spec_required_str(e, section, "assetCategory"@) {
        Ok(v) => match spec_asset_category(v) {
            Some(c) => Ok(c),
            None => Err(ErrorModel::UnknownEnumValue { enumeration: "asset category"@, raw: v }),
        },
        Err(er) => Err(er),
    }
}

/// Reads and decodes the required `assetCategory` attribute of a `section`
/// record.
pub fn asset_category_attr(node: &Element, section: &str) -> (r: Result<AssetCategory, DecodeError>)
    ensures
        res_model(r) == spec_asset_category_attr(node.deep_view(), section@),
{
    let raw = match node.get_attribute(section, "assetCategory") {
        Ok(v) => v,
        Err(e) => {
            return Err(e);
        },
    };
    AssetCategory::try_from(raw.as_str())
}

impl AssetCategory {
    /// Decodes an asset-category tag, rejecting anything outside the closed
    /// set.
    pub fn try_from(s: &str) -> (r: Result<AssetCategory, DecodeError>)
        ensures
            match r {
                Ok(c) => spec_asset_category(s@) == Some(c),
                Err(e) => spec_asset_category(s@) is None && e.deep_view()
                    == (ErrorModel::UnknownEnumValue { enumeration: "asset category"@, raw: s@ }),
            },
    {
        if str_eq(s, "CRYPTO") {
            Ok(AssetCategory::Crypto)
        } else if str_eq(s, "STK") {
            Ok(AssetCategory::Stock)
        } else {
            Err(
                DecodeError::UnknownEnumValue {
                    enumeration: "asset category".to_owned(),
                    raw: s.to_owned(),
                },
            )
        }
    }

    /// The canonical tag of this variant.
    pub fn tag(&self) -> (r: &'static str)
        ensures
            r@ == spec_asset_category_tag(*self),
    {
        match self {
            AssetCategory::Crypto => "CRYPTO",
            AssetCategory::Stock => "STK",
        }
    }
}

} // verus!
