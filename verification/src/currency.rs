//! The closed set of currency tags a statement may carry.

use vstd::prelude::*;

use crate::element::{spec_required_str, str_eq, Element, ElemModel};
use crate::error::{res_model, DecodeError, ErrorModel};

verus! {

/// A recognized currency bucket; `BASE` is the base-currency summary row.
#[derive(Debug, PartialEq, Eq, Structural, Clone, Copy)]
pub enum Currency {
    BASE,
    CAD,
    USD,
}

impl DeepView for Currency {
    type V = Currency;

    open spec fn deep_view(&self) -> Currency {
        *self
    }
}

/// The decoding table: which raw tag maps to which variant; `None` for any
/// tag outside the closed set.
pub open spec fn spec_currency(s: Seq<char>) -> Option<Currency> {
    if s == "BASE_SUMMARY"@ {
        Some(Currency::BASE)
    } else if s == "CAD"@ {
        Some(Currency::CAD)
    } else if s == "USD"@ {
        Some(Currency::USD)
    } else {
        None
    }
}

/// The canonical tag of each variant.
pub open spec fn spec_currency_tag(c: Currency) -> Seq<char> {
    match c {
        Currency::BASE => "BASE_SUMMARY"@,
        Currency::CAD => "CAD"@,
        Currency::USD => "USD"@,
    }
}

/// Law: decoding a recognized tag and re-encoding it yields the same tag,
/// and decoding fails exactly on the strings that are no variant's tag.
pub proof fn lemma_currency_round_trip(s: Seq<char>)
    ensures
        spec_currency(s) matches Some(c) ==> spec_currency_tag(c) == s,
        spec_currency(s) is None <==> (forall|c: Currency| #[trigger] spec_currency_tag(c) != s),
{
    if spec_currency(s) is None {
        assert forall|c: Currency| #[trigger] spec_currency_tag(c) != s by {
        }
    }
    if forall|c: Currency| #[trigger] spec_currency_tag(c) != s {
        assert(spec_currency_tag(Currency::BASE) != s);
        assert(spec_currency_tag(Currency::CAD) != s);
        assert(spec_currency_tag(Currency::USD) != s);
    }
}

/// The required `currency` attribute of a `section` record, decoded.
pub open spec fn spec_currency_attr(e: ElemModel, section: Seq<char>) -> Result<
    Currency,
    ErrorModel,
> {
    match spec_required_str(e, section, "currency"@) {
        Ok(v) => match spec_currency(v) {
            Some(c) => Ok(c),
            None => Err(ErrorModel::UnknownEnumValue { enumeration: "currency"@, raw: v }),
        },
        Err(er) => Err(er),
    }
}

/// Reads and decodes the required `currency` attribute of a `section`
/// record.
pub fn currency_attr(node: &Element, section: &str) -> (r: Result<Currency, DecodeError>)
    ensures
        res_model(r) == spec_currency_attr(node.deep_view(), section@),
{
    let raw = match node.get_attribute(section, "currency") {
        Ok(v) => v,
        Err(e) => {
            return Err(e);
        },
    };
    Currency::try_from(raw.as_str())
}

impl Currency {
    /// Decodes a currency tag, rejecting anything outside the closed set.
    pub fn try_from(s: &str) -> (r: Result<Currency, DecodeError>)
        ensures
            match r {
                Ok(c) => spec_currency(s@) == Some(c),
                Err(e) => spec_currency(s@) is None && e.deep_view()
                    == (ErrorModel::UnknownEnumValue { enumeration: "currency"@, raw: s@ }),
            },
    {
        if str_eq(s, "BASE_SUMMARY") {
            Ok(Currency::BASE)
        } else if str_eq(s, "CAD") {
            Ok(Currency::CAD)
        } else if str_eq(s, "USD") {
            Ok(Currency::USD)
        } else {
            Err(
                DecodeError::UnknownEnumValue {
                    enumeration: "currency".to_owned(),
                    raw: s.to_owned(),
                },
            )
        }
    }

    /// The canonical tag of this variant.
    pub fn tag(&self) -> (r: &'static str)
        ensures
            r@ == spec_currency_tag(*self),
    {
        match self {
            Currency::BASE => "BASE_SUMMARY",
            Currency::CAD => "CAD",
            Currency::USD => "USD",
        }
    }
}

} // verus!
