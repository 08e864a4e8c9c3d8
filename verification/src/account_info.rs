//! The account identity record, and the closed set of position sides.

use vstd::prelude::*;

use crate::element::{spec_required_str, str_eq, Element, ElemModel};
use crate::error::{DecodeError, ErrorModel};
use crate::statement_section::StatementSection;

verus! {

/// The side of a position.
#[derive(Debug, PartialEq, Eq, Structural, Clone, Copy)]
pub enum PositionSide {
    Long,
    Short,
}

impl DeepView for PositionSide {
    type V = PositionSide;

    open spec fn deep_view(&self) -> PositionSide {
        *self
    }
}

/// The decoding table: which raw tag maps to which variant; `None` for any
/// tag outside the closed set.
pub open spec fn spec_position_side(s: Seq<char>) -> Option<PositionSide> {
    if s == "Long"@ {
        Some(PositionSide::Long)
    } else if s == "Short"@ {
        Some(PositionSide::Short)
    } else {
        None
    }
}

/// The canonical tag of each variant.
pub open spec fn spec_position_side_tag(c: PositionSide) -> Seq<char> {
    match c {
        PositionSide::Long => "Long"@,
        PositionSide::Short => "Short"@,
    }
}

/// Law: decoding a recognized tag and re-encoding it yields the same tag,
/// and decoding fails exactly on the strings that are no variant's tag.
pub proof fn lemma_position_side_round_trip(s: Seq<char>)
    ensures
        spec_position_side(s) matches Some(c) ==> spec_position_side_tag(c) == s,
        spec_position_side(s) is None <==> (forall|c: PositionSide| #[trigger] spec_position_side_tag(c) != s),
{
    if spec_position_side(s) is None {
        assert forall|c: PositionSide| #[trigger] spec_position_side_tag(c) != s by {
        }
    }
    if forall|c: PositionSide| #[trigger] spec_position_side_tag(c) != s {
        assert(spec_position_side_tag(PositionSide::Long) != s);
        assert(spec_position_side_tag(PositionSide::Short) != s);
    }
}

impl PositionSide {
    /// Decodes a position-side tag, rejecting anything outside the closed
    /// set.
    pub fn try_from(s: &str) -> (r: Result<PositionSide, DecodeError>)
        ensures
            match r {
                Ok(c) => spec_position_side(s@) == Some(c),
                Err(e) => spec_position_side(s@) is None && e.deep_view()
                    == (ErrorModel::UnknownEnumValue { enumeration: "position side"@, raw: s@ }),
            },
    {
        if str_eq(s, "Long") {
            Ok(PositionSide::Long)
        } else if str_eq(s, "Short") {
            Ok(PositionSide::Short)
        } else {
            Err(
                DecodeError::UnknownEnumValue {
                    enumeration: "position side".to_owned(),
                    raw: s.to_owned(),
                },
            )
        }
    }

    /// The canonical tag of this variant.
    pub fn tag(&self) -> (r: &'static str)
        ensures
            r@ == spec_position_side_tag(*self),
    {
        match self {
            PositionSide::Long => "Long",
            PositionSide::Short => "Short",
        }
    }
}

/// The account identity record: which account the statement reports on.
#[derive(Debug, PartialEq, Eq, Clone)]
pub struct AccountInfo {
    pub account_id: String,
}

/// The abstract value of an `AccountInfo`.
pub struct AccountInfoModel {
    pub account_id: Seq<char>,
}

impl DeepView for AccountInfo {
    type V = AccountInfoModel;

    open spec fn deep_view(&self) -> AccountInfoModel {
        AccountInfoModel { account_id: self.account_id@ }
    }
}

/// Decoding an `AccountInformation` element: the `accountId` attribute is
/// required; nothing else is read.
pub open spec fn spec_account_info(e: ElemModel) -> Result<AccountInfoModel, ErrorModel> {
    match spec_required_str(e, "AccountInformation"@, "accountId"@) {
        Ok(v) => Ok(AccountInfoModel { account_id: v }),
        Err(er) => Err(er),
    }
}

impl StatementSection for AccountInfo {
    open spec fn spec_from_node(e: ElemModel) -> Result<AccountInfoModel, ErrorModel> {
        spec_account_info(e)
    }

    fn from_node(node: &Element) -> (r: Result<AccountInfo, DecodeError>) {
        let account_id = match node.get_attribute("AccountInformation", "accountId") {
            Ok(v) => v,
            Err(e) => {
                return Err(e);
            },
        };
        Ok(AccountInfo { account_id })
    }
}

} // verus!
