//! The open position record: one holding, its prices and its side.

use vstd::prelude::*;

use crate::asset_category::{asset_category_attr, spec_asset_category_attr, AssetCategory};
use crate::currency::{currency_attr, spec_currency_attr, Currency};
use crate::element::{
    spec_required_amount, spec_required_str, spec_required_u32, str_eq, Element, ElemModel,
};
use crate::error::{first_err, res_model, DecodeError, ErrorModel};
use crate::scalars::Amount;
use crate::statement_section::StatementSection;
use crate::time_utils::{eod_attr, spec_eod_attr};

verus! {

/// The side of an open position.
#[derive(Debug, PartialEq, Eq, Structural, Clone, Copy)]
pub enum PositionSide {
    Long,
    Short,
}

impl DeepView for PositionSide {
    type V = PositionSide;

    open spec fn deep_view(&self) -> PositionSide {
        *self
    }
}

/// The decoding table: which raw tag maps to which variant; `None` for any
/// tag outside the closed set.
pub open spec fn spec_position_side(s: Seq<char>) -> Option<PositionSide> {
    if s == "Long"@ {
        Some(PositionSide::Long)
    } else if s == "Short"@ {
        Some(PositionSide::Short)
    } else {
        None
    }
}

/// The canonical tag of each variant.
pub open spec fn spec_position_side_tag(c: PositionSide) -> Seq<char> {
    match c {
        PositionSide::Long => "Long"@,
        PositionSide::Short => "Short"@,
    }
}

/// Law: decoding a recognized tag and re-encoding it yields the same tag,
/// and decoding fails exactly on the strings that are no variant's tag.
pub proof fn lemma_position_side_round_trip(s: Seq<char>)
    ensures
        spec_position_side(s) matches Some(c) ==> spec_position_side_tag(c) == s,
        spec_position_side(s) is None <==> (forall|c: PositionSide| #[trigger] spec_position_side_tag(c) != s),
{
    if spec_position_side(s) is None {
        assert forall|c: PositionSide| #[trigger] spec_position_side_tag(c) != s by {
        }
    }
    if forall|c: PositionSide| #[trigger] spec_position_side_tag(c) != s {
        assert(spec_position_side_tag(PositionSide::Long) != s);
        assert(spec_position_side_tag(PositionSide::Short) != s);
    }
}

impl PositionSide {
    /// Decodes a position-side tag, rejecting anything outside the closed
    /// set.
    pub fn try_from(s: &str) -> (r: Result<PositionSide, DecodeError>)
        ensures
            match r {
                Ok(c) => spec_position_side(s@) == Some(c),
                Err(e) => spec_position_side(s@) is None && e.deep_view()
                    == (ErrorModel::UnknownEnumValue { enumeration: "position side"@, raw: s@ }),
            },
    {
        if str_eq(s, "Long") {
            Ok(PositionSide::Long)
        } else if str_eq(s, "Short") {
            Ok(PositionSide::Short)
        } else {
            Err(
                DecodeError::UnknownEnumValue {
                    enumeration: "position side".to_owned(),
                    raw: s.to_owned(),
                },
            )
        }
    }

    /// The canonical tag of this variant.
    pub fn tag(&self) -> (r: &'static str)
        ensures
            r@ == spec_position_side_tag(*self),
    {
        match self {
            PositionSide::Long => "Long",
            PositionSide::Short => "Short",
        }
    }
}

/// The required `side` attribute of a `section` record, decoded.
pub open spec fn spec_position_side_attr(e: ElemModel, section: Seq<char>) -> Result<
    PositionSide,
    ErrorModel,
> {
    match spec_required_str(e, section, "side"@) {
        Ok(v) => match spec_position_side(v) {
            Some(c) => Ok(c),
            None => Err(ErrorModel::UnknownEnumValue { enumeration: "position side"@, raw: v }),
        },
        Err(er) => Err(er),
    }
}

/// Reads and decodes the required `side` attribute of a `section` record.
pub fn position_side_attr(node: &Element, section: &str) -> (r: Result<PositionSide, DecodeError>)
    ensures
        res_model(r) == spec_position_side_attr(node.deep_view(), section@),
{
    let raw = match node.get_attribute(section, "side") {
        Ok(v) => v,
        Err(e) => {
            return Err(e);
        },
    };
    PositionSide::try_from(raw.as_str())
}

/// One open position line.
#[derive(Debug, PartialEq, Eq, Clone)]
pub struct OpenPosition {
    pub account_id: String,
    pub asset_category: AssetCategory,
    pub conid: u32,
    pub cost_basis_price: Amount,
    pub fifo_pnl_unrealized: Amount,
    pub currency: Currency,
    pub listing_exchange: String,
    pub mark_price: Amount,
    pub open_quantity: Amount,
    pub position_value: Amount,
    pub timestamp_eod_ms: i64,
    pub ticker: String,
    pub side: PositionSide,
}

/// The abstract value of an `OpenPosition`.
pub struct OpenPositionModel {
    pub account_id: Seq<char>,
    pub asset_category: AssetCategory,
    pub conid: u32,
    pub cost_basis_price: Seq<char>,
    pub fifo_pnl_unrealized: Seq<char>,
    pub currency: Currency,
    pub listing_exchange: Seq<char>,
    pub mark_price: Seq<char>,
    pub open_quantity: Seq<char>,
    pub position_value: Seq<char>,
    pub timestamp_eod_ms: int,
    pub ticker: Seq<char>,
    pub side: PositionSide,
}

impl DeepView for OpenPosition {
    type V = OpenPositionModel;

    open spec fn deep_view(&self) -> OpenPositionModel {
        OpenPositionModel {
            account_id: self.account_id@,
            asset_category: self.asset_category,
            conid: self.conid,
            cost_basis_price: self.cost_basis_price@,
            fifo_pnl_unrealized: self.fifo_pnl_unrealized@,
            currency: self.currency,
            listing_exchange: self.listing_exchange@,
            mark_price: self.mark_price@,
            open_quantity: self.open_quantity@,
            position_value: self.position_value@,
            timestamp_eod_ms: self.timestamp_eod_ms as int,
            ticker: self.ticker@,
            side: self.side,
        }
    }
}

/// Decoding an `OpenPosition` element: every field is required, and the
/// first failing attribute, in declaration order, decides the error.
pub open spec fn spec_open_position(e: ElemModel) -> Result<OpenPositionModel, ErrorModel> {
    let s = "OpenPosition"@;
    let f_account_id = spec_required_str(e, s, "accountId"@);
    let f_asset_category = spec_asset_category_attr(e, s);
    let f_conid = spec_required_u32(e, s, "conid"@);
    let f_cost_basis_price = spec_required_amount(e, s, "costBasisPrice"@);
    let f_currency = spec_currency_attr(e, s);
    let f_fifo_pnl_unrealized = spec_required_amount(e, s, "fifoPnlUnrealized"@);
    let f_listing_exchange = spec_required_str(e, s, "listingExchange"@);
    let f_mark_price = spec_required_amount(e, s, "markPrice"@);
    let f_open_quantity = spec_required_amount(e, s, "position"@);
    let f_position_value = spec_required_amount(e, s, "positionValue"@);
    let f_side = spec_position_side_attr(e, s);
    let f_ticker = spec_required_str(e, s, "symbol"@);
    let f_eod = spec_eod_attr(e, s, "reportDate"@);
    first_err(
        f_account_id,
        first_err(
            f_asset_category,
            first_err(
                f_conid,
                first_err(
                    f_cost_basis_price,
                    first_err(
                        f_currency,
                        first_err(
                            f_fifo_pnl_unrealized,
                            first_err(
                                f_listing_exchange,
                                first_err(
                                    f_mark_price,
                                    first_err(
                                        f_open_quantity,
                                        first_err(
                                            f_position_value,
                                            first_err(
                                                f_side,
                                                first_err(
                                                    f_ticker,
                                                    first_err(
                                                        f_eod,
                                                        Ok(
                                                            OpenPositionModel {
                                                                account_id: f_account_id->Ok_0,
                                                                asset_category:
                                                                    f_asset_category->Ok_0,
                                                                conid: f_conid->Ok_0,
                                                                cost_basis_price:
                                                                    f_cost_basis_price->Ok_0,
                                                                fifo_pnl_unrealized:
                                                                    f_fifo_pnl_unrealized->Ok_0,
                                                                currency: f_currency->Ok_0,
                                                                listing_exchange:
                                                                    f_listing_exchange->Ok_0,
                                                                mark_price: f_mark_price->Ok_0,
                                                                open_quantity:
                                                                    f_open_quantity->Ok_0,
                                                                position_value:
                                                                    f_position_value->Ok_0,
                                                                timestamp_eod_ms: f_eod->Ok_0,
                                                                ticker: f_ticker->Ok_0,
                                                                side: f_side->Ok_0,
                                                            },
                                                        ),
                                                    ),
                                                ),
                                            ),
                                        ),
                                    ),
                                ),
                            ),
                        ),
                    ),
                ),
            ),
        ),
    )
}

impl StatementSection for OpenPosition {
    open spec fn spec_from_node(e: ElemModel) -> Result<OpenPositionModel, ErrorModel> {
        spec_open_position(e)
    }

    fn from_node(node: &Element) -> (r: Result<OpenPosition, DecodeError>) {
        let s = "OpenPosition";
        let account_id = match node.get_attribute(s, "accountId") {
            Ok(v) => v,
            Err(e) => {
                return Err(e);
            },
        };
        let asset_category = match asset_category_attr(node, s) {
            Ok(v) => v,
            Err(e) => {
                return Err(e);
            },
        };
        let conid = match node.parse_attribute_u32(s, "conid") {
            Ok(v) => v,
            Err(e) => {
                return Err(e);
            },
        };
        let cost_basis_price = match node.parse_attribute_amount(s, "costBasisPrice") {
            Ok(v) => v,
            Err(e) => {
                return Err(e);
            },
        };
        let currency = match currency_attr(node, s) {
            Ok(v) => v,
            Err(e) => {
                return Err(e);
            },
        };
        let fifo_pnl_unrealized = match node.parse_attribute_amount(s, "fifoPnlUnrealized") {
            Ok(v) => v,
            Err(e) => {
                return Err(e);
            },
        };
        let listing_exchange = match node.get_attribute(s, "listingExchange") {
            Ok(v) => v,
            Err(e) => {
                return Err(e);
            },
        };
        let mark_price = match node.parse_attribute_amount(s, "markPrice") {
            Ok(v) => v,
            Err(e) => {
                return Err(e);
            },
        };
        let open_quantity = match node.parse_attribute_amount(s, "position") {
            Ok(v) => v,
            Err(e) => {
                return Err(e);
            },
        };
        let position_value = match node.parse_attribute_amount(s, "positionValue") {
            Ok(v) => v,
            Err(e) => {
                return Err(e);
            },
        };
        let side = match position_side_attr(node, s) {
            Ok(v) => v,
            Err(e) => {
                return Err(e);
            },
        };
        let ticker = match node.get_attribute(s, "symbol") {
            Ok(v) => v,
            Err(e) => {
                return Err(e);
            },
        };
        let timestamp_eod_ms = match eod_attr(node, s, "reportDate") {
            Ok(v) => v,
            Err(e) => {
                return Err(e);
            },
        };
        Ok(
            OpenPosition {
                account_id,
                asset_category,
                conid,
                cost_basis_price,
                fifo_pnl_unrealized,
                currency,
                listing_exchange,
                mark_price,
                open_quantity,
                position_value,
                timestamp_eod_ms,
                ticker,
                side,
            },
        )
    }
}

} // verus!
