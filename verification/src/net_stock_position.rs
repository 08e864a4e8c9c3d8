//! The net stock position record: shares held per instrument.

use vstd::prelude::*;

use crate::asset_category::{asset_category_attr, spec_asset_category_attr, AssetCategory};
use crate::currency::{currency_attr, spec_currency_attr, Currency};
use crate::element::{
    spec_required_amount, spec_required_str, spec_required_u32, Element, ElemModel,
};
use crate::error::{first_err, DecodeError, ErrorModel};
use crate::scalars::Amount;
use crate::statement_section::StatementSection;

verus! {

/// One net stock position line.
#[derive(Debug, PartialEq, Eq, Clone)]
pub struct NetStockPosition {
    pub account_id: String,
    pub asset_category: AssetCategory,
    pub conid: u32,
    pub currency: Currency,
    pub listing_exchange: String,
    pub net_shares: Amount,
    pub ticker: String,
}

/// The abstract value of a `NetStockPosition`.
pub struct NetStockPositionModel {
    pub account_id: Seq<char>,
    pub asset_category: AssetCategory,
    pub conid: u32,
    pub currency: Currency,
    pub listing_exchange: Seq<char>,
    pub net_shares: Seq<char>,
    pub ticker: Seq<char>,
}

impl DeepView for NetStockPosition {
    type V = NetStockPositionModel;

    open spec fn deep_view(&self) -> NetStockPositionModel {
        NetStockPositionModel {
            account_id: self.account_id@,
            asset_category: self.asset_category,
            conid: self.conid,
            currency: self.currency,
            listing_exchange: self.listing_exchange@,
            net_shares: self.net_shares@,
            ticker: self.ticker@,
        }
    }
}

/// Decoding a `NetStockPosition` element: every field is required, and the
/// first failing attribute, in declaration order, decides the error.
pub open spec fn spec_net_stock_position(e: ElemModel) -> Result<NetStockPositionModel, ErrorModel> {
    let s = "NetStockPosition"@;
    let f_account_id = spec_required_str(e, s, "accountId"@);
    let f_asset_category = spec_asset_category_attr(e, s);
    let f_conid = spec_required_u32(e, s, "conid"@);
    let f_currency = spec_currency_attr(e, s);
    let f_net_shares = spec_required_amount(e, s, "netShares"@);
    let f_listing_exchange = spec_required_str(e, s, "listingExchange"@);
    let f_ticker = spec_required_str(e, s, "symbol"@);
    first_err(
        f_account_id,
        first_err(
            f_asset_category,
            first_err(
                f_conid,
                first_err(
                    f_currency,
                    first_err(
                        f_net_shares,
                        first_err(
                            f_listing_exchange,
                            first_err(
                                f_ticker,
                                Ok(
                                    NetStockPositionModel {
                                        account_id: f_account_id->Ok_0,
                                        asset_category: f_asset_category->Ok_0,
                                        conid: f_conid->Ok_0,
                                        currency: f_currency->Ok_0,
                                        listing_exchange: f_listing_exchange->Ok_0,
                                        net_shares: f_net_shares->Ok_0,
                                        ticker: f_ticker->Ok_0,
                                    },
                                ),
                            ),
                        ),
                    ),
                ),
            ),
        ),
    )
}

impl StatementSection for NetStockPosition {
    open spec fn spec_from_node(e: ElemModel) -> Result<NetStockPositionModel, ErrorModel> {
        spec_net_stock_position(e)
    }

    fn from_node(node: &Element) -> (r: Result<NetStockPosition, DecodeError>) {
        let s = "NetStockPosition";
        let account_id = match node.get_attribute(s, "accountId") {
            Ok(v) => v,
            Err(e) => {
                return Err(e);
            },
        };
        let asset_category = match asset_category_attr(node, s) {
            Ok(v) => v,
            Err(e) => {
                return Err(e);
            },
        };
        let conid = match node.parse_attribute_u32(s, "conid") {
            Ok(v) => v,
            Err(e) => {
                return Err(e);
            },
        };
        let currency = match currency_attr(node, s) {
            Ok(v) => v,
            Err(e) => {
                return Err(e);
            },
        };
        let net_shares = match node.parse_attribute_amount(s, "netShares") {
            Ok(v) => v,
            Err(e) => {
                return Err(e);
            },
        };
        let listing_exchange = match node.get_attribute(s, "listingExchange") {
            Ok(v) => v,
            Err(e) => {
                return Err(e);
            },
        };
        let ticker = match node.get_attribute(s, "symbol") {
            Ok(v) => v,
            Err(e) => {
                return Err(e);
            },
        };
        Ok(
            NetStockPosition {
                account_id,
                asset_category,
                conid,
                currency,
                listing_exchange,
                net_shares,
                ticker,
            },
        )
    }
}

} // verus!
