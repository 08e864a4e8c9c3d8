//! The FIFO performance record: realized and unrealized profit and loss per
//! underlying instrument, or as an instrument-free aggregate row.

use vstd::prelude::*;

use crate::element::{
    spec_opt_str, spec_opt_u32, spec_required_amount, spec_required_str, Element, ElemModel,
};
use crate::error::{first_err, DecodeError, ErrorModel};
use crate::scalars::Amount;
use crate::statement_section::StatementSection;
use crate::time_utils::{eod_attr, spec_eod_attr};

verus! {

/// One FIFO performance line. The instrument fields are optional: a summary
/// row carries blank instrument attributes and stands for a
/// non-instrument-specific aggregate.
#[derive(Debug, PartialEq, Eq, Clone)]
pub struct FIFOPerformanceSummary {
    pub account_id: String,
    pub timestamp_eod_ms: i64,
    pub ticker: Option<String>,
    pub conid: Option<u32>,
    pub listing_exchange: Option<String>,
    pub realized_st_profit: Amount,
    pub realized_st_loss: Amount,
    pub unrealized_st_profit: Amount,
    pub unrealized_st_loss: Amount,
    pub realized_lt_profit: Amount,
    pub realized_lt_loss: Amount,
    pub unrealized_lt_profit: Amount,
    pub unrealized_lt_loss: Amount,
    pub total_realized_pnl: Amount,
    pub total_fifo_pnl: Amount,
}

/// The abstract value of a `FIFOPerformanceSummary`.
pub struct FIFOPerformanceSummaryModel {
    pub account_id: Seq<char>,
    pub timestamp_eod_ms: int,
    pub ticker: Option<Seq<char>>,
    pub conid: Option<u32>,
    pub listing_exchange: Option<Seq<char>>,
    pub realized_st_profit: Seq<char>,
    pub realized_st_loss: Seq<char>,
    pub unrealized_st_profit: Seq<char>,
    pub unrealized_st_loss: Seq<char>,
    pub realized_lt_profit: Seq<char>,
    pub realized_lt_loss: Seq<char>,
    pub unrealized_lt_profit: Seq<char>,
    pub unrealized_lt_loss: Seq<char>,
    pub total_realized_pnl: Seq<char>,
    pub total_fifo_pnl: Seq<char>,
}

impl DeepView for FIFOPerformanceSummary {
    type V = FIFOPerformanceSummaryModel;

    open spec fn deep_view(&self) -> FIFOPerformanceSummaryModel {
        FIFOPerformanceSummaryModel {
            account_id: self.account_id@,
            timestamp_eod_ms: self.timestamp_eod_ms as int,
            ticker: self.ticker.deep_view(),
            conid: self.conid,
            listing_exchange: self.listing_exchange.deep_view(),
            realized_st_profit: self.realized_st_profit@,
            realized_st_loss: self.realized_st_loss@,
            unrealized_st_profit: self.unrealized_st_profit@,
            unrealized_st_loss: self.unrealized_st_loss@,
            realized_lt_profit: self.realized_lt_profit@,
            realized_lt_loss: self.realized_lt_loss@,
            unrealized_lt_profit: self.unrealized_lt_profit@,
            unrealized_lt_loss: self.unrealized_lt_loss@,
            total_realized_pnl: self.total_realized_pnl@,
            total_fifo_pnl: self.total_fifo_pnl@,
        }
    }
}

/// Decoding a `FIFOPerformanceSummaryUnderlying` element: instrument fields
/// are optional (blank or absent reads as "no value"), profit-and-loss
/// fields are required; the first failing attribute, in declaration order,
/// decides the error.
pub open spec fn spec_fifo_performance_summary(e: ElemModel) -> Result<
    FIFOPerformanceSummaryModel,
    ErrorModel,
> {
    let s = "FIFOPerformanceSummaryUnderlying"@;
    let f_account_id = spec_required_str(e, s, "accountId"@);
    let f_eod = spec_eod_attr(e, s, "reportDate"@);
    let f_ticker = spec_opt_str(e, "symbol"@);
    let f_conid = spec_opt_u32(e, s, "conid"@);
    let f_listing_exchange = spec_opt_str(e, "listingExchange"@);
    let f_rsp = spec_required_amount(e, s, "realizedSTProfit"@);
    let f_rsl = spec_required_amount(e, s, "realizedSTLoss"@);
    let f_usp = spec_required_amount(e, s, "unrealizedSTProfit"@);
    let f_usl = spec_required_amount(e, s, "unrealizedSTLoss"@);
    let f_rlp = spec_required_amount(e, s, "realizedLTProfit"@);
    let f_rll = spec_required_amount(e, s, "realizedLTLoss"@);
    let f_ulp = spec_required_amount(e, s, "unrealizedLTProfit"@);
    let f_ull = spec_required_amount(e, s, "unrealizedLTLoss"@);
    let f_trp = spec_required_amount(e, s, "totalRealizedPnl"@);
    let f_tfp = spec_required_amount(e, s, "totalFifoPnl"@);
    first_err(
        f_account_id,
        first_err(
            f_eod,
            first_err(
                f_conid,
                first_err(
                    f_rsp,
                    first_err(
                        f_rsl,
                        first_err(
                            f_usp,
                            first_err(
                                f_usl,
                                first_err(
                                    f_rlp,
                                    first_err(
                                        f_rll,
                                        first_err(
                                            f_ulp,
                                            first_err(
                                                f_ull,
                                                first_err(
                                                    f_trp,
                                                    first_err(
                                                        f_tfp,
                                                        Ok(
                                                            FIFOPerformanceSummaryModel {
                                                                account_id: f_account_id->Ok_0,
                                                                timestamp_eod_ms: f_eod->Ok_0,
                                                                ticker: f_ticker,
                                                                conid: f_conid->Ok_0,
                                                                listing_exchange:
                                                                    f_listing_exchange,
                                                                realized_st_profit: f_rsp->Ok_0,
                                                                realized_st_loss: f_rsl->Ok_0,
                                                                unrealized_st_profit: f_usp->Ok_0,
                                                                unrealized_st_loss: f_usl->Ok_0,
                                                                realized_lt_profit: f_rlp->Ok_0,
                                                                realized_lt_loss: f_rll->Ok_0,
                                                                unrealized_lt_profit: f_ulp->Ok_0,
                                                                unrealized_lt_loss: f_ull->Ok_0,
                                                                total_realized_pnl: f_trp->Ok_0,
                                                                total_fifo_pnl: f_tfp->Ok_0,
                                                            },
                                                        ),
                                                    ),
                                                ),
                                            ),
                                        ),
                                    ),
                                ),
                            ),
                        ),
                    ),
                ),
            ),
        ),
    )
}

impl StatementSection for FIFOPerformanceSummary {
    open spec fn spec_from_node(e: ElemModel) -> Result<FIFOPerformanceSummaryModel, ErrorModel> {
        spec_fifo_performance_summary(e)
    }

    fn from_node(node: &Element) -> (r: Result<FIFOPerformanceSummary, DecodeError>) {
        let s = "FIFOPerformanceSummaryUnderlying";
        let account_id = match node.get_attribute(s, "accountId") {
            Ok(v) => v,
            Err(e) => {
                return Err(e);
            },
        };
        let timestamp_eod_ms = match eod_attr(node, s, "reportDate") {
            Ok(v) => v,
            Err(e) => {
                return Err(e);
            },
        };
        let ticker = node.get_attribute_opt("symbol");
        let conid = match node.parse_attribute_opt_u32(s, "conid") {
            Ok(v) => v,
            Err(e) => {
                return Err(e);
            },
        };
        let listing_exchange = node.get_attribute_opt("listingExchange");
        let realized_st_profit = match node.parse_attribute_amount(s, "realizedSTProfit") {
            Ok(v) => v,
            Err(e) => {
                return Err(e);
            },
        };
        let realized_st_loss = match node.parse_attribute_amount(s, "realizedSTLoss") {
            Ok(v) => v,
            Err(e) => {
                return Err(e);
            },
        };
        let unrealized_st_profit = match node.parse_attribute_amount(s, "unrealizedSTProfit") {
            Ok(v) => v,
            Err(e) => {
                return Err(e);
            },
        };
        let unrealized_st_loss = match node.parse_attribute_amount(s, "unrealizedSTLoss") {
            Ok(v) => v,
            Err(e) => {
                return Err(e);
            },
        };
        let realized_lt_profit = match node.parse_attribute_amount(s, "realizedLTProfit") {
            Ok(v) => v,
            Err(e) => {
                return Err(e);
            },
        };
        let realized_lt_loss = match node.parse_attribute_amount(s, "realizedLTLoss") {
            Ok(v) => v,
            Err(e) => {
                return Err(e);
            },
        };
        let unrealized_lt_profit = match node.parse_attribute_amount(s, "unrealizedLTProfit") {
            Ok(v) => v,
            Err(e) => {
                return Err(e);
            },
        };
        let unrealized_lt_loss = match node.parse_attribute_amount(s, "unrealizedLTLoss") {
            Ok(v) => v,
            Err(e) => {
                return Err(e);
            },
        };
        let total_realized_pnl = match node.parse_attribute_amount(s, "totalRealizedPnl") {
            Ok(v) => v,
            Err(e) => {
                return Err(e);
            },
        };
        let total_fifo_pnl = match node.parse_attribute_amount(s, "totalFifoPnl") {
            Ok(v) => v,
            Err(e) => {
                return Err(e);
            },
        };
        Ok(
            FIFOPerformanceSummary {
                account_id,
                timestamp_eod_ms,
                ticker,
                conid,
                listing_exchange,
                realized_st_profit,
                realized_st_loss,
                unrealized_st_profit,
                unrealized_st_loss,
                realized_lt_profit,
                realized_lt_loss,
                unrealized_lt_profit,
                unrealized_lt_loss,
                total_realized_pnl,
                total_fifo_pnl,
            },
        )
    }
}

} // verus!
