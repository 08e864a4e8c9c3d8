//! The cash report record: one currency bucket's cash movements over the
//! reporting period. Month-to-date and year-to-date figures vary by
//! statement vintage, so they are optional: absent or blank reads as "no
//! value", never as zero.

use vstd::prelude::*;

use crate::currency::{currency_attr, spec_currency_attr, Currency};
use crate::element::{
    spec_opt_amount, spec_required_amount, spec_required_str, Element, ElemModel,
};
use crate::error::{first_err, DecodeError, ErrorModel};
use crate::scalars::Amount;
use crate::statement_section::StatementSection;
use crate::time_utils::{eod_attr, spec_eod_attr};

verus! {

/// One cash report line. The reporting period runs from the first
/// millisecond after the prior day's trading close up to the trading close
/// of its last day.
#[derive(Debug, PartialEq, Eq, Clone)]
pub struct CashReport {
    pub account_id: String,
    pub currency: Currency,
    pub start_timestamp_ms: i64,
    pub end_timestamp_ms: i64,
    pub starting_cash: Amount,
    pub ending_cash: Amount,
    pub ending_settled_cash: Amount,
    pub net_trade_purchases: Amount,
    pub net_trade_sales: Amount,
    pub commissions: Amount,
    pub commissions_mtd: Option<Amount>,
    pub commissions_ytd: Option<Amount>,
    pub other_fees: Amount,
    pub other_fees_mtd: Option<Amount>,
    pub other_fees_ytd: Option<Amount>,
    pub dividends: Amount,
    pub dividends_mtd: Option<Amount>,
    pub dividends_ytd: Option<Amount>,
    pub interest: Amount,
    pub interest_mtd: Option<Amount>,
    pub interest_ytd: Option<Amount>,
    pub deposits: Amount,
    pub deposits_mtd: Option<Amount>,
    pub deposits_ytd: Option<Amount>,
    pub withdrawals: Amount,
    pub withdrawals_mtd: Option<Amount>,
    pub withdrawals_ytd: Option<Amount>,
}

/// The abstract value of a `CashReport`.
pub struct CashReportModel {
    pub account_id: Seq<char>,
    pub currency: Currency,
    pub start_timestamp_ms: int,
    pub end_timestamp_ms: int,
    pub starting_cash: Seq<char>,
    pub ending_cash: Seq<char>,
    pub ending_settled_cash: Seq<char>,
    pub net_trade_purchases: Seq<char>,
    pub net_trade_sales: Seq<char>,
    pub commissions: Seq<char>,
    pub commissions_mtd: Option<Seq<char>>,
    pub commissions_ytd: Option<Seq<char>>,
    pub other_fees: Seq<char>,
    pub other_fees_mtd: Option<Seq<char>>,
    pub other_fees_ytd: Option<Seq<char>>,
    pub dividends: Seq<char>,
    pub dividends_mtd: Option<Seq<char>>,
    pub dividends_ytd: Option<Seq<char>>,
    pub interest: Seq<char>,
    pub interest_mtd: Option<Seq<char>>,
    pub interest_ytd: Option<Seq<char>>,
    pub deposits: Seq<char>,
    pub deposits_mtd: Option<Seq<char>>,
    pub deposits_ytd: Option<Seq<char>>,
    pub withdrawals: Seq<char>,
    pub withdrawals_mtd: Option<Seq<char>>,
    pub withdrawals_ytd: Option<Seq<char>>,
}

impl DeepView for CashReport {
    type V = CashReportModel;

    open spec fn deep_view(&self) -> CashReportModel {
        CashReportModel {
            account_id: self.account_id@,
            currency: self.currency,
            start_timestamp_ms: self.start_timestamp_ms as int,
            end_timestamp_ms: self.end_timestamp_ms as int,
            starting_cash: self.starting_cash@,
            ending_cash: self.ending_cash@,
            ending_settled_cash: self.ending_settled_cash@,
            net_trade_purchases: self.net_trade_purchases@,
            net_trade_sales: self.net_trade_sales@,
            commissions: self.commissions@,
            commissions_mtd: self.commissions_mtd.deep_view(),
            commissions_ytd: self.commissions_ytd.deep_view(),
            other_fees: self.other_fees@,
            other_fees_mtd: self.other_fees_mtd.deep_view(),
            other_fees_ytd: self.other_fees_ytd.deep_view(),
            dividends: self.dividends@,
            dividends_mtd: self.dividends_mtd.deep_view(),
            dividends_ytd: self.dividends_ytd.deep_view(),
            interest: self.interest@,
            interest_mtd: self.interest_mtd.deep_view(),
            interest_ytd: self.interest_ytd.deep_view(),
            deposits: self.deposits@,
            deposits_mtd: self.deposits_mtd.deep_view(),
            deposits_ytd: self.deposits_ytd.deep_view(),
            withdrawals: self.withdrawals@,
            withdrawals_mtd: self.withdrawals_mtd.deep_view(),
            withdrawals_ytd: self.withdrawals_ytd.deep_view(),
        }
    }
}

/// Decoding a `CashReportCurrency` element. The period start is the prior
/// day's 20:00 US Eastern close, less one day in milliseconds, plus one
/// millisecond: the first millisecond after the previous close. The first
/// failing attribute, in declaration order, decides the error.
pub open spec fn spec_cash_report(e: ElemModel) -> Result<CashReportModel, ErrorModel> {
    let s = "CashReportCurrency"@;
    let f_from = spec_eod_attr(e, s, "fromDate"@);
    let f_account_id = spec_required_str(e, s, "accountId"@);
    let f_currency = spec_currency_attr(e, s);
    let f_starting_cash = spec_required_amount(e, s, "startingCash"@);
    let f_ending_cash = spec_required_amount(e, s, "endingCash"@);
    let f_ending_settled_cash = spec_required_amount(e, s, "endingSettledCash"@);
    let f_net_trade_purchases = spec_required_amount(e, s, "netTradesPurchases"@);
    let f_net_trade_sales = spec_required_amount(e, s, "netTradesSales"@);
    let f_commissions = spec_required_amount(e, s, "commissions"@);
    let f_commissions_mtd = spec_opt_amount(e, s, "commissionsMTD"@);
    let f_commissions_ytd = spec_opt_amount(e, s, "commissionsYTD"@);
    let f_other_fees = spec_required_amount(e, s, "otherFees"@);
    let f_other_fees_mtd = spec_opt_amount(e, s, "otherFeesMTD"@);
    let f_other_fees_ytd = spec_opt_amount(e, s, "otherFeesYTD"@);
    let f_dividends = spec_required_amount(e, s, "dividends"@);
    let f_dividends_mtd = spec_opt_amount(e, s, "dividendsMTD"@);
    let f_dividends_ytd = spec_opt_amount(e, s, "dividendsYTD"@);
    let f_interest = spec_required_amount(e, s, "brokerInterest"@);
    let f_interest_mtd = spec_opt_amount(e, s, "brokerInterestMTD"@);
    let f_interest_ytd = spec_opt_amount(e, s, "brokerInterestYTD"@);
    let f_deposits = spec_required_amount(e, s, "deposits"@);
    let f_deposits_mtd = spec_opt_amount(e, s, "depositsMTD"@);
    let f_deposits_ytd = spec_opt_amount(e, s, "depositsYTD"@);
    let f_withdrawals = spec_required_amount(e, s, "withdrawals"@);
    let f_withdrawals_mtd = spec_opt_amount(e, s, "withdrawalsMTD"@);
    let f_withdrawals_ytd = spec_opt_amount(e, s, "withdrawalsYTD"@);
    let f_to = spec_eod_attr(e, s, "toDate"@);
    first_err(
        f_from,
        first_err(
            f_account_id,
            first_err(
                f_currency,
                first_err(
                    f_starting_cash,
                    first_err(
                        f_ending_cash,
                        first_err(
                            f_ending_settled_cash,
                            first_err(
                                f_net_trade_purchases,
                                first_err(
                                    f_net_trade_sales,
                                    first_err(
                                        f_commissions,
                                        first_err(
                                            f_commissions_mtd,
                                            first_err(
                                                f_commissions_ytd,
                                                first_err(
                                                    f_other_fees,
                                                    first_err(
                                                        f_other_fees_mtd,
                                                        first_err(
                                                            f_other_fees_ytd,
                                                            first_err(
                                                                f_dividends,
                                                                first_err(
                                                                    f_dividends_mtd,
                                                                    first_err(
                                                                        f_dividends_ytd,
                                                                        first_err(
                                                                            f_interest,
                                                                            first_err(
                                                                                f_interest_mtd,
                                                                                first_err(
                                                                                    f_interest_ytd,
                                                                                    first_err(
                                                                                        f_deposits,
                                                                                        first_err(
                                                                                            f_deposits_mtd,
                                                                                            first_err(
                                                                                                f_deposits_ytd,
                                                                                                first_err(
                                                                                                    f_withdrawals,
                                                                                                    first_err(
                                                                                                        f_withdrawals_mtd,
                                                                                                        first_err(
                                                                                                            f_withdrawals_ytd,
                                                                                                            first_err(
                                                                                                                f_to,
                                                                                                                Ok(
                                                                                                                    CashReportModel {
                                                                                                                        account_id: f_account_id->Ok_0,
                                                                                                                        currency: f_currency->Ok_0,
                                                                                                                        start_timestamp_ms: f_from->Ok_0 - 86400000 + 1,
                                                                                                                        end_timestamp_ms: f_to->Ok_0,
                                                                                                                        starting_cash: f_starting_cash->Ok_0,
                                                                                                                        ending_cash: f_ending_cash->Ok_0,
                                                                                                                        ending_settled_cash: f_ending_settled_cash->Ok_0,
                                                                                                                        net_trade_purchases: f_net_trade_purchases->Ok_0,
                                                                                                                        net_trade_sales: f_net_trade_sales->Ok_0,
                                                                                                                        commissions: f_commissions->Ok_0,
                                                                                                                        commissions_mtd: f_commissions_mtd->Ok_0,
                                                                                                                        commissions_ytd: f_commissions_ytd->Ok_0,
                                                                                                                        other_fees: f_other_fees->Ok_0,
                                                                                                                        other_fees_mtd: f_other_fees_mtd->Ok_0,
                                                                                                                        other_fees_ytd: f_other_fees_ytd->Ok_0,
                                                                                                                        dividends: f_dividends->Ok_0,
                                                                                                                        dividends_mtd: f_dividends_mtd->Ok_0,
                                                                                                                        dividends_ytd: f_dividends_ytd->Ok_0,
                                                                                                                        interest: f_interest->Ok_0,
                                                                                                                        interest_mtd: f_interest_mtd->Ok_0,
                                                                                                                        interest_ytd: f_interest_ytd->Ok_0,
                                                                                                                        deposits: f_deposits->Ok_0,
                                                                                                                        deposits_mtd: f_deposits_mtd->Ok_0,
                                                                                                                        deposits_ytd: f_deposits_ytd->Ok_0,
                                                                                                                        withdrawals: f_withdrawals->Ok_0,
                                                                                                                        withdrawals_mtd: f_withdrawals_mtd->Ok_0,
                                                                                                                        withdrawals_ytd: f_withdrawals_ytd->Ok_0,
                                                                                                                    },
                                                                                                                ),
                                                                                                            ),
                                                                                                        ),
                                                                                                    ),
                                                                                                ),
                                                                                            ),
                                                                                        ),
                                                                                    ),
                                                                                ),
                                                                            ),
                                                                        ),
                                                                    ),
                                                                ),
                                                            ),
                                                        ),
                                                    ),
                                                ),
                                            ),
                                        ),
                                    ),
                                ),
                            ),
                        ),
                    ),
                ),
            ),
        ),
    )
}

impl StatementSection for CashReport {
    open spec fn spec_from_node(e: ElemModel) -> Result<CashReportModel, ErrorModel> {
        spec_cash_report(e)
    }

    fn from_node(node: &Element) -> (r: Result<CashReport, DecodeError>) {
        let s = "CashReportCurrency";
        let from_ms = match eod_attr(node, s, "fromDate") {
            Ok(v) => v,
            Err(e) => {
                return Err(e);
            },
        };
        let account_id = match node.get_attribute(s, "accountId") {
            Ok(v) => v,
            Err(e) => {
                return Err(e);
            },
        };
        let currency = match currency_attr(node, s) {
            Ok(v) => v,
            Err(e) => {
                return Err(e);
            },
        };
        let starting_cash = match node.parse_attribute_amount(s, "startingCash") {
            Ok(v) => v,
            Err(e) => {
                return Err(e);
            },
        };
        let ending_cash = match node.parse_attribute_amount(s, "endingCash") {
            Ok(v) => v,
            Err(e) => {
                return Err(e);
            },
        };
        let ending_settled_cash = match node.parse_attribute_amount(s, "endingSettledCash") {
            Ok(v) => v,
            Err(e) => {
                return Err(e);
            },
        };
        let net_trade_purchases = match node.parse_attribute_amount(s, "netTradesPurchases") {
            Ok(v) => v,
            Err(e) => {
                return Err(e);
            },
        };
        let net_trade_sales = match node.parse_attribute_amount(s, "netTradesSales") {
            Ok(v) => v,
            Err(e) => {
                return Err(e);
            },
        };
        let commissions = match node.parse_attribute_amount(s, "commissions") {
            Ok(v) => v,
            Err(e) => {
                return Err(e);
            },
        };
        let commissions_mtd = match node.parse_attribute_opt_amount(s, "commissionsMTD") {
            Ok(v) => v,
            Err(e) => {
                return Err(e);
            },
        };
        let commissions_ytd = match node.parse_attribute_opt_amount(s, "commissionsYTD") {
            Ok(v) => v,
            Err(e) => {
                return Err(e);
            },
        };
        let other_fees = match node.parse_attribute_amount(s, "otherFees") {
            Ok(v) => v,
            Err(e) => {
                return Err(e);
            },
        };
        let other_fees_mtd = match node.parse_attribute_opt_amount(s, "otherFeesMTD") {
            Ok(v) => v,
            Err(e) => {
                return Err(e);
            },
        };
        let other_fees_ytd = match node.parse_attribute_opt_amount(s, "otherFeesYTD") {
            Ok(v) => v,
            Err(e) => {
                return Err(e);
            },
        };
        let dividends = match node.parse_attribute_amount(s, "dividends") {
            Ok(v) => v,
            Err(e) => {
                return Err(e);
            },
        };
        let dividends_mtd = match node.parse_attribute_opt_amount(s, "dividendsMTD") {
            Ok(v) => v,
            Err(e) => {
                return Err(e);
            },
        };
        let dividends_ytd = match node.parse_attribute_opt_amount(s, "dividendsYTD") {
            Ok(v) => v,
            Err(e) => {
                return Err(e);
            },
        };
        let interest = match node.parse_attribute_amount(s, "brokerInterest") {
            Ok(v) => v,
            Err(e) => {
                return Err(e);
            },
        };
        let interest_mtd = match node.parse_attribute_opt_amount(s, "brokerInterestMTD") {
            Ok(v) => v,
            Err(e) => {
                return Err(e);
            },
        };
        let interest_ytd = match node.parse_attribute_opt_amount(s, "brokerInterestYTD") {
            Ok(v) => v,
            Err(e) => {
                return Err(e);
            },
        };
        let deposits = match node.parse_attribute_amount(s, "deposits") {
            Ok(v) => v,
            Err(e) => {
                return Err(e);
            },
        };
        let deposits_mtd = match node.parse_attribute_opt_amount(s, "depositsMTD") {
            Ok(v) => v,
            Err(e) => {
                return Err(e);
            },
        };
        let deposits_ytd = match node.parse_attribute_opt_amount(s, "depositsYTD") {
            Ok(v) => v,
            Err(e) => {
                return Err(e);
            },
        };
        let withdrawals = match node.parse_attribute_amount(s, "withdrawals") {
            Ok(v) => v,
            Err(e) => {
                return Err(e);
            },
        };
        let withdrawals_mtd = match node.parse_attribute_opt_amount(s, "withdrawalsMTD") {
            Ok(v) => v,
            Err(e) => {
                return Err(e);
            },
        };
        let withdrawals_ytd = match node.parse_attribute_opt_amount(s, "withdrawalsYTD") {
            Ok(v) => v,
            Err(e) => {
                return Err(e);
            },
        };
        let end_timestamp_ms = match eod_attr(node, s, "toDate") {
            Ok(v) => v,
            Err(e) => {
                return Err(e);
            },
        };
        let start_timestamp_ms: i64 = from_ms - 86400000 + 1;
        Ok(
            CashReport {
                start_timestamp_ms,
                end_timestamp_ms,
                account_id,
                currency,
                starting_cash,
                ending_cash,
                ending_settled_cash,
                net_trade_purchases,
                net_trade_sales,
                commissions,
                commissions_mtd,
                commissions_ytd,
                other_fees,
                other_fees_mtd,
                other_fees_ytd,
                dividends,
                dividends_mtd,
                dividends_ytd,
                interest,
                interest_mtd,
                interest_ytd,
                deposits,
                deposits_mtd,
                deposits_ytd,
                withdrawals,
                withdrawals_mtd,
                withdrawals_ytd,
            },
        )
    }
}

} // verus!
