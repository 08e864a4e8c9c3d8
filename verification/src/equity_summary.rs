//! The equity summary record: one day's balances in base currency.

use vstd::prelude::*;

use crate::currency::{currency_attr, spec_currency_attr, Currency};
use crate::element::{
    spec_required_amount, spec_required_str, Element, ElemModel,
};
use crate::error::{first_err, DecodeError, ErrorModel};
use crate::scalars::Amount;
use crate::statement_section::StatementSection;
use crate::time_utils::{eod_attr, spec_eod_attr};

verus! {

/// One equity summary line.
#[derive(Debug, PartialEq, Eq, Clone)]
pub struct EquitySummary {
    pub account_id: String,
    pub cash_balance: Amount,
    pub cash_balance_long: Amount,
    pub cash_balance_short: Amount,
    pub currency: Currency,
    pub interest_accrual_mtd: Amount,
    pub interest_accrual_mtd_long: Amount,
    pub interest_accrual_mtd_short: Amount,
    pub stock_balance: Amount,
    pub stock_balance_long: Amount,
    pub stock_balance_short: Amount,
    pub timestamp_eod_ms: i64,
}

/// The abstract value of an `EquitySummary`.
pub struct EquitySummaryModel {
    pub account_id: Seq<char>,
    pub cash_balance: Seq<char>,
    pub cash_balance_long: Seq<char>,
    pub cash_balance_short: Seq<char>,
    pub currency: Currency,
    pub interest_accrual_mtd: Seq<char>,
    pub interest_accrual_mtd_long: Seq<char>,
    pub interest_accrual_mtd_short: Seq<char>,
    pub stock_balance: Seq<char>,
    pub stock_balance_long: Seq<char>,
    pub stock_balance_short: Seq<char>,
    pub timestamp_eod_ms: int,
}

impl DeepView for EquitySummary {
    type V = EquitySummaryModel;

    open spec fn deep_view(&self) -> EquitySummaryModel {
        EquitySummaryModel {
            account_id: self.account_id@,
            cash_balance: self.cash_balance@,
            cash_balance_long: self.cash_balance_long@,
            cash_balance_short: self.cash_balance_short@,
            currency: self.currency,
            interest_accrual_mtd: self.interest_accrual_mtd@,
            interest_accrual_mtd_long: self.interest_accrual_mtd_long@,
            interest_accrual_mtd_short: self.interest_accrual_mtd_short@,
            stock_balance: self.stock_balance@,
            stock_balance_long: self.stock_balance_long@,
            stock_balance_short: self.stock_balance_short@,
            timestamp_eod_ms: self.timestamp_eod_ms as int,
        }
    }
}

/// Decoding an `EquitySummaryByReportDateInBase` element: every field is
/// required, and the first failing attribute, in declaration order, decides
/// the error.
pub open spec fn spec_equity_summary(e: ElemModel) -> Result<EquitySummaryModel, ErrorModel> {
    let s = "EquitySummaryByReportDateInBase"@;
    let f_account_id = spec_required_str(e, s, "accountId"@);
    let f_cash = spec_required_amount(e, s, "cash"@);
    let f_cash_long = spec_required_amount(e, s, "cashLong"@);
    let f_cash_short = spec_required_amount(e, s, "cashShort"@);
    let f_currency = spec_currency_attr(e, s);
    let f_interest = spec_required_amount(e, s, "interestAccruals"@);
    let f_interest_long = spec_required_amount(e, s, "interestAccrualsLong"@);
    let f_interest_short = spec_required_amount(e, s, "interestAccrualsShort"@);
    let f_stock = spec_required_amount(e, s, "stock"@);
    let f_stock_long = spec_required_amount(e, s, "stockLong"@);
    let f_stock_short = spec_required_amount(e, s, "stockShort"@);
    let f_eod = spec_eod_attr(e, s, "reportDate"@);
    first_err(
        f_account_id,
        first_err(
            f_cash,
            first_err(
                f_cash_long,
                first_err(
                    f_cash_short,
                    first_err(
                        f_currency,
                        first_err(
                            f_interest,
                            first_err(
                                f_interest_long,
                                first_err(
                                    f_interest_short,
                                    first_err(
                                        f_stock,
                                        first_err(
                                            f_stock_long,
                                            first_err(
                                                f_stock_short,
                                                first_err(
                                                    f_eod,
                                                    Ok(
                                                        EquitySummaryModel {
                                                            account_id: f_account_id->Ok_0,
                                                            cash_balance: f_cash->Ok_0,
                                                            cash_balance_long: f_cash_long->Ok_0,
                                                            cash_balance_short: f_cash_short->Ok_0,
                                                            currency: f_currency->Ok_0,
                                                            interest_accrual_mtd: f_interest->Ok_0,
                                                            interest_accrual_mtd_long:
                                                                f_interest_long->Ok_0,
                                                            interest_accrual_mtd_short:
                                                                f_interest_short->Ok_0,
                                                            stock_balance: f_stock->Ok_0,
                                                            stock_balance_long: f_stock_long->Ok_0,
                                                            stock_balance_short:
                                                                f_stock_short->Ok_0,
                                                            timestamp_eod_ms: f_eod->Ok_0,
                                                        },
                                                    ),
                                                ),
                                            ),
                                        ),
                                    ),
                                ),
                            ),
                        ),
                    ),
                ),
            ),
        ),
    )
}

impl StatementSection for EquitySummary {
    open spec fn spec_from_node(e: ElemModel) -> Result<EquitySummaryModel, ErrorModel> {
        spec_equity_summary(e)
    }

    fn from_node(node: &Element) -> (r: Result<EquitySummary, DecodeError>) {
        let s = "EquitySummaryByReportDateInBase";
        let account_id = match node.get_attribute(s, "accountId") {
            Ok(v) => v,
            Err(e) => {
                return Err(e);
            },
        };
        let cash_balance = match node.parse_attribute_amount(s, "cash") {
            Ok(v) => v,
            Err(e) => {
                return Err(e);
            },
        };
        let cash_balance_long = match node.parse_attribute_amount(s, "cashLong") {
            Ok(v) => v,
            Err(e) => {
                return Err(e);
            },
        };
        let cash_balance_short = match node.parse_attribute_amount(s, "cashShort") {
            Ok(v) => v,
            Err(e) => {
                return Err(e);
            },
        };
        let currency = match currency_attr(node, s) {
            Ok(v) => v,
            Err(e) => {
                return Err(e);
            },
        };
        let interest_accrual_mtd = match node.parse_attribute_amount(s, "interestAccruals") {
            Ok(v) => v,
            Err(e) => {
                return Err(e);
            },
        };
        let interest_accrual_mtd_long = match node.parse_attribute_amount(
            s,
            "interestAccrualsLong",
        ) {
            Ok(v) => v,
            Err(e) => {
                return Err(e);
            },
        };
        let interest_accrual_mtd_short = match node.parse_attribute_amount(
            s,
            "interestAccrualsShort",
        ) {
            Ok(v) => v,
            Err(e) => {
                return Err(e);
            },
        };
        let stock_balance = match node.parse_attribute_amount(s, "stock") {
            Ok(v) => v,
            Err(e) => {
                return Err(e);
            },
        };
        let stock_balance_long = match node.parse_attribute_amount(s, "stockLong") {
            Ok(v) => v,
            Err(e) => {
                return Err(e);
            },
        };
        let stock_balance_short = match node.parse_attribute_amount(s, "stockShort") {
            Ok(v) => v,
            Err(e) => {
                return Err(e);
            },
        };
        let timestamp_eod_ms = match eod_attr(node, s, "reportDate") {
            Ok(v) => v,
            Err(e) => {
                return Err(e);
            },
        };
        Ok(
            EquitySummary {
                account_id,
                cash_balance,
                cash_balance_long,
                cash_balance_short,
                currency,
                interest_accrual_mtd,
                interest_accrual_mtd_long,
                interest_accrual_mtd_short,
                stock_balance,
                stock_balance_long,
                stock_balance_short,
                timestamp_eod_ms,
            },
        )
    }
}

} // verus!
