//! Decoder for broker-issued Flex statement XML: a typed, validated domain
//! model of statements, records and timestamps, decoded fail-fast from a
//! shallow forest of attribute-carrying elements.

pub mod account_info;
pub mod asset_category;
pub mod cash_report;
pub mod currency;
pub mod element;
pub mod equity_summary;
pub mod error;
pub mod fifo_performance_summary;
pub mod net_stock_position;
pub mod open_position;
pub mod scalars;
pub mod statement_section;
pub mod time_utils;
pub mod trade;
pub mod xml;

use vstd::prelude::*;

use crate::account_info::{AccountInfo, AccountInfoModel};
use crate::cash_report::CashReport;
use crate::element::{descendants_with_tag, spec_descendants, Element, ElemModel};
use crate::equity_summary::EquitySummary;
use crate::error::{first_err, res_model, DecodeError, ErrorModel};
use crate::fifo_performance_summary::FIFOPerformanceSummary;
use crate::net_stock_position::NetStockPosition;
use crate::open_position::OpenPosition;
use crate::statement_section::{StatementSection, StatementSectionWithTimezone};
use crate::time_utils::TzMapping;
use crate::trade::Trade;
use crate::xml::{parse_xml_root, xml_root_of};

verus! {

/// One decoded statement: exactly one account identity, and each record
/// kind's occurrences in document order.
#[derive(Debug, PartialEq, Eq)]
pub struct Statement {
    pub account_info: AccountInfo,
    pub cash_reports: Vec<CashReport>,
    pub equity_summaries: Vec<EquitySummary>,
    pub fifo_performance_summaries: Vec<FIFOPerformanceSummary>,
    pub net_stock_positions: Vec<NetStockPosition>,
    pub open_positions: Vec<OpenPosition>,
    pub trades: Vec<Trade>,
}

/// The abstract value of a `Statement`.
pub struct StatementModel {
    pub account_info: AccountInfoModel,
    pub cash_reports: Seq<<CashReport as DeepView>::V>,
    pub equity_summaries: Seq<<EquitySummary as DeepView>::V>,
    pub fifo_performance_summaries: Seq<<FIFOPerformanceSummary as DeepView>::V>,
    pub net_stock_positions: Seq<<NetStockPosition as DeepView>::V>,
    pub open_positions: Seq<<OpenPosition as DeepView>::V>,
    pub trades: Seq<<Trade as DeepView>::V>,
}

impl DeepView for Statement {
    type V = StatementModel;

    open spec fn deep_view(&self) -> StatementModel {
        StatementModel {
            account_info: self.account_info.deep_view(),
            cash_reports: self.cash_reports.deep_view(),
            equity_summaries: self.equity_summaries.deep_view(),
            fifo_performance_summaries: self.fifo_performance_summaries.deep_view(),
            net_stock_positions: self.net_stock_positions.deep_view(),
            open_positions: self.open_positions.deep_view(),
            trades: self.trades.deep_view(),
        }
    }
}

/// Decoding every element of a section scan, in document order, keeping the
/// first failure.
pub open spec fn spec_parse_section<T: StatementSection>(elems: Seq<ElemModel>) -> Result<
    Seq<T::V>,
    ErrorModel,
>
    decreases elems.len(),
{
    if elems.len() == 0 {
        Ok(Seq::empty())
    } else {
        match spec_parse_section::<T>(elems.subrange(0, elems.len() - 1)) {
            Ok(front) => match T::spec_from_node(elems[elems.len() - 1]) {
                Ok(v) => Ok(front.push(v)),
                Err(er) => Err(er),
            },
            Err(er) => Err(er),
        }
    }
}

/// As `spec_parse_section`, for record kinds that need the timezone table.
pub open spec fn spec_parse_section_with_timezone<T: StatementSectionWithTimezone>(
    elems: Seq<ElemModel>,
    timezone_map: Seq<(Seq<char>, Seq<char>)>,
) -> Result<Seq<T::V>, ErrorModel>
    decreases elems.len(),
{
    if elems.len() == 0 {
        Ok(Seq::empty())
    } else {
        match spec_parse_section_with_timezone::<T>(
            elems.subrange(0, elems.len() - 1),
            timezone_map,
        ) {
            Ok(front) => match T::spec_from_node(elems[elems.len() - 1], timezone_map) {
                Ok(v) => Ok(front.push(v)),
                Err(er) => Err(er),
            },
            Err(er) => Err(er),
        }
    }
}

proof fn lemma_parse_section_error<T: StatementSection>(elems: Seq<ElemModel>, i: int)
    requires
        0 <= i < elems.len(),
        spec_parse_section::<T>(elems.subrange(0, i)) is Ok,
        T::spec_from_node(elems[i]) is Err,
    ensures
        spec_parse_section::<T>(elems) == Err::<Seq<T::V>, ErrorModel>(
            T::spec_from_node(elems[i])->Err_0,
        ),
    decreases elems.len(),
{
    if elems.len() == i + 1 {
        assert(elems.subrange(0, elems.len() - 1) =~= elems.subrange(0, i));
    } else {
        let front = elems.subrange(0, elems.len() - 1);
        assert(front.subrange(0, i) =~= elems.subrange(0, i));
        assert(front[i] == elems[i]);
        lemma_parse_section_error::<T>(front, i);
    }
}

proof fn lemma_parse_section_with_timezone_error<T: StatementSectionWithTimezone>(
    elems: Seq<ElemModel>,
    timezone_map: Seq<(Seq<char>, Seq<char>)>,
    i: int,
)
    requires
        0 <= i < elems.len(),
        spec_parse_section_with_timezone::<T>(elems.subrange(0, i), timezone_map) is Ok,
        T::spec_from_node(elems[i], timezone_map) is Err,
    ensures
        spec_parse_section_with_timezone::<T>(elems, timezone_map) == Err::<Seq<T::V>, ErrorModel>(
            T::spec_from_node(elems[i], timezone_map)->Err_0,
        ),
    decreases elems.len(),
{
    if elems.len() == i + 1 {
        assert(elems.subrange(0, elems.len() - 1) =~= elems.subrange(0, i));
    } else {
        let front = elems.subrange(0, elems.len() - 1);
        assert(front.subrange(0, i) =~= elems.subrange(0, i));
        assert(front[i] == elems[i]);
        lemma_parse_section_with_timezone_error::<T>(front, timezone_map, i);
    }
}

/// Decoding one `FlexStatement` element: exactly one account identity, then
/// every known record kind scanned among the statement's descendants, in
/// document order, fail-fast.
pub open spec fn spec_parse_flex_statement(
    m: ElemModel,
    timezone_map: Seq<(Seq<char>, Seq<char>)>,
) -> Result<StatementModel, ErrorModel> {
    match spec_parse_section::<AccountInfo>(spec_descendants(m, "AccountInformation"@)) {
        Err(er) => Err(er),
        Ok(infos) => if infos.len() > 1 {
            Err(
                ErrorModel::StatementStructureError {
                    reason: "multiple account information sections found"@,
                },
            )
        } else if infos.len() == 0 {
            Err(
                ErrorModel::StatementStructureError {
                    reason: "no account information sections found"@,
                },
            )
        } else {
            let f_cash = spec_parse_section::<CashReport>(
                spec_descendants(m, "CashReportCurrency"@),
            );
            let f_equity = spec_parse_section::<EquitySummary>(
                spec_descendants(m, "EquitySummaryByReportDateInBase"@),
            );
            let f_fifo = spec_parse_section::<FIFOPerformanceSummary>(
                spec_descendants(m, "FIFOPerformanceSummaryUnderlying"@),
            );
            let f_net = spec_parse_section::<NetStockPosition>(
                spec_descendants(m, "NetStockPosition"@),
            );
            let f_open = spec_parse_section::<OpenPosition>(spec_descendants(m, "OpenPosition"@));
            let f_trades = spec_parse_section_with_timezone::<Trade>(
                spec_descendants(m, "Trade"@),
                timezone_map,
            );
            first_err(
                f_cash,
                first_err(
                    f_equity,
                    first_err(
                        f_fifo,
                        first_err(
                            f_net,
                            first_err(
                                f_open,
                                first_err(
                                    f_trades,
                                    Ok(
                                        StatementModel {
                                            account_info: infos[0],
                                            cash_reports: f_cash->Ok_0,
                                            equity_summaries: f_equity->Ok_0,
                                            fifo_performance_summaries: f_fifo->Ok_0,
                                            net_stock_positions: f_net->Ok_0,
                                            open_positions: f_open->Ok_0,
                                            trades: f_trades->Ok_0,
                                        },
                                    ),
                                ),
                            ),
                        ),
                    ),
                ),
            )
        },
    }
}

/// Decoding a whole document root: one statement per `FlexStatement`
/// descendant, in document order, or the first failure.
pub open spec fn spec_parse_response_root(
    root: ElemModel,
    timezone_map: Seq<(Seq<char>, Seq<char>)>,
) -> Result<Seq<StatementModel>, ErrorModel> {
    spec_parse_statement_list(spec_descendants(root, "FlexStatement"@), timezone_map)
}

/// Decoding a sequence of statement elements, keeping the first failure.
pub open spec fn spec_parse_statement_list(
    elems: Seq<ElemModel>,
    timezone_map: Seq<(Seq<char>, Seq<char>)>,
) -> Result<Seq<StatementModel>, ErrorModel>
    decreases elems.len(),
{
    if elems.len() == 0 {
        Ok(Seq::empty())
    } else {
        match spec_parse_statement_list(elems.subrange(0, elems.len() - 1), timezone_map) {
            Ok(front) => match spec_parse_flex_statement(elems[elems.len() - 1], timezone_map) {
                Ok(v) => Ok(front.push(v)),
                Err(er) => Err(er),
            },
            Err(er) => Err(er),
        }
    }
}

proof fn lemma_parse_statement_list_error(
    elems: Seq<ElemModel>,
    timezone_map: Seq<(Seq<char>, Seq<char>)>,
    i: int,
)
    requires
        0 <= i < elems.len(),
        spec_parse_statement_list(elems.subrange(0, i), timezone_map) is Ok,
        spec_parse_flex_statement(elems[i], timezone_map) is Err,
    ensures
        spec_parse_statement_list(elems, timezone_map) == Err::<Seq<StatementModel>, ErrorModel>(
            spec_parse_flex_statement(elems[i], timezone_map)->Err_0,
        ),
    decreases elems.len(),
{
    if elems.len() == i + 1 {
        assert(elems.subrange(0, elems.len() - 1) =~= elems.subrange(0, i));
    } else {
        let front = elems.subrange(0, elems.len() - 1);
        assert(front.subrange(0, i) =~= elems.subrange(0, i));
        assert(front[i] == elems[i]);
        lemma_parse_statement_list_error(front, timezone_map, i);
    }
}

/// Parser for the content of a Flex-statement XML document. It carries the
/// timezone-abbreviation table that execution timestamps are resolved
/// through; the shipped default maps `EST` and `EDT` to US Eastern time.
pub struct Parser {
    pub timezone_map: Vec<TzMapping>,
}

impl Parser {
    /// A parser with the default abbreviation table: `EST` and `EDT`, both
    /// standing for `America/New_York`.
    pub fn new() -> (r: Result<Parser, DecodeError>)
        ensures
            r is Ok,
            r matches Ok(p) ==> p.timezone_map.deep_view() == seq![
                ("EST"@, "America/New_York"@),
                ("EDT"@, "America/New_York"@),
            ],
    {
        let mut timezone_map: Vec<TzMapping> = Vec::new();
        timezone_map.push(
            TzMapping { abbreviation: "EST".to_owned(), tz_name: "America/New_York".to_owned() },
        );
        timezone_map.push(
            TzMapping { abbreviation: "EDT".to_owned(), tz_name: "America/New_York".to_owned() },
        );
        proof {
            assert(timezone_map.deep_view() =~= seq![
                ("EST"@, "America/New_York"@),
                ("EDT"@, "America/New_York"@),
            ]);
        }
        Ok(Parser { timezone_map })
    }

    /// Decodes every descendant of `node` whose tag is `section_name` as a
    /// record of kind `T`, in document order, fail-fast.
    fn parse_section<T: StatementSection>(&self, node: &Element, section_name: &str) -> (r: Result<
        Vec<T>,
        DecodeError,
    >)
        ensures
            res_model(r) == spec_parse_section::<T>(
                spec_descendants(node.deep_view(), section_name@),
            ),
    {
        let elems = descendants_with_tag(node, section_name);
        let ghost dm = spec_descendants(node.deep_view(), section_name@);
        let n = elems.len();
        let mut out: Vec<T> = Vec::new();
        proof {
            assert(out.deep_view() =~= Seq::<T::V>::empty());
            assert(dm.subrange(0, 0) =~= Seq::<ElemModel>::empty());
        }
        let mut i: usize = 0;
        while i < n
            invariant
                0 <= i <= n,
                n == elems.len(),
                dm == spec_descendants(node.deep_view(), section_name@),
                elems.deep_view() == dm,
                dm.len() == n,
                spec_parse_section::<T>(dm.subrange(0, i as int)) == Ok::<Seq<T::V>, ErrorModel>(
                    out.deep_view(),
                ),
            decreases n - i,
        {
            let rec = match T::from_node(elems[i]) {
                Ok(v) => v,
                Err(e) => {
                    proof {
                        lemma_parse_section_error::<T>(dm, i as int);
                    }
                    return Err(e);
                },
            };
            out.push(rec);
            proof {
                let sub1 = dm.subrange(0, i as int + 1);
                assert(sub1.subrange(0, sub1.len() - 1) =~= dm.subrange(0, i as int));
                assert(sub1[sub1.len() - 1] == dm[i as int]);
                assert(out.deep_view() =~= spec_parse_section::<T>(sub1)->Ok_0);
            }
            i = i + 1;
        }
        proof {
            assert(dm.subrange(0, n as int) =~= dm);
        }
        Ok(out)
    }

    /// As `parse_section`, for record kinds that need the timezone table.
    fn parse_section_with_timezone<T: StatementSectionWithTimezone>(
        &self,
        node: &Element,
        section_name: &str,
    ) -> (r: Result<Vec<T>, DecodeError>)
        ensures
            res_model(r) == spec_parse_section_with_timezone::<T>(
                spec_descendants(node.deep_view(), section_name@),
                self.timezone_map.deep_view(),
            ),
    {
        let elems = descendants_with_tag(node, section_name);
        let ghost dm = spec_descendants(node.deep_view(), section_name@);
        let ghost tm = self.timezone_map.deep_view();
        let n = elems.len();
        let mut out: Vec<T> = Vec::new();
        proof {
            assert(out.deep_view() =~= Seq::<T::V>::empty());
            assert(dm.subrange(0, 0) =~= Seq::<ElemModel>::empty());
        }
        let mut i: usize = 0;
        while i < n
            invariant
                0 <= i <= n,
                n == elems.len(),
                dm == spec_descendants(node.deep_view(), section_name@),
                tm == self.timezone_map.deep_view(),
                elems.deep_view() == dm,
                dm.len() == n,
                spec_parse_section_with_timezone::<T>(dm.subrange(0, i as int), tm) == Ok::<
                    Seq<T::V>,
                    ErrorModel,
                >(out.deep_view()),
            decreases n - i,
        {
            let rec = match T::from_node(elems[i], &self.timezone_map) {
                Ok(v) => v,
                Err(e) => {
                    proof {
                        lemma_parse_section_with_timezone_error::<T>(dm, tm, i as int);
                    }
                    return Err(e);
                },
            };
            out.push(rec);
            proof {
                let sub1 = dm.subrange(0, i as int + 1);
                assert(sub1.subrange(0, sub1.len() - 1) =~= dm.subrange(0, i as int));
                assert(sub1[sub1.len() - 1] == dm[i as int]);
                assert(out.deep_view() =~= spec_parse_section_with_timezone::<T>(sub1, tm)->Ok_0);
            }
            i = i + 1;
        }
        proof {
            assert(dm.subrange(0, n as int) =~= dm);
        }
        Ok(out)
    }

    /// Decodes one `FlexStatement` element, enforcing the single
    /// account-identity invariant.
    fn parse_flex_statement(&self, node: &Element) -> (r: Result<Statement, DecodeError>)
        ensures
            res_model(r) == spec_parse_flex_statement(
                node.deep_view(),
                self.timezone_map.deep_view(),
            ),
    {
        let mut account_infos: Vec<AccountInfo> = match self.parse_section::<AccountInfo>(
            node,
            "AccountInformation",
        ) {
            Ok(v) => v,
            Err(e) => {
                return Err(e);
            },
        };
        if account_infos.len() > 1 {
            return Err(
                DecodeError::StatementStructureError {
                    reason: "multiple account information sections found".to_owned(),
                },
            );
        }
        let account_info = match account_infos.pop() {
            Some(a) => a,
            None => {
                return Err(
                    DecodeError::StatementStructureError {
                        reason: "no account information sections found".to_owned(),
                    },
                );
            },
        };
        let cash_reports = match self.parse_section::<CashReport>(node, "CashReportCurrency") {
            Ok(v) => v,
            Err(e) => {
                return Err(e);
            },
        };
        let equity_summaries = match self.parse_section::<EquitySummary>(
            node,
            "EquitySummaryByReportDateInBase",
        ) {
            Ok(v) => v,
            Err(e) => {
                return Err(e);
            },
        };
        let fifo_performance_summaries = match self.parse_section::<FIFOPerformanceSummary>(
            node,
            "FIFOPerformanceSummaryUnderlying",
        ) {
            Ok(v) => v,
            Err(e) => {
                return Err(e);
            },
        };
        let net_stock_positions = match self.parse_section::<NetStockPosition>(
            node,
            "NetStockPosition",
        ) {
            Ok(v) => v,
            Err(e) => {
                return Err(e);
            },
        };
        let open_positions = match self.parse_section::<OpenPosition>(node, "OpenPosition") {
            Ok(v) => v,
            Err(e) => {
                return Err(e);
            },
        };
        let trades = match self.parse_section_with_timezone::<Trade>(node, "Trade") {
            Ok(v) => v,
            Err(e) => {
                return Err(e);
            },
        };
        Ok(
            Statement {
                account_info,
                cash_reports,
                equity_summaries,
                fifo_performance_summaries,
                net_stock_positions,
                open_positions,
                trades,
            },
        )
    }

    /// Decodes every `FlexStatement` under an already-modelled document
    /// root, in document order, fail-fast across the whole document.
    pub fn parse_statements(&self, root: &Element) -> (r: Result<Vec<Statement>, DecodeError>)
        ensures
            res_model(r) == spec_parse_response_root(
                root.deep_view(),
                self.timezone_map.deep_view(),
            ),
    {
        let elems = descendants_with_tag(root, "FlexStatement");
        let ghost dm = spec_descendants(root.deep_view(), "FlexStatement"@);
        let ghost tm = self.timezone_map.deep_view();
        let n = elems.len();
        let mut out: Vec<Statement> = Vec::new();
        proof {
            assert(out.deep_view() =~= Seq::<StatementModel>::empty());
            assert(dm.subrange(0, 0) =~= Seq::<ElemModel>::empty());
        }
        let mut i: usize = 0;
        while i < n
            invariant
                0 <= i <= n,
                n == elems.len(),
                dm == spec_descendants(root.deep_view(), "FlexStatement"@),
                tm == self.timezone_map.deep_view(),
                elems.deep_view() == dm,
                dm.len() == n,
                spec_parse_statement_list(dm.subrange(0, i as int), tm) == Ok::<
                    Seq<StatementModel>,
                    ErrorModel,
                >(out.deep_view()),
            decreases n - i,
        {
            let st = match self.parse_flex_statement(elems[i]) {
                Ok(v) => v,
                Err(e) => {
                    proof {
                        lemma_parse_statement_list_error(dm, tm, i as int);
                    }
                    return Err(e);
                },
            };
            out.push(st);
            proof {
                let sub1 = dm.subrange(0, i as int + 1);
                assert(sub1.subrange(0, sub1.len() - 1) =~= dm.subrange(0, i as int));
                assert(sub1[sub1.len() - 1] == dm[i as int]);
                assert(out.deep_view() =~= spec_parse_statement_list(sub1, tm)->Ok_0);
            }
            i = i + 1;
        }
        proof {
            assert(dm.subrange(0, n as int) =~= dm);
        }
        Ok(out)
    }

    /// Decodes a whole Flex query response: the document is parsed as XML,
    /// then every statement in it is decoded, or the first failure anywhere
    /// is returned and no statement is.
    pub fn parse_flex_query_response(&self, flex_query_response: &str) -> (r: Result<
        Vec<Statement>,
        DecodeError,
    >)
        ensures
            match xml_root_of(flex_query_response@) {
                None => r matches Err(e) && e.deep_view() == ErrorModel::MalformedDocument,
                Some(root) => res_model(r) == spec_parse_response_root(
                    root,
                    self.timezone_map.deep_view(),
                ),
            },
    {
        let root = match parse_xml_root(flex_query_response) {
            Some(e) => e,
            None => {
                return Err(DecodeError::MalformedDocument);
            },
        };
        self.parse_statements(&root)
    }
}

} // verus!
