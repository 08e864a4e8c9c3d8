//! The trade record: one execution, its prices, side, and the precise
//! instant it happened, resolved through the caller-supplied
//! timezone-abbreviation table.

use vstd::prelude::*;

use crate::currency::{currency_attr, spec_currency_attr, Currency};
use crate::element::{
    spec_lookup, spec_required_amount, spec_required_str, spec_required_u32, str_eq, Element,
    ElemModel,
};
use crate::error::{first_err, res_model, DecodeError, ErrorModel};
use crate::scalars::Amount;
use crate::statement_section::StatementSectionWithTimezone;
use crate::time_utils::{
    epoch_days, find_char, find_char_exec, local_wall_clock_ms, parse_datetime,
    spec_parse_datetime, tz_local_offset, TzMapping,
};

verus! {

/// A recognized trade side tag.
#[derive(Debug, PartialEq, Eq, Structural, Clone, Copy)]
pub enum TradeSide {
    Buy,
    Sell,
}

impl DeepView for TradeSide {
    type V = TradeSide;

    open spec fn deep_view(&self) -> TradeSide {
        *self
    }
}

/// The decoding table: which raw tag maps to which variant; `None` for any
/// tag outside the closed set.
pub open spec fn spec_trade_side(s: Seq<char>) -> Option<TradeSide> {
    if s == "BUY"@ {
        Some(TradeSide::Buy)
    } else if s == "SELL"@ {
        Some(TradeSide::Sell)
    } else {
        None
    }
}

/// The canonical tag of each variant.
pub open spec fn spec_trade_side_tag(c: TradeSide) -> Seq<char> {
    match c {
        TradeSide::Buy => "BUY"@,
        TradeSide::Sell => "SELL"@,
    }
}

/// Law: decoding a recognized tag and re-encoding it yields the same tag,
/// and decoding fails exactly on the strings that are no variant's tag.
pub proof fn lemma_trade_side_round_trip(s: Seq<char>)
    ensures
        spec_trade_side(s) matches Some(c) ==> spec_trade_side_tag(c) == s,
        spec_trade_side(s) is None <==> (forall|c: TradeSide| #[trigger] spec_trade_side_tag(c) != s),
{
    if spec_trade_side(s) is None {
        assert forall|c: TradeSide| #[trigger] spec_trade_side_tag(c) != s by {
        }
    }
    if forall|c: TradeSide| #[trigger] spec_trade_side_tag(c) != s {
        assert(spec_trade_side_tag(TradeSide::Buy) != s);
        assert(spec_trade_side_tag(TradeSide::Sell) != s);
    }
}

impl TradeSide {
    /// Decodes a trade side tag, rejecting anything outside the closed set.
    pub fn try_from(s: &str) -> (r: Result<TradeSide, DecodeError>)
        ensures
            match r {
                Ok(c) => spec_trade_side(s@) == Some(c),
                Err(e) => spec_trade_side(s@) is None && e.deep_view()
                    == (ErrorModel::UnknownEnumValue { enumeration: "trade side"@, raw: s@ }),
            },
    {
        if str_eq(s, "BUY") {
            Ok(TradeSide::Buy)
        } else if str_eq(s, "SELL") {
            Ok(TradeSide::Sell)
        } else {
            Err(
                DecodeError::UnknownEnumValue {
                    enumeration: "trade side".to_owned(),
                    raw: s.to_owned(),
                },
            )
        }
    }

    /// The canonical tag of this variant.
    pub fn tag(&self) -> (r: &'static str)
        ensures
            r@ == spec_trade_side_tag(*self),
    {
        match self {
            TradeSide::Buy => "BUY",
            TradeSide::Sell => "SELL",
        }
    }
}

/// The required `buySell` attribute of a `section` record, decoded.
pub open spec fn spec_trade_side_attr(e: ElemModel, section: Seq<char>) -> Result<TradeSide, ErrorModel> {
    match spec_required_str(e, section, "buySell"@) {
        Ok(v) => match spec_trade_side(v) {
            Some(c) => Ok(c),
            None => Err(ErrorModel::UnknownEnumValue { enumeration: "trade side"@, raw: v }),
        },
        Err(er) => Err(er),
    }
}

/// Reads and decodes the required `buySell` attribute of a `section` record.
pub fn trade_side_attr(node: &Element, section: &str) -> (r: Result<TradeSide, DecodeError>)
    ensures
        res_model(r) == spec_trade_side_attr(node.deep_view(), section@),
{
    let raw = match node.get_attribute(section, "buySell") {
        Ok(v) => v,
        Err(e) => {
            return Err(e);
        },
    };
    TradeSide::try_from(raw.as_str())
}

/// A recognized openClose indicator tag.
#[derive(Debug, PartialEq, Eq, Structural, Clone, Copy)]
pub enum OpenCloseIndicator {
    Close,
    CloseOpen,
    Open,
}

impl DeepView for OpenCloseIndicator {
    type V = OpenCloseIndicator;

    open spec fn deep_view(&self) -> OpenCloseIndicator {
        *self
    }
}

/// The decoding table: which raw tag maps to which variant; `None` for any
/// tag outside the closed set.
pub open spec fn spec_open_close_indicator(s: Seq<char>) -> Option<OpenCloseIndicator> {
    if s == "C"@ {
        Some(OpenCloseIndicator::Close)
    } else if s == "C;O"@ {
        Some(OpenCloseIndicator::CloseOpen)
    } else if s == "O"@ {
        Some(OpenCloseIndicator::Open)
    } else {
        None
    }
}

/// The canonical tag of each variant.
pub open spec fn spec_open_close_indicator_tag(c: OpenCloseIndicator) -> Seq<char> {
    match c {
        OpenCloseIndicator::Close => "C"@,
        OpenCloseIndicator::CloseOpen => "C;O"@,
        OpenCloseIndicator::Open => "O"@,
    }
}

/// Law: decoding a recognized tag and re-encoding it yields the same tag,
/// and decoding fails exactly on the strings that are no variant's tag.
pub proof fn lemma_open_close_indicator_round_trip(s: Seq<char>)
    ensures
        spec_open_close_indicator(s) matches Some(c) ==> spec_open_close_indicator_tag(c) == s,
        spec_open_close_indicator(s) is None <==> (forall|c: OpenCloseIndicator| #[trigger] spec_open_close_indicator_tag(c) != s),
{
    if spec_open_close_indicator(s) is None {
        assert forall|c: OpenCloseIndicator| #[trigger] spec_open_close_indicator_tag(c) != s by {
        }
    }
    if forall|c: OpenCloseIndicator| #[trigger] spec_open_close_indicator_tag(c) != s {
        assert(spec_open_close_indicator_tag(OpenCloseIndicator::Close) != s);
        assert(spec_open_close_indicator_tag(OpenCloseIndicator::CloseOpen) != s);
        assert(spec_open_close_indicator_tag(OpenCloseIndicator::Open) != s);
    }
}

impl OpenCloseIndicator {
    /// Decodes a openClose indicator tag, rejecting anything outside the closed set.
    pub fn try_from(s: &str) -> (r: Result<OpenCloseIndicator, DecodeError>)
        ensures
            match r {
                Ok(c) => spec_open_close_indicator(s@) == Some(c),
                Err(e) => spec_open_close_indicator(s@) is None && e.deep_view()
                    == (ErrorModel::UnknownEnumValue { enumeration: "openClose indicator"@, raw: s@ }),
            },
    {
        if str_eq(s, "C") {
            Ok(OpenCloseIndicator::Close)
        } else if str_eq(s, "C;O") {
            Ok(OpenCloseIndicator::CloseOpen)
        } else if str_eq(s, "O") {
            Ok(OpenCloseIndicator::Open)
        } else {
            Err(
                DecodeError::UnknownEnumValue {
                    enumeration: "openClose indicator".to_owned(),
                    raw: s.to_owned(),
                },
            )
        }
    }

    /// The canonical tag of this variant.
    pub fn tag(&self) -> (r: &'static str)
        ensures
            r@ == spec_open_close_indicator_tag(*self),
    {
        match self {
            OpenCloseIndicator::Close => "C",
            OpenCloseIndicator::CloseOpen => "C;O",
            OpenCloseIndicator::Open => "O",
        }
    }
}

/// The required `openCloseIndicator` attribute of a `section` record, decoded.
pub open spec fn spec_open_close_attr(e: ElemModel, section: Seq<char>) -> Result<OpenCloseIndicator, ErrorModel> {
    match spec_required_str(e, section, "openCloseIndicator"@) {
        Ok(v) => match spec_open_close_indicator(v) {
            Some(c) => Ok(c),
            None => Err(ErrorModel::UnknownEnumValue { enumeration: "openClose indicator"@, raw: v }),
        },
        Err(er) => Err(er),
    }
}

/// Reads and decodes the required `openCloseIndicator` attribute of a `section` record.
pub fn open_close_indicator_attr(node: &Element, section: &str) -> (r: Result<OpenCloseIndicator, DecodeError>)
    ensures
        res_model(r) == spec_open_close_attr(node.deep_view(), section@),
{
    let raw = match node.get_attribute(section, "openCloseIndicator") {
        Ok(v) => v,
        Err(e) => {
            return Err(e);
        },
    };
    OpenCloseIndicator::try_from(raw.as_str())
}

/// A recognized order type tag.
#[derive(Debug, PartialEq, Eq, Structural, Clone, Copy)]
pub enum OrderType {
    Limit,
}

impl DeepView for OrderType {
    type V = OrderType;

    open spec fn deep_view(&self) -> OrderType {
        *self
    }
}

/// The decoding table: which raw tag maps to which variant; `None` for any
/// tag outside the closed set.
pub open spec fn spec_order_type(s: Seq<char>) -> Option<OrderType> {
    if s == "LMT"@ {
        Some(OrderType::Limit)
    } else {
        None
    }
}

/// The canonical tag of each variant.
pub open spec fn spec_order_type_tag(c: OrderType) -> Seq<char> {
    match c {
        OrderType::Limit => "LMT"@,
    }
}

/// Law: decoding a recognized tag and re-encoding it yields the same tag,
/// and decoding fails exactly on the strings that are no variant's tag.
pub proof fn lemma_order_type_round_trip(s: Seq<char>)
    ensures
        spec_order_type(s) matches Some(c) ==> spec_order_type_tag(c) == s,
        spec_order_type(s) is None <==> (forall|c: OrderType| #[trigger] spec_order_type_tag(c) != s),
{
    if spec_order_type(s) is None {
        assert forall|c: OrderType| #[trigger] spec_order_type_tag(c) != s by {
        }
    }
    if forall|c: OrderType| #[trigger] spec_order_type_tag(c) != s {
        assert(spec_order_type_tag(OrderType::Limit) != s);
    }
}

impl OrderType {
    /// Decodes a order type tag, rejecting anything outside the closed set.
    pub fn try_from(s: &str) -> (r: Result<OrderType, DecodeError>)
        ensures
            match r {
                Ok(c) => spec_order_type(s@) == Some(c),
                Err(e) => spec_order_type(s@) is None && e.deep_view()
                    == (ErrorModel::UnknownEnumValue { enumeration: "order type"@, raw: s@ }),
            },
    {
        if str_eq(s, "LMT") {
            Ok(OrderType::Limit)
        } else {
            Err(
                DecodeError::UnknownEnumValue {
                    enumeration: "order type".to_owned(),
                    raw: s.to_owned(),
                },
            )
        }
    }

    /// The canonical tag of this variant.
    pub fn tag(&self) -> (r: &'static str)
        ensures
            r@ == spec_order_type_tag(*self),
    {
        match self {
            OrderType::Limit => "LMT",
        }
    }
}

/// The required `orderType` attribute of a `section` record, decoded.
pub open spec fn spec_order_type_attr(e: ElemModel, section: Seq<char>) -> Result<OrderType, ErrorModel> {
    match spec_required_str(e, section, "orderType"@) {
        Ok(v) => match spec_order_type(v) {
            Some(c) => Ok(c),
            None => Err(ErrorModel::UnknownEnumValue { enumeration: "order type"@, raw: v }),
        },
        Err(er) => Err(er),
    }
}

/// Reads and decodes the required `orderType` attribute of a `section` record.
pub fn order_type_attr(node: &Element, section: &str) -> (r: Result<OrderType, DecodeError>)
    ensures
        res_model(r) == spec_order_type_attr(node.deep_view(), section@),
{
    let raw = match node.get_attribute(section, "orderType") {
        Ok(v) => v,
        Err(e) => {
            return Err(e);
        },
    };
    OrderType::try_from(raw.as_str())
}

/// One trade record.
#[derive(Debug, PartialEq, Eq, Clone)]
pub struct Trade {
    pub account_id: String,
    pub conid: u32,
    pub currency: Currency,
    pub execution_exchange: String,
    pub execution_id: String,
    pub execution_timestamp_ms: i64,
    pub commission: Amount,
    pub listing_exchange: String,
    pub open_close_indicator: OpenCloseIndicator,
    pub order_id: String,
    pub order_type: OrderType,
    pub price: Amount,
    pub quantity: Amount,
    pub side: TradeSide,
    pub ticker: String,
}

/// The abstract value of a `Trade`.
pub struct TradeModel {
    pub account_id: Seq<char>,
    pub conid: u32,
    pub currency: Currency,
    pub execution_exchange: Seq<char>,
    pub execution_id: Seq<char>,
    pub execution_timestamp_ms: int,
    pub commission: Seq<char>,
    pub listing_exchange: Seq<char>,
    pub open_close_indicator: OpenCloseIndicator,
    pub order_id: Seq<char>,
    pub order_type: OrderType,
    pub price: Seq<char>,
    pub quantity: Seq<char>,
    pub side: TradeSide,
    pub ticker: Seq<char>,
}

impl DeepView for Trade {
    type V = TradeModel;

    open spec fn deep_view(&self) -> TradeModel {
        TradeModel {
            account_id: self.account_id@,
            conid: self.conid,
            currency: self.currency,
            execution_exchange: self.execution_exchange@,
            execution_id: self.execution_id@,
            execution_timestamp_ms: self.execution_timestamp_ms as int,
            commission: self.commission@,
            listing_exchange: self.listing_exchange@,
            open_close_indicator: self.open_close_indicator,
            order_id: self.order_id@,
            order_type: self.order_type,
            price: self.price@,
            quantity: self.quantity@,
            side: self.side,
            ticker: self.ticker@,
        }
    }
}

/// What a compound `date time ABBREV` string denotes under an
/// abbreviation table: the abbreviation is looked up first, then the
/// date-time is read, then the zone resolves the local wall-clock time.
pub open spec fn spec_execution_instant(table: Seq<(Seq<char>, Seq<char>)>, s: Seq<char>) -> Result<
    int,
    ErrorModel,
> {
    let sp = find_char(s, ' ', 0);
    if sp == s.len() {
        Err(ErrorModel::InvalidDate { raw: s })
    } else {
        let dt = s.subrange(0, sp);
        let rest = s.subrange(sp + 1, s.len() as int);
        let abbrev = rest.subrange(0, find_char(rest, ' ', 0));
        match spec_lookup(table, abbrev) {
            None => Err(ErrorModel::UnknownTimezoneAbbreviation { abbreviation: abbrev }),
            Some(tz) => match spec_parse_datetime(dt) {
                Some((y, m, d, h, mi, sec)) => match tz_local_offset(tz, y, m, d, h, mi, sec) {
                    Some(off) => Ok(
                        (epoch_days(y, m, d) * 86400 + h * 3600 + mi * 60 + sec - off) * 1000,
                    ),
                    None => Err(ErrorModel::InvalidDate { raw: s }),
                },
                None => Err(ErrorModel::InvalidDate { raw: s }),
            },
        }
    }
}

/// The IANA zone an abbreviation stands for, by first match in the table.
fn lookup_timezone<'a>(timezone_map: &'a Vec<TzMapping>, abbrev: &str) -> (r: Option<&'a String>)
    ensures
        match r {
            Some(v) => spec_lookup(timezone_map.deep_view(), abbrev@) == Some(v@),
            None => spec_lookup(timezone_map.deep_view(), abbrev@) is None,
        },
{
    let ghost tm = timezone_map.deep_view();
    proof {
        assert(tm.subrange(0, tm.len() as int) =~= tm);
    }
    let n = timezone_map.len();
    let mut i: usize = 0;
    while i < n
        invariant
            0 <= i <= n,
            n == timezone_map.len(),
            tm == timezone_map.deep_view(),
            tm.len() == n,
            spec_lookup(tm, abbrev@) == spec_lookup(tm.subrange(i as int, tm.len() as int), abbrev@),
        decreases n - i,
    {
        if str_eq(timezone_map[i].abbreviation.as_str(), abbrev) {
            return Some(&timezone_map[i].tz_name);
        }
        proof {
            let sub = tm.subrange(i as int, tm.len() as int);
            assert(sub.drop_first() =~= tm.subrange(i as int + 1, tm.len() as int));
        }
        i = i + 1;
    }
    proof {
        assert(tm.subrange(n as int, tm.len() as int) =~= Seq::<(Seq<char>, Seq<char>)>::empty());
    }
    None
}

/// Resolves `YYYY-MM-DD;HH:MM:SS ABBREV` text to an epoch-millisecond
/// execution instant, looking the abbreviation up in the caller's table.
pub fn try_parse_trade_execution_time_ms(timezone_map: &Vec<TzMapping>, s: &str) -> (r: Result<
    i64,
    DecodeError,
>)
    ensures
        match r {
            Ok(ms) => spec_execution_instant(timezone_map.deep_view(), s@) == Ok::<
                int,
                ErrorModel,
            >(ms as int) && -400_000_000_000_000 <= ms <= 400_000_000_000_000,
            Err(e) => spec_execution_instant(timezone_map.deep_view(), s@) == Err::<
                int,
                ErrorModel,
            >(e.deep_view()),
        },
{
    let n = s.unicode_len();
    let sp = find_char_exec(s, n, ' ', 0);
    if sp == n {
        return Err(DecodeError::InvalidDate { raw: s.to_owned() });
    }
    let dt = s.substring_char(0, sp);
    let rest = s.substring_char(sp + 1, n);
    let sp2 = find_char_exec(rest, n - (sp + 1), ' ', 0);
    let abbrev = rest.substring_char(0, sp2);
    let tz_name = match lookup_timezone(timezone_map, abbrev) {
        Some(t) => t,
        None => {
            return Err(DecodeError::UnknownTimezoneAbbreviation { abbreviation: abbrev.to_owned() });
        },
    };
    let (y, m, d, h, mi, sec) = match parse_datetime(dt) {
        Some(p) => p,
        None => {
            return Err(DecodeError::InvalidDate { raw: s.to_owned() });
        },
    };
    match local_wall_clock_ms(tz_name.as_str(), y, m, d, h, mi, sec) {
        Some(ms) => Ok(ms),
        None => Err(DecodeError::InvalidDate { raw: s.to_owned() }),
    }
}

/// The required `dateTime` attribute of a trade, resolved to an execution
/// instant under the table.
pub open spec fn spec_exec_ts(e: ElemModel, timezone_map: Seq<(Seq<char>, Seq<char>)>) -> Result<
    int,
    ErrorModel,
> {
    match spec_required_str(e, "Trade"@, "dateTime"@) {
        Ok(v) => spec_execution_instant(timezone_map, v),
        Err(er) => Err(er),
    }
}

/// Decoding a `Trade` element: every field is required, and the first
/// failing attribute, in declaration order, decides the error.
pub open spec fn spec_trade(e: ElemModel, timezone_map: Seq<(Seq<char>, Seq<char>)>) -> Result<
    TradeModel,
    ErrorModel,
> {
    let s = "Trade"@;
    let f_account_id = spec_required_str(e, s, "accountId"@);
    let f_commission = spec_required_amount(e, s, "ibCommission"@);
    let f_conid = spec_required_u32(e, s, "conid"@);
    let f_currency = spec_currency_attr(e, s);
    let f_execution_exchange = spec_required_str(e, s, "exchange"@);
    let f_execution_id = spec_required_str(e, s, "ibExecID"@);
    let f_exec_ts = spec_exec_ts(e, timezone_map);
    let f_listing_exchange = spec_required_str(e, s, "listingExchange"@);
    let f_open_close = spec_open_close_attr(e, s);
    let f_order_id = spec_required_str(e, s, "brokerageOrderID"@);
    let f_order_type = spec_order_type_attr(e, s);
    let f_price = spec_required_amount(e, s, "tradePrice"@);
    let f_quantity = spec_required_amount(e, s, "quantity"@);
    let f_side = spec_trade_side_attr(e, s);
    let f_ticker = spec_required_str(e, s, "symbol"@);
    first_err(
        f_account_id,
        first_err(
            f_commission,
            first_err(
                f_conid,
                first_err(
                    f_currency,
                    first_err(
                        f_execution_exchange,
                        first_err(
                            f_execution_id,
                            first_err(
                                f_exec_ts,
                                first_err(
                                    f_listing_exchange,
                                    first_err(
                                        f_open_close,
                                        first_err(
                                            f_order_id,
                                            first_err(
                                                f_order_type,
                                                first_err(
                                                    f_price,
                                                    first_err(
                                                        f_quantity,
                                                        first_err(
                                                            f_side,
                                                            first_err(
                                                                f_ticker,
                                                                Ok(
                                                                    TradeModel {
                                                                        account_id: f_account_id->Ok_0,
                                                                        conid: f_conid->Ok_0,
                                                                        currency: f_currency->Ok_0,
                                                                        execution_exchange: f_execution_exchange->Ok_0,
                                                                        execution_id: f_execution_id->Ok_0,
                                                                        execution_timestamp_ms: f_exec_ts->Ok_0,
                                                                        commission: f_commission->Ok_0,
                                                                        listing_exchange: f_listing_exchange->Ok_0,
                                                                        open_close_indicator: f_open_close->Ok_0,
                                                                        order_id: f_order_id->Ok_0,
                                                                        order_type: f_order_type->Ok_0,
                                                                        price: f_price->Ok_0,
                                                                        quantity: f_quantity->Ok_0,
                                                                        side: f_side->Ok_0,
                                                                        ticker: f_ticker->Ok_0,
                                                                    },
                                                                ),
                                                            ),
                                                        ),
                                                    ),
                                                ),
                                            ),
                                        ),
                                    ),
                                ),
                            ),
                        ),
                    ),
                ),
            ),
        ),
    )
}

impl StatementSectionWithTimezone for Trade {
    open spec fn spec_from_node(e: ElemModel, timezone_map: Seq<(Seq<char>, Seq<char>)>) -> Result<
        TradeModel,
        ErrorModel,
    > {
        spec_trade(e, timezone_map)
    }

    fn from_node(node: &Element, timezone_map: &Vec<TzMapping>) -> (r: Result<Trade, DecodeError>) {
        let s = "Trade";
        let account_id = match node.get_attribute(s, "accountId") {
            Ok(v) => v,
            Err(e) => {
                return Err(e);
            },
        };
        let commission = match node.parse_attribute_amount(s, "ibCommission") {
            Ok(v) => v,
            Err(e) => {
                return Err(e);
            },
        };
        let conid = match node.parse_attribute_u32(s, "conid") {
            Ok(v) => v,
            Err(e) => {
                return Err(e);
            },
        };
        let currency = match currency_attr(node, s) {
            Ok(v) => v,
            Err(e) => {
                return Err(e);
            },
        };
        let execution_exchange = match node.get_attribute(s, "exchange") {
            Ok(v) => v,
            Err(e) => {
                return Err(e);
            },
        };
        let execution_id = match node.get_attribute(s, "ibExecID") {
            Ok(v) => v,
            Err(e) => {
                return Err(e);
            },
        };
        let execution_raw = match node.get_attribute(s, "dateTime") {
            Ok(v) => v,
            Err(e) => {
                return Err(e);
            },
        };
        let execution_timestamp_ms = match try_parse_trade_execution_time_ms(
            timezone_map,
            execution_raw.as_str(),
        ) {
            Ok(v) => v,
            Err(e) => {
                return Err(e);
            },
        };
        let listing_exchange = match node.get_attribute(s, "listingExchange") {
            Ok(v) => v,
            Err(e) => {
                return Err(e);
            },
        };
        let open_close_indicator = match open_close_indicator_attr(node, s) {
            Ok(v) => v,
            Err(e) => {
                return Err(e);
            },
        };
        let order_id = match node.get_attribute(s, "brokerageOrderID") {
            Ok(v) => v,
            Err(e) => {
                return Err(e);
            },
        };
        let order_type = match order_type_attr(node, s) {
            Ok(v) => v,
            Err(e) => {
                return Err(e);
            },
        };
        let price = match node.parse_attribute_amount(s, "tradePrice") {
            Ok(v) => v,
            Err(e) => {
                return Err(e);
            },
        };
        let quantity = match node.parse_attribute_amount(s, "quantity") {
            Ok(v) => v,
            Err(e) => {
                return Err(e);
            },
        };
        let side = match trade_side_attr(node, s) {
            Ok(v) => v,
            Err(e) => {
                return Err(e);
            },
        };
        let ticker = match node.get_attribute(s, "symbol") {
            Ok(v) => v,
            Err(e) => {
                return Err(e);
            },
        };
        Ok(
            Trade {
                account_id,
                conid,
                currency,
                execution_exchange,
                execution_id,
                execution_timestamp_ms,
                commission,
                listing_exchange,
                open_close_indicator,
                order_id,
                order_type,
                price,
                quantity,
                side,
                ticker,
            },
        )
    }
}

} // verus!
