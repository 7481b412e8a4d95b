//! The vocabulary of the data layer: symbols, periods, markets and the plain
//! records that quotes, depth, trades and candlesticks are kept in.

use crate::decimal::{decimal_from_i64, decimal_of};
use crate::text::{chars_of, last_index_of, lemma_last_index_of, rfind_char, same_text};
use rust_decimal::Decimal;
use vstd::prelude::*;
use vstd::string::StrSliceExecFns;

verus! {

/// The part of a symbol's text before its last `.`, or all of it where there is none.
pub open spec fn code_of(s: Seq<char>) -> Seq<char> {
    let dot = last_index_of(s, '.');
    if dot < 0 {
        s
    } else {
        s.subrange(0, dot)
    }
}

/// The part of a symbol's text after its last `.`, empty where there is none.
pub open spec fn market_of(s: Seq<char>) -> Seq<char> {
    let dot = last_index_of(s, '.');
    if dot < 0 {
        Seq::empty()
    } else {
        s.subrange(dot + 1, s.len() as int)
    }
}

/// Identifier of an instrument, written `CODE.MARKET` (`00700.HK`, `AAPL.US`).
#[derive(Debug, Default, PartialEq, Eq, Hash)]
pub struct Counter {
    inner: String,
}

impl View for Counter {
    type V = Seq<char>;

    closed spec fn view(&self) -> Seq<char> {
        self.inner@
    }
}

impl Clone for Counter {
    fn clone(&self) -> (r: Self)
        ensures
            r == *self,
    {
        Counter { inner: self.inner.clone() }
    }
}

impl Counter {
    pub fn new(symbol: &str) -> (r: Self)
        ensures
            r@ == symbol@,
    {
        Counter { inner: String::from_str(symbol) }
    }

    pub fn as_str(&self) -> (r: &str)
        ensures
            r@ == self@,
    {
        self.inner.as_str()
    }

    /// The code: what stands before the last `.`.
    pub fn code(&self) -> (r: &str)
        ensures
            r@ == code_of(self@),
    {
        let s = self.inner.as_str();
        let v = chars_of(s);
        proof {
            lemma_last_index_of(s@, '.');
        }
        match rfind_char(&v, '.') {
            Some(dot) => s.substring_char(0, dot),
            None => s,
        }
    }

    /// The market suffix: what stands after the last `.`.
    pub fn market(&self) -> (r: &str)
        ensures
            r@ == market_of(self@),
    {
        let s = self.inner.as_str();
        let v = chars_of(s);
        proof {
            lemma_last_index_of(s@, '.');
        }
        match rfind_char(&v, '.') {
            Some(dot) => s.substring_char(dot + 1, v.len()),
            None => {
                let r = s.substring_char(0, 0);
                assert(r@ =~= Seq::<char>::empty());
                r
            },
        }
    }

    /// The market that the suffix stands for.
    pub fn region(&self) -> (r: Market)
        ensures
            r == market_from(market_of(self@)),
    {
        Market::from_suffix(self.market())
    }

    pub fn is_hk(&self) -> (r: bool)
        ensures
            r == (market_of(self@) == "HK"@),
    {
        same_text(self.market(), "HK")
    }

    pub fn is_empty(&self) -> (r: bool)
        ensures
            r == (self@.len() == 0),
    {
        self.inner.as_str().unicode_len() == 0
    }

    /// Whether two symbols have the same text.
    pub fn same_as(&self, other: &Counter) -> (r: bool)
        ensures
            r == (self@ == other@),
    {
        self.inner == other.inner
    }
}

/// Trading session that a quote belongs to.
#[derive(Clone, Copy, Debug, Default, PartialEq, Eq, Hash, Structural)]
pub enum TradeSession {
    #[default]
    Intraday,
    Pre,
    Post,
    Overnight,
}

/// Trading status of an instrument.
#[derive(Clone, Copy, Debug, Default, PartialEq, Eq, Hash, Structural)]
pub enum TradeStatus {
    #[default]
    Normal,
    Halted,
    Delisted,
    Fuse,
    PrepareList,
    CodeMoved,
    ToBeOpened,
    SplitStockHalts,
    Expired,
    WarrantPrepareList,
    SuspendTrade,
}

/// Questions asked of a trading session.
pub trait TradeSessionExt: Sized {
    spec fn normal_trading(self) -> bool;

    /// Whether this is the regular session, not pre-market, post-market or overnight.
    fn is_normal_trading(self) -> (r: bool)
        ensures
            r == self.normal_trading(),
    ;
}

impl TradeSessionExt for TradeSession {
    open spec fn normal_trading(self) -> bool {
        self is Intraday
    }

    fn is_normal_trading(self) -> (r: bool) {
        matches!(self, TradeSession::Intraday)
    }
}

/// Questions asked of a trading status.
pub trait TradeStatusExt: Sized {
    spec fn trading(self) -> bool;

    /// Whether the instrument trades normally.
    fn is_trading(self) -> (r: bool)
        ensures
            r == self.trading(),
    ;

    /// Whether the instrument is halted, closed or otherwise not trading.
    fn is_closed(self) -> (r: bool)
        ensures
            r == !self.trading(),
    ;
}

impl TradeStatusExt for TradeStatus {
    open spec fn trading(self) -> bool {
        self is Normal
    }

    fn is_trading(self) -> (r: bool) {
        matches!(self, TradeStatus::Normal)
    }

    fn is_closed(self) -> (r: bool) {
        !self.is_trading()
    }
}

/// Which colour stands for a rising price.
#[derive(Clone, Copy, Debug, Default, PartialEq, Eq, Structural)]
pub enum StockColorMode {
    #[default]
    RedUp,
    GreenUp,
}

/// Bar size of a candlestick series, from one minute to one year.
#[derive(Clone, Copy, Debug, Default, PartialEq, Eq, PartialOrd, Ord, Hash, Structural)]
pub enum KlineType {
    PerMinute,
    PerFiveMinutes,
    PerFifteenMinutes,
    PerThirtyMinutes,
    PerHour,
    #[default]
    PerDay,
    PerWeek,
    PerMonth,
    PerYear,
}

impl KlineType {
    /// Position in the order of bar sizes, shortest first.
    pub open spec fn rank(self) -> int {
        match self {
            KlineType::PerMinute => 0,
            KlineType::PerFiveMinutes => 1,
            KlineType::PerFifteenMinutes => 2,
            KlineType::PerThirtyMinutes => 3,
            KlineType::PerHour => 4,
            KlineType::PerDay => 5,
            KlineType::PerWeek => 6,
            KlineType::PerMonth => 7,
            KlineType::PerYear => 8,
        }
    }

    /// Whether the bars span more than one day: weekly, monthly or yearly.
    pub open spec fn above_daily(self) -> bool {
        self.rank() > KlineType::PerDay.rank()
    }

    pub fn index(self) -> (r: u8)
        ensures
            r as int == self.rank(),
    {
        match self {
            KlineType::PerMinute => 0,
            KlineType::PerFiveMinutes => 1,
            KlineType::PerFifteenMinutes => 2,
            KlineType::PerThirtyMinutes => 3,
            KlineType::PerHour => 4,
            KlineType::PerDay => 5,
            KlineType::PerWeek => 6,
            KlineType::PerMonth => 7,
            KlineType::PerYear => 8,
        }
    }

    pub fn is_above_daily(self) -> (r: bool)
        ensures
            r == self.above_daily(),
    {
        self.index() > 5
    }

    /// The next longer bar size; the longest stays.
    #[must_use]
    pub fn next(self) -> (r: Self)
        ensures
            r.rank() == if self.rank() < 8 { self.rank() + 1 } else { 8 },
    {
        match self {
            KlineType::PerMinute => KlineType::PerFiveMinutes,
            KlineType::PerFiveMinutes => KlineType::PerFifteenMinutes,
            KlineType::PerFifteenMinutes => KlineType::PerThirtyMinutes,
            KlineType::PerThirtyMinutes => KlineType::PerHour,
            KlineType::PerHour => KlineType::PerDay,
            KlineType::PerDay => KlineType::PerWeek,
            KlineType::PerWeek => KlineType::PerMonth,
            KlineType::PerMonth | KlineType::PerYear => KlineType::PerYear,
        }
    }

    /// The next shorter bar size; the shortest stays.
    #[must_use]
    pub fn prev(self) -> (r: Self)
        ensures
            r.rank() == if self.rank() > 0 { self.rank() - 1 } else { 0 },
    {
        match self {
            KlineType::PerMinute | KlineType::PerFiveMinutes => KlineType::PerMinute,
            KlineType::PerFifteenMinutes => KlineType::PerFiveMinutes,
            KlineType::PerThirtyMinutes => KlineType::PerFifteenMinutes,
            KlineType::PerHour => KlineType::PerThirtyMinutes,
            KlineType::PerDay => KlineType::PerHour,
            KlineType::PerWeek => KlineType::PerDay,
            KlineType::PerMonth => KlineType::PerWeek,
            KlineType::PerYear => KlineType::PerMonth,
        }
    }

    /// All bar sizes, shortest first.
    pub fn iter() -> (r: Vec<KlineType>)
        ensures
            r@.len() == 9,
            forall|i: int| 0 <= i < 9 ==> (#[trigger] r@[i]).rank() == i,
    {
        vec![
            KlineType::PerMinute,
            KlineType::PerFiveMinutes,
            KlineType::PerFifteenMinutes,
            KlineType::PerThirtyMinutes,
            KlineType::PerHour,
            KlineType::PerDay,
            KlineType::PerWeek,
            KlineType::PerMonth,
            KlineType::PerYear,
        ]
    }

    /// Short label of the bar size.
    pub fn label(self) -> (r: &'static str)
        ensures
            r@ == match self {
                KlineType::PerMinute => "1m"@,
                KlineType::PerFiveMinutes => "5m"@,
                KlineType::PerFifteenMinutes => "15m"@,
                KlineType::PerThirtyMinutes => "30m"@,
                KlineType::PerHour => "1h"@,
                KlineType::PerDay => "Day"@,
                KlineType::PerWeek => "Week"@,
                KlineType::PerMonth => "Month"@,
                KlineType::PerYear => "Year"@,
            },
    {
        match self {
            KlineType::PerMinute => "1m",
            KlineType::PerFiveMinutes => "5m",
            KlineType::PerFifteenMinutes => "15m",
            KlineType::PerThirtyMinutes => "30m",
            KlineType::PerHour => "1h",
            KlineType::PerDay => "Day",
            KlineType::PerWeek => "Week",
            KlineType::PerMonth => "Month",
            KlineType::PerYear => "Year",
        }
    }
}

/// Whether historical prices are corrected for splits and dividends.
#[derive(Clone, Copy, Debug, Default, PartialEq, Eq, Hash, Structural)]
pub enum AdjustType {
    #[default]
    NoAdjust,
    ForwardAdjust,
}

/// One candlestick, with the two factors of its forward adjustment.
///
/// Prices are kept as received. The forward-adjusted price is `raw * factor_a +
/// factor_b`, computed when a page is read.
#[derive(Clone, Copy, Debug, PartialEq)]
pub struct Kline {
    pub timestamp: i64,
    pub open: Decimal,
    pub high: Decimal,
    pub low: Decimal,
    pub close: Decimal,
    pub amount: u64,
    pub balance: Decimal,
    pub factor_a: Decimal,
    pub factor_b: Decimal,
    pub total: u64,
}

impl Default for Kline {
    fn default() -> (r: Self)
        ensures
            r == (Kline {
                timestamp: 0,
                open: decimal_of(0),
                high: decimal_of(0),
                low: decimal_of(0),
                close: decimal_of(0),
                amount: 0,
                balance: decimal_of(0),
                factor_a: decimal_of(1),
                factor_b: decimal_of(0),
                total: 0,
            }),
    {
        let zero = decimal_from_i64(0);
        Kline {
            timestamp: 0,
            open: zero,
            high: zero,
            low: zero,
            close: zero,
            amount: 0,
            balance: zero,
            factor_a: decimal_from_i64(1),
            factor_b: zero,
            total: 0,
        }
    }
}

/// A series of candlesticks.
pub type Klines = Vec<Kline>;

/// Which push feeds a subscription asks for.
#[derive(Clone, Copy, Debug, PartialEq, Eq, Structural)]
pub enum SubTypes {
    LIST,
    DETAIL,
    DEPTH,
    TRADES,
}

impl std::ops::BitOr for SubTypes {
    type Output = SubTypes;

    /// Joining two subscriptions asks for the detail feed, which holds the most.
    fn bitor(self, _rhs: SubTypes) -> (r: SubTypes)
        ensures
            r == SubTypes::DETAIL,
    {
        SubTypes::DETAIL
    }
}

impl vstd::std_specs::ops::BitOrSpecImpl for SubTypes {
    open spec fn obeys_bitor_spec() -> bool {
        true
    }

    open spec fn bitor_req(self, rhs: SubTypes) -> bool {
        true
    }

    open spec fn bitor_spec(self, rhs: SubTypes) -> SubTypes {
        SubTypes::DETAIL
    }
}

#[derive(Clone, Copy, Debug, Default, PartialEq, Eq, Hash, Structural)]
pub enum Currency {
    #[default]
    HKD,
    USD,
    CNY,
    SGD,
}

impl Currency {
    pub fn as_str(&self) -> (r: &'static str)
        ensures
            r@ == match *self {
                Currency::HKD => "HKD"@,
                Currency::USD => "USD"@,
                Currency::CNY => "CNY"@,
                Currency::SGD => "SGD"@,
            },
    {
        match self {
            Currency::HKD => "HKD",
            Currency::USD => "USD",
            Currency::CNY => "CNY",
            Currency::SGD => "SGD",
        }
    }
}

/// The market that a suffix stands for: `US`; `CN`, `SH` and `SZ` for mainland
/// China; `SG`; anything else counts as Hong Kong.
pub open spec fn market_from(suffix: Seq<char>) -> Market {
    if suffix == "US"@ {
        Market::US
    } else if suffix == "CN"@ || suffix == "SH"@ || suffix == "SZ"@ {
        Market::CN
    } else if suffix == "SG"@ {
        Market::SG
    } else {
        Market::HK
    }
}

#[derive(Clone, Copy, Debug, Default, PartialEq, Eq, Hash, PartialOrd, Ord, Structural)]
pub enum Market {
    #[default]
    HK,
    US,
    CN,
    SG,
}

impl<'a> From<&'a str> for Market {
    fn from(s: &'a str) -> (r: Self)
        ensures
            r == market_from(s@),
    {
        Market::from_suffix(s)
    }
}

impl<'a> vstd::std_specs::convert::FromSpecImpl<&'a str> for Market {
    open spec fn obeys_from_spec() -> bool {
        true
    }

    open spec fn from_spec(s: &'a str) -> Market {
        market_from(s@)
    }
}

impl Market {
    pub fn from_suffix(s: &str) -> (r: Self)
        ensures
            r == market_from(s@),
    {
        if same_text(s, "US") {
            Market::US
        } else if same_text(s, "CN") || same_text(s, "SH") || same_text(s, "SZ") {
            Market::CN
        } else if same_text(s, "SG") {
            Market::SG
        } else {
            Market::HK
        }
    }

    pub fn as_str(&self) -> (r: &'static str)
        ensures
            r@ == match *self {
                Market::US => "US"@,
                Market::HK => "HK"@,
                Market::CN => "CN"@,
                Market::SG => "SG"@,
            },
    {
        match self {
            Market::US => "US",
            Market::HK => "HK",
            Market::CN => "CN",
            Market::SG => "SG",
        }
    }

    /// Rank of a market in lists, lowest first: 0 while the market trades, else
    /// US 1, HK 2, CN 3, SG 4.
    pub open spec fn priority(self, trading: bool) -> int {
        if trading {
            0
        } else {
            match self {
                Market::US => 1,
                Market::HK => 2,
                Market::CN => 3,
                Market::SG => 4,
            }
        }
    }

    /// Rank of a market in lists; `trading` says whether the market is open now.
    pub fn sort_priority(self, trading: bool) -> (r: u8)
        ensures
            r as int == self.priority(trading),
    {
        if trading {
            0
        } else {
            match self {
                Market::US => 1,
                Market::HK => 2,
                Market::CN => 3,
                Market::SG => 4,
            }
        }
    }

    /// The market's colour, as red, green and blue.
    pub fn color(self) -> (r: (u8, u8, u8))
        ensures
            r == match self {
                Market::US => (0x5Fu8, 0xD7u8, 0xFFu8),
                Market::HK => (0xFFu8, 0x5Fu8, 0xFFu8),
                Market::CN => (0xFFu8, 0x5Fu8, 0x5Fu8),
                Market::SG => (0x5Fu8, 0xFFu8, 0xFFu8),
            },
    {
        match self {
            Market::US => (0x5F, 0xD7, 0xFF),
            Market::HK => (0xFF, 0x5F, 0xFF),
            Market::CN => (0xFF, 0x5F, 0x5F),
            Market::SG => (0x5F, 0xFF, 0xFF),
        }
    }
}

/// The latest known prices of an instrument.
///
/// A price that no update has carried yet is `None`.
#[derive(Clone, Copy, Debug, PartialEq)]
pub struct QuoteData {
    pub last_done: Option<Decimal>,
    pub prev_close: Option<Decimal>,
    pub open: Option<Decimal>,
    pub high: Option<Decimal>,
    pub low: Option<Decimal>,
    pub volume: u64,
    pub turnover: Decimal,
    pub timestamp: i64,
}

impl Default for QuoteData {
    fn default() -> (r: Self)
        ensures
            r == (QuoteData {
                last_done: None,
                prev_close: None,
                open: None,
                high: None,
                low: None,
                volume: 0,
                turnover: decimal_of(0),
                timestamp: 0,
            }),
    {
        QuoteData {
            last_done: None,
            prev_close: None,
            open: None,
            high: None,
            low: None,
            volume: 0,
            turnover: decimal_from_i64(0),
            timestamp: 0,
        }
    }
}

/// One candlestick as the upstream service delivers it.
#[derive(Clone, Copy, Debug, PartialEq)]
pub struct Candlestick {
    pub timestamp: i64,
    pub open: Decimal,
    pub high: Decimal,
    pub low: Decimal,
    pub close: Decimal,
    pub volume: i64,
    pub turnover: Decimal,
}

/// One level of the order book.
#[derive(Clone, Copy, Debug, PartialEq)]
pub struct Depth {
    pub position: i32,
    pub price: Decimal,
    pub volume: i64,
    pub order_num: i64,
}

impl Default for Depth {
    fn default() -> (r: Self)
        ensures
            r == (Depth { position: 0, price: decimal_of(0), volume: 0, order_num: 0 }),
    {
        Depth { position: 0, price: decimal_from_i64(0), volume: 0, order_num: 0 }
    }
}

/// The order book of an instrument: asks and bids, each in the order received.
#[derive(Debug)]
pub struct DepthData {
    pub asks: Vec<Depth>,
    pub bids: Vec<Depth>,
}

/// What a `DepthData` holds.
pub struct DepthDataView {
    pub asks: Seq<Depth>,
    pub bids: Seq<Depth>,
}

impl View for DepthData {
    type V = DepthDataView;

    open spec fn view(&self) -> DepthDataView {
        DepthDataView { asks: self.asks@, bids: self.bids@ }
    }
}

/// Copies a list of order-book levels.
pub fn copy_levels(levels: &Vec<Depth>) -> (r: Vec<Depth>)
    ensures
        r@ == levels@,
{
    let mut r: Vec<Depth> = Vec::new();
    let mut i: usize = 0;
    while i < levels.len()
        invariant
            i <= levels.len(),
            r@ == levels@.take(i as int),
        decreases levels.len() - i,
    {
        r.push(levels[i]);
        assert(r@ =~= levels@.take(i + 1));
        i = i + 1;
    }
    assert(levels@.take(levels.len() as int) =~= levels@);
    r
}

impl Default for DepthData {
    fn default() -> (r: Self)
        ensures
            r@.asks.len() == 0,
            r@.bids.len() == 0,
    {
        DepthData { asks: Vec::new(), bids: Vec::new() }
    }
}

impl Clone for DepthData {
    fn clone(&self) -> (r: Self)
        ensures
            r@ == self@,
    {
        DepthData { asks: copy_levels(&self.asks), bids: copy_levels(&self.bids) }
    }
}

/// Slow-changing facts about an instrument.
#[derive(Debug, Default)]
pub struct StaticInfo {
    pub symbol: String,
    pub name_cn: String,
    pub name_en: String,
    pub name_hk: String,
    pub exchange: String,
    pub currency: String,
    pub lot_size: i32,
    pub total_shares: i64,
    pub circulating_shares: i64,
    pub hk_shares: i64,
    pub eps: Option<Decimal>,
    pub eps_ttm: Option<Decimal>,
    pub bps: Option<Decimal>,
    pub dividend_yield: Option<Decimal>,
    pub stock_derivatives: Vec<i32>,
    pub board: String,
}

/// What a `StaticInfo` holds.
pub struct StaticInfoView {
    pub symbol: Seq<char>,
    pub name_cn: Seq<char>,
    pub name_en: Seq<char>,
    pub name_hk: Seq<char>,
    pub exchange: Seq<char>,
    pub currency: Seq<char>,
    pub lot_size: i32,
    pub total_shares: i64,
    pub circulating_shares: i64,
    pub hk_shares: i64,
    pub eps: Option<Decimal>,
    pub eps_ttm: Option<Decimal>,
    pub bps: Option<Decimal>,
    pub dividend_yield: Option<Decimal>,
    pub stock_derivatives: Seq<i32>,
    pub board: Seq<char>,
}

impl View for StaticInfo {
    type V = StaticInfoView;

    open spec fn view(&self) -> StaticInfoView {
        StaticInfoView {
            symbol: self.symbol@,
            name_cn: self.name_cn@,
            name_en: self.name_en@,
            name_hk: self.name_hk@,
            exchange: self.exchange@,
            currency: self.currency@,
            lot_size: self.lot_size,
            total_shares: self.total_shares,
            circulating_shares: self.circulating_shares,
            hk_shares: self.hk_shares,
            eps: self.eps,
            eps_ttm: self.eps_ttm,
            bps: self.bps,
            dividend_yield: self.dividend_yield,
            stock_derivatives: self.stock_derivatives@,
            board: self.board@,
        }
    }
}

/// Copies a list of derivative kinds.
pub fn copy_kinds(kinds: &Vec<i32>) -> (r: Vec<i32>)
    ensures
        r@ == kinds@,
{
    let mut r: Vec<i32> = Vec::new();
    let mut i: usize = 0;
    while i < kinds.len()
        invariant
            i <= kinds.len(),
            r@ == kinds@.take(i as int),
        decreases kinds.len() - i,
    {
        r.push(kinds[i]);
        assert(r@ =~= kinds@.take(i + 1));
        i = i + 1;
    }
    assert(kinds@.take(kinds.len() as int) =~= kinds@);
    r
}

impl Clone for StaticInfo {
    fn clone(&self) -> (r: Self)
        ensures
            r@ == self@,
    {
        StaticInfo {
            symbol: self.symbol.clone(),
            name_cn: self.name_cn.clone(),
            name_en: self.name_en.clone(),
            name_hk: self.name_hk.clone(),
            exchange: self.exchange.clone(),
            currency: self.currency.clone(),
            lot_size: self.lot_size,
            total_shares: self.total_shares,
            circulating_shares: self.circulating_shares,
            hk_shares: self.hk_shares,
            eps: self.eps,
            eps_ttm: self.eps_ttm,
            bps: self.bps,
            dividend_yield: self.dividend_yield,
            stock_derivatives: copy_kinds(&self.stock_derivatives),
            board: self.board.clone(),
        }
    }
}

/// Whether a trade went with the price, against it, or neither.
#[derive(Clone, Copy, Debug, PartialEq, Eq, Structural)]
pub enum TradeDirection {
    Neutral,
    Up,
    Down,
}

/// One executed trade.
#[derive(Debug)]
pub struct TradeData {
    pub price: Decimal,
    pub volume: i64,
    pub timestamp: i64,
    pub trade_type: String,
    pub direction: TradeDirection,
}

/// What a `TradeData` holds.
pub struct TradeDataView {
    pub price: Decimal,
    pub volume: i64,
    pub timestamp: i64,
    pub trade_type: Seq<char>,
    pub direction: TradeDirection,
}

impl View for TradeData {
    type V = TradeDataView;

    open spec fn view(&self) -> TradeDataView {
        TradeDataView {
            price: self.price,
            volume: self.volume,
            timestamp: self.timestamp,
            trade_type: self.trade_type@,
            direction: self.direction,
        }
    }
}

impl Default for TradeData {
    fn default() -> (r: Self)
        ensures
            r@ == (TradeDataView {
                price: decimal_of(0),
                volume: 0,
                timestamp: 0,
                trade_type: Seq::empty(),
                direction: TradeDirection::Neutral,
            }),
    {
        TradeData {
            price: decimal_from_i64(0),
            volume: 0,
            timestamp: 0,
            trade_type: String::new(),
            direction: TradeDirection::Neutral,
        }
    }
}

impl Clone for TradeData {
    fn clone(&self) -> (r: Self)
        ensures
            r@ == self@,
    {
        TradeData {
            price: self.price,
            volume: self.volume,
            timestamp: self.timestamp,
            trade_type: self.trade_type.clone(),
            direction: self.direction,
        }
    }
}

/// What a list of trades holds, trade by trade.
pub open spec fn trades_view(trades: Seq<TradeData>) -> Seq<TradeDataView> {
    trades.map_values(|t: TradeData| t@)
}

/// Copies a list of trades.
pub fn copy_trades(trades: &Vec<TradeData>) -> (r: Vec<TradeData>)
    ensures
        trades_view(r@) == trades_view(trades@),
{
    let mut r: Vec<TradeData> = Vec::new();
    let mut i: usize = 0;
    while i < trades.len()
        invariant
            i <= trades.len(),
            trades_view(r@) == trades_view(trades@.take(i as int)),
        decreases trades.len() - i,
    {
        let t = trades[i].clone();
        let ghost before = r@;
        r.push(t);
        assert(trades_view(r@) =~= trades_view(before).push(t@));
        assert(trades_view(trades@.take(i + 1)) =~= trades_view(trades@.take(i as int)).push(
            trades@[i as int]@,
        ));
        i = i + 1;
    }
    assert(trades@.take(trades.len() as int) =~= trades@);
    r
}

} // verus!
