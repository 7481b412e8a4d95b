//! What the cache knows of one instrument, and how each kind of update changes it.

use super::feed::{DepthLevel, PushQuote, SecurityDepth, SecurityQuote, SecurityStaticInfo, Trade};
use super::types::{
    code_of, copy_trades, trades_view, Counter, Currency, Depth, DepthData, DepthDataView,
    QuoteData, StaticInfo, StaticInfoView, TradeData, TradeDataView, TradeSession, TradeStatus,
};
use crate::decimal::{decimal_from_i64, decimal_of};
use crate::kline::{cast_unsigned, unsigned_bits};
use vstd::prelude::*;

verus! {

/// Everything cached for one instrument.
#[derive(Debug)]
pub struct Stock {
    pub counter: Counter,
    pub name: String,
    pub currency: Currency,
    pub trade_status: TradeStatus,
    pub trade_session: TradeSession,
    pub quote: QuoteData,
    pub depth: DepthData,
    pub static_info: Option<StaticInfo>,
    pub trades: Vec<TradeData>,
}

/// What a `Stock` holds.
pub struct StockView {
    pub counter: Seq<char>,
    pub name: Seq<char>,
    pub currency: Currency,
    pub trade_status: TradeStatus,
    pub trade_session: TradeSession,
    pub quote: QuoteData,
    pub depth: DepthDataView,
    pub static_info: Option<StaticInfoView>,
    pub trades: Seq<TradeDataView>,
}

impl View for Stock {
    type V = StockView;

    open spec fn view(&self) -> StockView {
        StockView {
            counter: self.counter@,
            name: self.name@,
            currency: self.currency,
            trade_status: self.trade_status,
            trade_session: self.trade_session,
            quote: self.quote,
            depth: self.depth@,
            static_info: match self.static_info {
                Some(info) => Some(info@),
                None => None,
            },
            trades: trades_view(self.trades@),
        }
    }
}

/// The entry of an instrument of which nothing is known yet.
pub open spec fn blank_stock(counter: Seq<char>) -> StockView {
    StockView {
        counter,
        name: Seq::empty(),
        currency: Currency::HKD,
        trade_status: TradeStatus::Normal,
        trade_session: TradeSession::Intraday,
        quote: QuoteData {
            last_done: None,
            prev_close: None,
            open: None,
            high: None,
            low: None,
            volume: 0,
            turnover: decimal_of(0),
            timestamp: 0,
        },
        depth: DepthDataView { asks: Seq::empty(), bids: Seq::empty() },
        static_info: None,
        trades: Seq::empty(),
    }
}

/// A pushed quote merged into an entry: it sets the last, open, high and low
/// prices, volume, turnover and time, and the trading status and session. The
/// previous close and all else stay.
pub open spec fn with_push_quote(s: StockView, q: PushQuote) -> StockView {
    StockView {
        quote: QuoteData {
            last_done: Some(q.last_done),
            open: Some(q.open),
            high: Some(q.high),
            low: Some(q.low),
            volume: unsigned_bits(q.volume),
            turnover: q.turnover,
            timestamp: q.timestamp,
            prev_close: s.quote.prev_close,
        },
        trade_status: q.trade_status,
        trade_session: q.trade_session,
        ..s
    }
}

/// A pulled quote merged into an entry: it sets all prices, the previous close
/// among them, volume, turnover and time, and the trading status. The trading
/// session and all else stay.
pub open spec fn with_security_quote(s: StockView, q: SecurityQuote) -> StockView {
    StockView {
        quote: QuoteData {
            last_done: Some(q.last_done),
            prev_close: Some(q.prev_close),
            open: Some(q.open),
            high: Some(q.high),
            low: Some(q.low),
            volume: unsigned_bits(q.volume),
            turnover: q.turnover,
            timestamp: q.timestamp,
        },
        trade_status: q.trade_status,
        ..s
    }
}

/// The stored form of a delivered order-book level: a missing price counts as zero.
pub open spec fn depth_of(level: DepthLevel) -> Depth {
    Depth {
        position: level.position,
        price: match level.price {
            Some(p) => p,
            None => decimal_of(0),
        },
        volume: level.volume,
        order_num: level.order_num,
    }
}

/// A delivered order book takes the place of the stored one; all else stays.
pub open spec fn with_depth(s: StockView, d: SecurityDepth) -> StockView {
    StockView {
        depth: DepthDataView {
            asks: d.asks@.map_values(|l: DepthLevel| depth_of(l)),
            bids: d.bids@.map_values(|l: DepthLevel| depth_of(l)),
        },
        ..s
    }
}

/// The stored form of a delivered trade.
pub open spec fn trade_of(t: Trade) -> TradeDataView {
    TradeDataView {
        price: t.price,
        volume: t.volume,
        timestamp: t.timestamp,
        trade_type: t.trade_type@,
        direction: t.direction,
    }
}

/// A delivered list of trades takes the place of the stored one; all else stays.
pub open spec fn with_trades(s: StockView, trades: Seq<Trade>) -> StockView {
    StockView { trades: trades.map_values(|t: Trade| trade_of(t)), ..s }
}

/// The stored form of delivered static information.
pub open spec fn static_info_of(info: SecurityStaticInfo) -> StaticInfoView {
    StaticInfoView {
        symbol: info.symbol@,
        name_cn: info.name_cn@,
        name_en: info.name_en@,
        name_hk: info.name_hk@,
        exchange: info.exchange@,
        currency: info.currency@,
        lot_size: info.lot_size,
        total_shares: info.total_shares,
        circulating_shares: info.circulating_shares,
        hk_shares: info.hk_shares,
        eps: Some(info.eps),
        eps_ttm: Some(info.eps_ttm),
        bps: Some(info.bps),
        dividend_yield: Some(info.dividend_yield),
        stock_derivatives: Seq::empty(),
        board: info.board@,
    }
}

/// Delivered static information takes the place of the stored one; all else stays.
pub open spec fn with_static_info(s: StockView, info: SecurityStaticInfo) -> StockView {
    StockView { static_info: Some(static_info_of(info)), ..s }
}

fn convert_levels(levels: &Vec<DepthLevel>) -> (r: Vec<Depth>)
    ensures
        r@ == levels@.map_values(|l: DepthLevel| depth_of(l)),
{
    let mut r: Vec<Depth> = Vec::new();
    let mut i: usize = 0;
    while i < levels.len()
        invariant
            i <= levels.len(),
            r@ == levels@.take(i as int).map_values(|l: DepthLevel| depth_of(l)),
        decreases levels.len() - i,
    {
        let level = levels[i];
        let price = match level.price {
            Some(p) => p,
            None => decimal_from_i64(0),
        };
        r.push(
            Depth {
                position: level.position,
                price,
                volume: level.volume,
                order_num: level.order_num,
            },
        );
        assert(r@ =~= levels@.take(i + 1).map_values(|l: DepthLevel| depth_of(l)));
        i = i + 1;
    }
    assert(levels@.take(levels.len() as int) =~= levels@);
    r
}

impl Clone for Stock {
    fn clone(&self) -> (r: Self)
        ensures
            r@ == self@,
    {
        Stock {
            counter: self.counter.clone(),
            name: self.name.clone(),
            currency: self.currency,
            trade_status: self.trade_status,
            trade_session: self.trade_session,
            quote: self.quote,
            depth: self.depth.clone(),
            static_info: match &self.static_info {
                Some(info) => Some(info.clone()),
                None => None,
            },
            trades: copy_trades(&self.trades),
        }
    }
}

impl Stock {
    /// The entry of an instrument of which nothing is known yet.
    pub fn new(counter: Counter) -> (r: Self)
        ensures
            r@ == blank_stock(counter@),
    {
        let r = Stock {
            counter,
            name: String::new(),
            currency: Currency::HKD,
            trade_status: TradeStatus::Normal,
            trade_session: TradeSession::Intraday,
            quote: QuoteData::default(),
            depth: DepthData::default(),
            static_info: None,
            trades: Vec::new(),
        };
        assert(r@.depth.asks =~= Seq::empty() && r@.depth.bids =~= Seq::empty());
        assert(r@.trades =~= Seq::empty());
        r
    }

    /// Whether quotes of this instrument may be shown.
    pub fn quoting(&self) -> (r: bool)
        ensures
            r,
    {
        true
    }

    /// The name to show: the instrument's name, or its code while no name is known.
    pub fn display_name(&self) -> (r: &str)
        ensures
            r@ == if self@.name.len() == 0 {
                code_of(self@.counter)
            } else {
                self@.name
            },
    {
        if self.name.as_str().is_empty() {
            self.counter.code()
        } else {
            self.name.as_str()
        }
    }

    /// Merges a quote pushed over the live feed.
    pub fn update_from_push_quote(&mut self, quote: &PushQuote)
        ensures
            final(self)@ == with_push_quote(old(self)@, *quote),
    {
        self.quote.last_done = Some(quote.last_done);
        self.quote.open = Some(quote.open);
        self.quote.high = Some(quote.high);
        self.quote.low = Some(quote.low);
        self.quote.volume = cast_unsigned(quote.volume);
        self.quote.turnover = quote.turnover;
        self.quote.timestamp = quote.timestamp;
        self.trade_status = quote.trade_status;
        self.trade_session = quote.trade_session;
    }

    /// Merges a full quote pulled from the service.
    pub fn update_from_security_quote(&mut self, quote: &SecurityQuote)
        ensures
            final(self)@ == with_security_quote(old(self)@, *quote),
    {
        self.quote.last_done = Some(quote.last_done);
        self.quote.prev_close = Some(quote.prev_close);
        self.quote.open = Some(quote.open);
        self.quote.high = Some(quote.high);
        self.quote.low = Some(quote.low);
        self.quote.volume = cast_unsigned(quote.volume);
        self.quote.turnover = quote.turnover;
        self.quote.timestamp = quote.timestamp;
        self.trade_status = quote.trade_status;
    }

    /// Replaces the order book.
    pub fn update_from_depth(&mut self, depth: &SecurityDepth)
        ensures
            final(self)@ == with_depth(old(self)@, *depth),
    {
        self.depth.asks = convert_levels(&depth.asks);
        self.depth.bids = convert_levels(&depth.bids);
    }

    /// Replaces the list of recent trades.
    pub fn update_from_trades(&mut self, trades: &Vec<Trade>)
        ensures
            final(self)@ == with_trades(old(self)@, trades@),
    {
        let mut r: Vec<TradeData> = Vec::new();
        let mut i: usize = 0;
        assert(trades_view(r@) =~= trades@.take(0).map_values(|t: Trade| trade_of(t)));
        while i < trades.len()
            invariant
                i <= trades.len(),
                trades_view(r@) == trades@.take(i as int).map_values(|t: Trade| trade_of(t)),
            decreases trades.len() - i,
        {
            let t = &trades[i];
            let ghost before = r@;
            let data = TradeData {
                price: t.price,
                volume: t.volume,
                timestamp: t.timestamp,
                trade_type: t.trade_type.clone(),
                direction: t.direction,
            };
            r.push(data);
            assert(trades_view(r@) =~= trades_view(before).push(data@));
            assert(trades_view(r@) =~= trades@.take(i + 1).map_values(|t: Trade| trade_of(t)));
            i = i + 1;
        }
        assert(trades@.take(trades.len() as int) =~= trades@);
        self.trades = r;
    }

    /// Replaces the static information.
    pub fn update_from_static_info(&mut self, info: &SecurityStaticInfo)
        ensures
            final(self)@ == with_static_info(old(self)@, *info),
    {
        let stored = StaticInfo {
            symbol: info.symbol.clone(),
            name_cn: info.name_cn.clone(),
            name_en: info.name_en.clone(),
            name_hk: info.name_hk.clone(),
            exchange: info.exchange.clone(),
            currency: info.currency.clone(),
            lot_size: info.lot_size,
            total_shares: info.total_shares,
            circulating_shares: info.circulating_shares,
            hk_shares: info.hk_shares,
            eps: Some(info.eps),
            eps_ttm: Some(info.eps_ttm),
            bps: Some(info.bps),
            dividend_yield: Some(info.dividend_yield),
            stock_derivatives: Vec::new(),
            board: info.board.clone(),
        };
        assert(stored@.stock_derivatives =~= Seq::empty());
        self.static_info = Some(stored);
    }
}

} // verus!
