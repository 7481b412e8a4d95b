use changqiao::data::{
    Counter, Currency, Depth, DepthLevel, PushQuote, SecurityDepth, SecurityQuote,
    SecurityStaticInfo, Stock, StockStore, Trade, TradeDirection, TradeSession, TradeStatus,
};
use rust_decimal::Decimal;

fn dec(n: i64) -> Decimal {
    Decimal::from(n)
}

fn push_quote(last: i64) -> PushQuote {
    PushQuote {
        last_done: dec(last),
        open: dec(last - 1),
        high: dec(last + 1),
        low: dec(last - 2),
        timestamp: 1_700_000_000,
        volume: 12_345,
        turnover: dec(999),
        trade_status: TradeStatus::Halted,
        trade_session: TradeSession::Post,
    }
}

fn security_quote(symbol: &str, last: i64) -> SecurityQuote {
    SecurityQuote {
        symbol: symbol.to_string(),
        last_done: dec(last),
        prev_close: dec(last - 5),
        open: dec(last - 1),
        high: dec(last + 1),
        low: dec(last - 2),
        timestamp: 1_700_000_100,
        volume: 777,
        turnover: dec(4242),
        trade_status: TradeStatus::Normal,
    }
}

fn static_info(symbol: &str, name: &str) -> SecurityStaticInfo {
    SecurityStaticInfo {
        symbol: symbol.to_string(),
        name_cn: name.to_string(),
        name_en: "Apple".to_string(),
        name_hk: "蘋果".to_string(),
        exchange: "NASD".to_string(),
        currency: "USD".to_string(),
        lot_size: 1,
        total_shares: 100,
        circulating_shares: 90,
        hk_shares: 0,
        eps: dec(6),
        eps_ttm: dec(7),
        bps: dec(4),
        dividend_yield: dec(1),
        board: "USMain".to_string(),
    }
}

fn aapl() -> Counter {
    Counter::new("AAPL.US")
}

#[test]
fn get_after_insert_returns_what_was_inserted() {
    let mut store = StockStore::new();
    assert!(store.is_empty());
    assert!(store.get(&aapl()).is_none());
    let mut stock = Stock::new(aapl());
    stock.name = "Apple".to_string();
    stock.currency = Currency::USD;
    stock.update_from_push_quote(&push_quote(100));
    store.insert(stock.clone());
    let got = store.get(&aapl()).expect("the stock is cached");
    assert_eq!(got.counter, aapl());
    assert_eq!(got.name, "Apple");
    assert_eq!(got.currency, Currency::USD);
    assert_eq!(got.quote, stock.quote);
    assert_eq!(got.trade_status, TradeStatus::Halted);
    assert_eq!(got.trade_session, TradeSession::Post);
    assert_eq!(store.len(), 1);
    assert!(!store.is_empty());
    assert!(store.get(&Counter::new("AAPL.HK")).is_none());
}

#[test]
fn a_handle_keeps_the_state_it_was_read_with() {
    let mut store = StockStore::new();
    store.merge_push_quote(&aapl(), &push_quote(100));
    let before = store.get(&aapl()).expect("the stock is cached");
    store.merge_push_quote(&aapl(), &push_quote(200));
    let after = store.get(&aapl()).expect("the stock is cached");
    assert_eq!(before.quote.last_done, Some(dec(100)));
    assert_eq!(after.quote.last_done, Some(dec(200)));
}

#[test]
fn a_pushed_quote_leaves_the_previous_close_alone() {
    let mut store = StockStore::new();
    store.merge_security_quote(&aapl(), &security_quote("AAPL.US", 150));
    store.merge_trades(
        &aapl(),
        &vec![Trade {
            price: dec(1),
            volume: 2,
            timestamp: 3,
            trade_type: "A".to_string(),
            direction: TradeDirection::Up,
        }],
    );
    let before = store.get(&aapl()).expect("the stock is cached");
    assert_eq!(before.quote.prev_close, Some(dec(145)));
    assert_eq!(before.trade_session, TradeSession::Intraday);

    store.merge_push_quote(&aapl(), &push_quote(160));
    let after = store.get(&aapl()).expect("the stock is cached");
    assert_eq!(after.quote.prev_close, Some(dec(145)));
    assert_eq!(after.quote.last_done, Some(dec(160)));
    assert_eq!(after.quote.open, Some(dec(159)));
    assert_eq!(after.quote.high, Some(dec(161)));
    assert_eq!(after.quote.low, Some(dec(158)));
    assert_eq!(after.quote.volume, 12_345);
    assert_eq!(after.quote.turnover, dec(999));
    assert_eq!(after.quote.timestamp, 1_700_000_000);
    assert_eq!(after.trade_status, TradeStatus::Halted);
    assert_eq!(after.trade_session, TradeSession::Post);
    assert_eq!(after.name, before.name);
    assert_eq!(after.currency, before.currency);
    assert_eq!(after.trades.len(), 1);
    assert_eq!(after.trades[0].trade_type, "A");
    assert!(after.static_info.is_none());
}

#[test]
fn a_pushed_quote_on_a_new_symbol_has_no_previous_close() {
    let mut store = StockStore::new();
    store.merge_push_quote(&aapl(), &push_quote(160));
    let got = store.get(&aapl()).expect("the stock is cached");
    assert_eq!(got.quote.prev_close, None);
    assert_eq!(got.quote.last_done, Some(dec(160)));
    assert_eq!(got.counter, aapl());
    assert_eq!(got.name, "");
}

#[test]
fn a_pulled_quote_leaves_the_session_alone() {
    let mut store = StockStore::new();
    store.merge_push_quote(&aapl(), &push_quote(160));
    store.merge_security_quote(&aapl(), &security_quote("AAPL.US", 150));
    let got = store.get(&aapl()).expect("the stock is cached");
    assert_eq!(got.trade_session, TradeSession::Post);
    assert_eq!(got.trade_status, TradeStatus::Normal);
    assert_eq!(got.quote.prev_close, Some(dec(145)));
    assert_eq!(got.quote.last_done, Some(dec(150)));
    assert_eq!(got.quote.volume, 777);
    assert_eq!(got.quote.turnover, dec(4242));
    assert_eq!(got.quote.timestamp, 1_700_000_100);
}

#[test]
fn modify_copies_updates_and_writes_back() {
    let mut store = StockStore::new();
    store.modify(aapl(), |mut stock| {
        stock.name = "Apple".to_string();
        stock
    });
    store.modify(aapl(), |mut stock| {
        stock.update_from_push_quote(&push_quote(10));
        stock
    });
    let got = store.get(&aapl()).expect("the stock is cached");
    assert_eq!(got.name, "Apple");
    assert_eq!(got.quote.last_done, Some(dec(10)));
    assert_eq!(store.len(), 1);
}

#[test]
fn depth_and_trades_are_replaced_whole() {
    let mut store = StockStore::new();
    let level = |position: i32, price: Option<i64>| DepthLevel {
        position,
        price: price.map(dec),
        volume: 10,
        order_num: 2,
    };
    store.merge_depth(
        &aapl(),
        &SecurityDepth {
            asks: vec![level(1, Some(11)), level(2, None)],
            bids: vec![level(1, Some(9))],
        },
    );
    let got = store.get(&aapl()).expect("the stock is cached");
    assert_eq!(
        got.depth.asks,
        vec![
            Depth { position: 1, price: dec(11), volume: 10, order_num: 2 },
            Depth { position: 2, price: Decimal::ZERO, volume: 10, order_num: 2 },
        ]
    );
    assert_eq!(got.depth.bids.len(), 1);
    store.merge_depth(&aapl(), &SecurityDepth { asks: vec![], bids: vec![level(3, Some(8))] });
    let got = store.get(&aapl()).expect("the stock is cached");
    assert!(got.depth.asks.is_empty());
    assert_eq!(got.depth.bids[0].position, 3);

    let trade = |price: i64, direction: TradeDirection| Trade {
        price: dec(price),
        volume: 5,
        timestamp: 99,
        trade_type: "X".to_string(),
        direction,
    };
    store.merge_trades(&aapl(), &vec![trade(1, TradeDirection::Up), trade(2, TradeDirection::Down)]);
    store.merge_trades(&aapl(), &vec![trade(3, TradeDirection::Neutral)]);
    let got = store.get(&aapl()).expect("the stock is cached");
    assert_eq!(got.trades.len(), 1);
    assert_eq!(got.trades[0].price, dec(3));
    assert_eq!(got.trades[0].direction, TradeDirection::Neutral);
    assert_eq!(got.trades[0].volume, 5);
    assert_eq!(got.trades[0].timestamp, 99);
    assert!(got.depth.asks.is_empty());
}

#[test]
fn static_information_is_stored_as_delivered() {
    let mut store = StockStore::new();
    assert!(!store.lacks_static_info(&aapl()));
    store.ensure(&aapl());
    assert!(store.lacks_static_info(&aapl()));
    assert_eq!(store.get(&aapl()).expect("the stock is cached").name, "AAPL.US");
    store.merge_static_info(&aapl(), &static_info("AAPL.US", "苹果"));
    assert!(!store.lacks_static_info(&aapl()));
    let got = store.get(&aapl()).expect("the stock is cached");
    assert_eq!(got.name, "AAPL.US");
    let info = got.static_info.as_ref().expect("static information is cached");
    assert_eq!(info.symbol, "AAPL.US");
    assert_eq!(info.name_cn, "苹果");
    assert_eq!(info.name_en, "Apple");
    assert_eq!(info.name_hk, "蘋果");
    assert_eq!(info.exchange, "NASD");
    assert_eq!(info.currency, "USD");
    assert_eq!(info.lot_size, 1);
    assert_eq!(info.total_shares, 100);
    assert_eq!(info.circulating_shares, 90);
    assert_eq!(info.eps, Some(dec(6)));
    assert_eq!(info.eps_ttm, Some(dec(7)));
    assert_eq!(info.bps, Some(dec(4)));
    assert_eq!(info.dividend_yield, Some(dec(1)));
    assert!(info.stock_derivatives.is_empty());
    assert_eq!(info.board, "USMain");

    store.merge_listing(&aapl(), &static_info("AAPL.US", "苹果公司"));
    let got = store.get(&aapl()).expect("the stock is cached");
    assert_eq!(got.name, "苹果公司");
    store.ensure(&aapl());
    assert_eq!(store.get(&aapl()).expect("the stock is cached").name, "苹果公司");
}

#[test]
fn mget_answers_in_the_order_asked() {
    let mut store = StockStore::new();
    store.insert(Stock::new(aapl()));
    store.insert(Stock::new(Counter::new("700.HK")));
    let got = store.mget(&[Counter::new("700.HK"), Counter::new("TSLA.US"), aapl(), aapl()]);
    assert_eq!(got.len(), 4);
    assert_eq!(got[0].as_ref().expect("cached").counter, Counter::new("700.HK"));
    assert!(got[1].is_none());
    assert_eq!(got[2].as_ref().expect("cached").counter, aapl());
    assert_eq!(got[3].as_ref().expect("cached").counter, aapl());
    assert!(store.mget(&[]).is_empty());
}

#[test]
fn remove_and_clear_drop_entries() {
    let mut store = StockStore::default();
    store.insert(Stock::new(aapl()));
    store.insert(Stock::new(Counter::new("700.HK")));
    assert_eq!(store.len(), 2);
    store.remove(&aapl());
    assert!(store.get(&aapl()).is_none());
    assert!(store.get(&Counter::new("700.HK")).is_some());
    store.remove(&aapl());
    assert_eq!(store.len(), 1);
    store.clear();
    assert!(store.is_empty());
    assert_eq!(store.len(), 0);
}

#[test]
fn a_new_stock_is_blank() {
    let stock = Stock::new(aapl());
    assert_eq!(stock.name, "");
    assert_eq!(stock.currency, Currency::HKD);
    assert_eq!(stock.trade_status, TradeStatus::Normal);
    assert_eq!(stock.trade_session, TradeSession::Intraday);
    assert_eq!(stock.quote.last_done, None);
    assert_eq!(stock.quote.turnover, Decimal::ZERO);
    assert_eq!(stock.quote.volume, 0);
    assert!(stock.depth.asks.is_empty());
    assert!(stock.static_info.is_none());
    assert!(stock.trades.is_empty());
    assert!(stock.quoting());
    assert_eq!(stock.display_name(), "AAPL");
    let mut named = stock.clone();
    named.name = "Apple".to_string();
    assert_eq!(named.display_name(), "Apple");
    let mut negative = Stock::new(aapl());
    negative.update_from_push_quote(&PushQuote { volume: -2, ..push_quote(1) });
    assert_eq!(negative.quote.volume, u64::MAX - 1);
}
