use changqiao::data::{
    Counter, SecurityQuote, SecurityStaticInfo, StockStore, Trade, TradeDirection, TradeStatus,
    Watchlist, WatchlistGroup,
};
use changqiao::kline::KlineStore;
use changqiao::system::{
    ensure_stocks, fetch_holdings, fetch_watchlist, merge_listings, merge_quotes, Fired,
    RefreshOrchestrator, RemoteGroup, StockRefresh, StockRefreshAction, StockRefreshEvent,
    WatchlistRefresh, WatchlistRefreshAction, WatchlistRefreshEvent, DEBOUNCE_MILLIS,
};
use changqiao::data::{AdjustType, Kline, KlineType};
use rust_decimal::Decimal;

fn dec(n: i64) -> Decimal {
    Decimal::from(n)
}

fn quote(symbol: &str, last: i64) -> SecurityQuote {
    SecurityQuote {
        symbol: symbol.to_string(),
        last_done: dec(last),
        prev_close: dec(last - 1),
        open: dec(last),
        high: dec(last),
        low: dec(last),
        timestamp: 5,
        volume: 6,
        turnover: dec(7),
        trade_status: TradeStatus::Normal,
    }
}

fn info(symbol: &str, name: &str) -> SecurityStaticInfo {
    SecurityStaticInfo {
        symbol: symbol.to_string(),
        name_cn: name.to_string(),
        name_en: String::new(),
        name_hk: String::new(),
        exchange: String::new(),
        currency: "USD".to_string(),
        lot_size: 100,
        total_shares: 1,
        circulating_shares: 1,
        hk_shares: 0,
        eps: dec(1),
        eps_ttm: dec(1),
        bps: dec(1),
        dividend_yield: dec(0),
        board: String::new(),
    }
}

fn started(fired: Fired) -> Option<String> {
    match fired {
        Fired::Start(counter) => Some(counter.as_str().to_string()),
        _ => None,
    }
}

#[test]
fn two_requests_within_the_delay_run_once_for_the_second() {
    let mut orchestrator = RefreshOrchestrator::new();
    let a = orchestrator.refresh_stock_debounced(Counter::new("A.US"));
    assert_eq!(a.cancelled, None);
    assert_eq!(a.delay_millis, 50);
    assert_eq!(DEBOUNCE_MILLIS, 50);
    let b = orchestrator.refresh_stock_debounced(Counter::new("B.US"));
    assert_eq!(b.cancelled, Some(a.ticket));
    assert_ne!(a.ticket, b.ticket);
    // the first timer, should it still fire, starts nothing
    assert!(matches!(orchestrator.timer_fired(a.ticket), Fired::Stale));
    assert!(!orchestrator.is_executing());
    assert_eq!(started(orchestrator.timer_fired(b.ticket)), Some("B.US".to_string()));
    assert!(orchestrator.is_executing());
    // no timer starts anything more
    assert!(matches!(orchestrator.timer_fired(a.ticket), Fired::Stale));
    assert!(matches!(orchestrator.timer_fired(b.ticket), Fired::Stale));
}

#[test]
fn two_requests_further_apart_run_twice() {
    let mut orchestrator = RefreshOrchestrator::new();
    let a = orchestrator.refresh_stock_debounced(Counter::new("A.US"));
    assert_eq!(started(orchestrator.timer_fired(a.ticket)), Some("A.US".to_string()));
    orchestrator.finished();
    assert!(!orchestrator.is_executing());
    let b = orchestrator.refresh_stock_debounced(Counter::new("B.US"));
    assert_eq!(b.cancelled, None);
    assert_eq!(started(orchestrator.timer_fired(b.ticket)), Some("B.US".to_string()));
    assert!(orchestrator.is_executing());
}

#[test]
fn a_refresh_in_flight_makes_the_next_one_skip() {
    let mut orchestrator = RefreshOrchestrator::new();
    let a = orchestrator.refresh_stock_debounced(Counter::new("A.US"));
    assert_eq!(started(orchestrator.timer_fired(a.ticket)), Some("A.US".to_string()));
    // a request made while A executes does not cancel A
    let b = orchestrator.refresh_stock_debounced(Counter::new("B.US"));
    assert_eq!(b.cancelled, None);
    assert!(orchestrator.is_executing());
    assert!(matches!(orchestrator.timer_fired(b.ticket), Fired::Skipped));
    assert!(orchestrator.is_executing());
    // B was dropped, not queued
    assert!(matches!(orchestrator.timer_fired(b.ticket), Fired::Stale));
    // A ends, in whatever way: the guard is free again
    orchestrator.finished();
    assert!(!orchestrator.is_executing());
    assert!(matches!(orchestrator.timer_fired(b.ticket), Fired::Stale));
    let c = orchestrator.refresh_stock_debounced(Counter::new("C.US"));
    assert_eq!(started(orchestrator.timer_fired(c.ticket)), Some("C.US".to_string()));
}

#[test]
fn a_symbol_refresh_runs_its_steps_in_order() {
    let mut stocks = StockStore::new();
    let mut klines = KlineStore::new();
    let candle = Kline { timestamp: 1, ..Kline::default() };
    klines.update(Counter::new("X.US"), KlineType::PerDay, AdjustType::NoAdjust, vec![candle], false);
    klines.update(Counter::new("AAPL.US"), KlineType::PerDay, AdjustType::NoAdjust, vec![candle], false);
    klines.update(Counter::new("AAPL.US"), KlineType::PerWeek, AdjustType::ForwardAdjust, vec![candle], false);
    let mut refresh = StockRefresh::new(Counter::new("AAPL.US"));
    assert_eq!(refresh.counter().as_str(), "AAPL.US");
    assert_eq!(refresh.awaits(), StockRefreshAction::Begin);

    let step = refresh.refresh_stock(&mut stocks, &mut klines, StockRefreshEvent::Begin);
    assert_eq!(step, StockRefreshAction::SubscribeDetail);
    // the history of the symbol is gone, that of other symbols stays
    let cleared =
        klines.by_pagination(Counter::new("AAPL.US"), KlineType::PerDay, AdjustType::NoAdjust, 0, 1);
    assert!(cleared.klines.is_empty());
    assert!(cleared.request.is_some());
    let cleared = klines.by_pagination(
        Counter::new("AAPL.US"),
        KlineType::PerWeek,
        AdjustType::ForwardAdjust,
        0,
        1,
    );
    assert!(cleared.klines.is_empty());
    let kept =
        klines.by_pagination(Counter::new("X.US"), KlineType::PerDay, AdjustType::NoAdjust, 0, 1);
    assert_eq!(kept.klines.len(), 1);

    let step = refresh.refresh_stock(&mut stocks, &mut klines, StockRefreshEvent::Subscribed);
    assert_eq!(step, StockRefreshAction::SubscribeTrades);
    let step = refresh.refresh_stock(&mut stocks, &mut klines, StockRefreshEvent::Subscribed);
    assert_eq!(step, StockRefreshAction::FetchQuote);

    let answer = Some(vec![quote("AAPL.US", 150), quote("AAPL.US", 999)]);
    let step = refresh.refresh_stock(&mut stocks, &mut klines, StockRefreshEvent::Quote(answer));
    assert_eq!(step, StockRefreshAction::FetchStaticInfo);
    let got = stocks.get(&Counter::new("AAPL.US")).expect("the stock is cached");
    assert_eq!(got.quote.last_done, Some(dec(150)));
    assert_eq!(got.quote.prev_close, Some(dec(149)));

    let answer = Some(vec![info("AAPL.US", "苹果")]);
    let step = refresh.refresh_stock(&mut stocks, &mut klines, StockRefreshEvent::StaticInfo(answer));
    assert_eq!(step, StockRefreshAction::FetchTrades { count: 50 });
    let got = stocks.get(&Counter::new("AAPL.US")).expect("the stock is cached");
    assert_eq!(got.static_info.as_ref().expect("cached").name_cn, "苹果");
    assert_eq!(got.name, "");

    let trades = vec![Trade {
        price: dec(150),
        volume: 1,
        timestamp: 2,
        trade_type: String::new(),
        direction: TradeDirection::Down,
    }];
    let step = refresh.refresh_stock(&mut stocks, &mut klines, StockRefreshEvent::Trades(Some(trades)));
    assert_eq!(step, StockRefreshAction::Done);
    assert_eq!(stocks.get(&Counter::new("AAPL.US")).expect("cached").trades.len(), 1);
    let step = refresh.refresh_stock(&mut stocks, &mut klines, StockRefreshEvent::Begin);
    assert_eq!(step, StockRefreshAction::Done);
}

#[test]
fn a_symbol_refresh_passes_over_failed_steps() {
    let mut stocks = StockStore::new();
    let mut klines = KlineStore::new();
    let mut refresh = StockRefresh::new(Counter::new("AAPL.US"));
    refresh.refresh_stock(&mut stocks, &mut klines, StockRefreshEvent::Begin);
    refresh.refresh_stock(&mut stocks, &mut klines, StockRefreshEvent::Subscribed);
    refresh.refresh_stock(&mut stocks, &mut klines, StockRefreshEvent::Subscribed);
    // the quote could not be fetched: nothing is cached, so no static information is asked for
    let step = refresh.refresh_stock(&mut stocks, &mut klines, StockRefreshEvent::Quote(None));
    assert_eq!(step, StockRefreshAction::FetchTrades { count: 50 });
    assert!(stocks.is_empty());
    // a report that is not waited for changes nothing
    let step = refresh.refresh_stock(&mut stocks, &mut klines, StockRefreshEvent::Quote(None));
    assert_eq!(step, StockRefreshAction::FetchTrades { count: 50 });
    let step = refresh.refresh_stock(&mut stocks, &mut klines, StockRefreshEvent::Trades(None));
    assert_eq!(step, StockRefreshAction::Done);
    assert!(stocks.is_empty());
}

#[test]
fn static_information_is_fetched_once() {
    let mut stocks = StockStore::new();
    let mut klines = KlineStore::new();
    stocks.merge_static_info(&Counter::new("AAPL.US"), &info("AAPL.US", "苹果"));
    let mut refresh = StockRefresh::new(Counter::new("AAPL.US"));
    refresh.refresh_stock(&mut stocks, &mut klines, StockRefreshEvent::Begin);
    refresh.refresh_stock(&mut stocks, &mut klines, StockRefreshEvent::Subscribed);
    refresh.refresh_stock(&mut stocks, &mut klines, StockRefreshEvent::Subscribed);
    let step =
        refresh.refresh_stock(&mut stocks, &mut klines, StockRefreshEvent::Quote(Some(Vec::new())));
    assert_eq!(step, StockRefreshAction::FetchTrades { count: 50 });
    let step = refresh.refresh_stock(&mut stocks, &mut klines, StockRefreshEvent::Trades(Some(Vec::new())));
    assert_eq!(step, StockRefreshAction::Done);
    assert!(stocks.get(&Counter::new("AAPL.US")).expect("cached").trades.is_empty());
}

fn counters(symbols: &[&str]) -> Vec<Counter> {
    symbols.iter().map(|s| Counter::new(s)).collect()
}

fn texts(watchlist: &Watchlist) -> Vec<&str> {
    watchlist.counters().iter().map(|c| c.as_str()).collect()
}

#[test]
fn a_watchlist_refresh_runs_its_steps_in_order() {
    let mut stocks = StockStore::new();
    let mut watchlist = Watchlist::new();
    watchlist.set_group_id(3);
    watchlist.set_sortby((4, 5, true));
    let mut refresh = WatchlistRefresh::new();
    assert_eq!(refresh.awaits(&watchlist), WatchlistRefreshAction::Begin);
    let step = refresh.refresh_watchlist(&mut watchlist, &mut stocks, WatchlistRefreshEvent::Begin);
    assert_eq!(step, WatchlistRefreshAction::FetchLists { group_id: Some(3) });

    let lists = WatchlistRefreshEvent::Lists {
        watchlist: Some((
            counters(&["MSFT.US", "700.HK", "MSFT.US"]),
            vec![WatchlistGroup { id: 3, name: "mine".to_string() }],
        )),
        holdings: Some(counters(&["AAPL.US", "700.HK"])),
    };
    let step = refresh.refresh_watchlist(&mut watchlist, &mut stocks, lists);
    assert_eq!(step, WatchlistRefreshAction::FetchQuotes);
    assert_eq!(texts(&watchlist), vec!["MSFT.US", "700.HK", "AAPL.US"]);
    assert_eq!(watchlist.groups()[0].name, "mine");
    assert!(watchlist.hidden);
    assert_eq!(watchlist.sort_by, (0, 0, false));
    assert_eq!(stocks.len(), 3);
    assert_eq!(stocks.get(&Counter::new("700.HK")).expect("cached").name, "700.HK");

    let quotes = Some(vec![quote("AAPL.US", 150), quote("700.HK", 300), quote("TSLA.US", 200)]);
    let step =
        refresh.refresh_watchlist(&mut watchlist, &mut stocks, WatchlistRefreshEvent::Quotes(quotes));
    assert_eq!(step, WatchlistRefreshAction::FetchStaticInfo);
    assert_eq!(stocks.get(&Counter::new("AAPL.US")).expect("cached").quote.last_done, Some(dec(150)));
    assert_eq!(stocks.get(&Counter::new("TSLA.US")).expect("cached").quote.last_done, Some(dec(200)));
    assert_eq!(stocks.get(&Counter::new("MSFT.US")).expect("cached").quote.last_done, None);

    let infos = Some(vec![info("AAPL.US", "苹果"), info("700.HK", "腾讯控股")]);
    let step = refresh.refresh_watchlist(
        &mut watchlist,
        &mut stocks,
        WatchlistRefreshEvent::StaticInfo(infos),
    );
    assert_eq!(step, WatchlistRefreshAction::Resubscribe);
    assert_eq!(stocks.get(&Counter::new("AAPL.US")).expect("cached").name, "苹果");
    assert_eq!(stocks.get(&Counter::new("700.HK")).expect("cached").name, "腾讯控股");
    assert_eq!(stocks.get(&Counter::new("MSFT.US")).expect("cached").name, "MSFT.US");
    assert_eq!(texts(&watchlist), vec!["MSFT.US", "700.HK", "AAPL.US"]);

    let step =
        refresh.refresh_watchlist(&mut watchlist, &mut stocks, WatchlistRefreshEvent::Resubscribed);
    assert_eq!(step, WatchlistRefreshAction::Done);
    // every entry is in its regular session by default: by market, then by code
    assert_eq!(texts(&watchlist), vec!["AAPL.US", "MSFT.US", "700.HK"]);
    assert_eq!(watchlist.group_id, Some(3));
    let step =
        refresh.refresh_watchlist(&mut watchlist, &mut stocks, WatchlistRefreshEvent::Resubscribed);
    assert_eq!(step, WatchlistRefreshAction::Done);
}

#[test]
fn a_watchlist_that_cannot_be_fetched_changes_nothing() {
    let mut stocks = StockStore::new();
    let mut watchlist = Watchlist::new();
    watchlist.set_counters(counters(&["B.US", "A.US"]));
    let mut refresh = WatchlistRefresh::new();
    refresh.refresh_watchlist(&mut watchlist, &mut stocks, WatchlistRefreshEvent::Begin);
    let lists = WatchlistRefreshEvent::Lists { watchlist: None, holdings: Some(counters(&["C.US"])) };
    let step = refresh.refresh_watchlist(&mut watchlist, &mut stocks, lists);
    assert_eq!(step, WatchlistRefreshAction::Done);
    assert_eq!(texts(&watchlist), vec!["B.US", "A.US"]);
    assert!(!watchlist.hidden);
    assert!(stocks.is_empty());
}

#[test]
fn a_watchlist_refresh_passes_over_failed_steps() {
    let mut stocks = StockStore::new();
    let mut watchlist = Watchlist::new();
    let mut refresh = WatchlistRefresh::new();
    refresh.refresh_watchlist(&mut watchlist, &mut stocks, WatchlistRefreshEvent::Begin);
    let lists = WatchlistRefreshEvent::Lists {
        watchlist: Some((counters(&["B.US", "A.US", "B.US"]), Vec::new())),
        holdings: None,
    };
    let step = refresh.refresh_watchlist(&mut watchlist, &mut stocks, lists);
    assert_eq!(step, WatchlistRefreshAction::FetchQuotes);
    assert_eq!(texts(&watchlist), vec!["B.US", "A.US"]);
    // a report that is not waited for changes nothing
    let step =
        refresh.refresh_watchlist(&mut watchlist, &mut stocks, WatchlistRefreshEvent::StaticInfo(None));
    assert_eq!(step, WatchlistRefreshAction::FetchQuotes);
    let step = refresh.refresh_watchlist(&mut watchlist, &mut stocks, WatchlistRefreshEvent::Quotes(None));
    assert_eq!(step, WatchlistRefreshAction::FetchStaticInfo);
    let step =
        refresh.refresh_watchlist(&mut watchlist, &mut stocks, WatchlistRefreshEvent::StaticInfo(None));
    assert_eq!(step, WatchlistRefreshAction::Resubscribe);
    let step =
        refresh.refresh_watchlist(&mut watchlist, &mut stocks, WatchlistRefreshEvent::Resubscribed);
    assert_eq!(step, WatchlistRefreshAction::Done);
    assert_eq!(texts(&watchlist), vec!["A.US", "B.US"]);
    assert_eq!(stocks.len(), 2);
}

#[test]
fn an_empty_watchlist_skips_the_batched_fetches() {
    let mut stocks = StockStore::new();
    let mut watchlist = Watchlist::new();
    let mut refresh = WatchlistRefresh::new();
    refresh.refresh_watchlist(&mut watchlist, &mut stocks, WatchlistRefreshEvent::Begin);
    let lists = WatchlistRefreshEvent::Lists {
        watchlist: Some((Vec::new(), Vec::new())),
        holdings: Some(Vec::new()),
    };
    let step = refresh.refresh_watchlist(&mut watchlist, &mut stocks, lists);
    assert_eq!(step, WatchlistRefreshAction::Resubscribe);
    assert!(watchlist.hidden);
}

#[test]
fn a_delivered_watchlist_is_read_group_by_group() {
    let groups = vec![
        RemoteGroup { id: 1, name: "all".to_string(), symbols: vec!["A.US".to_string(), "B.HK".to_string()] },
        RemoteGroup { id: 2, name: "tech".to_string(), symbols: vec!["C.US".to_string()] },
        RemoteGroup { id: -1, name: "odd".to_string(), symbols: vec!["A.US".to_string()] },
    ];
    let (symbols, listed) = fetch_watchlist(&groups, None);
    let texts: Vec<&str> = symbols.iter().map(|c| c.as_str()).collect();
    assert_eq!(texts, vec!["A.US", "B.HK", "C.US", "A.US"]);
    assert_eq!(listed.len(), 3);
    assert_eq!((listed[1].id, listed[1].name.as_str()), (2, "tech"));
    assert_eq!(listed[2].id, u64::MAX);

    let (symbols, listed) = fetch_watchlist(&groups, Some(2));
    let texts: Vec<&str> = symbols.iter().map(|c| c.as_str()).collect();
    assert_eq!(texts, vec!["C.US"]);
    assert_eq!(listed.len(), 3);
    let (symbols, _) = fetch_watchlist(&groups, Some(9));
    assert!(symbols.is_empty());
    let (symbols, listed) = fetch_watchlist(&Vec::new(), None);
    assert!(symbols.is_empty() && listed.is_empty());
}

#[test]
fn holdings_are_read_channel_by_channel() {
    let channels = vec![
        vec!["A.US".to_string(), "B.HK".to_string()],
        Vec::new(),
        vec!["A.US".to_string()],
    ];
    let held = fetch_holdings(&channels);
    let texts: Vec<&str> = held.iter().map(|c| c.as_str()).collect();
    assert_eq!(texts, vec!["A.US", "B.HK", "A.US"]);
    assert!(fetch_holdings(&Vec::new()).is_empty());
}

#[test]
fn batches_are_merged_symbol_by_symbol() {
    let mut stocks = StockStore::new();
    ensure_stocks(&mut stocks, &counters(&["A.US", "B.US", "A.US"]));
    assert_eq!(stocks.len(), 2);
    merge_quotes(&mut stocks, &vec![quote("A.US", 1), quote("A.US", 2)]);
    assert_eq!(stocks.get(&Counter::new("A.US")).expect("cached").quote.last_done, Some(dec(2)));
    assert_eq!(stocks.get(&Counter::new("A.US")).expect("cached").name, "A.US");
    merge_listings(&mut stocks, &vec![info("B.US", "乙"), info("C.US", "丙")]);
    assert_eq!(stocks.get(&Counter::new("B.US")).expect("cached").name, "乙");
    assert_eq!(stocks.get(&Counter::new("C.US")).expect("cached").name, "丙");
    assert_eq!(stocks.len(), 3);
}
