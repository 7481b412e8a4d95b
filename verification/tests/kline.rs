use changqiao::data::{AdjustType, Candlestick, Counter, Kline, KlineType};
use changqiao::kline::{
    cast_unsigned, forward_adjust, forward_adjust_price, kline_from_candlestick, merge_klines,
    put_kline, KlineRequest, KlineStore,
};
use rust_decimal::Decimal;

fn candle(timestamp: i64, close: i64) -> Kline {
    Kline {
        timestamp,
        open: Decimal::from(close - 1),
        high: Decimal::from(close + 2),
        low: Decimal::from(close - 2),
        close: Decimal::from(close),
        amount: 1000,
        balance: Decimal::from(close * 1000),
        factor_a: Decimal::ONE,
        factor_b: Decimal::ZERO,
        total: 7,
    }
}

fn adjusted_candle(timestamp: i64, close: i64, a: Decimal, b: Decimal) -> Kline {
    Kline { factor_a: a, factor_b: b, ..candle(timestamp, close) }
}

fn aapl() -> Counter {
    Counter::new("AAPL.US")
}

fn timestamps(klines: &[Kline]) -> Vec<i64> {
    klines.iter().map(|k| k.timestamp).collect()
}

#[test]
fn empty_cache_returns_nothing_and_asks_for_the_page() {
    let mut store = KlineStore::new();
    let page = store.by_pagination(aapl(), KlineType::PerDay, AdjustType::NoAdjust, 0, 5);
    assert!(page.klines.is_empty());
    let request = page.request.expect("a fetch is asked for");
    assert_eq!(request.counter, aapl());
    assert_eq!(request.kline_type, KlineType::PerDay);
    assert_eq!(request.adjust_type, AdjustType::NoAdjust);
    assert_eq!(request.before, 0);
    assert_eq!(request.count, 5);

    let delivered: Vec<Kline> = (1..=5).map(|i| candle(i * 86_400, 100 + i)).collect();
    store.update(aapl(), KlineType::PerDay, AdjustType::NoAdjust, delivered.clone(), false);
    let page = store.by_pagination(aapl(), KlineType::PerDay, AdjustType::NoAdjust, 0, 5);
    assert_eq!(page.klines, delivered);
    assert!(page.request.is_none());
}

#[test]
fn a_miss_on_a_later_page_asks_for_all_pages_up_to_it() {
    let store = KlineStore::new();
    let page = store.by_pagination(aapl(), KlineType::PerHour, AdjustType::ForwardAdjust, 2, 20);
    assert!(page.klines.is_empty());
    let request = page.request.expect("a fetch is asked for");
    assert_eq!(request.count, 60);
    assert_eq!(request.adjust_type, AdjustType::ForwardAdjust);
    let page = store.by_pagination(aapl(), KlineType::PerHour, AdjustType::NoAdjust, usize::MAX, 0);
    assert_eq!(page.request.expect("a fetch is asked for").count, 0);
}

#[test]
fn pages_count_back_from_the_newest_candle() {
    let mut store = KlineStore::new();
    let all: Vec<Kline> = (1..=7).map(|i| candle(i, 10 + i)).collect();
    store.update(aapl(), KlineType::PerDay, AdjustType::NoAdjust, all, false);
    let read = |page: usize| {
        store.by_pagination(aapl(), KlineType::PerDay, AdjustType::NoAdjust, page, 3)
    };
    assert_eq!(timestamps(&read(0).klines), vec![5, 6, 7]);
    assert_eq!(timestamps(&read(1).klines), vec![2, 3, 4]);
    assert_eq!(timestamps(&read(2).klines), vec![1]);
    assert!(read(3).klines.is_empty());
    assert!(read(4).klines.is_empty());
    assert!(read(2).request.is_none());
    let empty = store.by_pagination(aapl(), KlineType::PerDay, AdjustType::NoAdjust, 0, 0);
    assert!(empty.klines.is_empty());
    assert!(empty.request.is_none());
}

#[test]
fn a_short_page_asks_for_older_candles_while_more_exist() {
    let mut store = KlineStore::new();
    let all: Vec<Kline> = (1..=4).map(|i| candle(i * 60, 10 + i)).collect();
    store.update(aapl(), KlineType::PerMinute, AdjustType::NoAdjust, all, true);
    let full = store.by_pagination(aapl(), KlineType::PerMinute, AdjustType::NoAdjust, 0, 4);
    assert_eq!(full.klines.len(), 4);
    assert!(full.request.is_none());
    let short = store.by_pagination(aapl(), KlineType::PerMinute, AdjustType::NoAdjust, 1, 3);
    assert_eq!(timestamps(&short.klines), vec![60]);
    let request: KlineRequest = short.request.expect("older candles are asked for");
    assert_eq!(request.before, 60);
    assert_eq!(request.count, 3);
    assert_eq!(request.counter, aapl());
    let beyond = store.by_pagination(aapl(), KlineType::PerMinute, AdjustType::NoAdjust, 5, 3);
    assert!(beyond.klines.is_empty());
    assert_eq!(beyond.request.expect("older candles are asked for").before, 60);

    store.update(aapl(), KlineType::PerMinute, AdjustType::NoAdjust, Vec::new(), false);
    let short = store.by_pagination(aapl(), KlineType::PerMinute, AdjustType::NoAdjust, 1, 3);
    assert_eq!(timestamps(&short.klines), vec![60]);
    assert!(short.request.is_none());
}

#[test]
fn an_empty_series_with_more_history_anchors_at_zero() {
    let mut store = KlineStore::new();
    store.update(aapl(), KlineType::PerDay, AdjustType::NoAdjust, Vec::new(), true);
    let page = store.by_pagination(aapl(), KlineType::PerDay, AdjustType::NoAdjust, 0, 5);
    assert!(page.klines.is_empty());
    let request = page.request.expect("older candles are asked for");
    assert_eq!(request.before, 0);
    assert_eq!(request.count, 5);
}

#[test]
fn update_replaces_by_timestamp_and_keeps_ascending_order() {
    let mut store = KlineStore::new();
    store.update(
        aapl(),
        KlineType::PerDay,
        AdjustType::NoAdjust,
        vec![candle(30, 3), candle(10, 1), candle(20, 2)],
        true,
    );
    store.update(
        aapl(),
        KlineType::PerDay,
        AdjustType::NoAdjust,
        vec![candle(20, 22), candle(5, 0), candle(40, 4), candle(40, 44)],
        false,
    );
    let page = store.by_pagination(aapl(), KlineType::PerDay, AdjustType::NoAdjust, 0, 10);
    assert_eq!(timestamps(&page.klines), vec![5, 10, 20, 30, 40]);
    assert_eq!(page.klines[2], candle(20, 22));
    assert_eq!(page.klines[4], candle(40, 44));
    assert!(page.request.is_none());
}

#[test]
fn applying_the_same_batch_twice_changes_nothing() {
    let mut store = KlineStore::new();
    store.update(
        aapl(),
        KlineType::PerDay,
        AdjustType::NoAdjust,
        vec![candle(10, 1), candle(30, 3)],
        true,
    );
    let batch = vec![candle(20, 2), candle(30, 33), candle(20, 22), candle(1, 9)];
    store.update(aapl(), KlineType::PerDay, AdjustType::NoAdjust, batch.clone(), true);
    let once = store.by_pagination(aapl(), KlineType::PerDay, AdjustType::NoAdjust, 0, 10).klines;
    store.update(aapl(), KlineType::PerDay, AdjustType::NoAdjust, batch, true);
    let twice = store.by_pagination(aapl(), KlineType::PerDay, AdjustType::NoAdjust, 0, 10).klines;
    assert_eq!(once, twice);
    assert_eq!(timestamps(&once), vec![1, 10, 20, 30]);
    assert_eq!(once[2], candle(20, 22));
    assert_eq!(once[3], candle(30, 33));
}

#[test]
fn short_periods_are_never_adjusted() {
    let a = Decimal::new(15, 1);
    let b = Decimal::from(2);
    for period in [
        KlineType::PerMinute,
        KlineType::PerFiveMinutes,
        KlineType::PerFifteenMinutes,
        KlineType::PerThirtyMinutes,
        KlineType::PerHour,
        KlineType::PerDay,
    ] {
        let mut store = KlineStore::new();
        let stored = vec![adjusted_candle(1, 10, a, b), adjusted_candle(2, 20, a, b)];
        store.update(aapl(), period, AdjustType::ForwardAdjust, stored.clone(), false);
        let plain = store.by_pagination(aapl(), period, AdjustType::NoAdjust, 0, 5);
        let forward = store.by_pagination(aapl(), period, AdjustType::ForwardAdjust, 0, 5);
        assert_eq!(plain.klines, stored);
        assert_eq!(forward.klines, stored);
        assert!(forward.request.is_none());
        assert_eq!(KlineStore::normalize(period, AdjustType::ForwardAdjust), AdjustType::NoAdjust);
    }
}

#[test]
fn long_periods_are_adjusted_when_read() {
    let a = Decimal::new(15, 1);
    let b = Decimal::from(2);
    for period in [KlineType::PerWeek, KlineType::PerMonth, KlineType::PerYear] {
        let mut store = KlineStore::new();
        let stored = vec![adjusted_candle(1, 10, a, b), adjusted_candle(2, 20, a, b)];
        store.update(aapl(), period, AdjustType::ForwardAdjust, stored.clone(), false);
        let forward = store.by_pagination(aapl(), period, AdjustType::ForwardAdjust, 0, 5);
        assert_eq!(forward.klines.len(), 2);
        // close 10, open 9, high 12, low 8, each times 1.5 plus 2
        assert_eq!(forward.klines[0].close, Decimal::from(17));
        assert_eq!(forward.klines[0].open, Decimal::new(155, 1));
        assert_eq!(forward.klines[0].high, Decimal::from(20));
        assert_eq!(forward.klines[0].low, Decimal::from(14));
        assert_eq!(forward.klines[1].close, Decimal::from(32));
        assert_eq!(forward.klines[0].timestamp, 1);
        assert_eq!(forward.klines[0].amount, 1000);
        assert_eq!(forward.klines[0].balance, Decimal::from(10_000));
        assert_eq!(forward.klines[0].factor_a, a);
        assert_eq!(forward.klines[0].factor_b, b);
        assert_eq!(forward.klines[0].total, 7);
        assert_eq!(
            KlineStore::normalize(period, AdjustType::ForwardAdjust),
            AdjustType::ForwardAdjust
        );
        // the unadjusted series of the same period is another series
        let plain = store.by_pagination(aapl(), period, AdjustType::NoAdjust, 0, 5);
        assert!(plain.klines.is_empty());
        assert_eq!(plain.request.expect("a fetch is asked for").count, 5);
    }
}

#[test]
fn a_page_that_overflows_is_not_served() {
    let mut store = KlineStore::new();
    let huge = adjusted_candle(1, 10, Decimal::MAX, Decimal::ZERO);
    store.update(
        aapl(),
        KlineType::PerWeek,
        AdjustType::ForwardAdjust,
        vec![huge, adjusted_candle(2, 20, Decimal::ONE, Decimal::ZERO)],
        false,
    );
    assert!(!store.page_is_servable(&aapl(), KlineType::PerWeek, AdjustType::ForwardAdjust, 0, 5));
    assert!(store
        .try_by_pagination(aapl(), KlineType::PerWeek, AdjustType::ForwardAdjust, 0, 5)
        .is_none());
    // the newest candle alone can be served
    assert!(store.page_is_servable(&aapl(), KlineType::PerWeek, AdjustType::ForwardAdjust, 0, 1));
    let page = store
        .try_by_pagination(aapl(), KlineType::PerWeek, AdjustType::ForwardAdjust, 0, 1)
        .expect("the page can be served");
    assert_eq!(timestamps(&page.klines), vec![2]);
    assert_eq!(page.klines[0].close, Decimal::from(20));
    // a miss can always be served
    let miss = store
        .try_by_pagination(aapl(), KlineType::PerMonth, AdjustType::ForwardAdjust, 0, 5)
        .expect("a miss is served");
    assert!(miss.klines.is_empty());
    assert!(miss.request.is_some());
    assert!(forward_adjust(&huge).is_none());
}

#[test]
fn forward_adjustment_multiplies_then_adds() {
    assert_eq!(
        forward_adjust_price(Decimal::from(10), Decimal::new(15, 1), Decimal::from(2)),
        Some(Decimal::from(17))
    );
    assert_eq!(
        forward_adjust_price(Decimal::from(10), Decimal::ONE, Decimal::ZERO),
        Some(Decimal::from(10))
    );
    assert_eq!(forward_adjust_price(Decimal::MAX, Decimal::from(2), Decimal::ZERO), None);
    assert_eq!(forward_adjust_price(Decimal::MAX, Decimal::ONE, Decimal::ONE), None);
    let adjusted = forward_adjust(&adjusted_candle(5, 10, Decimal::from(2), Decimal::ONE))
        .expect("no overflow");
    assert_eq!(adjusted.close, Decimal::from(21));
    assert_eq!(adjusted.open, Decimal::from(19));
    assert_eq!(adjusted.high, Decimal::from(25));
    assert_eq!(adjusted.low, Decimal::from(17));
}

#[test]
fn series_are_kept_apart_by_symbol_and_period() {
    let mut store = KlineStore::new();
    store.update(aapl(), KlineType::PerDay, AdjustType::NoAdjust, vec![candle(1, 1)], false);
    store.update(
        Counter::new("TSLA.US"),
        KlineType::PerDay,
        AdjustType::NoAdjust,
        vec![candle(2, 2)],
        false,
    );
    store.update(aapl(), KlineType::PerHour, AdjustType::NoAdjust, vec![candle(3, 3)], false);
    fn read(store: &KlineStore, counter: &str, period: KlineType) -> Vec<i64> {
        timestamps(
            &store.by_pagination(Counter::new(counter), period, AdjustType::NoAdjust, 0, 9).klines,
        )
    }
    assert_eq!(read(&store, "AAPL.US", KlineType::PerDay), vec![1]);
    assert_eq!(read(&store, "TSLA.US", KlineType::PerDay), vec![2]);
    assert_eq!(read(&store, "AAPL.US", KlineType::PerHour), vec![3]);
    assert!(read(&store, "TSLA.US", KlineType::PerHour).is_empty());
    store.clear_symbol(&Counter::new("AAPL.US"));
    assert!(read(&store, "AAPL.US", KlineType::PerDay).is_empty());
    assert!(read(&store, "AAPL.US", KlineType::PerHour).is_empty());
    assert_eq!(read(&store, "TSLA.US", KlineType::PerDay), vec![2]);
    store.clear_symbol(&Counter::new("AAPL.US"));
    assert_eq!(read(&store, "TSLA.US", KlineType::PerDay), vec![2]);
    store.clear();
    assert!(read(&store, "TSLA.US", KlineType::PerDay).is_empty());
}

#[test]
fn a_fetch_that_comes_back_short_ends_the_history() {
    let sticks: Vec<Candlestick> = (1..=3)
        .map(|i| Candlestick {
            timestamp: i * 10,
            open: Decimal::from(i),
            high: Decimal::from(i + 1),
            low: Decimal::from(i - 1),
            close: Decimal::from(i),
            volume: 500,
            turnover: Decimal::from(5000),
        })
        .collect();
    let request = |count: usize| KlineRequest {
        counter: aapl(),
        kline_type: KlineType::PerDay,
        adjust_type: AdjustType::ForwardAdjust,
        before: 0,
        count,
    };
    let mut store = KlineStore::new();
    store.request(request(3), &sticks);
    let page = store.by_pagination(aapl(), KlineType::PerDay, AdjustType::NoAdjust, 0, 5);
    assert_eq!(timestamps(&page.klines), vec![10, 20, 30]);
    assert_eq!(page.klines[0].factor_a, Decimal::ONE);
    assert_eq!(page.klines[0].factor_b, Decimal::ZERO);
    assert_eq!(page.klines[0].amount, 500);
    assert_eq!(page.klines[0].balance, Decimal::from(5000));
    assert_eq!(page.klines[0].total, 0);
    // as many as asked for: older history may exist
    assert_eq!(page.request.expect("older candles are asked for").before, 10);

    let mut store = KlineStore::new();
    store.request(request(4), &sticks);
    let page = store.by_pagination(aapl(), KlineType::PerDay, AdjustType::NoAdjust, 0, 5);
    assert_eq!(page.klines.len(), 3);
    assert!(page.request.is_none());
}

#[test]
fn delivered_candlesticks_keep_their_bits() {
    let stick = Candlestick {
        timestamp: 1,
        open: Decimal::ONE,
        high: Decimal::ONE,
        low: Decimal::ONE,
        close: Decimal::ONE,
        volume: -1,
        turnover: Decimal::ZERO,
    };
    assert_eq!(kline_from_candlestick(&stick).amount, u64::MAX);
    assert_eq!(cast_unsigned(0), 0);
    assert_eq!(cast_unsigned(i64::MAX), 9_223_372_036_854_775_807);
    assert_eq!(cast_unsigned(i64::MIN), 9_223_372_036_854_775_808);
    let blank = Kline::default();
    assert_eq!(blank.factor_a, Decimal::ONE);
    assert_eq!(blank.factor_b, Decimal::ZERO);
    assert_eq!(blank.close, Decimal::ZERO);
    assert_eq!(blank.timestamp, 0);
}

#[test]
fn candles_go_in_at_their_place() {
    let mut series = vec![candle(10, 1), candle(20, 2), candle(30, 3)];
    put_kline(&mut series, candle(25, 9));
    assert_eq!(timestamps(&series), vec![10, 20, 25, 30]);
    put_kline(&mut series, candle(5, 9));
    assert_eq!(timestamps(&series), vec![5, 10, 20, 25, 30]);
    put_kline(&mut series, candle(35, 9));
    put_kline(&mut series, candle(10, 8));
    assert_eq!(timestamps(&series), vec![5, 10, 20, 25, 30, 35]);
    assert_eq!(series[1], candle(10, 8));
    let mut empty = Vec::new();
    merge_klines(&mut empty, &vec![candle(2, 2), candle(1, 1), candle(2, 3)]);
    assert_eq!(empty, vec![candle(1, 1), candle(2, 3)]);
}
