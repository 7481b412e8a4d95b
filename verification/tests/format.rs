use changqiao::api::account::{DeliveredBalance, StockPosition};
use changqiao::api::positions::fetch_portfolio_data;
use changqiao::data::{Counter, SecurityQuote, Stock, StockStore, TradeStatus};
use changqiao::helper::DecimalExt;
use changqiao::ui::text::{unit, unit_3, unit_4};
use rust_decimal::Decimal;

fn dec(n: i64) -> Decimal {
    Decimal::from(n)
}

fn short(number: i64, precision: u32, locale: &str) -> String {
    unit(dec(number), precision, locale).expect("the quotient fits")
}

#[test]
fn test_unit() {
    assert_eq!(short(1, 2, "en"), "1");
    assert_eq!(short(1, 0, "en"), "1");
    assert_eq!(short(12, 0, "en"), "12");
    assert_eq!(short(2300, 0, "en"), "2K");
    assert_eq!(short(2300, 1, "en"), "2.3K");
    assert_eq!(short(232300, 2, "en"), "232.30K");
    assert_eq!(short(78232300, 2, "en"), "78.23M");
    assert_eq!(short(29278232300, 0, "en"), "29B");

    // Test in Chinese
    assert_eq!(short(1, 2, "zh-CN"), "1");
    assert_eq!(short(1, 0, "zh-CN"), "1");
    assert_eq!(short(12, 0, "zh-CN"), "12");
    assert_eq!(short(23000, 0, "zh-CN"), "2 万");
    assert_eq!(short(23000, 1, "zh-CN"), "2.3 万");
    assert_eq!(short(232300, 2, "zh-CN"), "23.23 万");
    assert_eq!(short(782323000, 2, "zh-CN"), "7.82 亿");
    assert_eq!(short(2927823230000, 0, "zh-CN"), "3 万亿");
    assert_eq!(short(2927823230000, 2, "zh-CN"), "2.93 万亿");
}

#[test]
fn short_numbers_change_unit_at_the_thresholds() {
    assert_eq!(short(999, 0, "en"), "999");
    assert_eq!(short(1000, 0, "en"), "1K");
    assert_eq!(short(999_999, 0, "en"), "1000K");
    assert_eq!(short(1_000_000, 0, "en"), "1M");
    assert_eq!(short(1_000_000_000, 0, "fr"), "1B");
    assert_eq!(short(-5000, 0, "en"), "-5000");
    assert_eq!(short(9999, 0, "zh-HK"), "9999");
    assert_eq!(short(10_000, 0, "zh-HK"), "1 萬");
    assert_eq!(short(100_000_000, 0, "zh-HK"), "1 億");
    assert_eq!(short(1_000_000_000_000, 0, "zh-HK"), "1 萬億");
    assert_eq!(short(10_000, 0, "zh-TW"), "10K");
    assert_eq!(unit_3(dec(1500), 1, ("k", "m", "b")), Some("1.5k".to_string()));
    assert_eq!(unit_4(dec(15_000), 1, ("w", "y", "wy")), Some("1.5w".to_string()));
    assert_eq!(unit_3(Decimal::new(12345, 3), 1, ("k", "m", "b")), Some("12.3".to_string()));
}

#[test]
fn prices_are_written_with_three_places_below_ten() {
    let counter = Counter::new("AAPL.US");
    assert_eq!(Decimal::new(95, 1).format_quote_by_counter(&counter), "9.500");
    assert_eq!(Decimal::new(-95, 1).format_quote_by_counter(&counter), "-9.500");
    assert_eq!(dec(10).format_quote_by_counter(&counter), "10.00");
    assert_eq!(Decimal::new(123456, 3).format_quote_by_counter(&counter), "123.45");
    assert_eq!(Decimal::ZERO.format_quote_by_counter(&counter), "0.000");
    // the magnitude decides, not the sign
    assert_eq!(Decimal::new(-955, 1).format_quote_by_counter(&counter), "-95.50");
    assert_eq!(dec(-10).format_quote_by_counter(&counter), "-10.00");
    assert_eq!(Decimal::new(1234, 4).format_percent(), Some("12.34%".to_string()));
    assert_eq!(dec(-1).format_percent(), Some("-100.00%".to_string()));
    assert_eq!(Decimal::MAX.format_percent(), None);
}

fn position(symbol: &str, quantity: i64) -> StockPosition {
    StockPosition {
        symbol: symbol.to_string(),
        symbol_name: symbol.to_lowercase(),
        quantity: dec(quantity),
        available_quantity: dec(quantity),
        currency: "USD".to_string(),
        cost_price: dec(1),
    }
}

fn quote(symbol: &str, last: i64, prev: i64, open: i64) -> SecurityQuote {
    SecurityQuote {
        symbol: symbol.to_string(),
        last_done: dec(last),
        prev_close: dec(prev),
        open: dec(open),
        high: dec(last),
        low: dec(last),
        timestamp: 0,
        volume: 0,
        turnover: Decimal::ZERO,
        trade_status: TradeStatus::Normal,
    }
}

fn balance(cash: i64) -> DeliveredBalance {
    DeliveredBalance {
        total_cash: dec(cash),
        max_finance_amount: Decimal::ZERO,
        remaining_finance_amount: Decimal::ZERO,
        risk_level: 0,
        margin_call: Decimal::ZERO,
        currency: "USD".to_string(),
        net_assets: Decimal::ZERO,
        init_margin: Decimal::ZERO,
        maintenance_margin: Decimal::ZERO,
        buy_power: Decimal::ZERO,
        cash_infos: Vec::new(),
    }
}

#[test]
fn positions_are_priced_quote_by_quote() {
    let mut stocks = StockStore::new();
    stocks.insert(Stock::new(Counter::new("AAPL.US")));
    let channels = vec![
        vec![position("AAPL.US", 10), position("TSLA.US", 3)],
        vec![position("700.HK", 5), position("D05.SG", 7)],
    ];
    let quotes = vec![
        quote("AAPL.US", 110, 100, 105),
        quote("TSLA.US", 200, 160, 1),
        quote("700.HK", 300, 0, 1),
    ];
    let balances = vec![balance(100), balance(250)];
    let (positions, cash, value) =
        fetch_portfolio_data(Some(&balances), Some(&channels), Some(&quotes), &stocks)
            .expect("the figures fit");
    assert_eq!(cash, dec(350));
    assert_eq!(value, dec(1100 + 600 + 1500));
    assert_eq!(positions.len(), 4);
    // known to the cache: the cost is the day's open
    assert_eq!(positions[0].symbol, Counter::new("AAPL.US"));
    assert_eq!(positions[0].symbol_name, "aapl.us");
    assert_eq!(positions[0].quantity, dec(10));
    assert_eq!(positions[0].current_price, dec(110));
    assert_eq!(positions[0].market_value, dec(1100));
    assert_eq!(positions[0].cost_price, dec(105));
    assert_eq!(positions[0].profit_loss, dec(50));
    assert_eq!(positions[0].profit_loss_percent, Decimal::new(476, 2));
    // not known: the cost is the previous close
    assert_eq!(positions[1].cost_price, dec(160));
    assert_eq!(positions[1].profit_loss, dec(120));
    assert_eq!(positions[1].profit_loss_percent, dec(25));
    // no previous close: the cost is the last price
    assert_eq!(positions[2].cost_price, dec(300));
    assert_eq!(positions[2].profit_loss, Decimal::ZERO);
    assert_eq!(positions[2].profit_loss_percent, Decimal::ZERO);
    // no quote: unpriced
    assert_eq!(positions[3].current_price, Decimal::ZERO);
    assert_eq!(positions[3].market_value, Decimal::ZERO);
    assert_eq!(positions[3].cost_price, Decimal::ZERO);
    assert_eq!(positions[3].quantity, dec(7));
}

#[test]
fn a_portfolio_without_deliveries_is_empty() {
    let stocks = StockStore::new();
    let (positions, cash, value) =
        fetch_portfolio_data(None, None, None, &stocks).expect("the figures fit");
    assert!(positions.is_empty());
    assert_eq!(cash, Decimal::ZERO);
    assert_eq!(value, Decimal::ZERO);
    let channels = vec![vec![position("AAPL.US", 10)]];
    let (positions, _, value) =
        fetch_portfolio_data(None, Some(&channels), None, &stocks).expect("the figures fit");
    assert_eq!(positions.len(), 1);
    assert_eq!(positions[0].market_value, Decimal::ZERO);
    assert_eq!(value, Decimal::ZERO);
}

#[test]
fn a_portfolio_that_does_not_fit_has_no_figures() {
    let mut stocks = StockStore::new();
    let mut rich = balance(1);
    rich.total_cash = Decimal::MAX;
    assert!(fetch_portfolio_data(Some(&vec![rich, balance(1)]), None, None, &stocks).is_none());
    let channels = vec![vec![position("AAPL.US", 10)]];
    let mut wild = quote("AAPL.US", 1, 1, 1);
    wild.last_done = Decimal::MAX;
    assert!(fetch_portfolio_data(None, Some(&channels), Some(&vec![wild]), &stocks).is_none());
    // a cached symbol with nothing held: the gain has no percentage
    stocks.insert(Stock::new(Counter::new("AAPL.US")));
    let none_held = vec![vec![position("AAPL.US", 0)]];
    let quotes = vec![quote("AAPL.US", 110, 100, 105)];
    assert!(fetch_portfolio_data(None, Some(&none_held), Some(&quotes), &stocks).is_none());
    // not cached: no gain is taken on a cost of zero
    let fresh = StockStore::new();
    let (positions, _, _) =
        fetch_portfolio_data(None, Some(&none_held), Some(&quotes), &fresh).expect("fits");
    assert_eq!(positions[0].cost_price, dec(100));
    assert_eq!(positions[0].profit_loss, Decimal::ZERO);
}
