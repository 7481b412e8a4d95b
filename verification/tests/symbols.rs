use changqiao::data::{Counter, Currency, KlineType, Market, SubTypes, TradeSession};
use changqiao::data::TradeSessionExt;
use changqiao::data::{TradeStatus, TradeStatusExt};

#[test]
fn parses_standard_symbol() {
    let counter = Counter::new("AAPL.US");
    assert_eq!(counter.code(), "AAPL");
    assert_eq!(counter.market(), "US");
}

#[test]
fn parses_index_symbol_with_leading_dot() {
    let counter = Counter::new(".DJI.US");
    assert_eq!(counter.code(), ".DJI");
    assert_eq!(counter.market(), "US");
}

#[test]
fn handles_symbol_without_market_suffix() {
    let counter = Counter::new("BTCUSD");
    assert_eq!(counter.code(), "BTCUSD");
    assert_eq!(counter.market(), "");
}

#[test]
fn symbol_ending_in_a_dot_has_an_empty_market() {
    let counter = Counter::new("700.");
    assert_eq!(counter.code(), "700");
    assert_eq!(counter.market(), "");
    assert_eq!(counter.as_str(), "700.");
}

#[test]
fn symbol_with_wide_characters_splits_by_character() {
    let counter = Counter::new("腾讯.HK");
    assert_eq!(counter.code(), "腾讯");
    assert_eq!(counter.market(), "HK");
    assert!(counter.is_hk());
}

#[test]
fn region_follows_the_suffix() {
    assert_eq!(Counter::new("AAPL.US").region(), Market::US);
    assert_eq!(Counter::new("600000.SH").region(), Market::CN);
    assert_eq!(Counter::new("000001.SZ").region(), Market::CN);
    assert_eq!(Counter::new("X.CN").region(), Market::CN);
    assert_eq!(Counter::new("D05.SG").region(), Market::SG);
    assert_eq!(Counter::new("00700.HK").region(), Market::HK);
    assert_eq!(Counter::new("BTCUSD").region(), Market::HK);
    assert_eq!(Market::from_suffix("us"), Market::HK);
    assert_eq!(Market::from("US"), Market::US);
    assert_eq!(Market::from("SZ"), Market::CN);
    assert_eq!(Market::from(""), Market::HK);
}

#[test]
fn empty_symbol_is_empty() {
    assert!(Counter::new("").is_empty());
    assert!(!Counter::new("A").is_empty());
    assert!(!Counter::new("AAPL.US").is_hk());
}

#[test]
fn symbols_compare_by_text() {
    let a = Counter::new("AAPL.US");
    let b = a.clone();
    assert!(a.same_as(&b));
    assert_eq!(a, b);
    assert!(!a.same_as(&Counter::new("AAPL.HK")));
}

#[test]
fn periods_step_and_stop_at_the_ends() {
    assert_eq!(KlineType::PerMinute.next(), KlineType::PerFiveMinutes);
    assert_eq!(KlineType::PerDay.next(), KlineType::PerWeek);
    assert_eq!(KlineType::PerMonth.next(), KlineType::PerYear);
    assert_eq!(KlineType::PerYear.next(), KlineType::PerYear);
    assert_eq!(KlineType::PerMinute.prev(), KlineType::PerMinute);
    assert_eq!(KlineType::PerFiveMinutes.prev(), KlineType::PerMinute);
    assert_eq!(KlineType::PerWeek.prev(), KlineType::PerDay);
    assert_eq!(KlineType::PerYear.prev(), KlineType::PerMonth);
}

#[test]
fn periods_are_listed_shortest_first() {
    let all = KlineType::iter();
    assert_eq!(all.len(), 9);
    assert_eq!(all[0], KlineType::PerMinute);
    assert_eq!(all[5], KlineType::PerDay);
    assert_eq!(all[8], KlineType::PerYear);
    for (i, period) in all.iter().enumerate() {
        assert_eq!(period.index() as usize, i);
        assert_eq!(period.is_above_daily(), i > 5);
    }
    assert_eq!(KlineType::PerDay.label(), "Day");
    assert_eq!(KlineType::PerFifteenMinutes.label(), "15m");
}

#[test]
fn names_of_currencies_and_markets() {
    assert_eq!(Currency::HKD.as_str(), "HKD");
    assert_eq!(Currency::USD.as_str(), "USD");
    assert_eq!(Currency::CNY.as_str(), "CNY");
    assert_eq!(Currency::SGD.as_str(), "SGD");
    assert_eq!(Market::US.as_str(), "US");
    assert_eq!(Market::HK.as_str(), "HK");
    assert_eq!(Market::CN.as_str(), "CN");
    assert_eq!(Market::SG.as_str(), "SG");
}

#[test]
fn market_priority_puts_open_markets_first() {
    assert_eq!(Market::SG.sort_priority(true), 0);
    assert_eq!(Market::US.sort_priority(false), 1);
    assert_eq!(Market::HK.sort_priority(false), 2);
    assert_eq!(Market::CN.sort_priority(false), 3);
    assert_eq!(Market::SG.sort_priority(false), 4);
    assert_eq!(Market::US.color(), (0x5F, 0xD7, 0xFF));
    assert_eq!(Market::CN.color(), (0xFF, 0x5F, 0x5F));
}

#[test]
fn only_the_regular_session_is_normal_trading() {
    assert!(TradeSession::Intraday.is_normal_trading());
    assert!(!TradeSession::Pre.is_normal_trading());
    assert!(!TradeSession::Post.is_normal_trading());
    assert!(!TradeSession::Overnight.is_normal_trading());
    assert!(TradeStatus::Normal.is_trading());
    assert!(!TradeStatus::Normal.is_closed());
    assert!(TradeStatus::Halted.is_closed());
    assert!(!TradeStatus::SuspendTrade.is_trading());
}

#[test]
fn joined_subscriptions_ask_for_the_detail_feed() {
    assert_eq!(SubTypes::LIST | SubTypes::TRADES, SubTypes::DETAIL);
    assert_eq!(SubTypes::DEPTH | SubTypes::DEPTH, SubTypes::DETAIL);
}
