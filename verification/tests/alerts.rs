use changqiao::alerts::{
    evaluate_quote, percent_change, AlertRule, AlertRuleKind, AlertRuleStatus, AlertStore,
};
use changqiao::data::{Counter, Stock};
use rust_decimal::Decimal;

fn rule(kind: AlertRuleKind, threshold: Decimal) -> AlertRule {
    AlertRule {
        id: "r1".to_string(),
        symbol: "AAPL.US".to_string(),
        kind,
        threshold,
        status: AlertRuleStatus::Enabled,
        cooldown_seconds: 0,
        last_triggered_at_unix: None,
        created_at_unix: 0,
        updated_at_unix: 0,
    }
}

fn stock(last: Option<i64>, prev: Option<i64>, volume: u64) -> Stock {
    let mut stock = Stock::new(Counter::new("AAPL.US"));
    stock.quote.last_done = last.map(Decimal::from);
    stock.quote.prev_close = prev.map(Decimal::from);
    stock.quote.volume = volume;
    stock
}

#[test]
fn price_above_rule_triggers_correctly() {
    let mut stock = Stock::new(Counter::new("AAPL.US"));
    stock.quote.last_done = Some(Decimal::from(101));

    let rule = AlertRule {
        id: "r1".to_string(),
        symbol: "AAPL.US".to_string(),
        kind: AlertRuleKind::PriceAbove,
        threshold: Decimal::from(100),
        status: AlertRuleStatus::Enabled,
        cooldown_seconds: 0,
        last_triggered_at_unix: None,
        created_at_unix: 0,
        updated_at_unix: 0,
    };

    assert!(rule.is_triggered_by(&stock));
}

#[test]
fn store_default_is_empty() {
    let store = AlertStore::default();
    assert_eq!(store.version, 1);
    assert!(store.rules.is_empty());
}

#[test]
fn price_rules_compare_with_the_last_price() {
    let above = rule(AlertRuleKind::PriceAbove, Decimal::from(100));
    let below = rule(AlertRuleKind::PriceBelow, Decimal::from(100));
    assert_eq!(above.try_is_triggered_by(&stock(Some(100), None, 0)), Some(true));
    assert_eq!(above.try_is_triggered_by(&stock(Some(99), None, 0)), Some(false));
    assert_eq!(below.try_is_triggered_by(&stock(Some(100), None, 0)), Some(true));
    assert_eq!(below.try_is_triggered_by(&stock(Some(101), None, 0)), Some(false));
    assert_eq!(above.try_is_triggered_by(&stock(None, Some(1), 9)), Some(false));
    assert!(!below.is_triggered_by(&stock(None, None, 0)));
    // the scale does not matter
    let fine = rule(AlertRuleKind::PriceAbove, Decimal::new(10000, 2));
    assert_eq!(fine.try_is_triggered_by(&stock(Some(100), None, 0)), Some(true));
}

#[test]
fn percent_rules_need_a_previous_close_above_zero() {
    let up = rule(AlertRuleKind::ChangePercentAbove, Decimal::from(5));
    let down = rule(AlertRuleKind::ChangePercentBelow, Decimal::from(-5));
    assert_eq!(up.try_is_triggered_by(&stock(Some(105), Some(100), 0)), Some(true));
    assert_eq!(up.try_is_triggered_by(&stock(Some(104), Some(100), 0)), Some(false));
    assert_eq!(down.try_is_triggered_by(&stock(Some(95), Some(100), 0)), Some(true));
    assert_eq!(down.try_is_triggered_by(&stock(Some(96), Some(100), 0)), Some(false));
    assert_eq!(up.try_is_triggered_by(&stock(Some(105), None, 0)), Some(false));
    assert_eq!(up.try_is_triggered_by(&stock(Some(105), Some(0), 0)), Some(false));
    assert_eq!(down.try_is_triggered_by(&stock(Some(1), Some(-100), 0)), Some(false));
    assert_eq!(percent_change(Decimal::from(110), Decimal::from(100)), Some(Decimal::from(10)));
    assert_eq!(percent_change(Decimal::from(90), Decimal::from(120)), Some(Decimal::from(-25)));
    assert_eq!(percent_change(Decimal::from(1), Decimal::ZERO), None);
    assert_eq!(percent_change(Decimal::MAX, Decimal::from(-1)), None);
}

#[test]
fn a_percentage_that_overflows_cannot_be_told() {
    let up = rule(AlertRuleKind::ChangePercentAbove, Decimal::from(5));
    let mut huge = stock(None, None, 0);
    huge.quote.last_done = Some(Decimal::MAX);
    huge.quote.prev_close = Some(Decimal::new(1, 10));
    assert_eq!(up.try_is_triggered_by(&huge), None);
    assert!(!up.can_be_told(&huge));
    assert!(up.can_be_told(&stock(Some(105), Some(100), 0)));
    let mut store = AlertStore { version: 1, rules: vec![up] };
    assert!(evaluate_quote(&mut store, "AAPL.US", &huge, 50).is_empty());
    assert_eq!(store.rules[0].last_triggered_at_unix, None);
}

#[test]
fn volume_rules_compare_with_the_volume() {
    let busy = rule(AlertRuleKind::VolumeAbove, Decimal::from(1000));
    assert_eq!(busy.try_is_triggered_by(&stock(Some(1), None, 1000)), Some(true));
    assert_eq!(busy.try_is_triggered_by(&stock(Some(1), None, 999)), Some(false));
    assert_eq!(busy.try_is_triggered_by(&stock(Some(1), None, u64::MAX)), Some(true));
    assert_eq!(busy.try_is_triggered_by(&stock(None, None, 5000)), Some(false));
}

#[test]
fn a_rule_stays_silent_during_its_cooldown() {
    let mut quiet = rule(AlertRuleKind::PriceAbove, Decimal::from(1));
    assert!(!quiet.should_skip_by_cooldown(100));
    quiet.cooldown_seconds = 60;
    quiet.last_triggered_at_unix = Some(100);
    assert!(quiet.should_skip_by_cooldown(100));
    assert!(quiet.should_skip_by_cooldown(159));
    assert!(!quiet.should_skip_by_cooldown(160));
    assert!(quiet.should_skip_by_cooldown(50));
    quiet.cooldown_seconds = 0;
    assert!(!quiet.should_skip_by_cooldown(100));
    assert!(quiet.should_skip_by_cooldown(99));
    quiet.cooldown_seconds = u64::MAX;
    quiet.last_triggered_at_unix = Some(i64::MIN);
    assert!(!quiet.should_skip_by_cooldown(i64::MAX));
    assert!(quiet.should_skip_by_cooldown(-2));
    quiet.last_triggered_at_unix = Some(i64::MAX);
    quiet.cooldown_seconds = 5;
    assert!(quiet.should_skip_by_cooldown(i64::MIN));
}

#[test]
fn evaluation_records_the_rules_that_fire() {
    let mut disabled = rule(AlertRuleKind::PriceAbove, Decimal::from(100));
    disabled.status = AlertRuleStatus::Disabled;
    let mut other = rule(AlertRuleKind::PriceAbove, Decimal::from(100));
    other.symbol = "TSLA.US".to_string();
    let mut cooling = rule(AlertRuleKind::PriceAbove, Decimal::from(100));
    cooling.cooldown_seconds = 600;
    cooling.last_triggered_at_unix = Some(900);
    let mut store = AlertStore {
        version: 1,
        rules: vec![
            rule(AlertRuleKind::PriceAbove, Decimal::from(100)),
            rule(AlertRuleKind::PriceBelow, Decimal::from(100)),
            disabled,
            other,
            cooling,
            rule(AlertRuleKind::VolumeAbove, Decimal::from(10)),
        ],
    };
    let hits = evaluate_quote(&mut store, "AAPL.US", &stock(Some(150), Some(100), 10), 1000);
    assert_eq!(hits, vec![0, 5]);
    assert_eq!(store.version, 1);
    assert_eq!(store.rules.len(), 6);
    assert_eq!(store.rules[0].last_triggered_at_unix, Some(1000));
    assert_eq!(store.rules[0].updated_at_unix, 1000);
    assert_eq!(store.rules[0].created_at_unix, 0);
    assert_eq!(store.rules[0].id, "r1");
    assert_eq!(store.rules[1].last_triggered_at_unix, None);
    assert_eq!(store.rules[1].updated_at_unix, 0);
    assert_eq!(store.rules[2].last_triggered_at_unix, None);
    assert_eq!(store.rules[3].last_triggered_at_unix, None);
    assert_eq!(store.rules[4].last_triggered_at_unix, Some(900));
    assert_eq!(store.rules[5].last_triggered_at_unix, Some(1000));
    // with no cooldown the rules fire again
    let hits = evaluate_quote(&mut store, "AAPL.US", &stock(Some(150), Some(100), 10), 1001);
    assert_eq!(hits, vec![0, 5]);
    let hits = evaluate_quote(&mut store, "MSFT.US", &stock(Some(150), Some(100), 10), 1002);
    assert!(hits.is_empty());
    assert_eq!(store.rules[0].last_triggered_at_unix, Some(1001));
}
