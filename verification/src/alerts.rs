//! Price alerts: rules on the latest quote of a symbol, and their evaluation.

use crate::data::{Stock, StockView};
use crate::decimal::{
    decimal_difference, decimal_from_i64, decimal_from_u64, decimal_ge, decimal_gt, decimal_le,
    decimal_of, decimal_of_unsigned, decimal_ordering, decimal_product, decimal_quotient,
};
use crate::text::same_text;
use rust_decimal::Decimal;
use vstd::prelude::*;

verus! {

/// What a rule watches.
#[derive(Clone, Copy, Debug, PartialEq, Eq, Structural)]
pub enum AlertRuleKind {
    PriceAbove,
    PriceBelow,
    ChangePercentAbove,
    ChangePercentBelow,
    VolumeAbove,
}

#[derive(Clone, Copy, Debug, Default, PartialEq, Eq, Structural)]
pub enum AlertRuleStatus {
    #[default]
    Enabled,
    Disabled,
}

/// One alert rule.
#[derive(Debug)]
pub struct AlertRule {
    pub id: String,
    pub symbol: String,
    pub kind: AlertRuleKind,
    pub threshold: Decimal,
    pub status: AlertRuleStatus,
    /// Seconds for which the rule stays silent after it was triggered.
    pub cooldown_seconds: u64,
    pub last_triggered_at_unix: Option<i64>,
    pub created_at_unix: i64,
    pub updated_at_unix: i64,
}

/// What an `AlertRule` holds.
pub struct AlertRuleView {
    pub id: Seq<char>,
    pub symbol: Seq<char>,
    pub kind: AlertRuleKind,
    pub threshold: Decimal,
    pub status: AlertRuleStatus,
    pub cooldown_seconds: u64,
    pub last_triggered_at_unix: Option<i64>,
    pub created_at_unix: i64,
    pub updated_at_unix: i64,
}

impl View for AlertRule {
    type V = AlertRuleView;

    open spec fn view(&self) -> AlertRuleView {
        AlertRuleView {
            id: self.id@,
            symbol: self.symbol@,
            kind: self.kind,
            threshold: self.threshold,
            status: self.status,
            cooldown_seconds: self.cooldown_seconds,
            last_triggered_at_unix: self.last_triggered_at_unix,
            created_at_unix: self.created_at_unix,
            updated_at_unix: self.updated_at_unix,
        }
    }
}

impl Clone for AlertRule {
    fn clone(&self) -> (r: Self)
        ensures
            r@ == self@,
    {
        AlertRule {
            id: self.id.clone(),
            symbol: self.symbol.clone(),
            kind: self.kind,
            threshold: self.threshold,
            status: self.status,
            cooldown_seconds: self.cooldown_seconds,
            last_triggered_at_unix: self.last_triggered_at_unix,
            created_at_unix: self.created_at_unix,
            updated_at_unix: self.updated_at_unix,
        }
    }
}

/// Whether a rule is still silent at `now`: it was triggered, and less than its
/// cooldown has passed since.
pub open spec fn in_cooldown(rule: AlertRuleView, now: i64) -> bool {
    match rule.last_triggered_at_unix {
        Some(last) => {
            let passed = if now - last > i64::MAX {
                i64::MAX as int
            } else if now - last < i64::MIN {
                i64::MIN as int
            } else {
                now - last
            };
            let cooldown = if rule.cooldown_seconds > i64::MAX {
                i64::MAX as int
            } else {
                rule.cooldown_seconds as int
            };
            passed < cooldown
        },
        None => false,
    }
}

/// The change from `prev_close` to `last_done` in percent of `prev_close`:
/// `(last_done - prev_close) / prev_close * 100`. `None` where the decimal
/// arithmetic overflows or `prev_close` is zero.
pub open spec fn change_percent(last_done: Decimal, prev_close: Decimal) -> Option<Decimal> {
    match decimal_difference(last_done, prev_close) {
        Some(change) => match decimal_quotient(change, prev_close) {
            Some(ratio) => decimal_product(ratio, decimal_of(100)),
            None => None,
        },
        None => None,
    }
}

/// Whether the quote of `stock` meets the rule. `None` where the rule is on the
/// change in percent and that cannot be computed for overflow.
///
/// A price rule looks at the last price, and is not met while there is none. A
/// rule on the change in percent is not met either while there is no previous
/// close above zero. A volume rule looks at the volume.
pub open spec fn triggered(rule: AlertRuleView, stock: StockView) -> Option<bool> {
    match stock.quote.last_done {
        None => Some(false),
        Some(last_done) => match rule.kind {
            AlertRuleKind::PriceAbove => Some(decimal_ge(last_done, rule.threshold)),
            AlertRuleKind::PriceBelow => Some(decimal_le(last_done, rule.threshold)),
            AlertRuleKind::ChangePercentAbove | AlertRuleKind::ChangePercentBelow => match stock.quote.prev_close {
                None => Some(false),
                Some(prev_close) => if !decimal_gt(prev_close, decimal_of(0)) {
                    Some(false)
                } else {
                    match change_percent(last_done, prev_close) {
                        Some(percent) => Some(
                            if rule.kind is ChangePercentAbove {
                                decimal_ge(percent, rule.threshold)
                            } else {
                                decimal_le(percent, rule.threshold)
                            },
                        ),
                        None => None,
                    }
                },
            },
            AlertRuleKind::VolumeAbove => Some(
                decimal_ge(decimal_of_unsigned(stock.quote.volume as int), rule.threshold),
            ),
        },
    }
}

/// Whether a quote of `symbol` triggers the rule at `now`: the rule is enabled,
/// is a rule for that symbol, is not in its cooldown, and is met.
pub open spec fn fires(rule: AlertRuleView, symbol: Seq<char>, stock: StockView, now: i64) -> bool {
    &&& rule.status == AlertRuleStatus::Enabled
    &&& rule.symbol == symbol
    &&& !in_cooldown(rule, now)
    &&& triggered(rule, stock) == Some(true)
}

/// The rule after a quote of `symbol` was evaluated at `now`: a rule that fires
/// records the time, any other stays as it is.
pub open spec fn evaluated(
    rule: AlertRuleView,
    symbol: Seq<char>,
    stock: StockView,
    now: i64,
) -> AlertRuleView {
    if fires(rule, symbol, stock, now) {
        AlertRuleView { last_triggered_at_unix: Some(now), updated_at_unix: now, ..rule }
    } else {
        rule
    }
}

/// The change in percent from `prev_close` to `last_done`.
pub fn percent_change(last_done: Decimal, prev_close: Decimal) -> (r: Option<Decimal>)
    ensures
        r == change_percent(last_done, prev_close),
{
    match last_done.checked_sub(prev_close) {
        Some(change) => match change.checked_div(prev_close) {
            Some(ratio) => ratio.checked_mul(decimal_from_i64(100)),
            None => None,
        },
        None => None,
    }
}

impl AlertRule {
    /// Whether the rule is still silent at `now`.
    pub fn should_skip_by_cooldown(&self, now_unix: i64) -> (r: bool)
        ensures
            r == in_cooldown(self@, now_unix),
    {
        match self.last_triggered_at_unix {
            Some(last) => {
                let cooldown: i64 = if self.cooldown_seconds > i64::MAX as u64 {
                    i64::MAX
                } else {
                    self.cooldown_seconds as i64
                };
                let passed: i128 = now_unix as i128 - last as i128;
                let passed: i64 = if passed > i64::MAX as i128 {
                    i64::MAX
                } else if passed < i64::MIN as i128 {
                    i64::MIN
                } else {
                    passed as i64
                };
                passed < cooldown
            },
            None => false,
        }
    }

    /// Whether it can be told if the quote of `stock` meets the rule: always,
    /// unless the rule is on the change in percent and that overflows.
    pub fn can_be_told(&self, stock: &Stock) -> (r: bool)
        ensures
            r == triggered(self@, stock@) is Some,
    {
        match (self.kind, stock.quote.last_done, stock.quote.prev_close) {
            (
                AlertRuleKind::ChangePercentAbove | AlertRuleKind::ChangePercentBelow,
                Some(last_done),
                Some(prev_close),
            ) => {
                if decimal_ordering(prev_close, decimal_from_i64(0)) <= 0 {
                    true
                } else {
                    percent_change(last_done, prev_close).is_some()
                }
            },
            _ => true,
        }
    }

    /// Whether the quote of `stock` meets the rule.
    pub fn is_triggered_by(&self, stock: &Stock) -> (r: bool)
        requires
            triggered(self@, stock@) is Some,
        ensures
            Some(r) == triggered(self@, stock@),
    {
        let last_done = match stock.quote.last_done {
            Some(last_done) => last_done,
            None => {
                return false;
            },
        };
        match self.kind {
            AlertRuleKind::PriceAbove => decimal_ordering(last_done, self.threshold) >= 0,
            AlertRuleKind::PriceBelow => decimal_ordering(last_done, self.threshold) <= 0,
            AlertRuleKind::ChangePercentAbove | AlertRuleKind::ChangePercentBelow => {
                let prev_close = match stock.quote.prev_close {
                    Some(prev_close) => prev_close,
                    None => {
                        return false;
                    },
                };
                if decimal_ordering(prev_close, decimal_from_i64(0)) <= 0 {
                    return false;
                }
                match percent_change(last_done, prev_close) {
                    Some(percent) => {
                        let order = decimal_ordering(percent, self.threshold);
                        match self.kind {
                            AlertRuleKind::ChangePercentAbove => order >= 0,
                            _ => order <= 0,
                        }
                    },
                    None => false,
                }
            },
            AlertRuleKind::VolumeAbove => decimal_ordering(
                decimal_from_u64(stock.quote.volume),
                self.threshold,
            ) >= 0,
        }
    }

    /// Whether the quote of `stock` meets the rule, or `None` where that cannot
    /// be told.
    pub fn try_is_triggered_by(&self, stock: &Stock) -> (r: Option<bool>)
        ensures
            r == triggered(self@, stock@),
    {
        if self.can_be_told(stock) {
            Some(self.is_triggered_by(stock))
        } else {
            None
        }
    }
}

/// The alert rules of the user.
#[derive(Debug)]
pub struct AlertStore {
    pub version: u8,
    pub rules: Vec<AlertRule>,
}

impl Default for AlertStore {
    fn default() -> (r: Self)
        ensures
            r.version == 1,
            r.rules@.len() == 0,
    {
        AlertStore { version: 1, rules: Vec::new() }
    }
}

/// What a list of rules holds, rule by rule.
pub open spec fn rules_view(rules: Seq<AlertRule>) -> Seq<AlertRuleView> {
    rules.map_values(|r: AlertRule| r@)
}

/// The positions of the rules that fire, in ascending order.
pub open spec fn fired(
    rules: Seq<AlertRuleView>,
    symbol: Seq<char>,
    stock: StockView,
    now: i64,
) -> Seq<usize>
    decreases rules.len(),
{
    if rules.len() == 0 {
        Seq::empty()
    } else if fires(rules.last(), symbol, stock, now) {
        fired(rules.drop_last(), symbol, stock, now).push((rules.len() - 1) as usize)
    } else {
        fired(rules.drop_last(), symbol, stock, now)
    }
}

/// Evaluates the rules against a new quote of `symbol` at time `now`. Every rule
/// that fires records the time. The answer lists the positions of the rules
/// that fired: where it is not empty, the rules are to be saved.
///
/// A rule whose percentage cannot be computed for overflow does not fire.
pub fn evaluate_quote(store: &mut AlertStore, symbol: &str, stock: &Stock, now: i64) -> (r: Vec<
    usize,
>)
    ensures
        final(store).version == old(store).version,
        rules_view(final(store).rules@) == rules_view(old(store).rules@).map_values(
            |rule: AlertRuleView| evaluated(rule, symbol@, stock@, now),
        ),
        r@ == fired(rules_view(old(store).rules@), symbol@, stock@, now),
{
    let ghost before = rules_view(store.rules@);
    let mut rules: Vec<AlertRule> = Vec::new();
    let mut hits: Vec<usize> = Vec::new();
    let mut i: usize = 0;
    assert(rules_view(rules@) =~= before.take(0).map_values(
        |rule: AlertRuleView| evaluated(rule, symbol@, stock@, now),
    ));
    assert(before.take(0) =~= Seq::empty());
    while i < store.rules.len()
        invariant
            i <= store.rules.len(),
            *store == *old(store),
            before == rules_view(store.rules@),
            rules_view(rules@) == before.take(i as int).map_values(
                |rule: AlertRuleView| evaluated(rule, symbol@, stock@, now),
            ),
            hits@ == fired(before.take(i as int), symbol@, stock@, now),
        decreases store.rules.len() - i,
    {
        let rule = &store.rules[i];
        assert(before[i as int] == rule@);
        assert(before.take(i + 1).drop_last() =~= before.take(i as int));
        assert(before.take(i + 1).last() == rule@);
        let meets = rule.status == AlertRuleStatus::Enabled && same_text(rule.symbol.as_str(), symbol)
            && !rule.should_skip_by_cooldown(now) && match rule.try_is_triggered_by(stock) {
            Some(met) => met,
            None => false,
        };
        let mut next = rule.clone();
        if meets {
            next.last_triggered_at_unix = Some(now);
            next.updated_at_unix = now;
            hits.push(i);
        }
        let ghost so_far = rules_view(rules@);
        rules.push(next);
        assert(rules_view(rules@) =~= so_far.push(evaluated(rule@, symbol@, stock@, now)));
        assert(rules_view(rules@) =~= before.take(i + 1).map_values(
            |rule: AlertRuleView| evaluated(rule, symbol@, stock@, now),
        ));
        i = i + 1;
    }
    assert(before.take(store.rules.len() as int) =~= before);
    store.rules = rules;
    hits
}

} // verus!
