//! The positions of the account, each with its value and its gain.

use super::account::{all_positions, DeliveredBalance, StockPosition};
use crate::data::{Counter, SecurityQuote, StockStore, StockView};
use crate::decimal::{
    decimal_difference, decimal_from_i64, decimal_gt, decimal_of, decimal_ordering,
    decimal_product, decimal_quotient, decimal_rounded, decimal_sum,
};
use rust_decimal::Decimal;
use vstd::prelude::*;

verus! {

/// A position with its value and its gain.
#[derive(Debug)]
pub struct PositionInfo {
    pub symbol: Counter,
    pub symbol_name: String,
    pub quantity: Decimal,
    pub available_quantity: Decimal,
    pub cost_price: Decimal,
    pub current_price: Decimal,
    pub market_value: Decimal,
    pub profit_loss: Decimal,
    pub profit_loss_percent: Decimal,
}

/// What a `PositionInfo` holds.
pub struct PositionInfoView {
    pub symbol: Seq<char>,
    pub symbol_name: Seq<char>,
    pub quantity: Decimal,
    pub available_quantity: Decimal,
    pub cost_price: Decimal,
    pub current_price: Decimal,
    pub market_value: Decimal,
    pub profit_loss: Decimal,
    pub profit_loss_percent: Decimal,
}

impl View for PositionInfo {
    type V = PositionInfoView;

    open spec fn view(&self) -> PositionInfoView {
        PositionInfoView {
            symbol: self.symbol@,
            symbol_name: self.symbol_name@,
            quantity: self.quantity,
            available_quantity: self.available_quantity,
            cost_price: self.cost_price,
            current_price: self.current_price,
            market_value: self.market_value,
            profit_loss: self.profit_loss,
            profit_loss_percent: self.profit_loss_percent,
        }
    }
}

/// What a list of positions holds, position by position.
pub open spec fn positions_view(list: Seq<PositionInfo>) -> Seq<PositionInfoView> {
    list.map_values(|p: PositionInfo| p@)
}

/// The cash of all accounts together. `None` where the sum does not fit.
pub open spec fn total_cash(balances: Seq<DeliveredBalance>) -> Option<Decimal>
    decreases balances.len(),
{
    if balances.len() == 0 {
        Some(decimal_of(0))
    } else {
        match total_cash(balances.drop_last()) {
            Some(sum) => decimal_sum(sum, balances.last().total_cash),
            None => None,
        }
    }
}

/// A delivered position before it is priced: no price, no value, no gain.
pub open spec fn unpriced(p: StockPosition) -> PositionInfoView {
    PositionInfoView {
        symbol: p.symbol@,
        symbol_name: p.symbol_name@,
        quantity: p.quantity,
        available_quantity: p.available_quantity,
        cost_price: decimal_of(0),
        current_price: decimal_of(0),
        market_value: decimal_of(0),
        profit_loss: decimal_of(0),
        profit_loss_percent: decimal_of(0),
    }
}

/// A gain in percent of what was paid, rounded to two places.
pub open spec fn gain_percent(gain: Decimal, paid: Decimal) -> Option<Decimal> {
    match decimal_quotient(gain, paid) {
        Some(ratio) => match decimal_product(ratio, decimal_of(100)) {
            Some(percent) => Some(decimal_rounded(percent, 2)),
            None => None,
        },
        None => None,
    }
}

/// A position with its gain over the cost price `cost`: the market value less
/// quantity times cost, and that in percent.
pub open spec fn with_gain(info: PositionInfoView, cost: Decimal, paid: Decimal) -> Option<
    PositionInfoView,
> {
    match decimal_difference(info.market_value, paid) {
        Some(gain) => match gain_percent(gain, paid) {
            Some(percent) => Some(
                PositionInfoView {
                    cost_price: cost,
                    profit_loss: gain,
                    profit_loss_percent: percent,
                    ..info
                },
            ),
            None => None,
        },
        None => None,
    }
}

/// A position priced with a quote. Its value is the quantity times the last
/// price. Its cost price is an estimate: the day's open where the cache knows
/// the symbol, else the previous close, or the last price where there is no
/// previous close above zero. The gain is taken where the cost is above zero.
/// `None` where a figure does not fit.
pub open spec fn priced(info: PositionInfoView, quote: SecurityQuote, cached: bool) -> Option<
    PositionInfoView,
> {
    match decimal_product(info.quantity, quote.last_done) {
        Some(value) => {
            let valued = PositionInfoView {
                current_price: quote.last_done,
                market_value: value,
                ..info
            };
            if cached {
                if decimal_gt(quote.open, decimal_of(0)) {
                    match decimal_product(info.quantity, quote.open) {
                        Some(paid) => with_gain(valued, quote.open, paid),
                        None => None,
                    }
                } else {
                    Some(PositionInfoView { cost_price: quote.open, ..valued })
                }
            } else {
                let cost = if decimal_gt(quote.prev_close, decimal_of(0)) {
                    quote.prev_close
                } else {
                    quote.last_done
                };
                match decimal_product(info.quantity, cost) {
                    Some(paid) => if decimal_gt(paid, decimal_of(0)) {
                        with_gain(valued, cost, paid)
                    } else {
                        Some(PositionInfoView { cost_price: cost, ..valued })
                    },
                    None => None,
                }
            }
        },
        None => None,
    }
}

/// The positions, the `i`th priced with the `i`th quote as far as the quotes
/// go. `None` where a figure does not fit.
pub open spec fn all_priced(
    positions: Seq<StockPosition>,
    quotes: Seq<SecurityQuote>,
    cache: Map<Seq<char>, StockView>,
) -> Option<Seq<PositionInfoView>>
    decreases positions.len(),
{
    if positions.len() == 0 {
        Some(Seq::empty())
    } else {
        let i = positions.len() - 1;
        let last = positions.last();
        let info = if i < quotes.len() {
            priced(unpriced(last), quotes[i], cache.contains_key(last.symbol@))
        } else {
            Some(unpriced(last))
        };
        match (all_priced(positions.drop_last(), quotes, cache), info) {
            (Some(before), Some(info)) => Some(before.push(info)),
            _ => None,
        }
    }
}

/// The market value of all positions together. `None` where the sum does not fit.
pub open spec fn total_value(list: Seq<PositionInfoView>) -> Option<Decimal>
    decreases list.len(),
{
    if list.len() == 0 {
        Some(decimal_of(0))
    } else {
        match total_value(list.drop_last()) {
            Some(sum) => decimal_sum(sum, list.last().market_value),
            None => None,
        }
    }
}

/// The portfolio in three figures: the positions, the cash, and the market
/// value of the positions.
pub struct PortfolioData {
    pub positions: Seq<PositionInfoView>,
    pub cash: Decimal,
    pub market_value: Decimal,
}

/// The portfolio that the deliveries make. Balances or positions that could
/// not be fetched count as none; without quotes the positions stay unpriced.
/// `None` where a figure does not fit.
pub open spec fn portfolio_data(
    balances: Option<Seq<DeliveredBalance>>,
    positions: Seq<StockPosition>,
    quotes: Seq<SecurityQuote>,
    cache: Map<Seq<char>, StockView>,
) -> Option<PortfolioData> {
    let cash = match balances {
        Some(list) => total_cash(list),
        None => Some(decimal_of(0)),
    };
    match (cash, all_priced(positions, quotes, cache)) {
        (Some(cash), Some(list)) => match total_value(list) {
            Some(market_value) => Some(PortfolioData { positions: list, cash, market_value }),
            None => None,
        },
        _ => None,
    }
}

/// Where the cash of a list of balances does not fit, that of no longer list does.
pub proof fn lemma_total_cash_fail(short: Seq<DeliveredBalance>, long: Seq<DeliveredBalance>)
    requires
        total_cash(short) is None,
        short.len() <= long.len(),
        short =~= long.take(short.len() as int),
    ensures
        total_cash(long) is None,
    decreases long.len(),
{
    if short.len() < long.len() {
        assert(long.drop_last().take(short.len() as int) =~= short);
        lemma_total_cash_fail(short, long.drop_last());
    } else {
        assert(long.take(long.len() as int) =~= long);
    }
}

/// Where a list of positions cannot be priced, no longer list can.
pub proof fn lemma_all_priced_fail(
    short: Seq<StockPosition>,
    long: Seq<StockPosition>,
    quotes: Seq<SecurityQuote>,
    cache: Map<Seq<char>, StockView>,
)
    requires
        all_priced(short, quotes, cache) is None,
        short.len() <= long.len(),
        short =~= long.take(short.len() as int),
    ensures
        all_priced(long, quotes, cache) is None,
    decreases long.len(),
{
    if short.len() < long.len() {
        assert(long.drop_last().take(short.len() as int) =~= short);
        lemma_all_priced_fail(short, long.drop_last(), quotes, cache);
    } else {
        assert(long.take(long.len() as int) =~= long);
    }
}

/// Where the value of a list of positions does not fit, that of no longer list does.
pub proof fn lemma_total_value_fail(short: Seq<PositionInfoView>, long: Seq<PositionInfoView>)
    requires
        total_value(short) is None,
        short.len() <= long.len(),
        short =~= long.take(short.len() as int),
    ensures
        total_value(long) is None,
    decreases long.len(),
{
    if short.len() < long.len() {
        assert(long.drop_last().take(short.len() as int) =~= short);
        lemma_total_value_fail(short, long.drop_last());
    } else {
        assert(long.take(long.len() as int) =~= long);
    }
}

fn cash_of(balances: &Vec<DeliveredBalance>) -> (r: Option<Decimal>)
    ensures
        r == total_cash(balances@),
{
    let mut sum = decimal_from_i64(0);
    let mut i: usize = 0;
    assert(balances@.take(0) =~= Seq::empty());
    while i < balances.len()
        invariant
            i <= balances.len(),
            total_cash(balances@.take(i as int)) == Some(sum),
        decreases balances.len() - i,
    {
        assert(balances@.take(i + 1).drop_last() =~= balances@.take(i as int));
        assert(balances@.take(i + 1).last() == balances@[i as int]);
        match sum.checked_add(balances[i].total_cash) {
            Some(next) => {
                sum = next;
            },
            None => {
                proof {
                    lemma_total_cash_fail(balances@.take(i + 1), balances@);
                }
                return None;
            },
        }
        i = i + 1;
    }
    assert(balances@.take(balances.len() as int) =~= balances@);
    Some(sum)
}

fn gain_of(valued: PositionInfo, cost: Decimal, paid: Decimal) -> (r: Option<PositionInfo>)
    ensures
        match r {
            Some(info) => with_gain(valued@, cost, paid) == Some(info@),
            None => with_gain(valued@, cost, paid) is None,
        },
{
    let gain = match valued.market_value.checked_sub(paid) {
        Some(gain) => gain,
        None => {
            return None;
        },
    };
    let percent = match gain.checked_div(paid) {
        Some(ratio) => match ratio.checked_mul(decimal_from_i64(100)) {
            Some(percent) => percent.round_dp(2),
            None => {
                return None;
            },
        },
        None => {
            return None;
        },
    };
    Some(
        PositionInfo {
            symbol: valued.symbol,
            symbol_name: valued.symbol_name,
            quantity: valued.quantity,
            available_quantity: valued.available_quantity,
            cost_price: cost,
            current_price: valued.current_price,
            market_value: valued.market_value,
            profit_loss: gain,
            profit_loss_percent: percent,
        },
    )
}

fn price(p: &StockPosition, quote: &SecurityQuote, cached: bool) -> (r: Option<PositionInfo>)
    ensures
        match r {
            Some(info) => priced(unpriced(*p), *quote, cached) == Some(info@),
            None => priced(unpriced(*p), *quote, cached) is None,
        },
{
    let zero = decimal_from_i64(0);
    let value = match p.quantity.checked_mul(quote.last_done) {
        Some(value) => value,
        None => {
            return None;
        },
    };
    let valued = PositionInfo {
        symbol: Counter::new(p.symbol.as_str()),
        symbol_name: p.symbol_name.clone(),
        quantity: p.quantity,
        available_quantity: p.available_quantity,
        cost_price: zero,
        current_price: quote.last_done,
        market_value: value,
        profit_loss: zero,
        profit_loss_percent: zero,
    };
    if cached {
        if decimal_ordering(quote.open, zero) > 0 {
            match p.quantity.checked_mul(quote.open) {
                Some(paid) => gain_of(valued, quote.open, paid),
                None => None,
            }
        } else {
            let mut info = valued;
            info.cost_price = quote.open;
            Some(info)
        }
    } else {
        let cost = if decimal_ordering(quote.prev_close, zero) > 0 {
            quote.prev_close
        } else {
            quote.last_done
        };
        match p.quantity.checked_mul(cost) {
            Some(paid) => {
                if decimal_ordering(paid, zero) > 0 {
                    gain_of(valued, cost, paid)
                } else {
                    let mut info = valued;
                    info.cost_price = cost;
                    Some(info)
                }
            },
            None => None,
        }
    }
}

fn flatten(channels: &Vec<Vec<StockPosition>>) -> (r: Vec<&StockPosition>)
    ensures
        r@.map_values(|p: &StockPosition| *p) == all_positions(channels@),
{
    let mut list: Vec<&StockPosition> = Vec::new();
    let mut c: usize = 0;
    assert(channels@.take(0) =~= Seq::empty());
    assert(list@.map_values(|p: &StockPosition| *p) =~= Seq::empty());
    while c < channels.len()
        invariant
            c <= channels.len(),
            list@.map_values(|p: &StockPosition| *p) == all_positions(channels@.take(c as int)),
        decreases channels.len() - c,
    {
        let positions = &channels[c];
        let ghost done = all_positions(channels@.take(c as int));
        assert(channels@.take(c + 1).drop_last() =~= channels@.take(c as int));
        assert(channels@.take(c + 1).last() == channels@[c as int]);
        let mut k: usize = 0;
        assert(done + positions@.take(0) =~= done);
        while k < positions.len()
            invariant
                k <= positions.len(),
                list@.map_values(|p: &StockPosition| *p) == done + positions@.take(k as int),
            decreases positions.len() - k,
        {
            let ghost before = list@.map_values(|p: &StockPosition| *p);
            list.push(&positions[k]);
            assert(list@.map_values(|p: &StockPosition| *p) =~= before.push(positions@[k as int]));
            assert(done + positions@.take(k + 1) =~= (done + positions@.take(k as int)).push(
                positions@[k as int],
            ));
            k = k + 1;
        }
        assert(positions@.take(positions.len() as int) =~= positions@);
        c = c + 1;
    }
    assert(channels@.take(channels.len() as int) =~= channels@);
    list
}

/// Puts the portfolio together: the positions, priced with the quotes, the
/// cash of all accounts, and the market value of all positions. `None` where
/// a figure does not fit a decimal.
///
/// `balances` and `channels` are `None` where they could not be fetched, and
/// `quotes` where none were fetched.
pub fn fetch_portfolio_data(
    balances: Option<&Vec<DeliveredBalance>>,
    channels: Option<&Vec<Vec<StockPosition>>>,
    quotes: Option<&Vec<SecurityQuote>>,
    stocks: &StockStore,
) -> (r: Option<(Vec<PositionInfo>, Decimal, Decimal)>)
    ensures
        ({
            let wanted = portfolio_data(
                match balances {
                    Some(list) => Some(list@),
                    None => None,
                },
                match channels {
                    Some(list) => all_positions(list@),
                    None => Seq::empty(),
                },
                match quotes {
                    Some(list) => list@,
                    None => Seq::empty(),
                },
                stocks@,
            );
            match r {
                Some((positions, cash, market_value)) => wanted == Some(
                    PortfolioData { positions: positions_view(positions@), cash, market_value },
                ),
                None => wanted is None,
            }
        }),
{
    let cash = match balances {
        Some(list) => match cash_of(list) {
            Some(cash) => cash,
            None => {
                return None;
            },
        },
        None => decimal_from_i64(0),
    };
    let delivered: Vec<&StockPosition> = match channels {
        Some(list) => flatten(list),
        None => {
            let none: Vec<&StockPosition> = Vec::new();
            assert(none@.map_values(|p: &StockPosition| *p) =~= Seq::empty());
            none
        },
    };
    let no_quotes: Vec<SecurityQuote> = Vec::new();
    let quoted: &Vec<SecurityQuote> = match quotes {
        Some(list) => list,
        None => &no_quotes,
    };
    assert(no_quotes@ =~= Seq::empty());
    let ghost all = delivered@.map_values(|p: &StockPosition| *p);
    let ghost cache = stocks@;
    let mut positions: Vec<PositionInfo> = Vec::new();
    let mut value = decimal_from_i64(0);
    let mut i: usize = 0;
    assert(all.take(0) =~= Seq::empty());
    assert(positions_view(positions@) =~= Seq::empty());
    while i < delivered.len()
        invariant
            i <= delivered.len(),
            all == delivered@.map_values(|p: &StockPosition| *p),
            all == (match channels {
                Some(list) => all_positions(list@),
                None => Seq::empty(),
            }),
            quoted@ == (match quotes {
                Some(list) => list@,
                None => Seq::empty(),
            }),
            Some(cash) == (match balances {
                Some(list) => total_cash(list@),
                None => Some(decimal_of(0)),
            }),
            cache == stocks@,
            all_priced(all.take(i as int), quoted@, cache) == Some(positions_view(positions@)),
            total_value(positions_view(positions@)) == Some(value),
            all_priced(all, quoted@, cache) matches Some(list) ==> positions_view(positions@)
                =~= list.take(i as int),
        decreases delivered.len() - i,
    {
        let p = delivered[i];
        assert(all[i as int] == *p);
        assert(all.take(i + 1).drop_last() =~= all.take(i as int));
        assert(all.take(i + 1).last() == *p);
        let info = if i < quoted.len() {
            let cached = stocks.get(&Counter::new(p.symbol.as_str())).is_some();
            price(p, &quoted[i], cached)
        } else {
            let zero = decimal_from_i64(0);
            Some(
                PositionInfo {
                    symbol: Counter::new(p.symbol.as_str()),
                    symbol_name: p.symbol_name.clone(),
                    quantity: p.quantity,
                    available_quantity: p.available_quantity,
                    cost_price: zero,
                    current_price: zero,
                    market_value: zero,
                    profit_loss: zero,
                    profit_loss_percent: zero,
                },
            )
        };
        let info = match info {
            Some(info) => info,
            None => {
                proof {
                    lemma_all_priced_fail(all.take(i + 1), all, quoted@, cache);
                }
                return None;
            },
        };
        let ghost shown = positions_view(positions@);
        let next = value.checked_add(info.market_value);
        positions.push(info);
        proof {
            assert(positions_view(positions@) =~= shown.push(info@));
            assert(positions_view(positions@).drop_last() =~= shown);
            lemma_all_priced_prefix(all, quoted@, cache, i + 1);
        }
        match next {
            Some(next) => {
                value = next;
            },
            None => {
                proof {
                    if all_priced(all, quoted@, cache) is Some {
                        let list = all_priced(all, quoted@, cache)->0;
                        lemma_total_value_fail(positions_view(positions@), list);
                    }
                }
                return None;
            },
        }
        i = i + 1;
    }
    assert(all.take(delivered.len() as int) =~= all);
    Some((positions, cash, value))
}

/// The first positions of a priced list are the priced first positions.
pub proof fn lemma_all_priced_prefix(
    positions: Seq<StockPosition>,
    quotes: Seq<SecurityQuote>,
    cache: Map<Seq<char>, StockView>,
    n: int,
)
    requires
        0 <= n <= positions.len(),
    ensures
        all_priced(positions, quotes, cache) matches Some(list) ==> {
            &&& list.len() == positions.len()
            &&& all_priced(positions.take(n), quotes, cache) == Some(list.take(n))
        },
    decreases positions.len(),
{
    if all_priced(positions, quotes, cache) is Some {
        let list = all_priced(positions, quotes, cache)->0;
        if positions.len() == 0 {
            assert(positions.take(n) =~= positions);
            assert(list.take(n) =~= list);
        } else {
            lemma_all_priced_prefix(positions.drop_last(), quotes, cache, if n
                == positions.len() {
                n - 1
            } else {
                n
            });
            if n == positions.len() {
                assert(positions.take(n) =~= positions);
                assert(list.take(n) =~= list);
            } else {
                assert(positions.drop_last().take(n) =~= positions.take(n));
                assert(list.drop_last().take(n) =~= list.take(n));
            }
        }
    }
}

} // verus!
