//! The portfolio: what the account holds, and what it is worth.
//!
//! The sums are the decimal arithmetic of `rust_decimal`. Where a sum does not
//! fit a decimal, there is no result.

use crate::data::{
    Account, AccountBalance, AccountList, CashBalance, CashInfo, Currency, Holding, HoldingView,
    Market, MarketAccount, OrgInfo, OverviewData, PortfolioView, SecurityQuote, StockStore,
    StockView,
};
use crate::decimal::{
    decimal_difference, decimal_from_i64, decimal_gt, decimal_of, decimal_ordering,
    decimal_product, decimal_quotient, decimal_sum,
};
use crate::data::{market_of, Counter};
use crate::text::same_text;
use rust_decimal::Decimal;
use vstd::pervasive::VecAdditionalExecFns;
use vstd::prelude::*;

verus! {

/// How a currency is shown and rounded.
#[derive(Debug)]
pub struct CurrencyInfo {
    pub currency: String,
    pub currency_iso: String,
    pub symbol: String,
    pub icon: String,
    pub logo: String,
    pub abbreviation_multi_name: String,
    pub multi_name: String,
    pub min_exchange_amount: String,
    pub min_withdrawal_amount: String,
    pub exchange_rate_precision: u8,
    pub amount_precision: u8,
    pub amount_round_mode: String,
    pub json_config: String,
    pub account_channel: String,
}

/// Whether `info` describes the currency with code `code`, sign `symbol` and
/// icon `icon` under the name `name` for the account channel `channel`, with the
/// rounding that all currencies have: rates to six places, amounts truncated to
/// two.
pub open spec fn describes(
    info: CurrencyInfo,
    code: Seq<char>,
    symbol: Seq<char>,
    icon: Seq<char>,
    name: Seq<char>,
    channel: Seq<char>,
) -> bool {
    &&& info.currency@ == code
    &&& info.currency_iso@ == code
    &&& info.symbol@ == symbol
    &&& info.icon@ == icon
    &&& info.logo@ == Seq::<char>::empty()
    &&& info.abbreviation_multi_name@ == name
    &&& info.multi_name@ == name
    &&& info.min_exchange_amount@ == "0"@
    &&& info.min_withdrawal_amount@ == "0"@
    &&& info.exchange_rate_precision == 6
    &&& info.amount_precision == 2
    &&& info.amount_round_mode@ == "truncate"@
    &&& info.json_config@ == "{}"@
    &&& info.account_channel@ == channel
}

fn currency_info(code: &str, symbol: &str, icon: &str, name: &str, channel: &str) -> (r:
    CurrencyInfo)
    ensures
        describes(r, code@, symbol@, icon@, name@, channel@),
{
    CurrencyInfo {
        currency: String::from_str(code),
        currency_iso: String::from_str(code),
        symbol: String::from_str(symbol),
        icon: String::from_str(icon),
        logo: String::new(),
        abbreviation_multi_name: String::from_str(name),
        multi_name: String::from_str(name),
        min_exchange_amount: String::from_str("0"),
        min_withdrawal_amount: String::from_str("0"),
        exchange_rate_precision: 6,
        amount_precision: 2,
        amount_round_mode: String::from_str("truncate"),
        json_config: String::from_str("{}"),
        account_channel: String::from_str(channel),
    }
}

/// The currencies on offer: Hong Kong dollar, US dollar and yuan, under the
/// names given.
pub fn currencies(account_channel: &str, hkd_name: &str, usd_name: &str, cny_name: &str) -> (r:
    Vec<CurrencyInfo>)
    ensures
        r@.len() == 3,
        describes(r@[0], "HKD"@, "HK$"@, "$"@, hkd_name@, account_channel@),
        describes(r@[1], "USD"@, "US$"@, "$"@, usd_name@, account_channel@),
        describes(r@[2], "CNY"@, "¥"@, "¥"@, cny_name@, account_channel@),
{
    let mut list: Vec<CurrencyInfo> = Vec::new();
    list.push(currency_info("HKD", "HK$", "$", hkd_name, account_channel));
    list.push(currency_info("USD", "US$", "$", usd_name, account_channel));
    list.push(currency_info("CNY", "¥", "¥", cny_name, account_channel));
    list
}

/// The one account that the service offers, under the display name given.
pub fn fetch_account_list(account_name: &str) -> (r: AccountList)
    ensures
        r.status@.len() == 1,
        r.status@[0].account_channel@ == "lb"@,
        r.status@[0].aaid@ == Seq::<char>::empty(),
        r.status@[0].account_name@ == account_name@,
        r.status@[0].account_type@ == "CashAccount"@,
        r.status@[0].org.name@ == "Longbridge"@,
{
    let account = Account {
        account_channel: String::from_str("lb"),
        aaid: String::new(),
        account_name: String::from_str(account_name),
        account_type: String::from_str("CashAccount"),
        org: OrgInfo { name: String::from_str("Longbridge") },
    };
    let mut status: Vec<Account> = Vec::new();
    status.push(account);
    AccountList { status }
}

/// The currency with the given code; Hong Kong dollar for a code that is not known.
pub open spec fn currency_from(code: Seq<char>) -> Currency {
    if code == "USD"@ {
        Currency::USD
    } else if code == "CNY"@ {
        Currency::CNY
    } else if code == "SGD"@ {
        Currency::SGD
    } else {
        Currency::HKD
    }
}

/// The currency with the given code.
pub fn currency_of(code: &str) -> (r: Currency)
    ensures
        r == currency_from(code@),
{
    if same_text(code, "USD") {
        Currency::USD
    } else if same_text(code, "CNY") {
        Currency::CNY
    } else if same_text(code, "SGD") {
        Currency::SGD
    } else {
        Currency::HKD
    }
}

/// The market in which a holding is booked, by the suffix of its symbol: `US`,
/// `SH` and `SZ` for mainland China, `SG`, and Hong Kong for every other.
pub open spec fn booking_market(symbol: Seq<char>) -> Market {
    let suffix = market_of(symbol);
    if suffix == "US"@ {
        Market::US
    } else if suffix == "SH"@ || suffix == "SZ"@ {
        Market::CN
    } else if suffix == "SG"@ {
        Market::SG
    } else {
        Market::HK
    }
}

/// The market in which a holding is booked.
pub fn market_of_symbol(symbol: &str) -> (r: Market)
    ensures
        r == booking_market(symbol@),
{
    let counter = Counter::new(symbol);
    let suffix = counter.market();
    if same_text(suffix, "US") {
        Market::US
    } else if same_text(suffix, "SH") || same_text(suffix, "SZ") {
        Market::CN
    } else if same_text(suffix, "SG") {
        Market::SG
    } else {
        Market::HK
    }
}

/// A position as the trading service delivers it.
#[derive(Debug)]
pub struct StockPosition {
    pub symbol: String,
    pub symbol_name: String,
    pub quantity: Decimal,
    pub available_quantity: Decimal,
    pub currency: String,
    pub cost_price: Decimal,
}

/// The holding that a delivered position makes, valued at its cost. `None`
/// where the value does not fit.
pub open spec fn holding_of(p: StockPosition) -> Option<HoldingView> {
    match decimal_product(p.cost_price, p.quantity) {
        Some(value) => Some(
            HoldingView {
                symbol: p.symbol@,
                name: p.symbol_name@,
                currency: currency_from(p.currency@),
                quantity: p.quantity,
                available_quantity: p.available_quantity,
                cost_price: Some(p.cost_price),
                market_value: value,
                market_price: p.cost_price,
            },
        ),
        None => None,
    }
}

/// The holdings that a list of delivered positions makes, in order. `None`
/// where one of them has none.
pub open spec fn holdings_of(positions: Seq<StockPosition>) -> Option<Seq<HoldingView>>
    decreases positions.len(),
{
    if positions.len() == 0 {
        Some(Seq::empty())
    } else {
        match (holdings_of(positions.drop_last()), holding_of(positions.last())) {
            (Some(before), Some(last)) => Some(before.push(last)),
            _ => None,
        }
    }
}

/// The positions of all channels, channel by channel.
pub open spec fn all_positions(channels: Seq<Vec<StockPosition>>) -> Seq<StockPosition>
    decreases channels.len(),
{
    if channels.len() == 0 {
        Seq::empty()
    } else {
        all_positions(channels.drop_last()) + channels.last()@
    }
}

/// What a list of holdings holds, holding by holding.
pub open spec fn holdings_view(holdings: Seq<Holding>) -> Seq<HoldingView> {
    holdings.map_values(|h: Holding| h@)
}

/// The last price that a list of quotes has for `symbol`: that of the last
/// quote for it.
pub open spec fn quoted_price(quotes: Seq<SecurityQuote>, symbol: Seq<char>) -> Option<Decimal>
    decreases quotes.len(),
{
    if quotes.len() == 0 {
        None
    } else if quotes.last().symbol@ == symbol {
        Some(quotes.last().last_done)
    } else {
        quoted_price(quotes.drop_last(), symbol)
    }
}

/// A holding valued at the quoted price of its symbol, or left as it is where
/// the quotes have none. `None` where the value does not fit.
pub open spec fn repriced(h: HoldingView, quotes: Seq<SecurityQuote>) -> Option<HoldingView> {
    match quoted_price(quotes, h.symbol) {
        Some(price) => match decimal_product(price, h.quantity) {
            Some(value) => Some(HoldingView { market_price: price, market_value: value, ..h }),
            None => None,
        },
        None => Some(h),
    }
}

/// A list of holdings, each valued at its quoted price. `None` where one of the
/// values does not fit.
pub open spec fn all_repriced(hs: Seq<HoldingView>, quotes: Seq<SecurityQuote>) -> Option<
    Seq<HoldingView>,
>
    decreases hs.len(),
{
    if hs.len() == 0 {
        Some(Seq::empty())
    } else {
        match (all_repriced(hs.drop_last(), quotes), repriced(hs.last(), quotes)) {
            (Some(before), Some(last)) => Some(before.push(last)),
            _ => None,
        }
    }
}

fn price_in(quotes: &Vec<SecurityQuote>, symbol: &str) -> (r: Option<Decimal>)
    ensures
        r == quoted_price(quotes@, symbol@),
{
    let mut n: usize = quotes.len();
    assert(quotes@.take(n as int) =~= quotes@);
    while n > 0
        invariant
            n <= quotes.len(),
            quoted_price(quotes@, symbol@) == quoted_price(quotes@.take(n as int), symbol@),
        decreases n,
    {
        assert(quotes@.take(n as int).last() == quotes@[n - 1]);
        assert(quotes@.take(n as int).drop_last() =~= quotes@.take(n - 1));
        if same_text(quotes[n - 1].symbol.as_str(), symbol) {
            return Some(quotes[n - 1].last_done);
        }
        n = n - 1;
    }
    None
}

/// The holdings that the delivered positions make, valued at their quoted
/// prices where `quotes` were fetched, and at their cost otherwise. `None`
/// where a value does not fit a decimal.
pub fn fetch_stock_holdings(
    channels: &Vec<Vec<StockPosition>>,
    quotes: Option<&Vec<SecurityQuote>>,
) -> (r: Option<Vec<Holding>>)
    ensures
        match r {
            Some(holdings) => match holdings_of(all_positions(channels@)) {
                Some(at_cost) => match quotes {
                    Some(q) => all_repriced(at_cost, q@) == Some(holdings_view(holdings@)),
                    None => at_cost == holdings_view(holdings@),
                },
                None => false,
            },
            None => match holdings_of(all_positions(channels@)) {
                Some(at_cost) => match quotes {
                    Some(q) => all_repriced(at_cost, q@) is None,
                    None => false,
                },
                None => true,
            },
        },
{
    let mut holdings: Vec<Holding> = Vec::new();
    let mut c: usize = 0;
    assert(channels@.take(0) =~= Seq::empty());
    assert(holdings_view(holdings@) =~= Seq::empty());
    while c < channels.len()
        invariant
            c <= channels.len(),
            holdings_of(all_positions(channels@.take(c as int))) == Some(holdings_view(holdings@)),
        decreases channels.len() - c,
    {
        let positions = &channels[c];
        let ghost done = all_positions(channels@.take(c as int));
        assert(channels@.take(c + 1).drop_last() =~= channels@.take(c as int));
        assert(channels@.take(c + 1).last() == channels@[c as int]);
        let mut k: usize = 0;
        assert(done + positions@.take(0) =~= done);
        proof {
            lemma_positions_prefix(channels@, c + 1);
            if holdings_of(done + positions@) is None {
                lemma_holdings_fail(done + positions@, all_positions(channels@));
            }
        }
        while k < positions.len()
            invariant
                k <= positions.len(),
                holdings_of(done + positions@.take(k as int)) == Some(holdings_view(holdings@)),
                holdings_of(done + positions@) is None ==> holdings_of(
                    all_positions(channels@),
                ) is None,
            decreases positions.len() - k,
        {
            let p = &positions[k];
            let ghost before = done + positions@.take(k as int);
            let ghost next = done + positions@.take(k + 1);
            assert(next.drop_last() =~= before);
            assert(next.last() == *p);
            let value = match p.cost_price.checked_mul(p.quantity) {
                Some(value) => value,
                None => {
                    proof {
                        assert(holding_of(*p) is None);
                        assert(holdings_of(next) is None);
                        assert(next =~= (done + positions@).take(next.len() as int));
                        lemma_holdings_fail(next, done + positions@);
                    }
                    return None;
                },
            };
            let ghost shown = holdings_view(holdings@);
            let h = Holding {
                symbol: p.symbol.clone(),
                name: p.symbol_name.clone(),
                currency: currency_of(p.currency.as_str()),
                quantity: p.quantity,
                available_quantity: p.available_quantity,
                cost_price: Some(p.cost_price),
                market_value: value,
                market_price: p.cost_price,
            };
            holdings.push(h);
            assert(holdings_view(holdings@) =~= shown.push(h@));
            k = k + 1;
        }
        assert(positions@.take(positions.len() as int) =~= positions@);
        c = c + 1;
    }
    assert(channels@.take(channels.len() as int) =~= channels@);
    match quotes {
        None => Some(holdings),
        Some(q) => {
            let ghost at_cost = holdings_view(holdings@);
            let mut priced: Vec<Holding> = Vec::new();
            let mut i: usize = 0;
            assert(at_cost.take(0) =~= Seq::empty());
            assert(holdings_view(priced@) =~= Seq::empty());
            while i < holdings.len()
                invariant
                    i <= holdings.len(),
                    at_cost == holdings_view(holdings@),
                    holdings_of(all_positions(channels@)) == Some(at_cost),
                    quotes == Some(q),
                    all_repriced(at_cost.take(i as int), q@) == Some(holdings_view(priced@)),
                decreases holdings.len() - i,
            {
                let h = &holdings[i];
                assert(at_cost[i as int] == h@);
                assert(at_cost.take(i + 1).drop_last() =~= at_cost.take(i as int));
                assert(at_cost.take(i + 1).last() == h@);
                let (price, value) = match price_in(q, h.symbol.as_str()) {
                    Some(price) => match price.checked_mul(h.quantity) {
                        Some(value) => (price, value),
                        None => {
                            proof {
                                let short = at_cost.take(i + 1);
                                assert(repriced(h@, q@) is None);
                                assert(all_repriced(short, q@) is None);
                                assert(short =~= at_cost.take(short.len() as int));
                                lemma_repriced_fail(short, at_cost, q@);
                            }
                            return None;
                        },
                    },
                    None => (h.market_price, h.market_value),
                };
                let ghost shown = holdings_view(priced@);
                let next = Holding {
                    symbol: h.symbol.clone(),
                    name: h.name.clone(),
                    currency: h.currency,
                    quantity: h.quantity,
                    available_quantity: h.available_quantity,
                    cost_price: h.cost_price,
                    market_value: value,
                    market_price: price,
                };
                priced.push(next);
                assert(holdings_view(priced@) =~= shown.push(next@));
                i = i + 1;
            }
            assert(at_cost.take(holdings.len() as int) =~= at_cost);
            Some(priced)
        },
    }
}

/// The positions of the first channels come first among the positions of all.
pub proof fn lemma_positions_prefix(channels: Seq<Vec<StockPosition>>, n: int)
    requires
        0 <= n <= channels.len(),
    ensures
        all_positions(channels.take(n)).len() <= all_positions(channels).len(),
        all_positions(channels.take(n)) == all_positions(channels).take(
            all_positions(channels.take(n)).len() as int,
        ),
    decreases channels.len(),
{
    if n == channels.len() {
        assert(channels.take(n) =~= channels);
        assert(all_positions(channels).take(all_positions(channels).len() as int)
            =~= all_positions(channels));
    } else {
        lemma_positions_prefix(channels.drop_last(), n);
        assert(channels.drop_last().take(n) =~= channels.take(n));
        let short = all_positions(channels.take(n));
        assert(short =~= all_positions(channels).take(short.len() as int));
    }
}

/// Where a list of positions makes no holdings, no longer list does.
pub proof fn lemma_holdings_fail(short: Seq<StockPosition>, long: Seq<StockPosition>)
    requires
        holdings_of(short) is None,
        short.len() <= long.len(),
        short == long.take(short.len() as int),
    ensures
        holdings_of(long) is None,
    decreases long.len(),
{
    if short.len() < long.len() {
        assert(long.drop_last().take(short.len() as int) =~= short);
        lemma_holdings_fail(short, long.drop_last());
    } else {
        assert(long.take(long.len() as int) =~= long);
    }
}

/// Where a list of holdings cannot be valued, no longer list can.
pub proof fn lemma_repriced_fail(
    short: Seq<HoldingView>,
    long: Seq<HoldingView>,
    quotes: Seq<SecurityQuote>,
)
    requires
        all_repriced(short, quotes) is None,
        short.len() <= long.len(),
        short == long.take(short.len() as int),
    ensures
        all_repriced(long, quotes) is None,
    decreases long.len(),
{
    if short.len() < long.len() {
        assert(long.drop_last().take(short.len() as int) =~= short);
        lemma_repriced_fail(short, long.drop_last(), quotes);
    } else {
        assert(long.take(long.len() as int) =~= long);
    }
}

/// An account balance as the trading service delivers it.
#[derive(Debug)]
pub struct DeliveredBalance {
    pub total_cash: Decimal,
    pub max_finance_amount: Decimal,
    pub remaining_finance_amount: Decimal,
    pub risk_level: i32,
    pub margin_call: Decimal,
    pub currency: String,
    pub net_assets: Decimal,
    pub init_margin: Decimal,
    pub maintenance_margin: Decimal,
    pub buy_power: Decimal,
    pub cash_infos: Vec<CashInfo>,
}

/// The low eight bits of a risk level.
pub open spec fn risk_bits(level: i32) -> u8 {
    (level % 256) as u8
}

/// The balance of the main account: the first of those delivered, if any.
pub fn fetch_account_balance(balances: Vec<DeliveredBalance>) -> (r: Option<AccountBalance>)
    ensures
        match r {
            Some(balance) => balances@.len() > 0 && ({
                let first = balances@[0];
                &&& balance.total_cash == first.total_cash
                &&& balance.max_finance_amount == first.max_finance_amount
                &&& balance.remaining_finance_amount == first.remaining_finance_amount
                &&& balance.risk_level == risk_bits(first.risk_level)
                &&& balance.margin_call == first.margin_call
                &&& balance.currency == first.currency
                &&& balance.net_assets == first.net_assets
                &&& balance.init_margin == first.init_margin
                &&& balance.maintenance_margin == first.maintenance_margin
                &&& balance.buy_power == first.buy_power
                &&& balance.cash_infos == first.cash_infos
            }),
            None => balances@.len() == 0,
        },
{
    let mut balances = balances;
    if balances.len() == 0 {
        return None;
    }
    let first = balances.swap_remove(0);
    let level: i32 = first.risk_level % 256;
    let risk_level: u8 = if level < 0 {
        (level + 256) as u8
    } else {
        level as u8
    };
    Some(
        AccountBalance {
            total_cash: first.total_cash,
            max_finance_amount: first.max_finance_amount,
            remaining_finance_amount: first.remaining_finance_amount,
            risk_level,
            margin_call: first.margin_call,
            currency: first.currency,
            net_assets: first.net_assets,
            init_margin: first.init_margin,
            maintenance_margin: first.maintenance_margin,
            buy_power: first.buy_power,
            cash_infos: first.cash_infos,
        },
    )
}

/// What the holdings cost: the cost price times the quantity, added up over the
/// holdings that have a cost price. `None` where the sum does not fit.
pub open spec fn total_cost(hs: Seq<HoldingView>) -> Option<Decimal>
    decreases hs.len(),
{
    if hs.len() == 0 {
        Some(decimal_of(0))
    } else {
        match total_cost(hs.drop_last()) {
            Some(sum) => match hs.last().cost_price {
                Some(cost) => match decimal_product(cost, hs.last().quantity) {
                    Some(term) => decimal_sum(sum, term),
                    None => None,
                },
                None => Some(sum),
            },
            None => None,
        }
    }
}

/// What a holding gained today: the last price less the previous close, times
/// the quantity; nothing where the cache lacks either price for the symbol.
pub open spec fn day_gain(cache: Map<Seq<char>, StockView>, h: HoldingView) -> Option<Decimal> {
    if cache.contains_key(h.symbol) && cache[h.symbol].quote.last_done is Some
        && cache[h.symbol].quote.prev_close is Some {
        match decimal_difference(
            cache[h.symbol].quote.last_done->0,
            cache[h.symbol].quote.prev_close->0,
        ) {
            Some(change) => decimal_product(change, h.quantity),
            None => None,
        }
    } else {
        Some(decimal_of(0))
    }
}

/// What the holdings gained today, added up. `None` where the sum does not fit.
pub open spec fn total_day_gain(cache: Map<Seq<char>, StockView>, hs: Seq<HoldingView>) -> Option<
    Decimal,
>
    decreases hs.len(),
{
    if hs.len() == 0 {
        Some(decimal_of(0))
    } else {
        match (total_day_gain(cache, hs.drop_last()), day_gain(cache, hs.last())) {
            (Some(sum), Some(term)) => decimal_sum(sum, term),
            _ => None,
        }
    }
}

/// The leverage of an account: cash less net assets, over net assets; zero
/// where the net assets are not above zero.
pub open spec fn leverage(total_cash: Decimal, net_assets: Decimal) -> Option<Decimal> {
    if decimal_gt(net_assets, decimal_of(0)) {
        match decimal_difference(total_cash, net_assets) {
            Some(borrowed) => decimal_quotient(borrowed, net_assets),
            None => None,
        }
    } else {
        Some(decimal_of(0))
    }
}

/// The figures of the overview that are computed.
pub struct OverviewFigures {
    /// The market value of the holdings: net assets less cash.
    pub market_cap: Decimal,
    /// The gain on the holdings: their market value less their cost.
    pub total_pl: Decimal,
    pub total_today_pl: Decimal,
    pub leverage_ratio: Decimal,
}

/// The computed figures of the overview. `None` where one of them does not fit.
pub open spec fn overview_figures(
    total_cash: Decimal,
    net_assets: Decimal,
    hs: Seq<HoldingView>,
    cache: Map<Seq<char>, StockView>,
) -> Option<OverviewFigures> {
    match decimal_difference(net_assets, total_cash) {
        Some(market_cap) => match total_cost(hs) {
            Some(cost) => match decimal_difference(market_cap, cost) {
                Some(total_pl) => match total_day_gain(cache, hs) {
                    Some(total_today_pl) => match leverage(total_cash, net_assets) {
                        Some(leverage_ratio) => Some(
                            OverviewFigures { market_cap, total_pl, total_today_pl, leverage_ratio },
                        ),
                        None => None,
                    },
                    None => None,
                },
                None => None,
            },
            None => None,
        },
        None => None,
    }
}

fn cost_of(holdings: &Vec<Holding>) -> (r: Option<Decimal>)
    ensures
        r == total_cost(holdings_view(holdings@)),
{
    let ghost hs = holdings_view(holdings@);
    let mut sum = decimal_from_i64(0);
    let mut i: usize = 0;
    assert(hs.take(0) =~= Seq::empty());
    while i < holdings.len()
        invariant
            i <= holdings.len(),
            hs == holdings_view(holdings@),
            total_cost(hs.take(i as int)) == Some(sum),
        decreases holdings.len() - i,
    {
        let h = &holdings[i];
        assert(hs[i as int] == h@);
        assert(hs.take(i + 1).drop_last() =~= hs.take(i as int));
        assert(hs.take(i + 1).last() == h@);
        match h.cost_price {
            Some(cost) => {
                let next = match cost.checked_mul(h.quantity) {
                    Some(term) => sum.checked_add(term),
                    None => None,
                };
                match next {
                    Some(next) => {
                        sum = next;
                    },
                    None => {
                        proof {
                            lemma_total_cost_fail(hs.take(i + 1), hs);
                        }
                        return None;
                    },
                }
            },
            None => {},
        }
        i = i + 1;
    }
    assert(hs.take(holdings.len() as int) =~= hs);
    Some(sum)
}

fn day_gain_of(holdings: &Vec<Holding>, stocks: &StockStore) -> (r: Option<Decimal>)
    ensures
        r == total_day_gain(stocks@, holdings_view(holdings@)),
{
    let ghost hs = holdings_view(holdings@);
    let ghost cache = stocks@;
    let mut sum = decimal_from_i64(0);
    let mut i: usize = 0;
    assert(hs.take(0) =~= Seq::empty());
    while i < holdings.len()
        invariant
            i <= holdings.len(),
            hs == holdings_view(holdings@),
            cache == stocks@,
            total_day_gain(cache, hs.take(i as int)) == Some(sum),
        decreases holdings.len() - i,
    {
        let h = &holdings[i];
        assert(hs[i as int] == h@);
        assert(hs.take(i + 1).drop_last() =~= hs.take(i as int));
        assert(hs.take(i + 1).last() == h@);
        let counter = Counter::new(h.symbol.as_str());
        let prices = match stocks.get(&counter) {
            Some(stock) => match (stock.quote.last_done, stock.quote.prev_close) {
                (Some(last_done), Some(prev_close)) => Some((last_done, prev_close)),
                _ => None,
            },
            None => None,
        };
        let term = match prices {
            Some((last_done, prev_close)) => match last_done.checked_sub(prev_close) {
                Some(change) => change.checked_mul(h.quantity),
                None => None,
            },
            None => Some(decimal_from_i64(0)),
        };
        assert(term == day_gain(cache, h@));
        let next = match term {
            Some(term) => sum.checked_add(term),
            None => None,
        };
        match next {
            Some(next) => {
                sum = next;
            },
            None => {
                proof {
                    lemma_day_gain_fail(cache, hs.take(i + 1), hs);
                }
                return None;
            },
        }
        i = i + 1;
    }
    assert(hs.take(holdings.len() as int) =~= hs);
    Some(sum)
}

/// Where the cost of a list of holdings does not fit, that of no longer list does.
pub proof fn lemma_total_cost_fail(short: Seq<HoldingView>, long: Seq<HoldingView>)
    requires
        total_cost(short) is None,
        short.len() <= long.len(),
        short =~= long.take(short.len() as int),
    ensures
        total_cost(long) is None,
    decreases long.len(),
{
    if short.len() < long.len() {
        assert(long.drop_last().take(short.len() as int) =~= short);
        lemma_total_cost_fail(short, long.drop_last());
    } else {
        assert(long.take(long.len() as int) =~= long);
    }
}

/// Where the gain of a list of holdings does not fit, that of no longer list does.
pub proof fn lemma_day_gain_fail(
    cache: Map<Seq<char>, StockView>,
    short: Seq<HoldingView>,
    long: Seq<HoldingView>,
)
    requires
        total_day_gain(cache, short) is None,
        short.len() <= long.len(),
        short =~= long.take(short.len() as int),
    ensures
        total_day_gain(cache, long) is None,
    decreases long.len(),
{
    if short.len() < long.len() {
        assert(long.drop_last().take(short.len() as int) =~= short);
        lemma_day_gain_fail(cache, short, long.drop_last());
    } else {
        assert(long.take(long.len() as int) =~= long);
    }
}

/// The overview of the portfolio. `None` where a figure does not fit a decimal.
pub fn calculate_overview(balance: &AccountBalance, holdings: &Vec<Holding>, stocks: &StockStore)
    -> (r: Option<OverviewData>)
    ensures
        match r {
            Some(overview) => {
                &&& overview_figures(
                    balance.total_cash,
                    balance.net_assets,
                    holdings_view(holdings@),
                    stocks@,
                ) == Some(
                    OverviewFigures {
                        market_cap: overview.market_cap,
                        total_pl: overview.total_pl,
                        total_today_pl: overview.total_today_pl,
                        leverage_ratio: overview.leverage_ratio,
                    },
                )
                &&& overview.total_asset == balance.net_assets
                &&& overview.total_cash == balance.total_cash
                &&& overview.margin_call == balance.margin_call
                &&& overview.risk_level == balance.risk_level
                &&& overview.credit_limit == balance.max_finance_amount
                &&& overview.fund_market_value == decimal_of(0)
                &&& overview.currency == balance.currency
            },
            None => overview_figures(
                balance.total_cash,
                balance.net_assets,
                holdings_view(holdings@),
                stocks@,
            ) is None,
        },
{
    let market_cap = match balance.net_assets.checked_sub(balance.total_cash) {
        Some(market_cap) => market_cap,
        None => {
            return None;
        },
    };
    let cost = match cost_of(holdings) {
        Some(cost) => cost,
        None => {
            return None;
        },
    };
    let total_pl = match market_cap.checked_sub(cost) {
        Some(total_pl) => total_pl,
        None => {
            return None;
        },
    };
    let total_today_pl = match day_gain_of(holdings, stocks) {
        Some(gain) => gain,
        None => {
            return None;
        },
    };
    let zero = decimal_from_i64(0);
    let leverage_ratio = if decimal_ordering(balance.net_assets, zero) > 0 {
        let ratio = match balance.total_cash.checked_sub(balance.net_assets) {
            Some(borrowed) => borrowed.checked_div(balance.net_assets),
            None => None,
        };
        match ratio {
            Some(ratio) => ratio,
            None => {
                return None;
            },
        }
    } else {
        zero
    };
    Some(
        OverviewData {
            total_asset: balance.net_assets,
            market_cap,
            total_cash: balance.total_cash,
            total_pl,
            total_today_pl,
            margin_call: balance.margin_call,
            risk_level: balance.risk_level,
            credit_limit: balance.max_finance_amount,
            leverage_ratio,
            fund_market_value: zero,
            currency: balance.currency.clone(),
        },
    )
}

/// The place of the account of `market` in a list of accounts, or `-1`.
pub open spec fn account_index(accounts: Seq<MarketAccount>, market: Market) -> int
    decreases accounts.len(),
{
    if accounts.len() == 0 {
        -1
    } else if account_index(accounts.drop_last(), market) >= 0 {
        account_index(accounts.drop_last(), market)
    } else if accounts.last().market == market {
        accounts.len() - 1
    } else {
        -1
    }
}

/// The account that a market starts with: nothing in it, in the currency of the
/// first holding booked there.
pub open spec fn opened(market: Market, currency: Currency) -> MarketAccount {
    MarketAccount {
        market,
        currency,
        net_assets: decimal_of(0),
        market_value: decimal_of(0),
        pl: decimal_of(0),
        today_pl: decimal_of(0),
        balance: decimal_of(0),
        frozen_cash: decimal_of(0),
        withdraw_cash: decimal_of(0),
        max_buy_limit: decimal_of(0),
    }
}

/// An account with a holding added: its market value goes to the account's, and
/// its gain over cost, where it has a cost price, to the account's gain.
pub open spec fn credited(account: MarketAccount, h: HoldingView) -> Option<MarketAccount> {
    match decimal_sum(account.market_value, h.market_value) {
        Some(market_value) => match h.cost_price {
            Some(cost) => match decimal_product(cost, h.quantity) {
                Some(paid) => match decimal_difference(h.market_value, paid) {
                    Some(gain) => match decimal_sum(account.pl, gain) {
                        Some(pl) => Some(MarketAccount { market_value, pl, ..account }),
                        None => None,
                    },
                    None => None,
                },
                None => None,
            },
            None => Some(MarketAccount { market_value, ..account }),
        },
        None => None,
    }
}

/// The accounts after a holding was booked: in the account of its market, which
/// is opened at the end of the list where the market has none yet.
pub open spec fn booked(accounts: Seq<MarketAccount>, h: HoldingView) -> Option<Seq<MarketAccount>> {
    let market = booking_market(h.symbol);
    let at = account_index(accounts, market);
    if at >= 0 {
        match credited(accounts[at], h) {
            Some(account) => Some(accounts.update(at, account)),
            None => None,
        }
    } else {
        match credited(opened(market, h.currency), h) {
            Some(account) => Some(accounts.push(account)),
            None => None,
        }
    }
}

/// The accounts of the markets after all holdings were booked, one after the
/// other. `None` where a sum does not fit.
pub open spec fn grouped(hs: Seq<HoldingView>) -> Option<Seq<MarketAccount>>
    decreases hs.len(),
{
    if hs.len() == 0 {
        Some(Seq::empty())
    } else {
        match grouped(hs.drop_last()) {
            Some(accounts) => booked(accounts, hs.last()),
            None => None,
        }
    }
}

fn find_account(accounts: &Vec<MarketAccount>, market: Market) -> (r: Option<usize>)
    ensures
        match r {
            Some(at) => at as int == account_index(accounts@, market) && at < accounts@.len(),
            None => account_index(accounts@, market) == -1,
        },
{
    let mut found: Option<usize> = None;
    let mut i: usize = 0;
    assert(accounts@.take(0) =~= Seq::empty());
    while i < accounts.len()
        invariant
            i <= accounts.len(),
            match found {
                Some(at) => at as int == account_index(accounts@.take(i as int), market) && at < i,
                None => account_index(accounts@.take(i as int), market) == -1,
            },
        decreases accounts.len() - i,
    {
        assert(accounts@.take(i + 1).drop_last() =~= accounts@.take(i as int));
        assert(accounts@.take(i + 1).last() == accounts@[i as int]);
        if found.is_none() && accounts[i].market == market {
            found = Some(i);
        }
        i = i + 1;
    }
    assert(accounts@.take(accounts.len() as int) =~= accounts@);
    found
}

fn credit(account: MarketAccount, h: &Holding) -> (r: Option<MarketAccount>)
    ensures
        r == credited(account, h@),
{
    let market_value = match account.market_value.checked_add(h.market_value) {
        Some(v) => v,
        None => {
            return None;
        },
    };
    match h.cost_price {
        Some(cost) => {
            let paid = match cost.checked_mul(h.quantity) {
                Some(paid) => paid,
                None => {
                    return None;
                },
            };
            let gain = match h.market_value.checked_sub(paid) {
                Some(gain) => gain,
                None => {
                    return None;
                },
            };
            match account.pl.checked_add(gain) {
                Some(pl) => Some(
                    MarketAccount {
                        market: account.market,
                        currency: account.currency,
                        net_assets: account.net_assets,
                        market_value,
                        pl,
                        today_pl: account.today_pl,
                        balance: account.balance,
                        frozen_cash: account.frozen_cash,
                        withdraw_cash: account.withdraw_cash,
                        max_buy_limit: account.max_buy_limit,
                    },
                ),
                None => None,
            }
        },
        None => Some(
            MarketAccount {
                market: account.market,
                currency: account.currency,
                net_assets: account.net_assets,
                market_value,
                pl: account.pl,
                today_pl: account.today_pl,
                balance: account.balance,
                frozen_cash: account.frozen_cash,
                withdraw_cash: account.withdraw_cash,
                max_buy_limit: account.max_buy_limit,
            },
        ),
    }
}

/// Where a list of holdings cannot be grouped, no longer list can.
pub proof fn lemma_grouped_fail(short: Seq<HoldingView>, long: Seq<HoldingView>)
    requires
        grouped(short) is None,
        short.len() <= long.len(),
        short =~= long.take(short.len() as int),
    ensures
        grouped(long) is None,
    decreases long.len(),
{
    if short.len() < long.len() {
        assert(long.drop_last().take(short.len() as int) =~= short);
        lemma_grouped_fail(short, long.drop_last());
    } else {
        assert(long.take(long.len() as int) =~= long);
    }
}

/// Adds the holdings up market by market. `None` where a sum does not fit a
/// decimal.
pub fn group_by_market(holdings: &Vec<Holding>) -> (r: Option<Vec<MarketAccount>>)
    ensures
        match r {
            Some(accounts) => grouped(holdings_view(holdings@)) == Some(accounts@),
            None => grouped(holdings_view(holdings@)) is None,
        },
{
    let ghost hs = holdings_view(holdings@);
    let mut accounts: Vec<MarketAccount> = Vec::new();
    let mut i: usize = 0;
    assert(hs.take(0) =~= Seq::empty());
    while i < holdings.len()
        invariant
            i <= holdings.len(),
            hs == holdings_view(holdings@),
            grouped(hs.take(i as int)) == Some(accounts@),
        decreases holdings.len() - i,
    {
        let h = &holdings[i];
        assert(hs[i as int] == h@);
        assert(hs.take(i + 1).drop_last() =~= hs.take(i as int));
        assert(hs.take(i + 1).last() == h@);
        let market = market_of_symbol(h.symbol.as_str());
        let zero = decimal_from_i64(0);
        match find_account(&accounts, market) {
            Some(at) => match credit(accounts[at], h) {
                Some(account) => {
                    accounts.set(at, account);
                },
                None => {
                    proof {
                        lemma_grouped_fail(hs.take(i + 1), hs);
                    }
                    return None;
                },
            },
            None => {
                let fresh = MarketAccount {
                    market,
                    currency: h.currency,
                    net_assets: zero,
                    market_value: zero,
                    pl: zero,
                    today_pl: zero,
                    balance: zero,
                    frozen_cash: zero,
                    withdraw_cash: zero,
                    max_buy_limit: zero,
                };
                match credit(fresh, h) {
                    Some(account) => {
                        accounts.push(account);
                    },
                    None => {
                        proof {
                            lemma_grouped_fail(hs.take(i + 1), hs);
                        }
                        return None;
                    },
                }
            },
        }
        i = i + 1;
    }
    assert(hs.take(holdings.len() as int) =~= hs);
    Some(accounts)
}

/// The cash balance that the cash of one currency makes: available and frozen
/// cash together are the total. `None` where the total does not fit.
pub open spec fn cash_balance_of(info: CashInfo) -> Option<CashBalance> {
    match decimal_sum(info.available_cash, info.frozen_cash) {
        Some(total_amount) => Some(
            CashBalance {
                currency: currency_from(info.currency@),
                total_amount,
                balance: info.available_cash,
                frozen_cash: info.frozen_cash,
                withdraw_cash: info.withdraw_cash,
            },
        ),
        None => None,
    }
}

/// The cash balances of a list of cash infos, in order. `None` where one of
/// them has none.
pub open spec fn cash_balances_of(infos: Seq<CashInfo>) -> Option<Seq<CashBalance>>
    decreases infos.len(),
{
    if infos.len() == 0 {
        Some(Seq::empty())
    } else {
        match (cash_balances_of(infos.drop_last()), cash_balance_of(infos.last())) {
            (Some(before), Some(last)) => Some(before.push(last)),
            _ => None,
        }
    }
}

/// Where a list of cash infos has no balances, no longer list has.
pub proof fn lemma_cash_balances_fail(short: Seq<CashInfo>, long: Seq<CashInfo>)
    requires
        cash_balances_of(short) is None,
        short.len() <= long.len(),
        short =~= long.take(short.len() as int),
    ensures
        cash_balances_of(long) is None,
    decreases long.len(),
{
    if short.len() < long.len() {
        assert(long.drop_last().take(short.len() as int) =~= short);
        lemma_cash_balances_fail(short, long.drop_last());
    } else {
        assert(long.take(long.len() as int) =~= long);
    }
}

/// The cash of the account, currency by currency. `None` where a total does
/// not fit a decimal.
pub fn extract_cash_balances(balance: &AccountBalance) -> (r: Option<Vec<CashBalance>>)
    ensures
        match r {
            Some(list) => cash_balances_of(balance.cash_infos@) == Some(list@),
            None => cash_balances_of(balance.cash_infos@) is None,
        },
{
    let infos = &balance.cash_infos;
    let mut list: Vec<CashBalance> = Vec::new();
    let mut i: usize = 0;
    assert(infos@.take(0) =~= Seq::empty());
    while i < infos.len()
        invariant
            i <= infos.len(),
            infos@ == balance.cash_infos@,
            cash_balances_of(infos@.take(i as int)) == Some(list@),
        decreases infos.len() - i,
    {
        let info = &infos[i];
        assert(infos@.take(i + 1).drop_last() =~= infos@.take(i as int));
        assert(infos@.take(i + 1).last() == *info);
        match info.available_cash.checked_add(info.frozen_cash) {
            Some(total_amount) => {
                list.push(
                    CashBalance {
                        currency: currency_of(info.currency.as_str()),
                        total_amount,
                        balance: info.available_cash,
                        frozen_cash: info.frozen_cash,
                        withdraw_cash: info.withdraw_cash,
                    },
                );
            },
            None => {
                proof {
                    lemma_cash_balances_fail(infos@.take(i + 1), infos@);
                }
                return None;
            },
        }
        i = i + 1;
    }
    assert(infos@.take(infos.len() as int) =~= infos@);
    Some(list)
}

/// Puts the portfolio together from the balance and the holdings. `None` where
/// a figure does not fit a decimal.
pub fn fetch_portfolio(balance: AccountBalance, holdings: Vec<Holding>, stocks: &StockStore) -> (r:
    Option<PortfolioView>)
    ensures
        match r {
            Some(view) => {
                &&& overview_figures(
                    balance.total_cash,
                    balance.net_assets,
                    holdings_view(holdings@),
                    stocks@,
                ) == Some(
                    OverviewFigures {
                        market_cap: view.overview.market_cap,
                        total_pl: view.overview.total_pl,
                        total_today_pl: view.overview.total_today_pl,
                        leverage_ratio: view.overview.leverage_ratio,
                    },
                )
                &&& view.overview.total_asset == balance.net_assets
                &&& view.overview.total_cash == balance.total_cash
                &&& view.overview.margin_call == balance.margin_call
                &&& view.overview.risk_level == balance.risk_level
                &&& view.overview.credit_limit == balance.max_finance_amount
                &&& view.overview.currency == balance.currency
                &&& grouped(holdings_view(holdings@)) == Some(view.market_accounts@)
                &&& cash_balances_of(balance.cash_infos@) == Some(view.cash_balances@)
                &&& view.holdings == holdings
            },
            None => {
                ||| overview_figures(
                    balance.total_cash,
                    balance.net_assets,
                    holdings_view(holdings@),
                    stocks@,
                ) is None
                ||| grouped(holdings_view(holdings@)) is None
                ||| cash_balances_of(balance.cash_infos@) is None
            },
        },
{
    let overview = match calculate_overview(&balance, &holdings, stocks) {
        Some(overview) => overview,
        None => {
            return None;
        },
    };
    let market_accounts = match group_by_market(&holdings) {
        Some(accounts) => accounts,
        None => {
            return None;
        },
    };
    let cash_balances = match extract_cash_balances(&balance) {
        Some(list) => list,
        None => {
            return None;
        },
    };
    Some(PortfolioView { overview, market_accounts, cash_balances, holdings })
}

} // verus!
