//! Refreshing the caches from the upstream service: the debounced, single-flight
//! refresh of the symbol on display, and the steps of each kind of refresh.
//!
//! Nothing here waits or talks to the service. Each function takes what happened
//! and says what to do next; the caller runs the timers and makes the calls.

use crate::alerts::{evaluate_quote, evaluated, fired, rules_view, AlertRuleView, AlertStore};
use crate::data::{
    deduped, entry_or_blank, in_list_order, symbols, with_depth, with_listing, with_placeholder,
    with_push_quote, with_security_quote, with_static_info, with_trades, Counter, PushQuote,
    SecurityDepth, SecurityQuote, SecurityStaticInfo, StockStore, StockView, Trade, Watchlist,
    WatchlistGroup,
};
use crate::kline::{without_symbol, KlineStore};
use crate::render::dirty_flags::{depth_regions, quote_regions, DirtyFlags, RenderState};
use crate::render::RenderStateView;
use vstd::prelude::*;

verus! {

/// How long a requested refresh waits for a later request to take its place.
pub const DEBOUNCE_MILLIS: u64 = 50;

/// A refresh that was requested and whose delay has not run out.
pub struct PendingRefresh {
    pub ticket: nat,
    pub symbol: Seq<char>,
}

/// The state of the orchestrator.
pub struct Orchestration {
    /// The one refresh that waits for its delay to run out, if any.
    pub pending: Option<PendingRefresh>,
    /// Whether a refresh is executing.
    pub executing: bool,
    /// The ticket that the next request gets.
    pub next_ticket: nat,
}

/// The ticket after `ticket`.
pub open spec fn ticket_after(ticket: nat) -> nat {
    if ticket == u64::MAX {
        0
    } else {
        ticket + 1
    }
}

/// The state after a refresh of `symbol` was requested: the request is pending
/// under a new ticket, in place of any request that was pending before.
pub open spec fn requested(s: Orchestration, symbol: Seq<char>) -> Orchestration {
    Orchestration {
        pending: Some(PendingRefresh { ticket: s.next_ticket, symbol }),
        next_ticket: ticket_after(s.next_ticket),
        ..s
    }
}

/// Whether the request with `ticket` is the pending one.
pub open spec fn is_pending(s: Orchestration, ticket: nat) -> bool {
    s.pending matches Some(p) && p.ticket == ticket
}

/// Whether the refresh with `ticket` starts executing when its delay runs out.
pub open spec fn starts(s: Orchestration, ticket: nat) -> bool {
    is_pending(s, ticket) && !s.executing
}

/// The state after the delay of `ticket` ran out. The pending request, if it is
/// this one, is pending no more: it starts executing, or is dropped because
/// another refresh is executing. Any other ticket changes nothing.
pub open spec fn after_timer(s: Orchestration, ticket: nat) -> Orchestration {
    if is_pending(s, ticket) {
        Orchestration { pending: None, executing: true, ..s }
    } else {
        s
    }
}

/// The state after the executing refresh ended, in whatever way.
pub open spec fn finished(s: Orchestration) -> Orchestration {
    Orchestration { executing: false, ..s }
}

/// What the caller does about a requested refresh.
#[derive(Clone, Copy, Debug, PartialEq, Eq, Structural)]
pub struct Scheduled {
    /// The timer to stop: that of the request that was pending until now.
    pub cancelled: Option<u64>,
    /// The ticket of the new request.
    pub ticket: u64,
    /// The delay after which to report the ticket with `timer_fired`.
    pub delay_millis: u64,
}

/// What the caller does when a delay ran out.
#[derive(Debug)]
pub enum Fired {
    /// Execute the refresh of this symbol, and report its end with `finished`.
    Start(Counter),
    /// Another refresh is executing: this one is dropped.
    Skipped,
    /// The ticket is not the pending one: a later request took its place.
    Stale,
}

struct Pending {
    ticket: u64,
    counter: Counter,
}

/// Debounces requests to refresh the symbol on display, and lets one refresh
/// execute at a time.
pub struct RefreshOrchestrator {
    pending: Option<Pending>,
    executing: bool,
    next_ticket: u64,
}

impl View for RefreshOrchestrator {
    type V = Orchestration;

    closed spec fn view(&self) -> Orchestration {
        Orchestration {
            pending: match self.pending {
                Some(p) => Some(PendingRefresh { ticket: p.ticket as nat, symbol: p.counter@ }),
                None => None,
            },
            executing: self.executing,
            next_ticket: self.next_ticket as nat,
        }
    }
}

impl RefreshOrchestrator {
    /// An orchestrator with nothing pending and nothing executing.
    pub fn new() -> (r: Self)
        ensures
            r@ == (Orchestration { pending: None, executing: false, next_ticket: 0 }),
    {
        RefreshOrchestrator { pending: None, executing: false, next_ticket: 0 }
    }

    /// Requests a refresh of `counter`, to start after the debounce delay unless
    /// a later request takes its place.
    pub fn refresh_stock_debounced(&mut self, counter: Counter) -> (r: Scheduled)
        ensures
            final(self)@ == requested(old(self)@, counter@),
            r.ticket == old(self)@.next_ticket,
            r.delay_millis == DEBOUNCE_MILLIS,
            r.cancelled == match old(self)@.pending {
                Some(p) => Some(p.ticket as u64),
                None => None,
            },
    {
        let cancelled = match &self.pending {
            Some(p) => Some(p.ticket),
            None => None,
        };
        let ticket = self.next_ticket;
        self.pending = Some(Pending { ticket, counter });
        self.next_ticket = if ticket == u64::MAX {
            0
        } else {
            ticket + 1
        };
        Scheduled { cancelled, ticket, delay_millis: DEBOUNCE_MILLIS }
    }

    /// Reports that the delay of `ticket` ran out.
    pub fn timer_fired(&mut self, ticket: u64) -> (r: Fired)
        ensures
            final(self)@ == after_timer(old(self)@, ticket as nat),
            match r {
                Fired::Start(counter) => starts(old(self)@, ticket as nat) && counter@ == old(
                    self,
                )@.pending->0.symbol,
                Fired::Skipped => is_pending(old(self)@, ticket as nat) && old(self)@.executing,
                Fired::Stale => !is_pending(old(self)@, ticket as nat),
            },
    {
        let is_pending = match &self.pending {
            Some(p) => p.ticket == ticket,
            None => false,
        };
        if !is_pending {
            return Fired::Stale;
        }
        let taken = self.pending.take();
        if self.executing {
            return Fired::Skipped;
        }
        self.executing = true;
        match taken {
            Some(p) => Fired::Start(p.counter),
            None => Fired::Stale,
        }
    }

    /// Reports that the executing refresh ended: completed, failed or abandoned.
    pub fn finished(&mut self)
        ensures
            final(self)@ == finished(old(self)@),
    {
        self.executing = false;
    }

    /// Whether a refresh is executing.
    pub fn is_executing(&self) -> (r: bool)
        ensures
            r == self@.executing,
    {
        self.executing
    }
}

/// Two requests within the debounce delay lead to one execution, that of the
/// second: the first request's timer, whenever it fires, starts nothing, and the
/// second request's timer starts the refresh of the second symbol.
pub proof fn lemma_debounce_coalesces(s: Orchestration, a: Seq<char>, b: Seq<char>)
    requires
        !s.executing,
    ensures
        ({
            let first = requested(s, a);
            let second = requested(first, b);
            let ticket_a = s.next_ticket;
            let ticket_b = first.next_ticket;
            &&& ticket_a != ticket_b
            &&& !starts(second, ticket_a)
            &&& after_timer(second, ticket_a) == second
            &&& starts(second, ticket_b)
            &&& second.pending->0.symbol == b
            &&& !starts(after_timer(second, ticket_b), ticket_a)
        }),
{
}

/// Two requests that are further apart than the delay and the execution lead to
/// two executions: the first starts and ends, then the second starts.
pub proof fn lemma_debounce_separate(s: Orchestration, a: Seq<char>, b: Seq<char>)
    requires
        !s.executing,
    ensures
        ({
            let first = requested(s, a);
            let ticket_a = s.next_ticket;
            let done = finished(after_timer(first, ticket_a));
            let second = requested(done, b);
            let ticket_b = done.next_ticket;
            &&& starts(first, ticket_a)
            &&& first.pending->0.symbol == a
            &&& after_timer(first, ticket_a).executing
            &&& !done.executing
            &&& starts(second, ticket_b)
            &&& second.pending->0.symbol == b
        }),
{
}

/// While a refresh executes, a timer that fires starts nothing, and its request
/// is dropped, not queued; the execution goes on. When the execution ends, in
/// whatever way, the next request starts when its delay runs out.
pub proof fn lemma_single_flight(s: Orchestration, ticket: nat, next: Seq<char>)
    requires
        s.executing,
    ensures
        !starts(s, ticket),
        after_timer(s, ticket).executing,
        is_pending(s, ticket) ==> after_timer(s, ticket).pending is None,
        !finished(s).executing,
        starts(requested(finished(s), next), finished(s).next_ticket),
{
}

/// How many recent trades a refresh asks for.
pub const RECENT_TRADES: usize = 50;

/// Where the refresh of one symbol stands.
#[derive(Clone, Copy, Debug, PartialEq, Eq, Structural)]
pub enum StockRefreshStage {
    Created,
    SubscribingDetail,
    SubscribingTrades,
    FetchingQuote,
    FetchingStaticInfo,
    FetchingTrades,
    Done,
}

/// The call that the refresh of one symbol asks its caller to make next. Every
/// call is for the symbol of the refresh and goes through the rate limiter.
#[derive(Clone, Copy, Debug, PartialEq, Eq, Structural)]
pub enum StockRefreshAction {
    /// Report `Begin`.
    Begin,
    /// Subscribe to the quote and depth feeds; report `Subscribed`.
    SubscribeDetail,
    /// Subscribe to the trade feed; report `Subscribed`.
    SubscribeTrades,
    /// Fetch the full quote; report `Quote`.
    FetchQuote,
    /// Fetch the static information; report `StaticInfo`.
    FetchStaticInfo,
    /// Fetch this many recent trades; report `Trades`.
    FetchTrades { count: usize },
    /// Nothing: the refresh is over.
    Done,
}

/// What the caller reports to the refresh of one symbol. A call that failed is
/// reported with `None`.
#[derive(Debug)]
pub enum StockRefreshEvent {
    Begin,
    /// A subscription was made, or failed: the refresh goes on either way.
    Subscribed,
    Quote(Option<Vec<SecurityQuote>>),
    StaticInfo(Option<Vec<SecurityStaticInfo>>),
    Trades(Option<Vec<Trade>>),
}

/// The call that a stage waits for.
pub open spec fn stock_refresh_awaits(stage: StockRefreshStage) -> StockRefreshAction {
    match stage {
        StockRefreshStage::Created => StockRefreshAction::Begin,
        StockRefreshStage::SubscribingDetail => StockRefreshAction::SubscribeDetail,
        StockRefreshStage::SubscribingTrades => StockRefreshAction::SubscribeTrades,
        StockRefreshStage::FetchingQuote => StockRefreshAction::FetchQuote,
        StockRefreshStage::FetchingStaticInfo => StockRefreshAction::FetchStaticInfo,
        StockRefreshStage::FetchingTrades => StockRefreshAction::FetchTrades { count: RECENT_TRADES },
        StockRefreshStage::Done => StockRefreshAction::Done,
    }
}

/// Whether `event` is the report that `stage` waits for.
pub open spec fn stock_refresh_accepts(stage: StockRefreshStage, event: StockRefreshEvent) -> bool {
    match stage {
        StockRefreshStage::Created => event is Begin,
        StockRefreshStage::SubscribingDetail => event is Subscribed,
        StockRefreshStage::SubscribingTrades => event is Subscribed,
        StockRefreshStage::FetchingQuote => event is Quote,
        StockRefreshStage::FetchingStaticInfo => event is StaticInfo,
        StockRefreshStage::FetchingTrades => event is Trades,
        StockRefreshStage::Done => false,
    }
}

/// The market-data cache after the refresh of `symbol` took in `event`: a fetched
/// quote or static information is merged into the symbol's state, the first of
/// those delivered; fetched trades take the place of the stored ones. A failed
/// call, an empty answer, and every other report leave the cache as it is.
pub open spec fn stock_refresh_cache(
    cache: Map<Seq<char>, StockView>,
    symbol: Seq<char>,
    event: StockRefreshEvent,
) -> Map<Seq<char>, StockView> {
    match event {
        StockRefreshEvent::Quote(Some(quotes)) => if quotes@.len() > 0 {
            cache.insert(symbol, with_security_quote(entry_or_blank(cache, symbol), quotes@[0]))
        } else {
            cache
        },
        StockRefreshEvent::StaticInfo(Some(infos)) => if infos@.len() > 0 {
            cache.insert(symbol, with_static_info(entry_or_blank(cache, symbol), infos@[0]))
        } else {
            cache
        },
        StockRefreshEvent::Trades(Some(trades)) => cache.insert(
            symbol,
            with_trades(entry_or_blank(cache, symbol), trades@),
        ),
        _ => cache,
    }
}

/// The stage that follows `stage` once its report came in. `cache` is the
/// market-data cache after the report was taken in: static information is
/// fetched only where the cache has a state for the symbol without it.
pub open spec fn stock_refresh_next(
    stage: StockRefreshStage,
    cache: Map<Seq<char>, StockView>,
    symbol: Seq<char>,
) -> StockRefreshStage {
    match stage {
        StockRefreshStage::Created => StockRefreshStage::SubscribingDetail,
        StockRefreshStage::SubscribingDetail => StockRefreshStage::SubscribingTrades,
        StockRefreshStage::SubscribingTrades => StockRefreshStage::FetchingQuote,
        StockRefreshStage::FetchingQuote => if cache.contains_key(symbol)
            && cache[symbol].static_info is None {
            StockRefreshStage::FetchingStaticInfo
        } else {
            StockRefreshStage::FetchingTrades
        },
        StockRefreshStage::FetchingStaticInfo => StockRefreshStage::FetchingTrades,
        StockRefreshStage::FetchingTrades => StockRefreshStage::Done,
        StockRefreshStage::Done => StockRefreshStage::Done,
    }
}

/// The refresh of one symbol: clear its candlestick history, subscribe to the
/// detail feeds, then fetch the quote, the static information if the cache lacks
/// it, and the recent trades. A step that fails is passed over; the steps after
/// it still run.
pub struct StockRefresh {
    counter: Counter,
    stage: StockRefreshStage,
}

impl StockRefresh {
    pub closed spec fn symbol(&self) -> Seq<char> {
        self.counter@
    }

    pub closed spec fn stage(&self) -> StockRefreshStage {
        self.stage
    }

    /// A refresh of `counter` that has not begun.
    pub fn new(counter: Counter) -> (r: Self)
        ensures
            r.symbol() == counter@,
            r.stage() == StockRefreshStage::Created,
    {
        StockRefresh { counter, stage: StockRefreshStage::Created }
    }

    /// The symbol that is refreshed.
    pub fn counter(&self) -> (r: &Counter)
        ensures
            r@ == self.symbol(),
    {
        &self.counter
    }

    /// The call that the refresh waits for.
    pub fn awaits(&self) -> (r: StockRefreshAction)
        ensures
            r == stock_refresh_awaits(self.stage()),
    {
        match self.stage {
            StockRefreshStage::Created => StockRefreshAction::Begin,
            StockRefreshStage::SubscribingDetail => StockRefreshAction::SubscribeDetail,
            StockRefreshStage::SubscribingTrades => StockRefreshAction::SubscribeTrades,
            StockRefreshStage::FetchingQuote => StockRefreshAction::FetchQuote,
            StockRefreshStage::FetchingStaticInfo => StockRefreshAction::FetchStaticInfo,
            StockRefreshStage::FetchingTrades => StockRefreshAction::FetchTrades {
                count: RECENT_TRADES,
            },
            StockRefreshStage::Done => StockRefreshAction::Done,
        }
    }

    /// Takes in a report and says which call to make next.
    ///
    /// A report that the refresh does not wait for changes nothing, and the
    /// answer repeats the call that it does wait for.
    pub fn refresh_stock(
        &mut self,
        stocks: &mut StockStore,
        klines: &mut KlineStore,
        event: StockRefreshEvent,
    ) -> (r: StockRefreshAction)
        requires
            old(stocks).wf(),
        ensures
            final(stocks).wf(),
            final(self).symbol() == old(self).symbol(),
            r == stock_refresh_awaits(final(self).stage()),
            !stock_refresh_accepts(old(self).stage(), event) ==> {
                &&& final(self).stage() == old(self).stage()
                &&& final(stocks)@ == old(stocks)@
                &&& final(klines)@ == old(klines)@
            },
            stock_refresh_accepts(old(self).stage(), event) ==> {
                &&& final(stocks)@ == stock_refresh_cache(old(stocks)@, old(self).symbol(), event)
                &&& final(self).stage() == stock_refresh_next(
                    old(self).stage(),
                    final(stocks)@,
                    old(self).symbol(),
                )
                &&& final(klines)@ =~= if old(self).stage() is Created {
                    without_symbol(old(klines)@, old(self).symbol())
                } else {
                    old(klines)@
                }
            },
    {
        match (self.stage, event) {
            (StockRefreshStage::Created, StockRefreshEvent::Begin) => {
                klines.clear_symbol(&self.counter);
                self.stage = StockRefreshStage::SubscribingDetail;
            },
            (StockRefreshStage::SubscribingDetail, StockRefreshEvent::Subscribed) => {
                self.stage = StockRefreshStage::SubscribingTrades;
            },
            (StockRefreshStage::SubscribingTrades, StockRefreshEvent::Subscribed) => {
                self.stage = StockRefreshStage::FetchingQuote;
            },
            (StockRefreshStage::FetchingQuote, StockRefreshEvent::Quote(answer)) => {
                match answer {
                    Some(quotes) => {
                        if quotes.len() > 0 {
                            stocks.merge_security_quote(&self.counter, &quotes[0]);
                        }
                    },
                    None => {},
                }
                self.stage = if stocks.lacks_static_info(&self.counter) {
                    StockRefreshStage::FetchingStaticInfo
                } else {
                    StockRefreshStage::FetchingTrades
                };
            },
            (StockRefreshStage::FetchingStaticInfo, StockRefreshEvent::StaticInfo(answer)) => {
                match answer {
                    Some(infos) => {
                        if infos.len() > 0 {
                            stocks.merge_static_info(&self.counter, &infos[0]);
                        }
                    },
                    None => {},
                }
                self.stage = StockRefreshStage::FetchingTrades;
            },
            (StockRefreshStage::FetchingTrades, StockRefreshEvent::Trades(answer)) => {
                match answer {
                    Some(trades) => {
                        stocks.merge_trades(&self.counter, &trades);
                    },
                    None => {},
                }
                self.stage = StockRefreshStage::Done;
            },
            _ => {},
        }
        self.awaits()
    }
}

/// A watchlist group as the upstream service delivers it.
#[derive(Debug)]
pub struct RemoteGroup {
    pub id: i64,
    pub name: String,
    pub symbols: Vec<String>,
}

/// The groups that a delivered watchlist names, in the order delivered.
pub open spec fn remote_groups(groups: Seq<RemoteGroup>) -> Seq<(u64, Seq<char>)> {
    groups.map_values(|g: RemoteGroup| (crate::kline::unsigned_bits(g.id), g.name@))
}

/// The symbols of a delivered watchlist: those of every group, or of the groups
/// with the selected id where one is selected, in the order delivered.
pub open spec fn remote_symbols(groups: Seq<RemoteGroup>, group_id: Option<u64>) -> Seq<Seq<char>>
    decreases groups.len(),
{
    if groups.len() == 0 {
        Seq::empty()
    } else {
        let last = groups.last();
        let selected = match group_id {
            Some(id) => crate::kline::unsigned_bits(last.id) == id,
            None => true,
        };
        if selected {
            remote_symbols(groups.drop_last(), group_id) + last.symbols@.map_values(
                |s: String| s@,
            )
        } else {
            remote_symbols(groups.drop_last(), group_id)
        }
    }
}

/// What a list of watchlist groups holds.
pub open spec fn group_list(groups: Seq<WatchlistGroup>) -> Seq<(u64, Seq<char>)> {
    groups.map_values(|g: WatchlistGroup| (g.id, g.name@))
}

fn append_symbols(counters: &mut Vec<Counter>, texts: &Vec<String>)
    ensures
        symbols(final(counters)@) == symbols(old(counters)@) + texts@.map_values(|s: String| s@),
{
    let mut k: usize = 0;
    assert(symbols(counters@) =~= symbols(old(counters)@) + texts@.take(0).map_values(
        |s: String| s@,
    ));
    while k < texts.len()
        invariant
            k <= texts.len(),
            symbols(counters@) == symbols(old(counters)@) + texts@.take(k as int).map_values(
                |s: String| s@,
            ),
        decreases texts.len() - k,
    {
        let ghost before = symbols(counters@);
        counters.push(Counter::new(texts[k].as_str()));
        assert(symbols(counters@) =~= before.push(texts@[k as int]@));
        assert(symbols(counters@) =~= symbols(old(counters)@) + texts@.take(k + 1).map_values(
            |s: String| s@,
        ));
        k = k + 1;
    }
    assert(texts@.take(texts.len() as int) =~= texts@);
}

/// Reads a delivered watchlist: all its groups, and the symbols of the selected
/// group, or of every group where none is selected.
pub fn fetch_watchlist(groups: &Vec<RemoteGroup>, group_id: Option<u64>) -> (r: (
    Vec<Counter>,
    Vec<WatchlistGroup>,
))
    ensures
        symbols(r.0@) == remote_symbols(groups@, group_id),
        group_list(r.1@) == remote_groups(groups@),
{
    let mut counters: Vec<Counter> = Vec::new();
    let mut listed: Vec<WatchlistGroup> = Vec::new();
    let mut n: usize = 0;
    assert(symbols(counters@) =~= remote_symbols(groups@.take(0), group_id));
    assert(group_list(listed@) =~= remote_groups(groups@.take(0)));
    while n < groups.len()
        invariant
            n <= groups.len(),
            symbols(counters@) == remote_symbols(groups@.take(n as int), group_id),
            group_list(listed@) == remote_groups(groups@.take(n as int)),
        decreases groups.len() - n,
    {
        let group = &groups[n];
        let id = crate::kline::cast_unsigned(group.id);
        let ghost before = group_list(listed@);
        listed.push(WatchlistGroup { id, name: group.name.clone() });
        assert(groups@.take(n + 1).drop_last() =~= groups@.take(n as int));
        assert(groups@.take(n + 1).last() == *group);
        assert(group_list(listed@) =~= before.push((id, group.name@)));
        assert(group_list(listed@) =~= remote_groups(groups@.take(n + 1)));
        let selected = match group_id {
            Some(wanted) => id == wanted,
            None => true,
        };
        if selected {
            append_symbols(&mut counters, &group.symbols);
        }
        n = n + 1;
    }
    assert(groups@.take(groups.len() as int) =~= groups@);
    (counters, listed)
}

/// The symbols held through a list of account channels, channel by channel.
pub open spec fn held_symbols(channels: Seq<Vec<String>>) -> Seq<Seq<char>>
    decreases channels.len(),
{
    if channels.len() == 0 {
        Seq::empty()
    } else {
        held_symbols(channels.drop_last()) + channels.last()@.map_values(|s: String| s@)
    }
}

/// Reads the delivered stock positions: the symbols held, channel by channel.
pub fn fetch_holdings(channels: &Vec<Vec<String>>) -> (r: Vec<Counter>)
    ensures
        symbols(r@) == held_symbols(channels@),
{
    let mut counters: Vec<Counter> = Vec::new();
    let mut n: usize = 0;
    assert(symbols(counters@) =~= held_symbols(channels@.take(0)));
    while n < channels.len()
        invariant
            n <= channels.len(),
            symbols(counters@) == held_symbols(channels@.take(n as int)),
        decreases channels.len() - n,
    {
        assert(channels@.take(n + 1).drop_last() =~= channels@.take(n as int));
        assert(channels@.take(n + 1).last() == channels@[n as int]);
        append_symbols(&mut counters, &channels[n]);
        n = n + 1;
    }
    assert(channels@.take(channels.len() as int) =~= channels@);
    counters
}

/// The cache with an entry for each of `list`: placeholders where it had none.
pub open spec fn with_placeholders(
    cache: Map<Seq<char>, StockView>,
    list: Seq<Seq<char>>,
) -> Map<Seq<char>, StockView>
    decreases list.len(),
{
    if list.len() == 0 {
        cache
    } else {
        with_placeholder(with_placeholders(cache, list.drop_last()), list.last())
    }
}

/// The cache after each of `quotes` was merged into the state of its own symbol.
pub open spec fn with_quotes(
    cache: Map<Seq<char>, StockView>,
    quotes: Seq<SecurityQuote>,
) -> Map<Seq<char>, StockView>
    decreases quotes.len(),
{
    if quotes.len() == 0 {
        cache
    } else {
        let before = with_quotes(cache, quotes.drop_last());
        let quote = quotes.last();
        before.insert(
            quote.symbol@,
            with_security_quote(entry_or_blank(before, quote.symbol@), quote),
        )
    }
}

/// The cache after each of `infos` was merged, name and static information,
/// into the state of its own symbol.
pub open spec fn with_listings(
    cache: Map<Seq<char>, StockView>,
    infos: Seq<SecurityStaticInfo>,
) -> Map<Seq<char>, StockView>
    decreases infos.len(),
{
    if infos.len() == 0 {
        cache
    } else {
        let before = with_listings(cache, infos.drop_last());
        let info = infos.last();
        before.insert(info.symbol@, with_listing(entry_or_blank(before, info.symbol@), info))
    }
}

/// Makes sure that the cache has a state for every symbol of `list`.
pub fn ensure_stocks(stocks: &mut StockStore, list: &[Counter])
    requires
        old(stocks).wf(),
    ensures
        final(stocks).wf(),
        final(stocks)@ == with_placeholders(old(stocks)@, symbols(list@)),
{
    let mut n: usize = 0;
    assert(symbols(list@).take(0) =~= Seq::empty());
    while n < list.len()
        invariant
            n <= list@.len(),
            stocks.wf(),
            stocks@ == with_placeholders(old(stocks)@, symbols(list@).take(n as int)),
        decreases list@.len() - n,
    {
        assert(symbols(list@).take(n + 1).drop_last() =~= symbols(list@).take(n as int));
        stocks.ensure(&list[n]);
        n = n + 1;
    }
    assert(symbols(list@).take(list@.len() as int) =~= symbols(list@));
}

/// Merges a batch of pulled quotes, each into the state of its own symbol.
pub fn merge_quotes(stocks: &mut StockStore, quotes: &Vec<SecurityQuote>)
    requires
        old(stocks).wf(),
    ensures
        final(stocks).wf(),
        final(stocks)@ == with_quotes(old(stocks)@, quotes@),
{
    let mut n: usize = 0;
    assert(quotes@.take(0) =~= Seq::empty());
    while n < quotes.len()
        invariant
            n <= quotes.len(),
            stocks.wf(),
            stocks@ == with_quotes(old(stocks)@, quotes@.take(n as int)),
        decreases quotes.len() - n,
    {
        assert(quotes@.take(n + 1).drop_last() =~= quotes@.take(n as int));
        let quote = &quotes[n];
        let counter = Counter::new(quote.symbol.as_str());
        stocks.merge_security_quote(&counter, quote);
        n = n + 1;
    }
    assert(quotes@.take(quotes.len() as int) =~= quotes@);
}

/// Merges a batch of listings, each into the state of its own symbol.
pub fn merge_listings(stocks: &mut StockStore, infos: &Vec<SecurityStaticInfo>)
    requires
        old(stocks).wf(),
    ensures
        final(stocks).wf(),
        final(stocks)@ == with_listings(old(stocks)@, infos@),
{
    let mut n: usize = 0;
    assert(infos@.take(0) =~= Seq::empty());
    while n < infos.len()
        invariant
            n <= infos.len(),
            stocks.wf(),
            stocks@ == with_listings(old(stocks)@, infos@.take(n as int)),
        decreases infos.len() - n,
    {
        assert(infos@.take(n + 1).drop_last() =~= infos@.take(n as int));
        let info = &infos[n];
        let counter = Counter::new(info.symbol.as_str());
        stocks.merge_listing(&counter, info);
        n = n + 1;
    }
    assert(infos@.take(infos.len() as int) =~= infos@);
}

/// Where the refresh of the watchlist stands.
#[derive(Clone, Copy, Debug, PartialEq, Eq, Structural)]
pub enum WatchlistRefreshStage {
    Created,
    FetchingLists,
    FetchingQuotes,
    FetchingStaticInfo,
    Resubscribing,
    Done,
}

/// The call that the refresh of the watchlist asks its caller to make next. The
/// batched calls are for the symbols of the watchlist as it then stands.
#[derive(Clone, Copy, Debug, PartialEq, Eq, Structural)]
pub enum WatchlistRefreshAction {
    /// Report `Begin`.
    Begin,
    /// Fetch, at the same time, the groups with their symbols and the holdings;
    /// report `Lists`.
    FetchLists { group_id: Option<u64> },
    /// Fetch the quotes of all symbols in one call; report `Quotes`.
    FetchQuotes,
    /// Fetch the static information of all symbols in one call; report `StaticInfo`.
    FetchStaticInfo,
    /// Subscribe the list feed for all symbols; report `Resubscribed`.
    Resubscribe,
    /// Nothing: the refresh is over.
    Done,
}

/// What the caller reports to the refresh of the watchlist. A call that failed
/// is reported with `None`.
#[derive(Debug)]
pub enum WatchlistRefreshEvent {
    Begin,
    Lists { watchlist: Option<(Vec<Counter>, Vec<WatchlistGroup>)>, holdings: Option<Vec<Counter>> },
    Quotes(Option<Vec<SecurityQuote>>),
    StaticInfo(Option<Vec<SecurityStaticInfo>>),
    /// The subscription was made, or failed: the refresh goes on either way.
    Resubscribed,
}

/// The call that a stage waits for.
pub open spec fn watchlist_refresh_awaits(
    stage: WatchlistRefreshStage,
    group_id: Option<u64>,
) -> WatchlistRefreshAction {
    match stage {
        WatchlistRefreshStage::Created => WatchlistRefreshAction::Begin,
        WatchlistRefreshStage::FetchingLists => WatchlistRefreshAction::FetchLists { group_id },
        WatchlistRefreshStage::FetchingQuotes => WatchlistRefreshAction::FetchQuotes,
        WatchlistRefreshStage::FetchingStaticInfo => WatchlistRefreshAction::FetchStaticInfo,
        WatchlistRefreshStage::Resubscribing => WatchlistRefreshAction::Resubscribe,
        WatchlistRefreshStage::Done => WatchlistRefreshAction::Done,
    }
}

/// Whether `event` is the report that `stage` waits for.
pub open spec fn watchlist_refresh_accepts(
    stage: WatchlistRefreshStage,
    event: WatchlistRefreshEvent,
) -> bool {
    match stage {
        WatchlistRefreshStage::Created => event is Begin,
        WatchlistRefreshStage::FetchingLists => event is Lists,
        WatchlistRefreshStage::FetchingQuotes => event is Quotes,
        WatchlistRefreshStage::FetchingStaticInfo => event is StaticInfo,
        WatchlistRefreshStage::Resubscribing => event is Resubscribed,
        WatchlistRefreshStage::Done => false,
    }
}

/// The symbols of the watchlist after the lists were fetched: the watchlist's
/// symbols first, then the holdings not yet among them, each symbol once.
pub open spec fn listed_symbols(
    watchlist: Seq<Counter>,
    holdings: Option<Vec<Counter>>,
) -> Seq<Seq<char>> {
    match holdings {
        Some(held) => deduped(symbols(watchlist) + symbols(held@)),
        None => deduped(symbols(watchlist)),
    }
}

/// The stage that follows `stage` once its report `event` came in. `listed` is
/// the number of symbols on the watchlist after the report was taken in.
pub open spec fn watchlist_refresh_next(
    stage: WatchlistRefreshStage,
    event: WatchlistRefreshEvent,
    listed: nat,
) -> WatchlistRefreshStage {
    match stage {
        WatchlistRefreshStage::Created => WatchlistRefreshStage::FetchingLists,
        WatchlistRefreshStage::FetchingLists => match event {
            WatchlistRefreshEvent::Lists { watchlist: None, .. } => WatchlistRefreshStage::Done,
            _ => if listed == 0 {
                WatchlistRefreshStage::Resubscribing
            } else {
                WatchlistRefreshStage::FetchingQuotes
            },
        },
        WatchlistRefreshStage::FetchingQuotes => WatchlistRefreshStage::FetchingStaticInfo,
        WatchlistRefreshStage::FetchingStaticInfo => WatchlistRefreshStage::Resubscribing,
        WatchlistRefreshStage::Resubscribing => WatchlistRefreshStage::Done,
        WatchlistRefreshStage::Done => WatchlistRefreshStage::Done,
    }
}

/// The market-data cache after the refresh of the watchlist took in `event`.
/// `listed` is the watchlist's symbols after the report was taken in.
pub open spec fn watchlist_refresh_cache(
    cache: Map<Seq<char>, StockView>,
    event: WatchlistRefreshEvent,
    listed: Seq<Seq<char>>,
) -> Map<Seq<char>, StockView> {
    match event {
        WatchlistRefreshEvent::Lists { watchlist: Some(_), .. } => with_placeholders(cache, listed),
        WatchlistRefreshEvent::Quotes(Some(quotes)) => with_quotes(cache, quotes@),
        WatchlistRefreshEvent::StaticInfo(Some(infos)) => with_listings(cache, infos@),
        _ => cache,
    }
}

/// The refresh of the whole watchlist: fetch the groups, their symbols and the
/// holdings; list each symbol once, the watchlist's before the holdings; give
/// every symbol a state in the cache; fetch quotes and static information for
/// all of them in one call each; subscribe them; and put the rows in order.
pub struct WatchlistRefresh {
    stage: WatchlistRefreshStage,
}

impl WatchlistRefresh {
    pub closed spec fn stage(&self) -> WatchlistRefreshStage {
        self.stage
    }

    /// A refresh that has not begun.
    pub fn new() -> (r: Self)
        ensures
            r.stage() == WatchlistRefreshStage::Created,
    {
        WatchlistRefresh { stage: WatchlistRefreshStage::Created }
    }

    /// The call that the refresh waits for.
    pub fn awaits(&self, watchlist: &Watchlist) -> (r: WatchlistRefreshAction)
        ensures
            r == watchlist_refresh_awaits(self.stage(), watchlist.group_id),
    {
        match self.stage {
            WatchlistRefreshStage::Created => WatchlistRefreshAction::Begin,
            WatchlistRefreshStage::FetchingLists => WatchlistRefreshAction::FetchLists {
                group_id: watchlist.group_id,
            },
            WatchlistRefreshStage::FetchingQuotes => WatchlistRefreshAction::FetchQuotes,
            WatchlistRefreshStage::FetchingStaticInfo => WatchlistRefreshAction::FetchStaticInfo,
            WatchlistRefreshStage::Resubscribing => WatchlistRefreshAction::Resubscribe,
            WatchlistRefreshStage::Done => WatchlistRefreshAction::Done,
        }
    }

    /// Takes in a report and says which call to make next.
    ///
    /// A report that the refresh does not wait for changes nothing, and the
    /// answer repeats the call that it does wait for. Where the watchlist itself
    /// could not be fetched, the refresh ends and everything stays as it was.
    pub fn refresh_watchlist(
        &mut self,
        watchlist: &mut Watchlist,
        stocks: &mut StockStore,
        event: WatchlistRefreshEvent,
    ) -> (r: WatchlistRefreshAction)
        requires
            old(stocks).wf(),
        ensures
            final(stocks).wf(),
            final(watchlist).group_id == old(watchlist).group_id,
            r == watchlist_refresh_awaits(final(self).stage(), final(watchlist).group_id),
            !watchlist_refresh_accepts(old(self).stage(), event) ==> {
                &&& final(self).stage() == old(self).stage()
                &&& final(stocks)@ == old(stocks)@
                &&& *final(watchlist) == *old(watchlist)
            },
            watchlist_refresh_accepts(old(self).stage(), event) ==> {
                &&& final(self).stage() == watchlist_refresh_next(
                    old(self).stage(),
                    event,
                    final(watchlist).counters@.len(),
                )
                &&& final(stocks)@ == watchlist_refresh_cache(
                    old(stocks)@,
                    event,
                    symbols(final(watchlist).counters@),
                )
            },
            // what the fetched lists do to the watchlist
            old(self).stage() is FetchingLists ==> match event {
                WatchlistRefreshEvent::Lists { watchlist: Some(fetched), holdings } => {
                    &&& symbols(final(watchlist).counters@) == listed_symbols(fetched.0@, holdings)
                    &&& final(watchlist).groups == fetched.1
                    &&& final(watchlist).hidden
                    &&& final(watchlist).sort_by == (0u8, 0u8, false)
                },
                _ => *final(watchlist) == *old(watchlist),
            },
            // the last step puts the rows in order
            old(self).stage() is Resubscribing && event is Resubscribed ==> {
                &&& symbols(final(watchlist).counters@).to_multiset() == symbols(
                    old(watchlist).counters@,
                ).to_multiset()
                &&& in_list_order(final(stocks)@, symbols(final(watchlist).counters@))
                &&& final(watchlist).groups == old(watchlist).groups
                &&& final(watchlist).hidden == old(watchlist).hidden
                &&& final(watchlist).sort_by == old(watchlist).sort_by
            },
            // no other step touches the watchlist
            !(old(self).stage() is FetchingLists) && !(old(self).stage() is Resubscribing)
                ==> *final(watchlist) == *old(watchlist),
    {
        match (self.stage, event) {
            (WatchlistRefreshStage::Created, WatchlistRefreshEvent::Begin) => {
                self.stage = WatchlistRefreshStage::FetchingLists;
            },
            (
                WatchlistRefreshStage::FetchingLists,
                WatchlistRefreshEvent::Lists { watchlist: fetched, holdings },
            ) => {
                match fetched {
                    None => {
                        self.stage = WatchlistRefreshStage::Done;
                    },
                    Some((counters, groups)) => {
                        watchlist.set_groups(groups);
                        match holdings {
                            Some(held) => watchlist.full_load(counters, held),
                            None => watchlist.load(counters),
                        }
                        watchlist.set_hidden(true);
                        watchlist.set_sortby((0, 0, false));
                        ensure_stocks(stocks, watchlist.counters());
                        self.stage = if watchlist.counters.len() == 0 {
                            WatchlistRefreshStage::Resubscribing
                        } else {
                            WatchlistRefreshStage::FetchingQuotes
                        };
                    },
                }
            },
            (WatchlistRefreshStage::FetchingQuotes, WatchlistRefreshEvent::Quotes(answer)) => {
                match answer {
                    Some(quotes) => merge_quotes(stocks, &quotes),
                    None => {},
                }
                self.stage = WatchlistRefreshStage::FetchingStaticInfo;
            },
            (
                WatchlistRefreshStage::FetchingStaticInfo,
                WatchlistRefreshEvent::StaticInfo(answer),
            ) => {
                match answer {
                    Some(infos) => merge_listings(stocks, &infos),
                    None => {},
                }
                self.stage = WatchlistRefreshStage::Resubscribing;
            },
            (WatchlistRefreshStage::Resubscribing, WatchlistRefreshEvent::Resubscribed) => {
                watchlist.refresh(stocks);
                self.stage = WatchlistRefreshStage::Done;
            },
            _ => {},
        }
        self.awaits(watchlist)
    }
}

/// What the live feed pushes for a symbol.
#[derive(Debug)]
pub enum PushEvent {
    Quote(PushQuote),
    Depth(SecurityDepth),
    /// Anything else: ignored.
    Other,
}

/// The market-data cache after an event for `symbol` was pushed.
pub open spec fn pushed_cache(
    cache: Map<Seq<char>, StockView>,
    symbol: Seq<char>,
    event: PushEvent,
) -> Map<Seq<char>, StockView> {
    match event {
        PushEvent::Quote(quote) => cache.insert(
            symbol,
            with_push_quote(entry_or_blank(cache, symbol), quote),
        ),
        PushEvent::Depth(depth) => cache.insert(
            symbol,
            with_depth(entry_or_blank(cache, symbol), depth),
        ),
        PushEvent::Other => cache,
    }
}

/// The display regions that a pushed event makes stale.
pub open spec fn pushed_regions(event: PushEvent) -> u32 {
    match event {
        PushEvent::Quote(_) => quote_regions(),
        PushEvent::Depth(_) => depth_regions(),
        PushEvent::Other => 0,
    }
}

/// Takes in an event that the live feed pushed for `symbol` at time `now`.
///
/// A quote or an order book is merged into the state of the symbol, and the
/// display regions that show it are marked stale. After a quote, the alert
/// rules are evaluated against the new state; the answer lists the rules that
/// fired.
pub fn handle_push(
    stocks: &mut StockStore,
    alerts: &mut AlertStore,
    render: &mut RenderState,
    symbol: &str,
    event: PushEvent,
    now: i64,
) -> (r: Vec<usize>)
    requires
        old(stocks).wf(),
    ensures
        final(stocks).wf(),
        final(stocks)@ == pushed_cache(old(stocks)@, symbol@, event),
        final(render)@ == (RenderStateView {
            dirty: old(render)@.dirty | pushed_regions(event),
            ..old(render)@
        }),
        final(alerts).version == old(alerts).version,
        event is Quote ==> {
            &&& rules_view(final(alerts).rules@) == rules_view(old(alerts).rules@).map_values(
                |rule: AlertRuleView| evaluated(rule, symbol@, final(stocks)@[symbol@], now),
            )
            &&& r@ == fired(rules_view(old(alerts).rules@), symbol@, final(stocks)@[symbol@], now)
        },
        !(event is Quote) ==> *final(alerts) == *old(alerts) && r@.len() == 0,
{
    let counter = Counter::new(symbol);
    match event {
        PushEvent::Quote(quote) => {
            stocks.merge_push_quote(&counter, &quote);
            let hits = match stocks.get(&counter) {
                Some(stock) => evaluate_quote(alerts, symbol, &stock, now),
                None => Vec::new(),
            };
            render.mark_dirty(DirtyFlags::none().mark_quote_update());
            assert(0u32 | quote_regions() == quote_regions()) by (bit_vector);
            hits
        },
        PushEvent::Depth(depth) => {
            stocks.merge_depth(&counter, &depth);
            render.mark_dirty(DirtyFlags::none().mark_depth_update());
            assert(0u32 | depth_regions() == depth_regions()) by (bit_vector);
            Vec::new()
        },
        PushEvent::Other => {
            assert(render@.dirty | 0u32 == render@.dirty) by (bit_vector);
            Vec::new()
        },
    }
}

} // verus!
