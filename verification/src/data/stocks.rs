//! The cache of market data: the latest known state of each instrument, by symbol.

use super::feed::{PushQuote, SecurityDepth, SecurityQuote, SecurityStaticInfo, Trade};
use super::stock::{
    blank_stock, with_depth, with_push_quote, with_security_quote, with_static_info, with_trades,
    Stock, StockView,
};
use super::types::Counter;
use dashmap::DashMap;
use std::sync::Arc;
use vstd::prelude::*;

verus! {

/// `dashmap::DashMap`, a concurrent hash map. Opaque to the verifier.
#[verifier::external_type_specification]
#[verifier::external_body]
#[verifier::reject_recursive_types(K)]
#[verifier::reject_recursive_types(V)]
#[verifier::reject_recursive_types(S)]
pub struct ExDashMap<K, V, S>(DashMap<K, V, S>);

/// The entries that a map of stocks holds, by the text of their key.
pub uninterp spec fn stocks_in(m: DashMap<String, Arc<Stock>>) -> Map<Seq<char>, Stock>;

/// `DashMap::new`: a map that holds nothing.
#[verifier::external_body]
fn map_new() -> (m: DashMap<String, Arc<Stock>>)
    ensures
        stocks_in(m) =~= Map::empty(),
{
    DashMap::new()
}

/// `DashMap::get`: a handle to the value stored under `key`, or `None` where the
/// map holds no such key. The handle shares the stored value.
#[verifier::external_body]
fn map_get(m: &DashMap<String, Arc<Stock>>, key: &str) -> (r: Option<Arc<Stock>>)
    ensures
        match r {
            Some(stock) => stocks_in(*m).contains_key(key@) && *stock == stocks_in(*m)[key@],
            None => !stocks_in(*m).contains_key(key@),
        },
{
    m.get(key).map(|entry| Arc::clone(entry.value()))
}

/// `DashMap::insert`: afterwards the map holds `value` under `key`, in place of
/// what it held there, and everything else as before.
#[verifier::external_body]
fn map_insert(m: &mut DashMap<String, Arc<Stock>>, key: String, value: Arc<Stock>)
    ensures
        stocks_in(*final(m)) == stocks_in(*old(m)).insert(key@, *value),
{
    m.insert(key, value);
}

/// `DashMap::remove`: afterwards the map holds nothing under `key`, and
/// everything else as before.
#[verifier::external_body]
fn map_remove(m: &mut DashMap<String, Arc<Stock>>, key: &str)
    ensures
        stocks_in(*final(m)) == stocks_in(*old(m)).remove(key@),
{
    m.remove(key);
}

/// `DashMap::clear`: afterwards the map holds nothing.
#[verifier::external_body]
fn map_clear(m: &mut DashMap<String, Arc<Stock>>)
    ensures
        stocks_in(*final(m)) =~= Map::empty(),
{
    m.clear();
}

/// `DashMap::len`: the number of entries.
#[verifier::external_body]
fn map_len(m: &DashMap<String, Arc<Stock>>) -> (n: usize)
    ensures
        n == stocks_in(*m).dom().len(),
{
    m.len()
}

/// `DashMap::is_empty`: whether the map holds nothing.
#[verifier::external_body]
fn map_is_empty(m: &DashMap<String, Arc<Stock>>) -> (r: bool)
    ensures
        r == (stocks_in(*m) =~= Map::empty()),
{
    m.is_empty()
}

/// The entry of `counter` in `cache`, or a blank one where the cache has none.
pub open spec fn entry_or_blank(cache: Map<Seq<char>, StockView>, counter: Seq<char>) -> StockView {
    if cache.contains_key(counter) {
        cache[counter]
    } else {
        blank_stock(counter)
    }
}

/// A listing merged into an entry: the listing's name becomes the entry's name,
/// and its static information takes the place of the stored one.
pub open spec fn with_listing(s: StockView, info: SecurityStaticInfo) -> StockView {
    StockView { name: info.name_cn@, ..with_static_info(s, info) }
}

/// The blank entry that stands in for an instrument until data arrives: it shows
/// the symbol for a name.
pub open spec fn placeholder(symbol: Seq<char>) -> StockView {
    StockView { name: symbol, ..blank_stock(symbol) }
}

/// The cache with an entry for `symbol`: the one it has, or else a placeholder.
pub open spec fn with_placeholder(
    cache: Map<Seq<char>, StockView>,
    symbol: Seq<char>,
) -> Map<Seq<char>, StockView> {
    if cache.contains_key(symbol) {
        cache
    } else {
        cache.insert(symbol, placeholder(symbol))
    }
}

/// Every entry of `cache` stands under the symbol that it is the state of.
pub open spec fn keyed_by_symbol(cache: Map<Seq<char>, StockView>) -> bool {
    forall|symbol: Seq<char>| #[trigger]
        cache.contains_key(symbol) ==> cache[symbol].counter == symbol
}

/// The cache of market data.
///
/// It maps the text of a symbol to the latest state of that instrument. A reader
/// gets a shared handle to the state as it was when read; later updates put a
/// new state in the cache and leave the handle as it is.
pub struct StockStore {
    inner: DashMap<String, Arc<Stock>>,
}

impl View for StockStore {
    type V = Map<Seq<char>, StockView>;

    closed spec fn view(&self) -> Map<Seq<char>, StockView> {
        stocks_in(self.inner).map_values(|s: Stock| s@)
    }
}

impl StockStore {
    /// The cache is in order: every entry stands under its own symbol. A new
    /// cache is, and every operation keeps it so.
    pub open spec fn wf(&self) -> bool {
        keyed_by_symbol(self@)
    }

    pub fn new() -> (r: Self)
        ensures
            r@ =~= Map::empty(),
            r.wf(),
    {
        StockStore { inner: map_new() }
    }

    /// The state of one instrument, if the cache has it.
    pub fn get(&self, counter: &Counter) -> (r: Option<Arc<Stock>>)
        ensures
            match r {
                Some(stock) => self@.contains_key(counter@) && stock@ == self@[counter@],
                None => !self@.contains_key(counter@),
            },
    {
        map_get(&self.inner, counter.as_str())
    }

    /// The states of several instruments, in the order asked.
    pub fn mget(&self, counters: &[Counter]) -> (r: Vec<Option<Arc<Stock>>>)
        ensures
            r@.len() == counters@.len(),
            forall|i: int|
                0 <= i < counters@.len() ==> match #[trigger] r@[i] {
                    Some(stock) => self@.contains_key(counters@[i]@) && stock@
                        == self@[counters@[i]@],
                    None => !self@.contains_key(counters@[i]@),
                },
    {
        let mut r: Vec<Option<Arc<Stock>>> = Vec::new();
        let mut n: usize = 0;
        while n < counters.len()
            invariant
                n <= counters@.len(),
                r@.len() == n,
                forall|i: int|
                    0 <= i < n ==> match #[trigger] r@[i] {
                        Some(stock) => self@.contains_key(counters@[i]@) && stock@
                            == self@[counters@[i]@],
                        None => !self@.contains_key(counters@[i]@),
                    },
            decreases counters@.len() - n,
        {
            r.push(self.get(&counters[n]));
            n = n + 1;
        }
        r
    }

    /// Puts a state in the cache, under its own symbol, in place of any earlier one.
    pub fn insert(&mut self, stock: Stock)
        ensures
            final(self)@ == old(self)@.insert(stock@.counter, stock@),
            old(self).wf() ==> final(self).wf(),
    {
        let key = String::from_str(stock.counter.as_str());
        let ghost before = stocks_in(self.inner);
        map_insert(&mut self.inner, key, Arc::new(stock));
        assert(before.insert(stock@.counter, stock).map_values(|s: Stock| s@) =~= before.map_values(
            |s: Stock| s@,
        ).insert(stock@.counter, stock@));
    }

    /// A private copy of the state of `counter`, blank where the cache has none.
    fn snapshot(&self, counter: &Counter) -> (r: Stock)
        ensures
            r@ == entry_or_blank(self@, counter@),
            self.wf() ==> r@.counter == counter@,
    {
        match self.get(counter) {
            Some(stock) => (*stock).clone(),
            None => Stock::new(counter.clone()),
        }
    }

    /// Read, copy, update: `f` gets a private copy of the state of `counter`, blank
    /// where the cache has none, and what it returns is put in the cache under
    /// its symbol.
    pub fn modify<F: FnOnce(Stock) -> Stock>(&mut self, counter: Counter, f: F)
        requires
            forall|base: Stock|
                base@ == entry_or_blank(old(self)@, counter@) ==> #[trigger] f.requires((base,)),
        ensures
            exists|base: Stock, changed: Stock|
                {
                    &&& base@ == entry_or_blank(old(self)@, counter@)
                    &&& #[trigger] f.ensures((base,), changed)
                    &&& final(self)@ == old(self)@.insert(changed@.counter, changed@)
                },
            old(self).wf() ==> final(self).wf(),
    {
        let base = self.snapshot(&counter);
        let ghost given = base;
        let changed = f(base);
        let ghost got = changed;
        self.insert(changed);
        assert(f.ensures((given,), got));
    }

    /// Merges a pushed quote into the state of `counter`.
    pub fn merge_push_quote(&mut self, counter: &Counter, quote: &PushQuote)
        requires
            old(self).wf(),
        ensures
            final(self).wf(),
            final(self)@ == old(self)@.insert(
                counter@,
                with_push_quote(entry_or_blank(old(self)@, counter@), *quote),
            ),
    {
        let mut stock = self.snapshot(counter);
        stock.update_from_push_quote(quote);
        self.insert(stock);
    }

    /// Merges a pulled quote into the state of `counter`.
    pub fn merge_security_quote(&mut self, counter: &Counter, quote: &SecurityQuote)
        requires
            old(self).wf(),
        ensures
            final(self).wf(),
            final(self)@ == old(self)@.insert(
                counter@,
                with_security_quote(entry_or_blank(old(self)@, counter@), *quote),
            ),
    {
        let mut stock = self.snapshot(counter);
        stock.update_from_security_quote(quote);
        self.insert(stock);
    }

    /// Replaces the order book in the state of `counter`.
    pub fn merge_depth(&mut self, counter: &Counter, depth: &SecurityDepth)
        requires
            old(self).wf(),
        ensures
            final(self).wf(),
            final(self)@ == old(self)@.insert(
                counter@,
                with_depth(entry_or_blank(old(self)@, counter@), *depth),
            ),
    {
        let mut stock = self.snapshot(counter);
        stock.update_from_depth(depth);
        self.insert(stock);
    }

    /// Replaces the recent trades in the state of `counter`.
    pub fn merge_trades(&mut self, counter: &Counter, trades: &Vec<Trade>)
        requires
            old(self).wf(),
        ensures
            final(self).wf(),
            final(self)@ == old(self)@.insert(
                counter@,
                with_trades(entry_or_blank(old(self)@, counter@), trades@),
            ),
    {
        let mut stock = self.snapshot(counter);
        stock.update_from_trades(trades);
        self.insert(stock);
    }

    /// Replaces the static information in the state of `counter`.
    pub fn merge_static_info(&mut self, counter: &Counter, info: &SecurityStaticInfo)
        requires
            old(self).wf(),
        ensures
            final(self).wf(),
            final(self)@ == old(self)@.insert(
                counter@,
                with_static_info(entry_or_blank(old(self)@, counter@), *info),
            ),
    {
        let mut stock = self.snapshot(counter);
        stock.update_from_static_info(info);
        self.insert(stock);
    }

    /// Stores what a listing says of `counter`: its name, and the static
    /// information as a whole.
    pub fn merge_listing(&mut self, counter: &Counter, info: &SecurityStaticInfo)
        requires
            old(self).wf(),
        ensures
            final(self).wf(),
            final(self)@ == old(self)@.insert(
                counter@,
                with_listing(entry_or_blank(old(self)@, counter@), *info),
            ),
    {
        let mut stock = self.snapshot(counter);
        stock.name = info.name_cn.clone();
        stock.update_from_static_info(info);
        self.insert(stock);
    }

    /// Makes sure that the cache has a state for `counter`: where it has none, it
    /// gets a blank one that shows the symbol for a name.
    pub fn ensure(&mut self, counter: &Counter)
        requires
            old(self).wf(),
        ensures
            final(self).wf(),
            final(self)@ == with_placeholder(old(self)@, counter@),
    {
        if self.get(counter).is_none() {
            let mut stock = Stock::new(counter.clone());
            stock.name = String::from_str(counter.as_str());
            self.insert(stock);
        }
    }

    /// Whether static information is still to be fetched for `counter`: the cache
    /// has a state for it, without static information.
    pub fn lacks_static_info(&self, counter: &Counter) -> (r: bool)
        ensures
            r == (self@.contains_key(counter@) && self@[counter@].static_info is None),
    {
        match self.get(counter) {
            Some(stock) => stock.static_info.is_none(),
            None => false,
        }
    }

    /// Drops the state of one instrument.
    pub fn remove(&mut self, counter: &Counter)
        ensures
            final(self)@ == old(self)@.remove(counter@),
            old(self).wf() ==> final(self).wf(),
    {
        let ghost before = stocks_in(self.inner);
        map_remove(&mut self.inner, counter.as_str());
        assert(before.remove(counter@).map_values(|s: Stock| s@) =~= before.map_values(
            |s: Stock| s@,
        ).remove(counter@));
    }

    /// Drops every state.
    pub fn clear(&mut self)
        ensures
            final(self)@ =~= Map::empty(),
            final(self).wf(),
    {
        map_clear(&mut self.inner);
    }

    /// How many instruments the cache holds.
    pub fn len(&self) -> (n: usize)
        ensures
            n == self@.dom().len(),
    {
        let n = map_len(&self.inner);
        assert(self@.dom() =~= stocks_in(self.inner).dom());
        n
    }

    pub fn is_empty(&self) -> (r: bool)
        ensures
            r == (self@ =~= Map::empty()),
    {
        let r = map_is_empty(&self.inner);
        proof {
            let inner = stocks_in(self.inner);
            if inner =~= Map::empty() {
                assert(self@ =~= Map::empty());
            } else {
                let k = choose|k: Seq<char>| inner.contains_key(k);
                assert(inner.contains_key(k));
                assert(self@.contains_key(k));
            }
        }
        r
    }
}

impl Default for StockStore {
    fn default() -> (r: Self)
        ensures
            r@ =~= Map::empty(),
            r.wf(),
    {
        StockStore::new()
    }
}

/// What is read after an insert is what was inserted; every other symbol reads
/// as before.
pub proof fn lemma_get_after_insert(
    cache: Map<Seq<char>, StockView>,
    stock: StockView,
    symbol: Seq<char>,
)
    ensures
        cache.insert(stock.counter, stock).contains_key(stock.counter),
        cache.insert(stock.counter, stock)[stock.counter] == stock,
        symbol != stock.counter ==> cache.insert(stock.counter, stock).contains_key(symbol)
            == cache.contains_key(symbol),
        symbol != stock.counter && cache.contains_key(symbol) ==> cache.insert(
            stock.counter,
            stock,
        )[symbol] == cache[symbol],
{
}

/// Merging a pushed quote into the cache changes, in the state of that symbol,
/// the last, open, high and low prices, the volume, the turnover, the time, the
/// trading status and the trading session, and nothing else: the previous close
/// is the one that was there, and so are the name, the currency, the order book,
/// the static information and the trades.
pub proof fn lemma_push_quote_is_partial(
    cache: Map<Seq<char>, StockView>,
    counter: Seq<char>,
    quote: PushQuote,
)
    ensures
        ({
            let before = entry_or_blank(cache, counter);
            let after = cache.insert(counter, with_push_quote(before, quote))[counter];
            &&& after.quote.prev_close == before.quote.prev_close
            &&& after.quote.last_done == Some(quote.last_done)
            &&& after.quote.open == Some(quote.open)
            &&& after.quote.high == Some(quote.high)
            &&& after.quote.low == Some(quote.low)
            &&& after.quote.turnover == quote.turnover
            &&& after.quote.timestamp == quote.timestamp
            &&& after.trade_status == quote.trade_status
            &&& after.trade_session == quote.trade_session
            &&& after.counter == before.counter
            &&& after.name == before.name
            &&& after.currency == before.currency
            &&& after.depth == before.depth
            &&& after.static_info == before.static_info
            &&& after.trades == before.trades
        }),
{
}

} // verus!
