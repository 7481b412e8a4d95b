//! The watchlist: the symbols on display, their groups, and the order of the rows.

use super::stocks::StockStore;
use super::stock::StockView;
use super::types::{code_of, market_of, Counter, TradeSessionExt};
use crate::text::{
    chars_lt, chars_of, lemma_text_lt_irreflexive, lemma_text_lt_total, lemma_text_lt_transitive,
    same_chars, same_text, text_lt,
};
use vstd::prelude::*;
use vstd::seq_lib::to_multiset_insert;

verus! {

/// A named group of the watchlist.
#[derive(Debug)]
pub struct WatchlistGroup {
    pub id: u64,
    pub name: String,
}

impl Clone for WatchlistGroup {
    fn clone(&self) -> (r: Self)
        ensures
            r == *self,
    {
        WatchlistGroup { id: self.id, name: self.name.clone() }
    }
}

/// The texts of a list of symbols.
pub open spec fn symbols(counters: Seq<Counter>) -> Seq<Seq<char>> {
    counters.map_values(|c: Counter| c@)
}

/// The list `s` without repetitions: each text stays where it first occurs.
pub open spec fn deduped(s: Seq<Seq<char>>) -> Seq<Seq<char>>
    decreases s.len(),
{
    if s.len() == 0 {
        Seq::empty()
    } else if deduped(s.drop_last()).contains(s.last()) {
        deduped(s.drop_last())
    } else {
        deduped(s.drop_last()).push(s.last())
    }
}

/// A deduplicated list holds every text of the given list exactly once.
pub proof fn lemma_deduped(s: Seq<Seq<char>>)
    ensures
        deduped(s).no_duplicates(),
        forall|x: Seq<char>| deduped(s).contains(x) <==> s.contains(x),
        deduped(s).len() <= s.len(),
    decreases s.len(),
{
    if s.len() > 0 {
        let init = s.drop_last();
        lemma_deduped(init);
        let d = deduped(init);
        assert forall|x: Seq<char>| deduped(s).contains(x) <==> s.contains(x) by {
            if s.contains(x) {
                let i = choose|i: int| 0 <= i < s.len() && s[i] == x;
                if i < s.len() - 1 {
                    assert(init[i] == x);
                    assert(init.contains(x));
                    assert(d.contains(x));
                    let j = choose|j: int| 0 <= j < d.len() && d[j] == x;
                    assert(deduped(s)[j] == x);
                } else if !d.contains(x) {
                    assert(deduped(s)[d.len() as int] == x);
                }
            }
            if deduped(s).contains(x) {
                let j = choose|j: int| 0 <= j < deduped(s).len() && deduped(s)[j] == x;
                if j < d.len() {
                    assert(d[j] == x);
                    assert(d.contains(x));
                    assert(init.contains(x));
                    let i = choose|i: int| 0 <= i < init.len() && init[i] == x;
                    assert(s[i] == x);
                } else {
                    assert(s[s.len() - 1] == x);
                }
            }
        }
    }
}

/// Place of a market suffix in the order of the rows: US, HK, mainland China
/// (`CN`, `SH`, `SZ`), SG, then every other suffix.
pub open spec fn market_rank(market: Seq<char>) -> int {
    if market == "US"@ {
        0
    } else if market == "HK"@ {
        1
    } else if market == "CN"@ || market == "SH"@ || market == "SZ"@ {
        2
    } else if market == "SG"@ {
        3
    } else {
        99
    }
}

/// Whether the cache knows the instrument to be in its regular trading session.
pub open spec fn in_session(cache: Map<Seq<char>, StockView>, symbol: Seq<char>) -> bool {
    cache.contains_key(symbol) && cache[symbol].trade_session.normal_trading()
}

/// What decides the place of a row.
pub struct RowRank {
    /// The instrument is not in its regular trading session.
    pub idle: bool,
    pub market: int,
    pub code: Seq<char>,
    pub symbol: Seq<char>,
}

/// The rank of the row of `symbol`.
pub open spec fn row_rank(cache: Map<Seq<char>, StockView>, symbol: Seq<char>) -> RowRank {
    RowRank {
        idle: !in_session(cache, symbol),
        market: market_rank(market_of(symbol)),
        code: code_of(symbol),
        symbol,
    }
}

/// The order of the rows: instruments in their regular session first, then by
/// market, then by code; two rows that agree in all three go by their full text.
pub open spec fn rank_before(a: RowRank, b: RowRank) -> bool {
    if a.idle != b.idle {
        !a.idle
    } else if a.market != b.market {
        a.market < b.market
    } else if a.code != b.code {
        text_lt(a.code, b.code)
    } else {
        text_lt(a.symbol, b.symbol)
    }
}

/// The row of `a` comes strictly before the row of `b`.
pub open spec fn listed_before(cache: Map<Seq<char>, StockView>, a: Seq<char>, b: Seq<char>) -> bool {
    rank_before(row_rank(cache, a), row_rank(cache, b))
}

/// No row of `s` stands after a row that it comes strictly before.
pub open spec fn in_list_order(cache: Map<Seq<char>, StockView>, s: Seq<Seq<char>>) -> bool {
    forall|i: int, j: int| 0 <= i < j < s.len() ==> !listed_before(cache, s[j], s[i])
}

/// If `c` does not come before `b`, and `b` does not come before `a`, then `c`
/// does not come before `a`.
pub proof fn lemma_rank_order(a: RowRank, b: RowRank, c: RowRank)
    requires
        !rank_before(b, a),
        !rank_before(c, b),
    ensures
        !rank_before(c, a),
{
    lemma_text_lt_total(a.code, b.code);
    lemma_text_lt_total(b.code, c.code);
    lemma_text_lt_total(a.code, c.code);
    lemma_text_lt_total(a.symbol, b.symbol);
    lemma_text_lt_total(b.symbol, c.symbol);
    lemma_text_lt_total(a.symbol, c.symbol);
    lemma_text_lt_irreflexive(a.code);
    lemma_text_lt_irreflexive(a.symbol);
    lemma_text_lt_irreflexive(b.code);
    lemma_text_lt_irreflexive(b.symbol);
    if text_lt(a.code, b.code) && text_lt(b.code, c.code) {
        lemma_text_lt_transitive(a.code, b.code, c.code);
    }
    if text_lt(c.code, a.code) && text_lt(a.code, b.code) {
        lemma_text_lt_transitive(c.code, a.code, b.code);
    }
    if text_lt(b.code, c.code) && text_lt(c.code, a.code) {
        lemma_text_lt_transitive(b.code, c.code, a.code);
    }
    if text_lt(a.symbol, b.symbol) && text_lt(b.symbol, c.symbol) {
        lemma_text_lt_transitive(a.symbol, b.symbol, c.symbol);
    }
    if text_lt(c.symbol, a.symbol) && text_lt(a.symbol, b.symbol) {
        lemma_text_lt_transitive(c.symbol, a.symbol, b.symbol);
    }
    if text_lt(b.symbol, c.symbol) && text_lt(c.symbol, a.symbol) {
        lemma_text_lt_transitive(b.symbol, c.symbol, a.symbol);
    }
}

/// In a list in row order, of any two rows the earlier one is in session if the
/// later one is; where both are in the same session state, the earlier one's
/// market ranks no later (US, HK, CN, SG); and where they also share the market,
/// the earlier one's code is not the greater.
pub proof fn lemma_list_order(
    cache: Map<Seq<char>, StockView>,
    s: Seq<Seq<char>>,
    i: int,
    j: int,
)
    requires
        in_list_order(cache, s),
        0 <= i < j < s.len(),
    ensures
        in_session(cache, s[j]) ==> in_session(cache, s[i]),
        in_session(cache, s[i]) == in_session(cache, s[j]) ==> market_rank(market_of(s[i]))
            <= market_rank(market_of(s[j])),
        in_session(cache, s[i]) == in_session(cache, s[j]) && market_rank(market_of(s[i]))
            == market_rank(market_of(s[j])) ==> !text_lt(code_of(s[j]), code_of(s[i])),
{
    assert(!listed_before(cache, s[j], s[i]));
    lemma_text_lt_irreflexive(code_of(s[i]));
}

/// Two rows of which neither comes before the other are rows of one symbol.
pub proof fn lemma_rank_decides(a: RowRank, b: RowRank)
    requires
        !rank_before(a, b),
        !rank_before(b, a),
    ensures
        a.symbol == b.symbol,
{
    lemma_text_lt_total(a.code, b.code);
    lemma_text_lt_total(a.symbol, b.symbol);
}

/// The order of the rows is settled by the symbols alone: two lists in row
/// order that hold the same symbols, each as often as the other, are the same
/// list.
pub proof fn lemma_list_order_unique(
    cache: Map<Seq<char>, StockView>,
    a: Seq<Seq<char>>,
    b: Seq<Seq<char>>,
)
    requires
        in_list_order(cache, a),
        in_list_order(cache, b),
        a.to_multiset() == b.to_multiset(),
    ensures
        a == b,
    decreases a.len(),
{
    vstd::seq_lib::to_multiset_len(a);
    vstd::seq_lib::to_multiset_len(b);
    if a.len() == 0 {
        assert(a =~= b);
    } else {
        // the first row of each list stands somewhere in the other
        vstd::seq_lib::to_multiset_contains(a, a[0]);
        vstd::seq_lib::to_multiset_contains(b, a[0]);
        vstd::seq_lib::to_multiset_contains(a, b[0]);
        vstd::seq_lib::to_multiset_contains(b, b[0]);
        assert(a.contains(a[0]));
        assert(b.contains(a[0]));
        let i = choose|i: int| 0 <= i < b.len() && b[i] == a[0];
        assert(b.contains(b[0]));
        assert(a.contains(b[0]));
        let j = choose|j: int| 0 <= j < a.len() && a[j] == b[0];
        lemma_text_lt_irreflexive(row_rank(cache, a[0]).code);
        lemma_text_lt_irreflexive(row_rank(cache, a[0]).symbol);
        if i > 0 {
            assert(!listed_before(cache, b[i], b[0]));
        }
        if j > 0 {
            assert(!listed_before(cache, a[j], a[0]));
        }
        assert(!rank_before(row_rank(cache, a[0]), row_rank(cache, b[0])));
        assert(!rank_before(row_rank(cache, b[0]), row_rank(cache, a[0])));
        lemma_rank_decides(row_rank(cache, a[0]), row_rank(cache, b[0]));
        assert(a[0] == b[0]);
        let ra = a.drop_first();
        let rb = b.drop_first();
        assert(ra =~= a.remove(0));
        assert(rb =~= b.remove(0));
        vstd::seq_lib::to_multiset_remove(a, 0);
        vstd::seq_lib::to_multiset_remove(b, 0);
        assert forall|x: int, y: int| 0 <= x < y < ra.len() implies !listed_before(
            cache,
            ra[y],
            ra[x],
        ) by {
            assert(!listed_before(cache, a[y + 1], a[x + 1]));
        }
        assert forall|x: int, y: int| 0 <= x < y < rb.len() implies !listed_before(
            cache,
            rb[y],
            rb[x],
        ) by {
            assert(!listed_before(cache, b[y + 1], b[x + 1]));
        }
        lemma_list_order_unique(cache, ra, rb);
        assert(a =~= seq![a[0]] + ra);
        assert(b =~= seq![b[0]] + rb);
    }
}

struct Row {
    idle: bool,
    market: u8,
    code: Vec<char>,
    symbol: Vec<char>,
    counter: Counter,
}

impl Row {
    spec fn rank(self) -> RowRank {
        RowRank { idle: self.idle, market: self.market as int, code: self.code@, symbol: self.symbol@ }
    }

    spec fn of(self, cache: Map<Seq<char>, StockView>) -> bool {
        self.rank() == row_rank(cache, self.counter@)
    }

    fn before(&self, other: &Row) -> (r: bool)
        ensures
            r == rank_before(self.rank(), other.rank()),
    {
        if self.idle != other.idle {
            !self.idle
        } else if self.market != other.market {
            self.market < other.market
        } else if !same_chars(&self.code, &other.code) {
            chars_lt(&self.code, &other.code)
        } else {
            chars_lt(&self.symbol, &other.symbol)
        }
    }
}

spec fn row_symbols(rows: Seq<Row>) -> Seq<Seq<char>> {
    rows.map_values(|r: Row| r.counter@)
}

spec fn rows_of(rows: Seq<Row>, cache: Map<Seq<char>, StockView>) -> bool {
    forall|i: int| 0 <= i < rows.len() ==> (#[trigger] rows[i]).of(cache)
}

/// The place of a market suffix in the order of the rows.
pub fn market_priority(market: &str) -> (r: u8)
    ensures
        r as int == market_rank(market@),
{
    if same_text(market, "US") {
        0
    } else if same_text(market, "HK") {
        1
    } else if same_text(market, "CN") || same_text(market, "SH") || same_text(market, "SZ") {
        2
    } else if same_text(market, "SG") {
        3
    } else {
        99
    }
}

/// Whether `list` holds a symbol with the text of `counter`.
pub fn holds_symbol(list: &Vec<Counter>, counter: &Counter) -> (r: bool)
    ensures
        r == symbols(list@).contains(counter@),
{
    let mut i: usize = 0;
    while i < list.len()
        invariant
            i <= list.len(),
            forall|j: int| 0 <= j < i ==> symbols(list@)[j] != counter@,
        decreases list.len() - i,
    {
        if list[i].same_as(counter) {
            assert(symbols(list@)[i as int] == counter@);
            return true;
        }
        i = i + 1;
    }
    false
}

/// Appends to `all` the symbols of `more` that it does not hold yet.
fn extend_deduped(all: &mut Vec<Counter>, more: Vec<Counter>, Ghost(seen): Ghost<Seq<Seq<char>>>)
    requires
        symbols(old(all)@) == deduped(seen),
    ensures
        symbols(final(all)@) == deduped(seen + symbols(more@)),
{
    let mut n: usize = 0;
    assert(seen + symbols(more@).take(0) =~= seen);
    while n < more.len()
        invariant
            n <= more.len(),
            symbols(all@) == deduped(seen + symbols(more@).take(n as int)),
        decreases more.len() - n,
    {
        let ghost prefix = seen + symbols(more@).take(n as int);
        let ghost next = seen + symbols(more@).take(n + 1);
        assert(next.drop_last() =~= prefix);
        assert(next.last() == more@[n as int]@);
        if !holds_symbol(all, &more[n]) {
            let ghost before = symbols(all@);
            all.push(more[n].clone());
            assert(symbols(all@) =~= before.push(more@[n as int]@));
        }
        n = n + 1;
    }
    assert(symbols(more@).take(more.len() as int) =~= symbols(more@));
}

/// The watchlist.
#[derive(Debug)]
pub struct Watchlist {
    pub group_id: Option<u64>,
    pub counters: Vec<Counter>,
    pub groups: Vec<WatchlistGroup>,
    pub hidden: bool,
    /// Sort mode, sort column, and whether the order is reversed.
    pub sort_by: (u8, u8, bool),
}

impl Watchlist {
    pub fn new() -> (r: Self)
        ensures
            r.group_id is None,
            r.counters@.len() == 0,
            r.groups@.len() == 0,
            !r.hidden,
            r.sort_by == (0u8, 0u8, false),
    {
        Watchlist {
            group_id: None,
            counters: Vec::new(),
            groups: Vec::new(),
            hidden: false,
            sort_by: (0, 0, false),
        }
    }

    pub fn set_group_id(&mut self, id: u64)
        ensures
            *final(self) == (Watchlist { group_id: Some(id), ..*old(self) }),
    {
        self.group_id = Some(id);
    }

    pub fn set_counters(&mut self, counters: Vec<Counter>)
        ensures
            *final(self) == (Watchlist { counters, ..*old(self) }),
    {
        self.counters = counters;
    }

    pub fn counters(&self) -> (r: &[Counter])
        ensures
            r@ == self.counters@,
    {
        self.counters.as_slice()
    }

    /// Loads the watchlist together with the holdings: the watchlist's symbols
    /// first, then the holdings not yet among them, each symbol once.
    pub fn full_load(&mut self, watchlist_counters: Vec<Counter>, holdings: Vec<Counter>)
        ensures
            symbols(final(self).counters@) == deduped(
                symbols(watchlist_counters@) + symbols(holdings@),
            ),
            final(self).group_id == old(self).group_id,
            final(self).groups == old(self).groups,
            final(self).hidden == old(self).hidden,
            final(self).sort_by == old(self).sort_by,
    {
        let mut all: Vec<Counter> = Vec::new();
        assert(symbols(all@) =~= deduped(Seq::empty()));
        extend_deduped(&mut all, watchlist_counters, Ghost(Seq::empty()));
        assert(Seq::<Seq<char>>::empty() + symbols(watchlist_counters@) =~= symbols(
            watchlist_counters@,
        ));
        extend_deduped(&mut all, holdings, Ghost(symbols(watchlist_counters@)));
        self.counters = all;
    }

    /// Loads the watchlist, each symbol once, where it first occurs.
    pub fn load(&mut self, counters: Vec<Counter>)
        ensures
            symbols(final(self).counters@) == deduped(symbols(counters@)),
            final(self).group_id == old(self).group_id,
            final(self).groups == old(self).groups,
            final(self).hidden == old(self).hidden,
            final(self).sort_by == old(self).sort_by,
    {
        let mut all: Vec<Counter> = Vec::new();
        assert(symbols(all@) =~= deduped(Seq::empty()));
        extend_deduped(&mut all, counters, Ghost(Seq::empty()));
        assert(Seq::<Seq<char>>::empty() + symbols(counters@) =~= symbols(counters@));
        self.counters = all;
    }

    pub fn set_hidden(&mut self, hidden: bool)
        ensures
            *final(self) == (Watchlist { hidden, ..*old(self) }),
    {
        self.hidden = hidden;
    }

    pub fn set_sortby(&mut self, sortby: (u8, u8, bool))
        ensures
            *final(self) == (Watchlist { sort_by: sortby, ..*old(self) }),
    {
        self.sort_by = sortby;
    }

    fn row_for(counter: &Counter, store: &StockStore) -> (r: Row)
        ensures
            r.of(store@),
            r.counter@ == counter@,
    {
        let trading = match store.get(counter) {
            Some(stock) => stock.trade_session.is_normal_trading(),
            None => false,
        };
        let symbol = chars_of(counter.as_str());
        let code = chars_of(counter.code());
        let market = market_priority(counter.market());
        Row { idle: !trading, market, code, symbol, counter: counter.clone() }
    }

    fn place(sorted: &mut Vec<Row>, row: Row, Ghost(cache): Ghost<Map<Seq<char>, StockView>>)
        requires
            rows_of(old(sorted)@, cache),
            row.of(cache),
            in_list_order(cache, row_symbols(old(sorted)@)),
        ensures
            rows_of(final(sorted)@, cache),
            in_list_order(cache, row_symbols(final(sorted)@)),
            row_symbols(final(sorted)@).to_multiset() == row_symbols(
                old(sorted)@,
            ).to_multiset().insert(row.counter@),
    {
        let mut at: usize = sorted.len();
        while at > 0 && row.before(&sorted[at - 1])
            invariant
                at <= sorted.len(),
                sorted@ == old(sorted)@,
                rows_of(sorted@, cache),
                row.of(cache),
                forall|j: int|
                    at <= j < sorted.len() ==> rank_before(row.rank(), (#[trigger] sorted@[j]).rank()),
            decreases at,
        {
            at = at - 1;
        }
        let ghost before = sorted@;
        let ghost texts = row_symbols(before);
        sorted.insert(at, row);
        proof {
            let after = sorted@;
            assert(row_symbols(after) =~= texts.insert(at as int, row.counter@));
            to_multiset_insert(texts, at as int, row.counter@);
            assert forall|i: int| 0 <= i < after.len() implies (#[trigger] after[i]).of(cache) by {
                if i < at {
                    assert(after[i] == before[i]);
                } else if i > at {
                    assert(after[i] == before[i - 1]);
                }
            }
            let t = row_symbols(after);
            assert forall|i: int, j: int| 0 <= i < j < t.len() implies !listed_before(
                cache,
                t[j],
                t[i],
            ) by {
                let oi = if i < at { i } else { i - 1 };
                let oj = if j < at { j } else { j - 1 };
                if i == at {
                    // the new row comes strictly before every row behind it
                    assert(after[j] == before[oj]);
                    assert(rank_before(row.rank(), before[oj].rank()));
                    lemma_text_lt_irreflexive(row.rank().code);
                    lemma_text_lt_irreflexive(row.rank().symbol);
                    if rank_before(before[oj].rank(), row.rank()) {
                        lemma_rank_asymmetric(row.rank(), before[oj].rank());
                    }
                } else if j == at {
                    // the row next before the new one does not come after it
                    assert(after[i] == before[oi]);
                    assert(!rank_before(row.rank(), before[at - 1].rank()));
                    if oi < at - 1 {
                        assert(!listed_before(cache, texts[at - 1], texts[oi]));
                        lemma_rank_order(before[oi].rank(), before[at - 1].rank(), row.rank());
                    }
                } else {
                    assert(after[i] == before[oi]);
                    assert(after[j] == before[oj]);
                    assert(!listed_before(cache, texts[oj], texts[oi]));
                }
            }
        }
    }

    /// Puts the rows in order: instruments that the cache knows to be in their
    /// regular trading session first, then by market (US, HK, mainland China, SG,
    /// others), then by code. The list keeps its symbols; only their order changes.
    pub fn refresh(&mut self, store: &StockStore)
        ensures
            symbols(final(self).counters@).to_multiset() == symbols(old(self).counters@).to_multiset(),
            in_list_order(store@, symbols(final(self).counters@)),
            final(self).group_id == old(self).group_id,
            final(self).groups == old(self).groups,
            final(self).hidden == old(self).hidden,
            final(self).sort_by == old(self).sort_by,
    {
        let ghost cache = store@;
        let ghost given = symbols(self.counters@);
        let mut sorted: Vec<Row> = Vec::new();
        let mut n: usize = 0;
        assert(row_symbols(sorted@) =~= Seq::empty());
        assert(given.take(0) =~= Seq::empty());
        while n < self.counters.len()
            invariant
                n <= self.counters.len(),
                cache == store@,
                given == symbols(self.counters@),
                rows_of(sorted@, cache),
                in_list_order(cache, row_symbols(sorted@)),
                row_symbols(sorted@).to_multiset() == given.take(n as int).to_multiset(),
                sorted@.len() == n,
            decreases self.counters.len() - n,
        {
            let row = Self::row_for(&self.counters[n], store);
            Self::place(&mut sorted, row, Ghost(cache));
            proof {
                assert(given.take(n + 1) =~= given.take(n as int).push(given[n as int]));
                vstd::seq_lib::to_multiset_build(given.take(n as int), given[n as int]);
                row_symbols(sorted@).to_multiset_ensures();
                given.take(n + 1).to_multiset_ensures();
            }
            n = n + 1;
        }
        assert(given.take(n as int) =~= given);
        let mut counters: Vec<Counter> = Vec::new();
        let mut k: usize = 0;
        while k < sorted.len()
            invariant
                k <= sorted.len(),
                symbols(counters@) == row_symbols(sorted@).take(k as int),
            decreases sorted.len() - k,
        {
            let ghost before = symbols(counters@);
            counters.push(sorted[k].counter.clone());
            assert(symbols(counters@) =~= before.push(sorted@[k as int].counter@));
            assert(row_symbols(sorted@).take(k + 1) =~= row_symbols(sorted@).take(k as int).push(
                sorted@[k as int].counter@,
            ));
            k = k + 1;
        }
        assert(row_symbols(sorted@).take(sorted.len() as int) =~= row_symbols(sorted@));
        self.counters = counters;
    }

    pub fn groups(&self) -> (r: &[WatchlistGroup])
        ensures
            r@ == self.groups@,
    {
        self.groups.as_slice()
    }

    pub fn set_groups(&mut self, groups: Vec<WatchlistGroup>)
        ensures
            *final(self) == (Watchlist { groups, ..*old(self) }),
    {
        self.groups = groups;
    }

    /// The selected group: the first group with the selected id.
    pub fn group(&self) -> (r: Option<&WatchlistGroup>)
        ensures
            match r {
                Some(group) => exists|i: int|
                    {
                        &&& 0 <= i < self.groups@.len()
                        &&& self.groups@[i] == *group
                        &&& self.group_id == Some(group.id)
                        &&& forall|j: int| 0 <= j < i ==> Some(self.groups@[j].id) != self.group_id
                    },
                None => forall|j: int|
                    0 <= j < self.groups@.len() ==> Some(self.groups@[j].id) != self.group_id,
            },
    {
        let id = match self.group_id {
            Some(id) => id,
            None => {
                return None;
            },
        };
        let mut i: usize = 0;
        while i < self.groups.len()
            invariant
                i <= self.groups@.len(),
                self.group_id == Some(id),
                forall|j: int| 0 <= j < i ==> self.groups@[j].id != id,
            decreases self.groups@.len() - i,
        {
            if self.groups[i].id == id {
                return Some(&self.groups[i]);
            }
            i = i + 1;
        }
        None
    }
}

impl Default for Watchlist {
    fn default() -> (r: Self)
        ensures
            r.group_id is None,
            r.counters@.len() == 0,
            r.groups@.len() == 0,
            !r.hidden,
            r.sort_by == (0u8, 0u8, false),
    {
        Watchlist::new()
    }
}

/// Of two ranks, at most one comes strictly before the other.
pub proof fn lemma_rank_asymmetric(a: RowRank, b: RowRank)
    requires
        rank_before(a, b),
    ensures
        !rank_before(b, a),
{
    lemma_text_lt_irreflexive(a.code);
    lemma_text_lt_irreflexive(a.symbol);
    if text_lt(a.code, b.code) && text_lt(b.code, a.code) {
        lemma_text_lt_transitive(a.code, b.code, a.code);
    }
    if text_lt(a.symbol, b.symbol) && text_lt(b.symbol, a.symbol) {
        lemma_text_lt_transitive(a.symbol, b.symbol, a.symbol);
    }
}

} // verus!
