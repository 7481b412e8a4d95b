//! Cache of candlestick history: one ascending series per symbol, period and
//! adjustment, read page by page from its newest end.

use crate::data::{AdjustType, Candlestick, Counter, Kline, KlineType, Klines};
use crate::decimal::{decimal_of, decimal_from_i64, decimal_product, decimal_sum};
use rust_decimal::Decimal;
use vstd::pervasive::VecAdditionalExecFns;
use vstd::prelude::*;

verus! {

/// What a series is stored under: the symbol's text, the period, and the
/// adjustment after normalization.
pub type StoreKey = (Seq<char>, KlineType, AdjustType);

/// One stored series: the candles, oldest first, and whether older history may
/// still exist upstream.
pub struct Series {
    pub has_more: bool,
    pub klines: Seq<Kline>,
}

/// The adjustment that a period is stored and served with: periods up to one day
/// are never adjusted, whatever was asked for.
pub open spec fn normalize(kline_type: KlineType, adjust_type: AdjustType) -> AdjustType {
    if kline_type.above_daily() {
        adjust_type
    } else {
        AdjustType::NoAdjust
    }
}

/// The key that a request for `counter`, `kline_type` and `adjust_type` reads and writes.
pub open spec fn store_key(counter: Seq<char>, kline_type: KlineType, adjust_type: AdjustType)
    -> StoreKey {
    (counter, kline_type, normalize(kline_type, adjust_type))
}

/// The cache without the series of one symbol.
pub open spec fn without_symbol(cache: Map<StoreKey, Series>, symbol: Seq<char>) -> Map<
    StoreKey,
    Series,
> {
    cache.remove_keys(Set::new(|key: StoreKey| key.0 == symbol))
}

/// The series stored under `key`, empty where nothing is stored.
pub open spec fn stored_series(cache: Map<StoreKey, Series>, key: StoreKey) -> Seq<Kline> {
    if cache.contains_key(key) {
        cache[key].klines
    } else {
        Seq::empty()
    }
}

/// The cache after `batch` was merged into the series of the key, with `more`
/// for the key's flag.
pub open spec fn updated(
    cache: Map<StoreKey, Series>,
    counter: Seq<char>,
    kline_type: KlineType,
    adjust_type: AdjustType,
    batch: Seq<Kline>,
    more: bool,
) -> Map<StoreKey, Series> {
    let key = store_key(counter, kline_type, adjust_type);
    cache.insert(key, Series { has_more: more, klines: merged(stored_series(cache, key), batch) })
}

/// Timestamps strictly increase along the series: ascending, none twice.
pub open spec fn ascending(s: Seq<Kline>) -> bool {
    forall|i: int, j: int| 0 <= i < j < s.len() ==> s[i].timestamp < s[j].timestamp
}

/// The candle of `s` with timestamp `t`, if there is one.
pub open spec fn lookup(s: Seq<Kline>, t: i64) -> Option<Kline>
    decreases s.len(),
{
    if s.len() == 0 {
        None
    } else if s.last().timestamp == t {
        Some(s.last())
    } else {
        lookup(s.drop_last(), t)
    }
}

/// The series `s` with candle `c` put in: in place of the candle with the same
/// timestamp, or else at the place that keeps the series ascending.
pub open spec fn upsert(s: Seq<Kline>, c: Kline) -> Seq<Kline>
    decreases s.len(),
{
    if s.len() == 0 {
        seq![c]
    } else if s.last().timestamp < c.timestamp {
        s.push(c)
    } else if s.last().timestamp == c.timestamp {
        s.drop_last().push(c)
    } else {
        upsert(s.drop_last(), c).push(s.last())
    }
}

/// The series `s` after the candles of `batch` were put in, one after the other.
pub open spec fn merged(s: Seq<Kline>, batch: Seq<Kline>) -> Seq<Kline>
    decreases batch.len(),
{
    if batch.len() == 0 {
        s
    } else {
        upsert(merged(s, batch.drop_last()), batch.last())
    }
}

/// The forward-adjusted price `raw * a + b`, or `None` where the decimal
/// arithmetic overflows.
pub open spec fn forward_price(raw: Decimal, a: Decimal, b: Decimal) -> Option<Decimal> {
    match decimal_product(raw, a) {
        Some(scaled) => decimal_sum(scaled, b),
        None => None,
    }
}

/// Whether all four prices of `k` can be forward-adjusted.
pub open spec fn adjustable(k: Kline) -> bool {
    &&& forward_price(k.open, k.factor_a, k.factor_b) is Some
    &&& forward_price(k.close, k.factor_a, k.factor_b) is Some
    &&& forward_price(k.high, k.factor_a, k.factor_b) is Some
    &&& forward_price(k.low, k.factor_a, k.factor_b) is Some
}

/// The candle `k` with its four prices forward-adjusted; all else as in `k`.
pub open spec fn forward_adjusted(k: Kline) -> Kline {
    Kline {
        open: forward_price(k.open, k.factor_a, k.factor_b).unwrap(),
        close: forward_price(k.close, k.factor_a, k.factor_b).unwrap(),
        high: forward_price(k.high, k.factor_a, k.factor_b).unwrap(),
        low: forward_price(k.low, k.factor_a, k.factor_b).unwrap(),
        ..k
    }
}

/// Page `page` of a series, counted from its newest end in steps of `page_size`:
/// page 0 is the last `page_size` candles. Empty where the page lies before the
/// start of the series, shorter where it reaches the start.
pub open spec fn page_window(s: Seq<Kline>, page: int, page_size: int) -> Seq<Kline> {
    let end = s.len() - page * page_size;
    if end < 0 {
        Seq::empty()
    } else if end < page_size {
        s.subrange(0, end)
    } else {
        s.subrange(end - page_size, end)
    }
}

/// Whether a read of `kline_type` with `adjust_type` serves adjusted prices.
pub open spec fn serves_adjusted(kline_type: KlineType, adjust_type: AdjustType) -> bool {
    normalize(kline_type, adjust_type) == AdjustType::ForwardAdjust
}

/// The candles that a paginated read returns from a cache holding `cache`.
pub open spec fn page_klines(
    cache: Map<StoreKey, Series>,
    counter: Seq<char>,
    kline_type: KlineType,
    adjust_type: AdjustType,
    page: int,
    page_size: int,
) -> Seq<Kline> {
    let key = store_key(counter, kline_type, adjust_type);
    if !cache.contains_key(key) {
        Seq::empty()
    } else {
        let window = page_window(cache[key].klines, page, page_size);
        if serves_adjusted(kline_type, adjust_type) {
            window.map_values(|k: Kline| forward_adjusted(k))
        } else {
            window
        }
    }
}

/// Whether the page that a read returns can be served without overflow.
pub open spec fn page_servable(
    cache: Map<StoreKey, Series>,
    counter: Seq<char>,
    kline_type: KlineType,
    adjust_type: AdjustType,
    page: int,
    page_size: int,
) -> bool {
    let key = store_key(counter, kline_type, adjust_type);
    cache.contains_key(key) && serves_adjusted(kline_type, adjust_type) ==> {
        let window = page_window(cache[key].klines, page, page_size);
        forall|i: int| 0 <= i < window.len() ==> adjustable(#[trigger] window[i])
    }
}

/// A background fetch that a read asks for.
pub struct FetchPlan {
    pub before: i64,
    pub count: int,
}

/// The fetch that a paginated read asks for, if any: the newest
/// `(page + 1) * page_size` candles where nothing is stored under the key; one
/// more page of older candles, anchored at the oldest stored timestamp, where the
/// page came out short and older history may exist.
pub open spec fn page_fetch(
    cache: Map<StoreKey, Series>,
    counter: Seq<char>,
    kline_type: KlineType,
    adjust_type: AdjustType,
    page: int,
    page_size: int,
) -> Option<FetchPlan> {
    let key = store_key(counter, kline_type, adjust_type);
    if !cache.contains_key(key) {
        Some(FetchPlan { before: 0, count: (page + 1) * page_size })
    } else {
        let series = cache[key];
        if series.has_more && page_window(series.klines, page, page_size).len() < page_size {
            Some(
                FetchPlan {
                    before: if series.klines.len() > 0 {
                        series.klines[0].timestamp
                    } else {
                        0
                    },
                    count: page_size,
                },
            )
        } else {
            None
        }
    }
}

/// Putting a candle in changes what is found under its timestamp and nothing else.
pub proof fn lemma_lookup_upsert(s: Seq<Kline>, c: Kline, t: i64)
    ensures
        lookup(upsert(s, c), t) == if t == c.timestamp {
            Some(c)
        } else {
            lookup(s, t)
        },
    decreases s.len(),
{
    let u = upsert(s, c);
    if s.len() == 0 {
        assert(u.last() == c);
        assert(u.drop_last() =~= Seq::<Kline>::empty());
        assert(lookup(u.drop_last(), t) is None);
    } else if s.last().timestamp < c.timestamp {
        assert(u.last() == c);
        assert(u.drop_last() =~= s);
    } else if s.last().timestamp == c.timestamp {
        assert(u.last() == c);
        assert(u.drop_last() =~= s.drop_last());
    } else {
        lemma_lookup_upsert(s.drop_last(), c, t);
        assert(u.last() == s.last());
        assert(u.drop_last() =~= upsert(s.drop_last(), c));
    }
}

/// Every timestamp of `s` is below `bound`.
pub open spec fn below(s: Seq<Kline>, bound: int) -> bool {
    forall|i: int| 0 <= i < s.len() ==> (#[trigger] s[i]).timestamp < bound
}

/// Putting a candle into an ascending series leaves it ascending.
pub proof fn lemma_upsert_ascending(s: Seq<Kline>, c: Kline, bound: int)
    requires
        ascending(s),
        below(s, bound),
        c.timestamp < bound,
    ensures
        ascending(upsert(s, c)),
        below(upsert(s, c), bound),
        upsert(s, c).len() <= s.len() + 1,
    decreases s.len(),
{
    if s.len() == 0 {
    } else if s.last().timestamp < c.timestamp {
    } else if s.last().timestamp == c.timestamp {
    } else {
        let rest = s.drop_last();
        lemma_upsert_ascending(rest, c, s.last().timestamp as int);
    }
}

/// Merging a batch into an ascending series leaves it ascending.
pub proof fn lemma_merged_ascending(s: Seq<Kline>, batch: Seq<Kline>)
    requires
        ascending(s),
    ensures
        ascending(merged(s, batch)),
        merged(s, batch).len() <= s.len() + batch.len(),
    decreases batch.len(),
{
    if batch.len() > 0 {
        lemma_merged_ascending(s, batch.drop_last());
        lemma_upsert_ascending(merged(s, batch.drop_last()), batch.last(), i64::MAX + 1);
    }
}

/// After a merge, a timestamp that the batch carries holds the batch's last
/// candle for it; any other timestamp holds what it held before.
pub proof fn lemma_lookup_merged(s: Seq<Kline>, batch: Seq<Kline>, t: i64)
    ensures
        lookup(merged(s, batch), t) == match lookup(batch, t) {
            Some(c) => Some(c),
            None => lookup(s, t),
        },
    decreases batch.len(),
{
    if batch.len() > 0 {
        lemma_lookup_merged(s, batch.drop_last(), t);
        lemma_lookup_upsert(merged(s, batch.drop_last()), batch.last(), t);
    }
}

/// In an ascending series, `lookup` finds exactly the candles of the series.
pub proof fn lemma_lookup_ascending(s: Seq<Kline>, i: int)
    requires
        ascending(s),
        0 <= i < s.len(),
    ensures
        lookup(s, s[i].timestamp) == Some(s[i]),
    decreases s.len(),
{
    if i < s.len() - 1 {
        lemma_lookup_ascending(s.drop_last(), i);
    }
}

/// What `lookup` finds is a candle of the series with that timestamp.
pub proof fn lemma_lookup_found(s: Seq<Kline>, t: i64)
    ensures
        lookup(s, t) matches Some(c) ==> c.timestamp == t && exists|i: int|
            0 <= i < s.len() && s[i] == c,
    decreases s.len(),
{
    if s.len() > 0 && s.last().timestamp != t {
        lemma_lookup_found(s.drop_last(), t);
        if lookup(s, t) is Some {
            let c = lookup(s, t)->0;
            let i = choose|i: int| 0 <= i < s.drop_last().len() && s.drop_last()[i] == c;
            assert(s[i] == c);
        }
    } else if s.len() > 0 {
        assert(s[s.len() - 1] == s.last());
    }
}

/// Two ascending series that hold the same candle under every timestamp are the
/// same series.
pub proof fn lemma_ascending_determined(a: Seq<Kline>, b: Seq<Kline>)
    requires
        ascending(a),
        ascending(b),
        forall|t: i64| lookup(a, t) == lookup(b, t),
    ensures
        a == b,
    decreases a.len(),
{
    if a.len() == 0 {
        if b.len() > 0 {
            lemma_lookup_ascending(b, 0);
            assert(lookup(a, b[0].timestamp) is None);
        }
        assert(a =~= b);
    } else {
        let la = a.last();
        lemma_lookup_ascending(a, a.len() - 1);
        lemma_lookup_found(b, la.timestamp);
        assert(b.len() > 0);
        let lb = b.last();
        lemma_lookup_ascending(b, b.len() - 1);
        lemma_lookup_found(a, lb.timestamp);
        // the newest candle of each is found in the other, so they are the same one
        assert(la.timestamp == lb.timestamp) by {
            let i = choose|i: int| 0 <= i < b.len() && b[i] == la;
            let j = choose|j: int| 0 <= j < a.len() && a[j] == lb;
            if i < b.len() - 1 {
                assert(b[i].timestamp < b[b.len() - 1].timestamp);
            }
            if j < a.len() - 1 {
                assert(a[j].timestamp < a[a.len() - 1].timestamp);
            }
        }
        assert(la == lb);
        let ra = a.drop_last();
        let rb = b.drop_last();
        assert forall|t: i64| lookup(ra, t) == lookup(rb, t) by {
            if t == la.timestamp {
                lemma_lookup_found(ra, t);
                lemma_lookup_found(rb, t);
                if lookup(ra, t) is Some {
                    let i = choose|i: int| 0 <= i < ra.len() && ra[i] == lookup(ra, t)->0;
                    assert(a[i].timestamp < a[a.len() - 1].timestamp);
                }
                if lookup(rb, t) is Some {
                    let i = choose|i: int| 0 <= i < rb.len() && rb[i] == lookup(rb, t)->0;
                    assert(b[i].timestamp < b[b.len() - 1].timestamp);
                }
            } else {
                assert(lookup(a, t) == lookup(b, t));
            }
        }
        assert(ascending(ra)) by {
            assert forall|i: int, j: int| 0 <= i < j < ra.len() implies ra[i].timestamp
                < ra[j].timestamp by {
                assert(a[i].timestamp < a[j].timestamp);
            }
        }
        assert(ascending(rb)) by {
            assert forall|i: int, j: int| 0 <= i < j < rb.len() implies rb[i].timestamp
                < rb[j].timestamp by {
                assert(b[i].timestamp < b[j].timestamp);
            }
        }
        lemma_ascending_determined(ra, rb);
        assert(a =~= ra.push(la));
        assert(b =~= rb.push(lb));
    }
}

/// Merging the same batch a second time changes nothing, and what a merge leaves
/// is ascending by timestamp with no timestamp twice.
pub proof fn lemma_merge_idempotent(s: Seq<Kline>, batch: Seq<Kline>)
    requires
        ascending(s),
    ensures
        merged(merged(s, batch), batch) == merged(s, batch),
        ascending(merged(s, batch)),
{
    let once = merged(s, batch);
    let twice = merged(once, batch);
    lemma_merged_ascending(s, batch);
    lemma_merged_ascending(once, batch);
    assert forall|t: i64| lookup(twice, t) == lookup(once, t) by {
        lemma_lookup_merged(s, batch, t);
        lemma_lookup_merged(once, batch, t);
    }
    lemma_ascending_determined(twice, once);
}

/// Applying the same update a second time changes nothing: the cache is as
/// after the first, and the series is ascending with no timestamp twice.
pub proof fn lemma_update_idempotent(
    cache: Map<StoreKey, Series>,
    counter: Seq<char>,
    kline_type: KlineType,
    adjust_type: AdjustType,
    batch: Seq<Kline>,
    more: bool,
)
    requires
        ascending(stored_series(cache, store_key(counter, kline_type, adjust_type))),
    ensures
        updated(
            updated(cache, counter, kline_type, adjust_type, batch, more),
            counter,
            kline_type,
            adjust_type,
            batch,
            more,
        ) == updated(cache, counter, kline_type, adjust_type, batch, more),
        ascending(
            stored_series(
                updated(cache, counter, kline_type, adjust_type, batch, more),
                store_key(counter, kline_type, adjust_type),
            ),
        ),
{
    let key = store_key(counter, kline_type, adjust_type);
    lemma_merge_idempotent(stored_series(cache, key), batch);
    let once = updated(cache, counter, kline_type, adjust_type, batch, more);
    assert(updated(once, counter, kline_type, adjust_type, batch, more) =~= once);
}

/// Where the candles at and after `from` are all newer than `c`, putting `c` in
/// leaves them as they are.
pub proof fn lemma_upsert_tail(s: Seq<Kline>, c: Kline, from: int)
    requires
        0 <= from <= s.len(),
        forall|j: int| from <= j < s.len() ==> s[j].timestamp > c.timestamp,
    ensures
        upsert(s, c) == upsert(s.take(from), c) + s.skip(from),
    decreases s.len() - from,
{
    if from == s.len() {
        assert(s.take(from) =~= s);
        assert(upsert(s, c) + s.skip(from) =~= upsert(s, c));
    } else {
        let rest = s.drop_last();
        assert(s[s.len() - 1].timestamp > c.timestamp);
        lemma_upsert_tail(rest, c, from);
        assert(rest.take(from) =~= s.take(from));
        assert((upsert(s.take(from), c) + rest.skip(from)).push(s.last()) =~= upsert(
            s.take(from),
            c,
        ) + s.skip(from));
    }
}

/// The unsigned number with the same 64 bits as `v`.
pub open spec fn unsigned_bits(v: i64) -> u64 {
    if v >= 0 {
        v as u64
    } else {
        (v + 0x1_0000_0000_0000_0000) as u64
    }
}

/// Reads the bits of a signed count as an unsigned one.
pub fn cast_unsigned(v: i64) -> (r: u64)
    ensures
        r == unsigned_bits(v),
{
    if v >= 0 {
        v as u64
    } else {
        ((v as i128) + 0x1_0000_0000_0000_0000i128) as u64
    }
}

/// The stored form of a candlestick as the upstream service delivers it: no
/// adjustment (factors 1 and 0) and no trade count.
pub open spec fn kline_of(c: Candlestick) -> Kline {
    Kline {
        timestamp: c.timestamp,
        open: c.open,
        high: c.high,
        low: c.low,
        close: c.close,
        amount: unsigned_bits(c.volume),
        balance: c.turnover,
        factor_a: decimal_of(1),
        factor_b: decimal_of(0),
        total: 0,
    }
}

/// Converts a delivered candlestick to its stored form.
pub fn kline_from_candlestick(c: &Candlestick) -> (r: Kline)
    ensures
        r == kline_of(*c),
{
    Kline {
        timestamp: c.timestamp,
        open: c.open,
        high: c.high,
        low: c.low,
        close: c.close,
        amount: cast_unsigned(c.volume),
        balance: c.turnover,
        factor_a: decimal_from_i64(1),
        factor_b: decimal_from_i64(0),
        total: 0,
    }
}

/// Forward-adjusts one price: `raw * a + b`, `None` on overflow.
pub fn forward_adjust_price(raw: Decimal, a: Decimal, b: Decimal) -> (r: Option<Decimal>)
    ensures
        r == forward_price(raw, a, b),
{
    match raw.checked_mul(a) {
        Some(scaled) => scaled.checked_add(b),
        None => None,
    }
}

/// Forward-adjusts the four prices of a candle by its own factors. `None` where
/// one of them overflows.
pub fn forward_adjust(k: &Kline) -> (r: Option<Kline>)
    ensures
        r == if adjustable(*k) {
            Some(forward_adjusted(*k))
        } else {
            None::<Kline>
        },
{
    let open = forward_adjust_price(k.open, k.factor_a, k.factor_b);
    let close = forward_adjust_price(k.close, k.factor_a, k.factor_b);
    let high = forward_adjust_price(k.high, k.factor_a, k.factor_b);
    let low = forward_adjust_price(k.low, k.factor_a, k.factor_b);
    match (open, close, high, low) {
        (Some(open), Some(close), Some(high), Some(low)) => Some(
            Kline {
                open,
                close,
                high,
                low,
                amount: k.amount,
                balance: k.balance,
                timestamp: k.timestamp,
                factor_a: k.factor_a,
                factor_b: k.factor_b,
                total: k.total,
            },
        ),
        _ => None,
    }
}

/// Puts one candle into a series, as `upsert` says.
pub fn put_kline(series: &mut Vec<Kline>, c: Kline)
    ensures
        final(series)@ == upsert(old(series)@, c),
{
    let mut i: usize = series.len();
    while i > 0 && series[i - 1].timestamp > c.timestamp
        invariant
            i <= series.len(),
            series@ == old(series)@,
            forall|j: int| i <= j < series.len() ==> series@[j].timestamp > c.timestamp,
        decreases i,
    {
        i = i - 1;
    }
    let ghost s = series@;
    proof {
        lemma_upsert_tail(s, c, i as int);
    }
    if i > 0 && series[i - 1].timestamp == c.timestamp {
        series.set(i - 1, c);
        assert(s.take(i as int).last() == s[i - 1]);
        assert(series@ =~= s.take(i as int).drop_last().push(c) + s.skip(i as int));
    } else {
        series.insert(i, c);
        if i > 0 {
            assert(s.take(i as int).last() == s[i - 1]);
        }
        assert(series@ =~= s.take(i as int).push(c) + s.skip(i as int));
    }
}

/// Puts the candles of `batch` into a series, one after the other.
pub fn merge_klines(series: &mut Vec<Kline>, batch: &Vec<Kline>)
    ensures
        final(series)@ == merged(old(series)@, batch@),
{
    let mut n: usize = 0;
    assert(batch@.take(0) =~= Seq::<Kline>::empty());
    while n < batch.len()
        invariant
            n <= batch.len(),
            series@ == merged(old(series)@, batch@.take(n as int)),
        decreases batch.len() - n,
    {
        put_kline(series, batch[n]);
        assert(batch@.take(n + 1).drop_last() =~= batch@.take(n as int));
        n = n + 1;
    }
    assert(batch@.take(batch.len() as int) =~= batch@);
}

/// A fetch of candlesticks that the cache asks its owner to make.
#[derive(Debug)]
pub struct KlineRequest {
    pub counter: Counter,
    pub kline_type: KlineType,
    pub adjust_type: AdjustType,
    /// Timestamp that the wanted candles are older than; 0 for the newest.
    pub before: i64,
    /// How many candles to ask for.
    pub count: usize,
}

/// What a `KlineRequest` holds.
pub struct KlineRequestView {
    pub counter: Seq<char>,
    pub kline_type: KlineType,
    pub adjust_type: AdjustType,
    pub before: i64,
    pub count: usize,
}

impl View for KlineRequest {
    type V = KlineRequestView;

    open spec fn view(&self) -> KlineRequestView {
        KlineRequestView {
            counter: self.counter@,
            kline_type: self.kline_type,
            adjust_type: self.adjust_type,
            before: self.before,
            count: self.count,
        }
    }
}

/// The result of a paginated read: the candles at hand, and the fetch to start
/// in the background, if the read found the cache wanting.
#[derive(Debug)]
pub struct KlinePage {
    pub klines: Klines,
    pub request: Option<KlineRequest>,
}

/// What a `KlinePage` holds.
pub struct KlinePageView {
    pub klines: Seq<Kline>,
    pub request: Option<KlineRequestView>,
}

impl View for KlinePage {
    type V = KlinePageView;

    open spec fn view(&self) -> KlinePageView {
        KlinePageView {
            klines: self.klines@,
            request: match self.request {
                Some(q) => Some(q@),
                None => None,
            },
        }
    }
}

/// The request that a read of the given page makes, as the caller will see it.
pub open spec fn page_request(
    cache: Map<StoreKey, Series>,
    counter: Seq<char>,
    kline_type: KlineType,
    adjust_type: AdjustType,
    page: int,
    page_size: int,
) -> Option<KlineRequestView> {
    match page_fetch(cache, counter, kline_type, adjust_type, page, page_size) {
        Some(plan) => Some(
            KlineRequestView {
                counter,
                kline_type,
                adjust_type,
                before: plan.before,
                count: plan.count as usize,
            },
        ),
        None => None,
    }
}

struct Entry {
    counter: Counter,
    kline_type: KlineType,
    adjust_type: AdjustType,
    has_more: bool,
    klines: Vec<Kline>,
}

impl Entry {
    spec fn key(self) -> StoreKey {
        (self.counter@, self.kline_type, self.adjust_type)
    }

    spec fn series(self) -> Series {
        Series { has_more: self.has_more, klines: self.klines@ }
    }
}

spec fn holds_key(entries: Seq<Entry>, key: StoreKey) -> bool {
    exists|i: int| 0 <= i < entries.len() && (#[trigger] entries[i]).key() == key
}

spec fn index_of_key(entries: Seq<Entry>, key: StoreKey) -> int {
    choose|i: int| 0 <= i < entries.len() && (#[trigger] entries[i]).key() == key
}

spec fn entries_map(entries: Seq<Entry>) -> Map<StoreKey, Series> {
    Map::new(
        |key: StoreKey| holds_key(entries, key),
        |key: StoreKey| entries[index_of_key(entries, key)].series(),
    )
}

spec fn distinct_keys(entries: Seq<Entry>) -> bool {
    forall|i: int, j: int|
        0 <= i < j < entries.len() ==> (#[trigger] entries[i]).key() != (#[trigger] entries[j]).key()
}

spec fn all_ascending(entries: Seq<Entry>) -> bool {
    forall|i: int| 0 <= i < entries.len() ==> ascending((#[trigger] entries[i]).klines@)
}

proof fn lemma_entries_map_at(entries: Seq<Entry>, i: int)
    requires
        distinct_keys(entries),
        0 <= i < entries.len(),
    ensures
        entries_map(entries).contains_key(entries[i].key()),
        entries_map(entries)[entries[i].key()] == entries[i].series(),
{
    let key = entries[i].key();
    assert(holds_key(entries, key));
    let j = index_of_key(entries, key);
    assert(j == i);
}

proof fn lemma_entries_map_absent(entries: Seq<Entry>, key: StoreKey)
    requires
        forall|i: int| 0 <= i < entries.len() ==> (#[trigger] entries[i]).key() != key,
    ensures
        !entries_map(entries).contains_key(key),
{
}

proof fn lemma_entries_map_replaced(entries: Seq<Entry>, i: int, after: Seq<Entry>, e: Entry)
    requires
        distinct_keys(entries),
        0 <= i < entries.len(),
        e.key() == entries[i].key(),
        after == entries.remove(i).push(e),
    ensures
        distinct_keys(after),
        entries_map(after) == entries_map(entries).insert(e.key(), e.series()),
{
    let last = after.len() - 1;
    assert forall|a: int| 0 <= a < after.len() implies (#[trigger] after[a]) == if a == last {
        e
    } else if a < i {
        entries[a]
    } else {
        entries[a + 1]
    } by {}
    assert(distinct_keys(after)) by {
        assert forall|a: int, b: int| 0 <= a < b < after.len() implies (#[trigger] after[a]).key()
            != (#[trigger] after[b]).key() by {
            let oa = if a < i { a } else { a + 1 };
            if b == last {
                assert(entries[oa].key() != entries[i].key());
            } else {
                let ob = if b < i { b } else { b + 1 };
                assert(entries[oa].key() != entries[ob].key());
            }
        }
    }
    let want = entries_map(entries).insert(e.key(), e.series());
    assert forall|key: StoreKey| #[trigger] entries_map(after).contains_key(key) implies want.contains_key(key) by {
        let a = index_of_key(after, key);
        if a != last {
            let oa = if a < i { a } else { a + 1 };
            assert(entries[oa].key() == key);
        }
    }
    assert forall|key: StoreKey| #[trigger] want.contains_key(key) implies entries_map(after).contains_key(key) by {
        if key == e.key() {
            assert(after[last].key() == key);
        } else {
            let o = index_of_key(entries, key);
            let a = if o < i { o } else { o - 1 };
            assert(after[a].key() == key);
        }
    }
    assert forall|key: StoreKey| #[trigger] want.contains_key(key) implies entries_map(after)[key] == want[key] by {
        if key == e.key() {
            lemma_entries_map_at(after, last);
        } else {
            let o = index_of_key(entries, key);
            let a = if o < i { o } else { o - 1 };
            assert(after[a] == entries[o]);
            lemma_entries_map_at(after, a);
            lemma_entries_map_at(entries, o);
        }
    }
    assert(entries_map(after) =~= want);
}

proof fn lemma_entries_map_added(entries: Seq<Entry>, e: Entry)
    requires
        distinct_keys(entries),
        forall|i: int| 0 <= i < entries.len() ==> (#[trigger] entries[i]).key() != e.key(),
    ensures
        distinct_keys(entries.push(e)),
        entries_map(entries.push(e)) == entries_map(entries).insert(e.key(), e.series()),
{
    let after = entries.push(e);
    let last = after.len() - 1;
    let want = entries_map(entries).insert(e.key(), e.series());
    assert(distinct_keys(after));
    assert forall|key: StoreKey| #[trigger] entries_map(after).contains_key(key) implies want.contains_key(key) by {
        let a = index_of_key(after, key);
        if a != last {
            assert(entries[a].key() == key);
        }
    }
    assert forall|key: StoreKey| #[trigger] want.contains_key(key) implies entries_map(after).contains_key(key) by {
        if key == e.key() {
            assert(after[last].key() == key);
        } else {
            let o = index_of_key(entries, key);
            assert(after[o].key() == key);
        }
    }
    assert forall|key: StoreKey| #[trigger] want.contains_key(key) implies entries_map(after)[key] == want[key] by {
        if key == e.key() {
            lemma_entries_map_at(after, last);
        } else {
            let o = index_of_key(entries, key);
            assert(after[o] == entries[o]);
            lemma_entries_map_at(after, o);
            lemma_entries_map_at(entries, o);
        }
    }
    assert(entries_map(after) =~= want);
}

/// The cache of candlestick history.
///
/// Under each key it holds one series, ascending by timestamp with no timestamp
/// twice, and the flag that says whether older history may exist upstream.
pub struct KlineStore {
    entries: Vec<Entry>,
}

impl View for KlineStore {
    type V = Map<StoreKey, Series>;

    closed spec fn view(&self) -> Map<StoreKey, Series> {
        entries_map(self.entries@)
    }
}

impl KlineStore {
    #[verifier::type_invariant]
    spec fn well_formed(self) -> bool {
        distinct_keys(self.entries@) && all_ascending(self.entries@)
    }

    /// The series stored under `key`, empty where nothing is stored.
    pub open spec fn series_at(self, key: StoreKey) -> Seq<Kline> {
        stored_series(self@, key)
    }

    pub fn new() -> (r: Self)
        ensures
            r@ =~= Map::empty(),
    {
        KlineStore { entries: Vec::new() }
    }

    /// Forgets every series.
    pub fn clear(&mut self)
        ensures
            final(self)@ =~= Map::empty(),
    {
        self.entries = Vec::new();
    }

    /// Forgets every series of one symbol, whatever its period and adjustment.
    pub fn clear_symbol(&mut self, counter: &Counter)
        ensures
            final(self)@ =~= without_symbol(old(self)@, counter@),
    {
        proof {
            use_type_invariant(&*self);
        }
        let ghost before = self.entries@;
        let mut rest: Vec<Entry> = Vec::new();
        std::mem::swap(&mut self.entries, &mut rest);
        let mut kept: Vec<Entry> = Vec::new();
        assert(rest@.take(rest@.len() as int) =~= rest@);
        while rest.len() > 0
            invariant
                distinct_keys(before),
                all_ascending(before),
                rest@ == before.take(rest@.len() as int),
                rest@.len() <= before.len(),
                distinct_keys(kept@),
                all_ascending(kept@),
                forall|j: int|
                    0 <= j < kept@.len() ==> (#[trigger] kept@[j]).key().0 != counter@ && exists|
                        m: int,
                    |
                        rest@.len() <= m < before.len() && before[m] == kept@[j],
                forall|m: int|
                    rest@.len() <= m < before.len() && (#[trigger] before[m]).key().0 != counter@
                        ==> exists|j: int| 0 <= j < kept@.len() && kept@[j] == before[m],
            decreases rest@.len(),
        {
            let ghost n = rest@.len() - 1;
            let ghost so_far = kept@;
            match rest.pop() {
                Some(entry) => {
                    assert(entry == before[n]);
                    assert(rest@ =~= before.take(n));
                    if !entry.counter.same_as(counter) {
                        kept.push(entry);
                        proof {
                            assert forall|j: int| 0 <= j < kept@.len() implies (
                            #[trigger] kept@[j]).key().0 != counter@ && exists|m: int|
                                n <= m < before.len() && before[m] == kept@[j] by {
                                if j < so_far.len() {
                                    assert(kept@[j] == so_far[j]);
                                    let m = choose|m: int|
                                        n + 1 <= m < before.len() && before[m] == so_far[j];
                                    assert(before[m] == kept@[j]);
                                } else {
                                    assert(before[n] == kept@[j]);
                                }
                            }
                            assert forall|a: int, b: int| 0 <= a < b < kept@.len() implies (
                            #[trigger] kept@[a]).key() != (#[trigger] kept@[b]).key() by {
                                if b == so_far.len() {
                                    let m = choose|m: int|
                                        n + 1 <= m < before.len() && before[m] == so_far[a];
                                    assert(before[m].key() != before[n].key());
                                } else {
                                    assert(so_far[a].key() != so_far[b].key());
                                }
                            }
                            assert forall|m: int|
                                n <= m < before.len() && (#[trigger] before[m]).key().0
                                    != counter@ implies exists|j: int|
                                0 <= j < kept@.len() && kept@[j] == before[m] by {
                                if m == n {
                                    assert(kept@[so_far.len() as int] == before[m]);
                                } else {
                                    let j = choose|j: int|
                                        0 <= j < so_far.len() && so_far[j] == before[m];
                                    assert(kept@[j] == before[m]);
                                }
                            }
                            assert(all_ascending(kept@)) by {
                                assert forall|j: int| 0 <= j < kept@.len() implies ascending(
                                    (#[trigger] kept@[j]).klines@,
                                ) by {
                                    if j < so_far.len() {
                                        assert(kept@[j] == so_far[j]);
                                    } else {
                                        assert(kept@[j] == before[n]);
                                    }
                                }
                            }
                        }
                    } else {
                        proof {
                            assert forall|j: int| 0 <= j < kept@.len() implies (
                            #[trigger] kept@[j]).key().0 != counter@ && exists|m: int|
                                n <= m < before.len() && before[m] == kept@[j] by {
                                let m = choose|m: int|
                                    n + 1 <= m < before.len() && before[m] == kept@[j];
                                assert(before[m] == kept@[j]);
                            }
                        }
                    }
                },
                None => {},
            }
        }
        proof {
            let want = without_symbol(entries_map(before), counter@);
            assert forall|key: StoreKey| #[trigger]
                entries_map(kept@).contains_key(key) implies want.contains_key(key)
                && entries_map(kept@)[key] == want[key] by {
                let j = index_of_key(kept@, key);
                let m = choose|m: int| 0 <= m < before.len() && before[m] == kept@[j];
                lemma_entries_map_at(kept@, j);
                lemma_entries_map_at(before, m);
            }
            assert forall|key: StoreKey| #[trigger] want.contains_key(key) implies entries_map(
                kept@,
            ).contains_key(key) by {
                let m = index_of_key(before, key);
                let j = choose|j: int| 0 <= j < kept@.len() && kept@[j] == before[m];
                assert(kept@[j].key() == key);
            }
            assert(entries_map(kept@) =~= want);
        }
        self.entries = kept;
    }

    fn find(&self, counter: &Counter, kline_type: KlineType, adjust_type: AdjustType) -> (r: Option<
        usize,
    >)
        ensures
            match r {
                Some(i) => i < self.entries@.len() && self.entries@[i as int].key() == (
                    counter@,
                    kline_type,
                    adjust_type,
                ),
                None => forall|i: int|
                    0 <= i < self.entries@.len() ==> (#[trigger] self.entries@[i]).key() != (
                        counter@,
                        kline_type,
                        adjust_type,
                    ),
            },
    {
        let mut i: usize = 0;
        while i < self.entries.len()
            invariant
                i <= self.entries@.len(),
                forall|j: int|
                    0 <= j < i ==> (#[trigger] self.entries@[j]).key() != (
                        counter@,
                        kline_type,
                        adjust_type,
                    ),
            decreases self.entries@.len() - i,
        {
            let e = &self.entries[i];
            if e.kline_type == kline_type && e.adjust_type == adjust_type && e.counter.same_as(
                counter,
            ) {
                return Some(i);
            }
            i = i + 1;
        }
        None
    }

    /// The adjustment that `kline_type` is stored and served with.
    pub fn normalize(kline_type: KlineType, adjust_type: AdjustType) -> (r: AdjustType)
        ensures
            r == normalize(kline_type, adjust_type),
    {
        if kline_type.is_above_daily() {
            adjust_type
        } else {
            AdjustType::NoAdjust
        }
    }

    /// Merges fetched candles into the series of the key: a candle takes the place
    /// of the stored one with the same timestamp, or else its place in ascending
    /// order. `more` becomes the key's flag.
    pub fn update(
        &mut self,
        counter: Counter,
        kline_type: KlineType,
        adjust_type: AdjustType,
        data: Klines,
        more: bool,
    )
        ensures
            final(self)@ == updated(old(self)@, counter@, kline_type, adjust_type, data@, more),
            ascending(old(self).series_at(store_key(counter@, kline_type, adjust_type))),
            ascending(final(self).series_at(store_key(counter@, kline_type, adjust_type))),
    {
        proof {
            use_type_invariant(&*self);
        }
        let adjust = Self::normalize(kline_type, adjust_type);
        let ghost before = self.entries@;
        let ghost key = store_key(counter@, kline_type, adjust_type);
        let found = self.find(&counter, kline_type, adjust);
        let mut entries: Vec<Entry> = Vec::new();
        std::mem::swap(&mut self.entries, &mut entries);
        match found {
            Some(i) => {
                proof {
                    lemma_entries_map_at(before, i as int);
                }
                let mut entry = entries.remove(i);
                assert(all_ascending(entries@)) by {
                    assert forall|a: int| 0 <= a < entries@.len() implies (#[trigger] entries@[a])
                        == before[if a < i { a } else { a + 1 }] by {}
                }
                let ghost stored = entry.klines@;
                merge_klines(&mut entry.klines, &data);
                entry.has_more = more;
                proof {
                    lemma_merged_ascending(stored, data@);
                    lemma_entries_map_replaced(before, i as int, entries@.push(entry), entry);
                }
                entries.push(entry);
            },
            None => {
                proof {
                    lemma_entries_map_absent(before, key);
                }
                let mut klines: Vec<Kline> = Vec::new();
                merge_klines(&mut klines, &data);
                let entry = Entry { counter, kline_type, adjust_type: adjust, has_more: more, klines };
                proof {
                    lemma_merged_ascending(Seq::<Kline>::empty(), data@);
                    lemma_entries_map_added(before, entry);
                }
                entries.push(entry);
            },
        }
        proof {
            lemma_entries_map_at(entries@, entries@.len() - 1);
        }
        self.entries = entries;
    }

    /// The bounds of page `page` within a series of `len` candles.
    fn window_bounds(len: usize, page: usize, page_size: usize) -> (r: (usize, usize))
        requires
            (page + 1) * page_size <= usize::MAX,
        ensures
            r.0 <= r.1 <= len,
            forall|s: Seq<Kline>|
                s.len() == len ==> #[trigger] page_window(s, page as int, page_size as int)
                    == s.subrange(r.0 as int, r.1 as int),
    {
        assert(page * page_size <= (page + 1) * page_size) by (nonlinear_arith);
        let skipped: usize = page * page_size;
        if skipped > len {
            assert forall|s: Seq<Kline>| s.len() == len implies #[trigger] page_window(
                s,
                page as int,
                page_size as int,
            ) == s.subrange(0, 0) by {
                assert(s.subrange(0, 0) =~= Seq::<Kline>::empty());
            }
            (0, 0)
        } else {
            let end: usize = len - skipped;
            let start: usize = if end < page_size {
                0
            } else {
                end - page_size
            };
            (start, end)
        }
    }

    /// Whether `by_pagination` can serve the page: always, unless the page is
    /// served forward-adjusted and one of its prices overflows.
    pub fn page_is_servable(
        &self,
        counter: &Counter,
        kline_type: KlineType,
        adjust_type: AdjustType,
        page: usize,
        page_size: usize,
    ) -> (r: bool)
        requires
            (page + 1) * page_size <= usize::MAX,
        ensures
            r == page_servable(
                self@,
                counter@,
                kline_type,
                adjust_type,
                page as int,
                page_size as int,
            ),
    {
        proof {
            use_type_invariant(self);
        }
        let adjust = Self::normalize(kline_type, adjust_type);
        if adjust != AdjustType::ForwardAdjust {
            return true;
        }
        match self.find(counter, kline_type, adjust) {
            None => {
                proof {
                    lemma_entries_map_absent(self.entries@, (counter@, kline_type, adjust));
                }
                true
            },
            Some(i) => {
                proof {
                    lemma_entries_map_at(self.entries@, i as int);
                }
                let stored = &self.entries[i].klines;
                let (start, end) = Self::window_bounds(stored.len(), page, page_size);
                let ghost window = page_window(stored@, page as int, page_size as int);
                let mut n: usize = start;
                while n < end
                    invariant
                        start <= n <= end <= stored@.len(),
                        window == stored@.subrange(start as int, end as int),
                        window == page_window(stored@, page as int, page_size as int),
                        serves_adjusted(kline_type, adjust_type),
                        self@.contains_key(store_key(counter@, kline_type, adjust_type)),
                        self@[store_key(counter@, kline_type, adjust_type)].klines == stored@,
                        forall|j: int| 0 <= j < n - start ==> adjustable(#[trigger] window[j]),
                    decreases end - n,
                {
                    if forward_adjust(&stored[n]).is_none() {
                        assert(window[n - start] == stored@[n as int]);
                        assert(!adjustable(window[n - start]));
                        return false;
                    }
                    n = n + 1;
                }
                true
            },
        }
    }

    /// Reads page `page` of the series of `counter`, `kline_type` and
    /// `adjust_type`, counted from the newest candle in steps of `page_size`.
    ///
    /// The candles come forward-adjusted where the period is above one day and
    /// forward adjustment was asked for, and as stored otherwise. With them comes
    /// the fetch that the caller is to start in the background, if any.
    pub fn by_pagination(
        &self,
        counter: Counter,
        kline_type: KlineType,
        adjust_type: AdjustType,
        page: usize,
        page_size: usize,
    ) -> (r: KlinePage)
        requires
            (page + 1) * page_size <= usize::MAX,
            page_servable(self@, counter@, kline_type, adjust_type, page as int, page_size as int),
        ensures
            r@.klines == page_klines(
                self@,
                counter@,
                kline_type,
                adjust_type,
                page as int,
                page_size as int,
            ),
            r@.request == page_request(
                self@,
                counter@,
                kline_type,
                adjust_type,
                page as int,
                page_size as int,
            ),
    {
        proof {
            use_type_invariant(self);
        }
        let adjust = Self::normalize(kline_type, adjust_type);
        match self.find(&counter, kline_type, adjust) {
            None => {
                proof {
                    lemma_entries_map_absent(self.entries@, (counter@, kline_type, adjust));
                }
                let count: usize = if page_size == 0 {
                    assert((page + 1) * 0 == 0) by (nonlinear_arith);
                    0
                } else {
                    assert(page + 1 <= (page + 1) * page_size) by (nonlinear_arith)
                        requires
                            page_size >= 1,
                    ;
                    (page + 1) * page_size
                };
                let request = KlineRequest { counter, kline_type, adjust_type, before: 0, count };
                KlinePage { klines: Vec::new(), request: Some(request) }
            },
            Some(i) => {
                proof {
                    lemma_entries_map_at(self.entries@, i as int);
                }
                let entry = &self.entries[i];
                let stored = &entry.klines;
                let (start, end) = Self::window_bounds(stored.len(), page, page_size);
                let ghost window = page_window(stored@, page as int, page_size as int);
                let adjusting = adjust == AdjustType::ForwardAdjust;
                let mut klines: Vec<Kline> = Vec::new();
                let mut n: usize = start;
                while n < end
                    invariant
                        start <= n <= end <= stored@.len(),
                        window == stored@.subrange(start as int, end as int),
                        adjusting ==> forall|j: int|
                            0 <= j < window.len() ==> adjustable(#[trigger] window[j]),
                        klines@.len() == n - start,
                        forall|j: int|
                            0 <= j < n - start ==> #[trigger] klines@[j] == if adjusting {
                                forward_adjusted(window[j])
                            } else {
                                window[j]
                            },
                    decreases end - n,
                {
                    let k = stored[n];
                    assert(k == window[n - start]);
                    if adjusting {
                        match forward_adjust(&k) {
                            Some(adjusted) => klines.push(adjusted),
                            None => {
                                assert(false);
                            },
                        }
                    } else {
                        klines.push(k);
                    }
                    n = n + 1;
                }
                proof {
                    if adjusting {
                        assert(klines@ =~= window.map_values(|k: Kline| forward_adjusted(k)));
                    } else {
                        assert(klines@ =~= window);
                    }
                }
                let request = if entry.has_more && end - start < page_size {
                    let before = if stored.len() > 0 {
                        stored[0].timestamp
                    } else {
                        0
                    };
                    assert(page_size <= (page + 1) * page_size) by (nonlinear_arith);
                    Some(
                        KlineRequest { counter, kline_type, adjust_type, before, count: page_size },
                    )
                } else {
                    None
                };
                KlinePage { klines, request }
            },
        }
    }

    /// `by_pagination` for any page: `None` where a price of the page overflows
    /// under forward adjustment, and the page otherwise.
    pub fn try_by_pagination(
        &self,
        counter: Counter,
        kline_type: KlineType,
        adjust_type: AdjustType,
        page: usize,
        page_size: usize,
    ) -> (r: Option<KlinePage>)
        requires
            (page + 1) * page_size <= usize::MAX,
        ensures
            r is Some == page_servable(
                self@,
                counter@,
                kline_type,
                adjust_type,
                page as int,
                page_size as int,
            ),
            r matches Some(p) ==> p@.klines == page_klines(
                self@,
                counter@,
                kline_type,
                adjust_type,
                page as int,
                page_size as int,
            ) && p@.request == page_request(
                self@,
                counter@,
                kline_type,
                adjust_type,
                page as int,
                page_size as int,
            ),
    {
        if self.page_is_servable(&counter, kline_type, adjust_type, page, page_size) {
            Some(self.by_pagination(counter, kline_type, adjust_type, page, page_size))
        } else {
            None
        }
    }

    /// Stores what a fetch brought back: the candlesticks are merged into the
    /// series that `request` was made for, and older history counts as exhausted
    /// once fewer candlesticks came than were asked for.
    pub fn request(&mut self, request: KlineRequest, candlesticks: &Vec<Candlestick>)
        ensures
            final(self)@ == updated(
                old(self)@,
                request.counter@,
                request.kline_type,
                request.adjust_type,
                candlesticks@.map_values(|c: Candlestick| kline_of(c)),
                candlesticks@.len() >= request.count,
            ),
            ascending(
                final(self).series_at(
                    store_key(request.counter@, request.kline_type, request.adjust_type),
                ),
            ),
    {
        let mut klines: Vec<Kline> = Vec::new();
        let mut n: usize = 0;
        while n < candlesticks.len()
            invariant
                n <= candlesticks.len(),
                klines@ == candlesticks@.take(n as int).map_values(|c: Candlestick| kline_of(c)),
            decreases candlesticks.len() - n,
        {
            klines.push(kline_from_candlestick(&candlesticks[n]));
            assert(klines@ =~= candlesticks@.take(n + 1).map_values(|c: Candlestick| kline_of(c)));
            n = n + 1;
        }
        assert(candlesticks@.take(candlesticks.len() as int) =~= candlesticks@);
        let has_more = candlesticks.len() >= request.count;
        self.update(request.counter, request.kline_type, request.adjust_type, klines, has_more);
    }
}

/// For a period of one day or less, a read that asks for forward adjustment
/// returns the same candles, with the same prices, as one that asks for none.
pub proof fn lemma_short_periods_unadjusted(
    cache: Map<StoreKey, Series>,
    counter: Seq<char>,
    kline_type: KlineType,
    page: int,
    page_size: int,
)
    requires
        !kline_type.above_daily(),
    ensures
        page_klines(cache, counter, kline_type, AdjustType::ForwardAdjust, page, page_size)
            == page_klines(cache, counter, kline_type, AdjustType::NoAdjust, page, page_size),
        page_klines(cache, counter, kline_type, AdjustType::NoAdjust, page, page_size) == if cache.contains_key(
            (counter, kline_type, AdjustType::NoAdjust),
        ) {
            page_window(cache[(counter, kline_type, AdjustType::NoAdjust)].klines, page, page_size)
        } else {
            Seq::empty()
        },
{
}

/// For a period above one day, a read that asks for forward adjustment returns
/// each candle of the page with every price `raw * factor_a + factor_b`, and all
/// else as stored.
pub proof fn lemma_long_periods_adjusted(
    cache: Map<StoreKey, Series>,
    counter: Seq<char>,
    kline_type: KlineType,
    page: int,
    page_size: int,
    i: int,
)
    requires
        kline_type.above_daily(),
        cache.contains_key((counter, kline_type, AdjustType::ForwardAdjust)),
        0 <= i < page_window(
            cache[(counter, kline_type, AdjustType::ForwardAdjust)].klines,
            page,
            page_size,
        ).len(),
        page_servable(cache, counter, kline_type, AdjustType::ForwardAdjust, page, page_size),
    ensures
        ({
            let raw = page_window(
                cache[(counter, kline_type, AdjustType::ForwardAdjust)].klines,
                page,
                page_size,
            )[i];
            let got = page_klines(
                cache,
                counter,
                kline_type,
                AdjustType::ForwardAdjust,
                page,
                page_size,
            )[i];
            &&& Some(got.open) == forward_price(raw.open, raw.factor_a, raw.factor_b)
            &&& Some(got.close) == forward_price(raw.close, raw.factor_a, raw.factor_b)
            &&& Some(got.high) == forward_price(raw.high, raw.factor_a, raw.factor_b)
            &&& Some(got.low) == forward_price(raw.low, raw.factor_a, raw.factor_b)
            &&& got == Kline { open: got.open, close: got.close, high: got.high, low: got.low, ..raw }
        }),
{
    let window = page_window(
        cache[(counter, kline_type, AdjustType::ForwardAdjust)].klines,
        page,
        page_size,
    );
    assert(adjustable(window[i]));
}

} // verus!
