//! Searching for instruments.

use crate::data::{code_of, market_of, Counter, SecurityStaticInfo};
use vstd::prelude::*;

verus! {

/// What to search for.
#[derive(Debug)]
pub struct StockQuery {
    pub keyword: String,
    pub market: String,
    pub product: String,
    pub account_channel: String,
}

/// An instrument that a search found.
#[derive(Debug)]
pub struct StockItem {
    pub code: String,
    pub counter_id: Counter,
    pub currency: String,
    pub market: String,
    pub name: String,
    pub product: String,
    pub product_type: String,
}

/// What a `StockItem` holds.
pub struct StockItemView {
    pub code: Seq<char>,
    pub counter_id: Seq<char>,
    pub currency: Seq<char>,
    pub market: Seq<char>,
    pub name: Seq<char>,
    pub product: Seq<char>,
    pub product_type: Seq<char>,
}

impl View for StockItem {
    type V = StockItemView;

    open spec fn view(&self) -> StockItemView {
        StockItemView {
            code: self.code@,
            counter_id: self.counter_id@,
            currency: self.currency@,
            market: self.market@,
            name: self.name@,
            product: self.product@,
            product_type: self.product_type@,
        }
    }
}

/// The search result that a listing makes: code and market from its symbol, and
/// its Chinese or its English name.
pub open spec fn found(info: SecurityStaticInfo, chinese: bool) -> StockItemView {
    StockItemView {
        code: code_of(info.symbol@),
        counter_id: info.symbol@,
        currency: Seq::empty(),
        market: market_of(info.symbol@),
        name: if chinese {
            info.name_cn@
        } else {
            info.name_en@
        },
        product: Seq::empty(),
        product_type: Seq::empty(),
    }
}

/// The search results that the delivered listings make, in order. `chinese`
/// says whether the reader's locale is a Chinese one.
pub fn fetch_stock(infos: &Vec<SecurityStaticInfo>, chinese: bool) -> (r: Vec<StockItem>)
    ensures
        r@.map_values(|item: StockItem| item@) == infos@.map_values(
            |info: SecurityStaticInfo| found(info, chinese),
        ),
{
    let mut list: Vec<StockItem> = Vec::new();
    let mut i: usize = 0;
    assert(list@.map_values(|item: StockItem| item@) =~= infos@.take(0).map_values(
        |info: SecurityStaticInfo| found(info, chinese),
    ));
    while i < infos.len()
        invariant
            i <= infos.len(),
            list@.map_values(|item: StockItem| item@) == infos@.take(i as int).map_values(
                |info: SecurityStaticInfo| found(info, chinese),
            ),
        decreases infos.len() - i,
    {
        let info = &infos[i];
        let counter = Counter::new(info.symbol.as_str());
        let item = StockItem {
            code: String::from_str(counter.code()),
            market: String::from_str(counter.market()),
            counter_id: counter,
            currency: String::new(),
            name: if chinese {
                info.name_cn.clone()
            } else {
                info.name_en.clone()
            },
            product: String::new(),
            product_type: String::new(),
        };
        let ghost before = list@.map_values(|item: StockItem| item@);
        list.push(item);
        assert(list@.map_values(|item: StockItem| item@) =~= before.push(found(*info, chinese)));
        assert(infos@.take(i + 1).map_values(|info: SecurityStaticInfo| found(info, chinese))
            =~= before.push(found(*info, chinese)));
        i = i + 1;
    }
    assert(infos@.take(infos.len() as int) =~= infos@);
    list
}

} // verus!
