//! The records that the upstream quote service delivers, as plain values.
//!
//! Times are unix seconds. Whoever talks to the service fills these in, field by
//! field, from what it received.

use super::types::{TradeDirection, TradeSession, TradeStatus};
use rust_decimal::Decimal;
use vstd::prelude::*;

verus! {

/// A quote pushed over the live feed. Carries the trading session, but no
/// previous close.
#[derive(Clone, Copy, Debug)]
pub struct PushQuote {
    pub last_done: Decimal,
    pub open: Decimal,
    pub high: Decimal,
    pub low: Decimal,
    pub timestamp: i64,
    pub volume: i64,
    pub turnover: Decimal,
    pub trade_status: TradeStatus,
    pub trade_session: TradeSession,
}

/// A full quote pulled from the service. Carries the previous close, but no
/// trading session.
#[derive(Debug)]
pub struct SecurityQuote {
    pub symbol: String,
    pub last_done: Decimal,
    pub prev_close: Decimal,
    pub open: Decimal,
    pub high: Decimal,
    pub low: Decimal,
    pub timestamp: i64,
    pub volume: i64,
    pub turnover: Decimal,
    pub trade_status: TradeStatus,
}

/// One delivered level of the order book; the price may be missing.
#[derive(Clone, Copy, Debug)]
pub struct DepthLevel {
    pub position: i32,
    pub price: Option<Decimal>,
    pub volume: i64,
    pub order_num: i64,
}

/// A delivered order book.
#[derive(Debug)]
pub struct SecurityDepth {
    pub asks: Vec<DepthLevel>,
    pub bids: Vec<DepthLevel>,
}

/// A delivered trade.
#[derive(Debug)]
pub struct Trade {
    pub price: Decimal,
    pub volume: i64,
    pub timestamp: i64,
    pub trade_type: String,
    pub direction: TradeDirection,
}

/// Delivered facts about an instrument.
#[derive(Debug)]
pub struct SecurityStaticInfo {
    pub symbol: String,
    pub name_cn: String,
    pub name_en: String,
    pub name_hk: String,
    pub exchange: String,
    pub currency: String,
    pub lot_size: i32,
    pub total_shares: i64,
    pub circulating_shares: i64,
    pub hk_shares: i64,
    pub eps: Decimal,
    pub eps_ttm: Decimal,
    pub bps: Decimal,
    pub dividend_yield: Decimal,
    pub board: String,
}

} // verus!
