//! The data layer of a terminal trading dashboard.
//!
//! It keeps a live view of quotes, order books, trades and candlestick history
//! per symbol, fresh against a rate-limited market-data service:
//!
//! - `openapi::rate_limiter`: the token bucket and the retry policy of calls
//!   to the service;
//! - `data::stocks`: the cache of market data, with its partial merges;
//! - `kline`: the cache of candlestick history, read page by page;
//! - `system`: the debounced, single-flight refresh and the steps of each
//!   refresh;
//! - `render::dirty_flags`: which regions of the display are stale.
//!
//! Nothing in the library waits, reads a clock or talks to the service. Time
//! and deliveries come in as values; what to fetch and how long to wait go out
//! as values.

pub mod alerts;
pub mod api;
pub mod cli;
pub mod data;
pub mod decimal;
pub mod doctor;
pub mod helper;
pub mod kline;
pub mod openapi;
pub mod render;
pub mod startup;
pub mod system;
pub mod text;
pub mod ui;
pub mod widgets;
pub mod workspace;
