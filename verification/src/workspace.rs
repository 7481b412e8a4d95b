//! What the application remembers from one run to the next.

use crate::data::{Counter, KlineType};
use crate::text::same_text;
use vstd::prelude::*;

verus! {

/// The view that the application shows.
#[derive(Clone, Copy, Debug, Default, PartialEq, Eq, Hash, Structural)]
pub enum AppState {
    Error,
    #[default]
    Loading,
    TradeToken,
    Portfolio,
    Stock,
    Watchlist,
    WatchlistStock,
}

/// The name under which a view is remembered.
pub open spec fn state_name(state: AppState) -> Seq<char> {
    match state {
        AppState::Error => "error"@,
        AppState::Loading => "loading"@,
        AppState::TradeToken => "trade_token"@,
        AppState::Portfolio => "portfolio"@,
        AppState::Stock => "stock"@,
        AppState::Watchlist => "watchlist"@,
        AppState::WatchlistStock => "watchlist_stock"@,
    }
}

/// The name under which a view is remembered.
pub fn app_state_to_str(state: AppState) -> (r: &'static str)
    ensures
        r@ == state_name(state),
{
    match state {
        AppState::Error => "error",
        AppState::Loading => "loading",
        AppState::TradeToken => "trade_token",
        AppState::Portfolio => "portfolio",
        AppState::Stock => "stock",
        AppState::Watchlist => "watchlist",
        AppState::WatchlistStock => "watchlist_stock",
    }
}

/// The view that was remembered under `raw`, if it is the name of one.
pub fn app_state_from_str(raw: &str) -> (r: Option<AppState>)
    ensures
        match r {
            Some(state) => state_name(state) == raw@,
            None => forall|state: AppState| state_name(state) != raw@,
        },
{
    if same_text(raw, "error") {
        Some(AppState::Error)
    } else if same_text(raw, "loading") {
        Some(AppState::Loading)
    } else if same_text(raw, "trade_token") {
        Some(AppState::TradeToken)
    } else if same_text(raw, "portfolio") {
        Some(AppState::Portfolio)
    } else if same_text(raw, "stock") {
        Some(AppState::Stock)
    } else if same_text(raw, "watchlist") {
        Some(AppState::Watchlist)
    } else if same_text(raw, "watchlist_stock") {
        Some(AppState::WatchlistStock)
    } else {
        None
    }
}

/// The state of the interface as it is saved when the application exits.
#[derive(Debug)]
pub struct WorkspaceSnapshot {
    pub version: u8,
    pub saved_at_unix: i64,
    pub last_state: Option<String>,
    pub watchlist_group_id: Option<u64>,
    pub watchlist_sort_by: (u8, u8, bool),
    pub watchlist_hidden: bool,
    pub selected_counter: Option<Counter>,
    pub stock_detail_counter: Option<Counter>,
    pub kline_type: KlineType,
    pub kline_index: usize,
    pub log_panel_visible: bool,
}

impl WorkspaceSnapshot {
    /// A snapshot taken at `now` that remembers nothing but the defaults.
    #[must_use]
    pub fn empty_now(now: i64) -> (r: Self)
        ensures
            r.version == 1,
            r.saved_at_unix == now,
            r.last_state is None,
            r.watchlist_group_id is None,
            r.watchlist_sort_by == (0u8, 0u8, false),
            !r.watchlist_hidden,
            r.selected_counter is None,
            r.stock_detail_counter is None,
            r.kline_type == KlineType::PerDay,
            r.kline_index == 0,
            !r.log_panel_visible,
    {
        WorkspaceSnapshot {
            version: 1,
            saved_at_unix: now,
            last_state: None,
            watchlist_group_id: None,
            watchlist_sort_by: (0, 0, false),
            watchlist_hidden: false,
            selected_counter: None,
            stock_detail_counter: None,
            kline_type: KlineType::PerDay,
            kline_index: 0,
            log_panel_visible: false,
        }
    }

    /// The snapshot of an interface in the given state.
    #[must_use]
    pub fn persist_workspace_snapshot(
        now: i64,
        state: Option<AppState>,
        watchlist_group_id: Option<u64>,
        watchlist_sort_by: (u8, u8, bool),
        watchlist_hidden: bool,
        selected_counter: Option<Counter>,
        stock_detail_counter: Option<Counter>,
        kline_type: KlineType,
        kline_index: usize,
        log_panel_visible: bool,
    ) -> (r: Self)
        ensures
            r.version == 1,
            r.saved_at_unix == now,
            match state {
                Some(s) => r.last_state is Some && r.last_state->0@ == state_name(s),
                None => r.last_state is None,
            },
            r.watchlist_group_id == watchlist_group_id,
            r.watchlist_sort_by == watchlist_sort_by,
            r.watchlist_hidden == watchlist_hidden,
            r.selected_counter == selected_counter,
            r.stock_detail_counter == stock_detail_counter,
            r.kline_type == kline_type,
            r.kline_index == kline_index,
            r.log_panel_visible == log_panel_visible,
    {
        WorkspaceSnapshot {
            version: 1,
            saved_at_unix: now,
            last_state: match state {
                Some(s) => Some(String::from_str(app_state_to_str(s))),
                None => None,
            },
            watchlist_group_id,
            watchlist_sort_by,
            watchlist_hidden,
            selected_counter,
            stock_detail_counter,
            kline_type,
            kline_index,
            log_panel_visible,
        }
    }
}

/// The symbol to select when the application starts, handed over once.
#[derive(Debug)]
pub struct StartupSelection {
    counter: Option<Counter>,
}

impl StartupSelection {
    pub closed spec fn held(&self) -> Option<Counter> {
        self.counter
    }

    pub fn new() -> (r: Self)
        ensures
            r.held() is None,
    {
        StartupSelection { counter: None }
    }

    /// Keeps `counter` for the start, in place of what was kept.
    pub fn set_startup_selected_counter(&mut self, counter: Option<Counter>)
        ensures
            final(self).held() == counter,
    {
        self.counter = counter;
    }

    /// Hands over what was kept, and keeps nothing.
    pub fn take_startup_selected_counter(&mut self) -> (r: Option<Counter>)
        ensures
            r == old(self).held(),
            final(self).held() is None,
    {
        self.counter.take()
    }
}

} // verus!
