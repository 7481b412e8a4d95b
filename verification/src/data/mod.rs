pub mod feed;
pub mod hours;
pub mod stock;
pub mod stocks;
pub mod types;
pub mod user;
pub mod watchlist;
pub mod ws;

pub use feed::{DepthLevel, PushQuote, SecurityDepth, SecurityQuote, SecurityStaticInfo, Trade};
pub use stock::{
    blank_stock, depth_of, static_info_of, trade_of, with_depth, with_push_quote,
    with_security_quote, with_static_info, with_trades, Stock, StockView,
};
pub use stocks::{
    entry_or_blank, keyed_by_symbol, placeholder, with_listing, with_placeholder, StockStore,
};
pub use types::{
    code_of, copy_kinds, copy_levels, copy_trades, market_from, market_of, trades_view,
    AdjustType, Candlestick, Counter, Currency, Depth, DepthData, DepthDataView, Kline,
    KlineType, Klines, Market, QuoteData, StaticInfo, StaticInfoView, StockColorMode, SubTypes,
    TradeData, TradeDataView, TradeDirection, TradeSession, TradeSessionExt, TradeStatus,
    TradeStatusExt,
};
pub use watchlist::{
    deduped, in_list_order, in_session, listed_before, market_rank, row_rank, symbols, RowRank,
    Watchlist, WatchlistGroup,
};
pub use user::{
    Account, AccountBalance, AccountList, CashBalance, CashInfo, Holding, HoldingView,
    MarketAccount, OrgInfo, OverviewData, PortfolioView, User,
};
pub use ws::ReadyState;
pub use hours::UtcMoment;
