//! Which colour stands for which direction of a price.

use crate::data::StockColorMode;
use vstd::prelude::*;

verus! {

/// A colour of the candlestick chart.
#[derive(Clone, Copy, Debug, PartialEq, Eq, Structural)]
pub enum ChartColor {
    BrightRed,
    BrightGreen,
}

/// The colour mode in use: green for a rising price, red for a falling one.
pub fn stock_color_mode() -> (r: StockColorMode)
    ensures
        r == StockColorMode::GreenUp,
{
    StockColorMode::GreenUp
}

/// The colours of a rising and of a falling price under `mode`.
pub open spec fn bull_bear_of(mode: StockColorMode) -> (ChartColor, ChartColor) {
    match mode {
        StockColorMode::RedUp => (ChartColor::BrightRed, ChartColor::BrightGreen),
        StockColorMode::GreenUp => (ChartColor::BrightGreen, ChartColor::BrightRed),
    }
}

/// The chart colours of a rising and of a falling price, in that order.
pub fn bull_bear_color() -> (r: (ChartColor, ChartColor))
    ensures
        r == bull_bear_of(StockColorMode::GreenUp),
{
    match stock_color_mode() {
        StockColorMode::RedUp => (ChartColor::BrightRed, ChartColor::BrightGreen),
        StockColorMode::GreenUp => (ChartColor::BrightGreen, ChartColor::BrightRed),
    }
}

} // verus!
