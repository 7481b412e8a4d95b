//! How prices and percentages are written.

use crate::data::Counter;
use crate::decimal::{
    decimal_fixed, decimal_from_i64, decimal_magnitude, decimal_of, decimal_order,
    decimal_ordering, decimal_product, decimal_to_fixed,
};
use rust_decimal::Decimal;
use vstd::prelude::*;

verus! {

/// A price as it is written: with three decimal places below 10 in magnitude,
/// with two from 10 on.
pub open spec fn quote_text(price: Decimal) -> Seq<char> {
    if decimal_order(decimal_magnitude(price), decimal_of(10)) < 0 {
        decimal_fixed(price, 3)
    } else {
        decimal_fixed(price, 2)
    }
}

/// A ratio as it is written in percent: a hundred times the ratio, with two
/// decimal places and a percent sign. `None` where the hundredfold does not fit.
pub open spec fn percent_text(ratio: Decimal) -> Option<Seq<char>> {
    match decimal_product(ratio, decimal_of(100)) {
        Some(percent) => Some(decimal_fixed(percent, 2) + seq!['%']),
        None => None,
    }
}

/// Writing decimals for display.
pub trait DecimalExt {
    spec fn as_decimal(&self) -> Decimal;

    /// The price as it is written for `counter`.
    fn format_quote_by_counter(&self, counter: &Counter) -> (r: String)
        ensures
            r@ == quote_text(self.as_decimal()),
    ;

    /// The ratio as it is written in percent.
    fn format_percent(&self) -> (r: Option<String>)
        ensures
            match r {
                Some(text) => percent_text(self.as_decimal()) == Some(text@),
                None => percent_text(self.as_decimal()) is None,
            },
    ;
}

impl DecimalExt for Decimal {
    open spec fn as_decimal(&self) -> Decimal {
        *self
    }

    fn format_quote_by_counter(&self, _counter: &Counter) -> (r: String) {
        if decimal_ordering(self.abs(), decimal_from_i64(10)) < 0 {
            decimal_to_fixed(*self, 3)
        } else {
            decimal_to_fixed(*self, 2)
        }
    }

    fn format_percent(&self) -> (r: Option<String>) {
        match self.checked_mul(decimal_from_i64(100)) {
            Some(percent) => {
                let mut text = decimal_to_fixed(percent, 2);
                text.append("%");
                proof {
                    reveal_strlit("%");
                    assert("%"@ =~= seq!['%']);
                }
                Some(text)
            },
            None => None,
        }
    }
}

} // verus!
