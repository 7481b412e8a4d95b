//! What this library takes from `rust_decimal`.
//!
//! Prices, turnovers and adjustment factors are `rust_decimal::Decimal` values. The
//! library carries them through unchanged and compares them for identity only; the
//! arithmetic is the outside crate's, and is named here rather than described.

use rust_decimal::Decimal;
use vstd::prelude::*;

verus! {

/// `rust_decimal::Decimal`, a 96-bit fixed-point number. Opaque to the verifier.
#[verifier::external_type_specification]
#[verifier::external_body]
pub struct ExDecimal(Decimal);

/// The decimal that `Decimal::from` makes of a signed 64-bit integer.
pub uninterp spec fn decimal_of(n: int) -> Decimal;

/// What `Decimal::checked_mul` returns for two factors: the product, or `None`
/// where it does not fit.
pub uninterp spec fn decimal_product(a: Decimal, b: Decimal) -> Option<Decimal>;

/// What `Decimal::checked_add` returns for two terms: the sum, or `None` where it
/// does not fit.
pub uninterp spec fn decimal_sum(a: Decimal, b: Decimal) -> Option<Decimal>;

/// `Decimal::checked_mul`: not proved, only named. The call computes on its two
/// arguments alone and reports overflow as `None` instead of panicking.
pub assume_specification[ Decimal::checked_mul ](a: Decimal, other: Decimal) -> (r: Option<Decimal>)
    ensures
        r == decimal_product(a, other),
;

/// `Decimal::checked_add`: not proved, only named. The call computes on its two
/// arguments alone and reports overflow as `None` instead of panicking.
pub assume_specification[ Decimal::checked_add ](a: Decimal, other: Decimal) -> (r: Option<Decimal>)
    ensures
        r == decimal_sum(a, other),
;

/// `Decimal::from(i64)`: not proved, only named. Every `i64` has a decimal, so the
/// conversion cannot fail.
#[verifier::external_body]
pub(crate) fn decimal_from_i64(n: i64) -> (d: Decimal)
    ensures
        d == decimal_of(n as int),
{
    Decimal::from(n)
}

/// The decimal that `Decimal::from` makes of an unsigned 64-bit integer.
pub uninterp spec fn decimal_of_unsigned(n: int) -> Decimal;

/// What `Decimal::checked_sub` returns: the difference, or `None` where it does
/// not fit.
pub uninterp spec fn decimal_difference(a: Decimal, b: Decimal) -> Option<Decimal>;

/// What `Decimal::checked_div` returns: the quotient, or `None` where the
/// divisor is zero or the quotient does not fit.
pub uninterp spec fn decimal_quotient(a: Decimal, b: Decimal) -> Option<Decimal>;

/// How `Decimal`'s order places `a` against `b`: -1 where `a` is less, 0 where
/// the two are equal in value, 1 where `a` is greater.
pub uninterp spec fn decimal_order(a: Decimal, b: Decimal) -> int;

/// `a` is at least `b` in `Decimal`'s order.
pub open spec fn decimal_ge(a: Decimal, b: Decimal) -> bool {
    decimal_order(a, b) >= 0
}

/// `a` is at most `b` in `Decimal`'s order.
pub open spec fn decimal_le(a: Decimal, b: Decimal) -> bool {
    decimal_order(a, b) <= 0
}

/// `a` is greater than `b` in `Decimal`'s order.
pub open spec fn decimal_gt(a: Decimal, b: Decimal) -> bool {
    decimal_order(a, b) > 0
}

/// `Decimal::checked_sub`: not proved, only named. The call computes on its two
/// arguments alone and reports overflow as `None` instead of panicking.
pub assume_specification[ Decimal::checked_sub ](a: Decimal, other: Decimal) -> (r: Option<Decimal>)
    ensures
        r == decimal_difference(a, other),
;

/// `Decimal::checked_div`: not proved, only named. The call computes on its two
/// arguments alone and reports a zero divisor and overflow as `None` instead of
/// panicking.
pub assume_specification[ Decimal::checked_div ](a: Decimal, other: Decimal) -> (r: Option<Decimal>)
    ensures
        r == decimal_quotient(a, other),
;

/// `Decimal::from(u64)`: not proved, only named. Every `u64` has a decimal, so
/// the conversion cannot fail.
#[verifier::external_body]
pub(crate) fn decimal_from_u64(n: u64) -> (d: Decimal)
    ensures
        d == decimal_of_unsigned(n as int),
{
    Decimal::from(n)
}

/// `Ord::cmp` of `Decimal`, as a number: not proved, only named. The order is
/// that of the values, whatever their scale.
#[verifier::external_body]
pub(crate) fn decimal_ordering(a: Decimal, b: Decimal) -> (r: i8)
    ensures
        r == decimal_order(a, b),
        -1 <= r <= 1,
{
    match a.cmp(&b) {
        std::cmp::Ordering::Less => -1,
        std::cmp::Ordering::Equal => 0,
        std::cmp::Ordering::Greater => 1,
    }
}

/// What `Decimal::is_zero` returns: whether the value is zero, whatever its sign
/// and scale.
pub uninterp spec fn decimal_is_zero(d: Decimal) -> bool;

/// What `Decimal::is_sign_negative` returns: whether the sign bit is set, which
/// it may be on a zero too.
pub uninterp spec fn decimal_is_negative(d: Decimal) -> bool;

/// `Decimal::is_zero`: not proved, only named.
pub assume_specification[ Decimal::is_zero ](d: &Decimal) -> (r: bool)
    ensures
        r == decimal_is_zero(*d),
;

/// `Decimal::is_sign_negative`: not proved, only named.
pub assume_specification[ Decimal::is_sign_negative ](d: &Decimal) -> (r: bool)
    ensures
        r == decimal_is_negative(*d),
;

/// What `Decimal::round_dp` returns: the value rounded to `places` decimal
/// places, halves to the even neighbour.
pub uninterp spec fn decimal_rounded(d: Decimal, places: int) -> Decimal;

/// What `Decimal::abs` returns: the value without its sign.
pub uninterp spec fn decimal_magnitude(d: Decimal) -> Decimal;

/// How `Decimal` writes a value with `Display`.
pub uninterp spec fn decimal_text(d: Decimal) -> Seq<char>;

/// How `Decimal` writes a value with `Display` at a precision of `places`
/// decimal places.
pub uninterp spec fn decimal_fixed(d: Decimal, places: int) -> Seq<char>;

/// `Decimal::round_dp`: not proved, only named.
pub assume_specification[ Decimal::round_dp ](d: &Decimal, dp: u32) -> (r: Decimal)
    ensures
        r == decimal_rounded(*d, dp as int),
;

/// `Decimal::abs`: not proved, only named.
pub assume_specification[ Decimal::abs ](d: &Decimal) -> (r: Decimal)
    ensures
        r == decimal_magnitude(*d),
;

/// `Display` of `Decimal`, through `to_string`: not proved, only named.
#[verifier::external_body]
pub(crate) fn decimal_to_string(d: Decimal) -> (r: String)
    ensures
        r@ == decimal_text(d),
{
    d.to_string()
}

/// `Display` of `Decimal` at a given precision, through `format!`: not proved,
/// only named.
#[verifier::external_body]
pub(crate) fn decimal_to_fixed(d: Decimal, places: usize) -> (r: String)
    ensures
        r@ == decimal_fixed(d, places as int),
{
    format!("{:.*}", places, d)
}

} // verus!
