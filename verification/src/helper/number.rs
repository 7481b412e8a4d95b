//! The sign of a number, be it a decimal or the text of one.

use crate::decimal::{decimal_is_negative, decimal_is_zero};
use crate::text::chars_of;
use rust_decimal::Decimal;
use vstd::prelude::*;

verus! {

/// Where a number stands against zero.
#[derive(Clone, Copy, Debug, PartialEq, Eq, Structural)]
pub enum Signum {
    Less,
    Equal,
    Greater,
}

/// The sign of a value that stands for a number.
pub trait Sign {
    spec fn reads_negative(&self) -> bool;

    spec fn reads_zero(&self) -> bool;

    fn positive(&self) -> (r: bool)
        ensures
            r == !(self.reads_negative() || self.reads_zero()),
    ;

    fn negative(&self) -> (r: bool)
        ensures
            r == self.reads_negative(),
    ;

    fn zero(&self) -> (r: bool)
        ensures
            r == self.reads_zero(),
    ;

    /// Below zero where negative, else zero where zero, else above.
    fn sign(&self) -> (r: Signum)
        ensures
            r == if self.reads_negative() {
                Signum::Less
            } else if self.reads_zero() {
                Signum::Equal
            } else {
                Signum::Greater
            },
    ;
}

/// Whether a text reads as negative: it begins with `-`.
pub open spec fn text_is_negative(s: Seq<char>) -> bool {
    s.len() > 0 && s[0] == '-'
}

/// Whether a text reads as zero: it holds no character but `0`, `.`, `+`, `-`.
pub open spec fn text_is_zero(s: Seq<char>) -> bool {
    forall|i: int|
        0 <= i < s.len() ==> (#[trigger] s[i] == '0' || s[i] == '.' || s[i] == '+' || s[i] == '-')
}

impl Sign for str {
    open spec fn reads_negative(&self) -> bool {
        text_is_negative(self@)
    }

    open spec fn reads_zero(&self) -> bool {
        text_is_zero(self@)
    }

    fn positive(&self) -> (r: bool) {
        !(self.negative() || self.zero())
    }

    fn negative(&self) -> (r: bool) {
        let v = chars_of(self);
        v.len() > 0 && v[0] == '-'
    }

    fn zero(&self) -> (r: bool) {
        let v = chars_of(self);
        let mut i: usize = 0;
        while i < v.len()
            invariant
                i <= v.len(),
                v@ == self@,
                forall|j: int|
                    0 <= j < i ==> (#[trigger] v@[j] == '0' || v@[j] == '.' || v@[j] == '+' || v@[j]
                        == '-'),
            decreases v.len() - i,
        {
            let c = v[i];
            if !(c == '0' || c == '.' || c == '+' || c == '-') {
                return false;
            }
            i = i + 1;
        }
        true
    }

    fn sign(&self) -> (r: Signum) {
        if self.negative() {
            Signum::Less
        } else if self.zero() {
            Signum::Equal
        } else {
            Signum::Greater
        }
    }
}

impl Sign for Decimal {
    open spec fn reads_negative(&self) -> bool {
        decimal_is_negative(*self)
    }

    open spec fn reads_zero(&self) -> bool {
        decimal_is_zero(*self)
    }

    fn positive(&self) -> (r: bool) {
        !self.is_sign_negative() && !Decimal::is_zero(self)
    }

    fn negative(&self) -> (r: bool) {
        self.is_sign_negative()
    }

    fn zero(&self) -> (r: bool) {
        Decimal::is_zero(self)
    }

    fn sign(&self) -> (r: Signum) {
        if self.is_sign_negative() {
            Signum::Less
        } else if Decimal::is_zero(self) {
            Signum::Equal
        } else {
            Signum::Greater
        }
    }
}

} // verus!
