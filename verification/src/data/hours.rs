//! When the markets trade.
//!
//! The clock comes in as a moment of UTC, field by field. The calendar is the
//! `time` crate's: which weekday a date falls on, and which day of the year it is.

use super::types::Market;
use crate::text::{decimal_digits, push_decimal, string_of};
use vstd::prelude::*;

verus! {

pub const SATURDAY: u8 = 6;

pub const SUNDAY: u8 = 7;

pub const MARCH: u8 = 3;

pub const NOVEMBER: u8 = 11;

/// A moment of UTC.
#[derive(Clone, Copy, Debug, PartialEq, Eq, Structural)]
pub struct UtcMoment {
    pub year: i32,
    /// The month, 1 to 12.
    pub month: u8,
    /// The day of the year, from 1.
    pub ordinal: u16,
    /// The weekday, 1 for Monday to 7 for Sunday.
    pub weekday: u8,
    /// The hour, 0 to 23.
    pub hour: u8,
    /// The minute, 0 to 59.
    pub minute: u8,
}

/// What the `time` crate knows of a calendar date: its weekday, 1 for Monday to
/// 7 for Sunday, and its day of the year. `None` where it has no such date.
pub uninterp spec fn calendar_date(year: int, month: int, day: int) -> Option<(u8, u16)>;

/// `Date::from_calendar_date` of the `time` crate, with the date's `weekday` and
/// `ordinal`: not proved, only named. Where month, day or year are out of range
/// the date is refused; nothing panics.
#[verifier::external_body]
fn date_of(year: i32, month: u8, day: u8) -> (r: Option<(u8, u16)>)
    ensures
        r == calendar_date(year as int, month as int, day as int),
{
    let month = time::Month::try_from(month).ok()?;
    let date = time::Date::from_calendar_date(year, month, day).ok()?;
    Some((date.weekday().number_from_monday(), date.ordinal()))
}

/// The weekday of a calendar date, 1 for Monday to 7 for Sunday.
pub open spec fn calendar_weekday(year: int, month: int, day: int) -> Option<u8> {
    match calendar_date(year, month, day) {
        Some(date) => Some(date.0),
        None => None,
    }
}

/// The day of the year of a calendar date.
pub open spec fn calendar_ordinal(year: int, month: int, day: int) -> Option<u16> {
    match calendar_date(year, month, day) {
        Some(date) => Some(date.1),
        None => None,
    }
}

/// The day of the month on which `weekday` falls for the `n`th time, in a month
/// whose first day is the weekday `first`.
pub open spec fn nth_day(first: int, weekday: int, n: int) -> int {
    1 + (weekday - first + 7) % 7 + (n - 1) * 7
}

/// The day of the year on which `weekday` falls for the `n`th time in a month.
/// `None` where the calendar does not have the month or the day.
pub open spec fn nth_weekday(year: int, month: int, weekday: int, n: int) -> Option<u16> {
    match calendar_weekday(year, month, 1) {
        Some(first) => if 1 <= first <= 7 {
            calendar_ordinal(year, month, nth_day(first as int, weekday, n))
        } else {
            None
        },
        None => None,
    }
}

/// The day of the year on which `weekday` falls for the `n`th time in a month.
pub fn nth_weekday_of_month(year: i32, month: u8, weekday: u8, n: u8) -> (r: Option<u16>)
    requires
        1 <= weekday <= 7,
        1 <= n <= 5,
    ensures
        r == nth_weekday(year as int, month as int, weekday as int, n as int),
{
    match date_of(year, month, 1) {
        Some((first, _)) => {
            if first < 1 || first > 7 {
                return None;
            }
            let until: u8 = (weekday + 7 - first) % 7;
            let day: u8 = 1 + until + (n - 1) * 7;
            match date_of(year, month, day) {
                Some((_, ordinal)) => Some(ordinal),
                None => None,
            }
        },
        None => None,
    }
}

/// Whether New York keeps daylight saving time at `now`: from the second Sunday
/// of March to the day before the first Sunday of November. `None` where the
/// calendar does not have the year.
pub open spec fn us_daylight_saving(now: UtcMoment) -> Option<bool> {
    if now.month == MARCH {
        match nth_weekday(now.year as int, MARCH as int, SUNDAY as int, 2) {
            Some(start) => Some(now.ordinal >= start),
            None => None,
        }
    } else if now.month == NOVEMBER {
        match nth_weekday(now.year as int, NOVEMBER as int, SUNDAY as int, 1) {
            Some(end) => Some(now.ordinal < end),
            None => None,
        }
    } else {
        Some(MARCH < now.month && now.month < NOVEMBER)
    }
}

/// The weekday in a zone that is `offset` hours from UTC, at a moment whose UTC
/// weekday and hour are given.
pub open spec fn local_weekday(weekday: int, hour: int, offset: int) -> int {
    if hour + offset < 0 {
        if weekday <= 1 {
            7
        } else {
            weekday - 1
        }
    } else if hour + offset >= 24 {
        if weekday >= 7 {
            1
        } else {
            weekday + 1
        }
    } else {
        weekday
    }
}

/// Whether a weekday is Saturday or Sunday.
pub open spec fn is_weekend(weekday: int) -> bool {
    weekday == SATURDAY || weekday == SUNDAY
}

/// Whether `minutes`, counted from midnight UTC, lie in the trading hours of a
/// market. `summer` says whether New York keeps daylight saving time.
pub open spec fn in_trading_hours(market: Market, minutes: int, summer: bool) -> bool {
    match market {
        Market::US => if summer {
            13 * 60 + 30 <= minutes < 20 * 60
        } else {
            14 * 60 + 30 <= minutes < 21 * 60
        },
        Market::HK => 60 + 30 <= minutes < 4 * 60 || 5 * 60 <= minutes < 8 * 60,
        Market::CN => 60 + 30 <= minutes < 3 * 60 || 5 * 60 <= minutes < 7 * 60,
        Market::SG => 60 <= minutes < 9 * 60,
    }
}

/// Hours from UTC to the market's zone.
pub open spec fn utc_offset(market: Market, summer: bool) -> int {
    match market {
        Market::US => if summer {
            -4
        } else {
            -5
        },
        _ => 8,
    }
}

/// Whether a market trades at `now`: not on a weekend of its own zone, and
/// within its trading hours. `None` where the market is New York's and the
/// calendar cannot tell whether daylight saving time is kept.
pub open spec fn trading_at(market: Market, now: UtcMoment) -> Option<bool> {
    let summer = if market == Market::US {
        us_daylight_saving(now)
    } else {
        Some(false)
    };
    match summer {
        None => None,
        Some(summer) => Some(
            !is_weekend(
                local_weekday(now.weekday as int, now.hour as int, utc_offset(market, summer)),
            ) && in_trading_hours(market, now.hour * 60 + now.minute, summer),
        ),
    }
}

/// A number below 100 written with two digits.
pub open spec fn two_digits(n: nat) -> Seq<char> {
    if n < 10 {
        seq!['0'] + decimal_digits(n)
    } else {
        decimal_digits(n)
    }
}

impl UtcMoment {
    /// Whether New York keeps daylight saving time at this moment.
    pub fn is_us_daylight_saving_time(&self) -> (r: Option<bool>)
        ensures
            r == us_daylight_saving(*self),
    {
        if self.month == MARCH {
            match nth_weekday_of_month(self.year, MARCH, SUNDAY, 2) {
                Some(start) => Some(self.ordinal >= start),
                None => None,
            }
        } else if self.month == NOVEMBER {
            match nth_weekday_of_month(self.year, NOVEMBER, SUNDAY, 1) {
                Some(end) => Some(self.ordinal < end),
                None => None,
            }
        } else {
            Some(MARCH < self.month && self.month < NOVEMBER)
        }
    }

    /// The weekday in a zone that is `offset` hours from UTC.
    pub fn weekday_at_offset(&self, offset: i8) -> (r: u8)
        ensures
            r as int == local_weekday(self.weekday as int, self.hour as int, offset as int),
    {
        let local: i16 = self.hour as i16 + offset as i16;
        if local < 0 {
            if self.weekday <= 1 {
                7
            } else {
                self.weekday - 1
            }
        } else if local >= 24 {
            if self.weekday >= 7 {
                1
            } else {
                self.weekday + 1
            }
        } else {
            self.weekday
        }
    }
}

impl Market {
    /// The time of day at `now`, as `HH:MM`.
    pub fn local_time(self, now: &UtcMoment) -> (r: String)
        ensures
            r@ == two_digits(now.hour as nat) + seq![':'] + two_digits(now.minute as nat),
    {
        let mut out: Vec<char> = Vec::new();
        if now.hour < 10 {
            out.push('0');
        }
        push_decimal(&mut out, now.hour as u64);
        assert(out@ =~= two_digits(now.hour as nat));
        out.push(':');
        if now.minute < 10 {
            out.push('0');
        }
        push_decimal(&mut out, now.minute as u64);
        assert(out@ =~= two_digits(now.hour as nat) + seq![':'] + two_digits(now.minute as nat));
        string_of(&out)
    }

    /// Whether the market trades at `now`.
    pub fn is_trading(self, now: &UtcMoment) -> (r: Option<bool>)
        ensures
            r == trading_at(self, *now),
    {
        let summer = match self {
            Market::US => match now.is_us_daylight_saving_time() {
                Some(summer) => summer,
                None => {
                    return None;
                },
            },
            _ => false,
        };
        let offset: i8 = match self {
            Market::US => if summer {
                -4
            } else {
                -5
            },
            _ => 8,
        };
        let weekday = now.weekday_at_offset(offset);
        if weekday == SATURDAY || weekday == SUNDAY {
            return Some(false);
        }
        let minutes: u32 = now.hour as u32 * 60 + now.minute as u32;
        let open = match self {
            Market::US => {
                if summer {
                    13 * 60 + 30 <= minutes && minutes < 20 * 60
                } else {
                    14 * 60 + 30 <= minutes && minutes < 21 * 60
                }
            },
            Market::HK => (60 + 30 <= minutes && minutes < 4 * 60) || (5 * 60 <= minutes && minutes
                < 8 * 60),
            Market::CN => (60 + 30 <= minutes && minutes < 3 * 60) || (5 * 60 <= minutes && minutes
                < 7 * 60),
            Market::SG => 60 <= minutes && minutes < 9 * 60,
        };
        Some(open)
    }
}

} // verus!
