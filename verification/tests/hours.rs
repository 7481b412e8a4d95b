use changqiao::data::hours::{nth_weekday_of_month, UtcMoment, MARCH, NOVEMBER, SUNDAY};
use changqiao::data::Market;

fn moment(year: i32, month: u8, ordinal: u16, weekday: u8, hour: u8, minute: u8) -> UtcMoment {
    UtcMoment { year, month, ordinal, weekday, hour, minute }
}

#[test]
fn second_sunday_of_march_and_first_of_november() {
    // 2024: March 10 is day 70 of a leap year, November 3 is day 308
    assert_eq!(nth_weekday_of_month(2024, MARCH, SUNDAY, 2), Some(70));
    assert_eq!(nth_weekday_of_month(2024, NOVEMBER, SUNDAY, 1), Some(308));
    // 2025: March 9 is day 68, November 2 is day 306
    assert_eq!(nth_weekday_of_month(2025, MARCH, SUNDAY, 2), Some(68));
    assert_eq!(nth_weekday_of_month(2025, NOVEMBER, SUNDAY, 1), Some(306));
    // 2026-03-01 is a Sunday: the first Sunday is day 60
    assert_eq!(nth_weekday_of_month(2026, MARCH, SUNDAY, 1), Some(60));
    // the first Monday of January 2024 is January 1
    assert_eq!(nth_weekday_of_month(2024, 1, 1, 1), Some(1));
    // there is no fifth Sunday in February 2025, and no month 13
    assert_eq!(nth_weekday_of_month(2025, 2, SUNDAY, 5), None);
    assert_eq!(nth_weekday_of_month(2025, 13, SUNDAY, 1), None);
    assert_eq!(nth_weekday_of_month(1_000_000, MARCH, SUNDAY, 1), None);
}

#[test]
fn daylight_saving_runs_from_march_to_november() {
    assert_eq!(moment(2025, 1, 15, 3, 12, 0).is_us_daylight_saving_time(), Some(false));
    assert_eq!(moment(2025, 2, 40, 7, 12, 0).is_us_daylight_saving_time(), Some(false));
    assert_eq!(moment(2025, 3, 67, 6, 12, 0).is_us_daylight_saving_time(), Some(false));
    assert_eq!(moment(2025, 3, 68, 7, 12, 0).is_us_daylight_saving_time(), Some(true));
    assert_eq!(moment(2025, 7, 190, 3, 12, 0).is_us_daylight_saving_time(), Some(true));
    assert_eq!(moment(2025, 10, 300, 1, 12, 0).is_us_daylight_saving_time(), Some(true));
    assert_eq!(moment(2025, 11, 305, 6, 12, 0).is_us_daylight_saving_time(), Some(true));
    assert_eq!(moment(2025, 11, 306, 7, 12, 0).is_us_daylight_saving_time(), Some(false));
    assert_eq!(moment(2025, 12, 350, 2, 12, 0).is_us_daylight_saving_time(), Some(false));
    assert_eq!(moment(1_000_000, 3, 68, 7, 12, 0).is_us_daylight_saving_time(), None);
    assert_eq!(moment(1_000_000, 4, 100, 7, 12, 0).is_us_daylight_saving_time(), Some(true));
}

#[test]
fn the_local_weekday_follows_the_offset() {
    let monday_morning = moment(2025, 6, 160, 1, 3, 0);
    assert_eq!(monday_morning.weekday_at_offset(-4), 7);
    assert_eq!(monday_morning.weekday_at_offset(8), 1);
    let sunday_evening = moment(2025, 6, 159, 7, 20, 0);
    assert_eq!(sunday_evening.weekday_at_offset(8), 1);
    assert_eq!(sunday_evening.weekday_at_offset(-5), 7);
    let wednesday = moment(2025, 6, 162, 3, 16, 0);
    assert_eq!(wednesday.weekday_at_offset(8), 4);
    assert_eq!(wednesday.weekday_at_offset(7), 3);
    assert_eq!(wednesday.weekday_at_offset(-16), 3);
    assert_eq!(wednesday.weekday_at_offset(-17), 2);
}

#[test]
fn new_york_trades_by_its_own_clock() {
    // a Wednesday in July: summer time, 13:30 to 20:00 UTC
    let summer = |hour, minute| moment(2025, 7, 190, 3, hour, minute);
    assert_eq!(Market::US.is_trading(&summer(13, 29)), Some(false));
    assert_eq!(Market::US.is_trading(&summer(13, 30)), Some(true));
    assert_eq!(Market::US.is_trading(&summer(19, 59)), Some(true));
    assert_eq!(Market::US.is_trading(&summer(20, 0)), Some(false));
    // a Wednesday in January: winter time, 14:30 to 21:00 UTC
    let winter = |hour, minute| moment(2025, 1, 15, 3, hour, minute);
    assert_eq!(Market::US.is_trading(&winter(13, 30)), Some(false));
    assert_eq!(Market::US.is_trading(&winter(14, 30)), Some(true));
    assert_eq!(Market::US.is_trading(&winter(20, 59)), Some(true));
    assert_eq!(Market::US.is_trading(&winter(21, 0)), Some(false));
    // Saturday in New York, whatever the hour
    assert_eq!(Market::US.is_trading(&moment(2025, 7, 193, 6, 15, 0)), Some(false));
    // Monday 02:00 UTC is still Sunday in New York
    assert_eq!(Market::US.is_trading(&moment(2025, 7, 188, 1, 2, 0)), Some(false));
    assert_eq!(Market::US.is_trading(&moment(1_000_000, 3, 68, 3, 15, 0)), None);
}

#[test]
fn asian_markets_trade_in_the_utc_morning() {
    let wednesday = |hour, minute| moment(2025, 7, 190, 3, hour, minute);
    assert_eq!(Market::HK.is_trading(&wednesday(1, 29)), Some(false));
    assert_eq!(Market::HK.is_trading(&wednesday(1, 30)), Some(true));
    assert_eq!(Market::HK.is_trading(&wednesday(3, 59)), Some(true));
    assert_eq!(Market::HK.is_trading(&wednesday(4, 0)), Some(false));
    assert_eq!(Market::HK.is_trading(&wednesday(5, 0)), Some(true));
    assert_eq!(Market::HK.is_trading(&wednesday(7, 59)), Some(true));
    assert_eq!(Market::HK.is_trading(&wednesday(8, 0)), Some(false));
    assert_eq!(Market::CN.is_trading(&wednesday(2, 59)), Some(true));
    assert_eq!(Market::CN.is_trading(&wednesday(3, 0)), Some(false));
    assert_eq!(Market::CN.is_trading(&wednesday(6, 59)), Some(true));
    assert_eq!(Market::CN.is_trading(&wednesday(7, 0)), Some(false));
    assert_eq!(Market::SG.is_trading(&wednesday(0, 59)), Some(false));
    assert_eq!(Market::SG.is_trading(&wednesday(1, 0)), Some(true));
    assert_eq!(Market::SG.is_trading(&wednesday(8, 59)), Some(true));
    assert_eq!(Market::SG.is_trading(&wednesday(9, 0)), Some(false));
    // Saturday in Hong Kong
    assert_eq!(Market::HK.is_trading(&moment(2025, 7, 193, 6, 2, 0)), Some(false));
    // Friday 17:00 UTC is Saturday in Hong Kong
    assert_eq!(Market::SG.is_trading(&moment(2025, 7, 192, 5, 17, 0)), Some(false));
    // the year does not matter outside New York
    assert_eq!(Market::HK.is_trading(&moment(1_000_000, 3, 68, 3, 2, 0)), Some(true));
}

#[test]
fn the_time_of_day_has_two_digits_each() {
    assert_eq!(Market::HK.local_time(&moment(2025, 7, 190, 3, 9, 5)), "09:05");
    assert_eq!(Market::US.local_time(&moment(2025, 7, 190, 3, 23, 59)), "23:59");
    assert_eq!(Market::SG.local_time(&moment(2025, 7, 190, 3, 0, 0)), "00:00");
    assert_eq!(Market::CN.local_time(&moment(2025, 7, 190, 3, 10, 10)), "10:10");
}
