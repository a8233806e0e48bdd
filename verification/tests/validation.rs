use ponjika::{BengaliDate, BengaliMonths, BengaliWeekDays, DateError, EnglishDate, EnglishMonths};
use ponjika::{MonthError, WeekDayError};

#[test]
fn gregorian_day_zero_fails_wrong_day() {
    let r = EnglishDate::create_date(0, EnglishMonths::January, 2000);
    assert!(matches!(r, Err(DateError::WrongDay)));
}

#[test]
fn gregorian_day_32_fails_wrong_day() {
    // Day 32 fails for every month; January is the longest.
    let r = EnglishDate::create_date(32, EnglishMonths::January, 2000);
    assert!(matches!(r, Err(DateError::WrongDay)));
    let r = EnglishDate::create_date(32, EnglishMonths::February, 2000);
    assert!(matches!(r, Err(DateError::WrongDay)));
    let r = EnglishDate::create_date(32, EnglishMonths::December, 2000);
    assert!(matches!(r, Err(DateError::WrongDay)));
}

#[test]
fn gregorian_day_past_month_length_fails_wrong_day() {
    // April has 30 days.
    let r = EnglishDate::create_date(31, EnglishMonths::April, 2000);
    assert!(matches!(r, Err(DateError::WrongDay)));
    assert!(EnglishDate::create_date(30, EnglishMonths::April, 2000).is_ok());
    assert!(EnglishDate::create_date(1, EnglishMonths::April, 2000).is_ok());
}

#[test]
fn gregorian_year_100_fails_wrong_year() {
    let r = EnglishDate::create_date(1, EnglishMonths::January, 100);
    assert!(matches!(r, Err(DateError::WrongYear)));
    let r = EnglishDate::create_date(1, EnglishMonths::January, 10000);
    assert!(matches!(r, Err(DateError::WrongYear)));
}

#[test]
fn gregorian_leap_day_needs_fourth_year() {
    assert!(EnglishDate::create_date(29, EnglishMonths::February, 2004).is_ok());
    let r = EnglishDate::create_date(29, EnglishMonths::February, 2003);
    assert!(matches!(r, Err(DateError::WrongDay)));
    assert!(EnglishDate::create_date(28, EnglishMonths::February, 2003).is_ok());
}

#[test]
fn gregorian_century_leap_day_fails_unknown_date() {
    // The validator's simplified rule accepts 29 February 1900, but the
    // actual calendar has no such day, so the factory's defensive check
    // refuses it.
    let r = EnglishDate::create_date(29, EnglishMonths::February, 1900);
    assert!(matches!(r, Err(DateError::UnknownDate)));
    // Year 2000 is a leap year under both rules.
    assert!(EnglishDate::create_date(29, EnglishMonths::February, 2000).is_ok());
}

#[test]
fn bengali_day_zero_fails_wrong_day() {
    let r = BengaliDate::create_date(0, BengaliMonths::Baishakh, 1400);
    assert!(matches!(r, Err(DateError::WrongDay)));
}

#[test]
fn bengali_day_past_month_length_fails_wrong_day() {
    // Ashwin (month 6) has 30 days.
    let r = BengaliDate::create_date(31, BengaliMonths::Ashwin, 1400);
    assert!(matches!(r, Err(DateError::WrongDay)));
    assert!(BengaliDate::create_date(30, BengaliMonths::Ashwin, 1400).is_ok());
    // Baishakh (month 1) has 31 days.
    assert!(BengaliDate::create_date(31, BengaliMonths::Baishakh, 1400).is_ok());
    let r = BengaliDate::create_date(32, BengaliMonths::Baishakh, 1400);
    assert!(matches!(r, Err(DateError::WrongDay)));
}

#[test]
fn bengali_falgun_31_exists_only_in_leap_years() {
    // Falgun of Bengali year 1410 falls in Gregorian 2004, a leap year.
    assert!(BengaliDate::create_date(31, BengaliMonths::Falgun, 1410).is_ok());
    // Falgun of Bengali year 1409 falls in Gregorian 2003: no 31st day.
    let r = BengaliDate::create_date(31, BengaliMonths::Falgun, 1409);
    assert!(matches!(r, Err(DateError::WrongDay)));
    assert!(BengaliDate::create_date(30, BengaliMonths::Falgun, 1409).is_ok());
}

#[test]
fn bengali_year_bounds_fail_wrong_year() {
    let r = BengaliDate::create_date(1, BengaliMonths::Baishakh, 0);
    assert!(matches!(r, Err(DateError::WrongYear)));
    let r = BengaliDate::create_date(1, BengaliMonths::Baishakh, 8569);
    assert!(matches!(r, Err(DateError::WrongYear)));
    assert!(BengaliDate::create_date(1, BengaliMonths::Baishakh, 8568).is_ok());
}

#[test]
fn bengali_weekday_variant_factory_validates_too() {
    let r = BengaliDate::create_date_with_weekday(
        0,
        BengaliWeekDays::Robibar,
        BengaliMonths::Poush,
        1400,
    );
    assert!(matches!(r, Err(DateError::WrongDay)));
    let r = BengaliDate::create_bengali_date(
        31,
        BengaliWeekDays::Robibar,
        BengaliMonths::Poush,
        1400,
    );
    assert!(matches!(r, Err(DateError::WrongDay)));
    assert!(BengaliDate::create_date_with_weekday(
        10,
        BengaliWeekDays::Robibar,
        BengaliMonths::Poush,
        1400
    )
    .is_ok());
}

#[test]
fn bengali_date_on_missing_gregorian_day_fails_weekday() {
    // 16 Falgun 1306 corresponds to 29 February 1900, which the actual
    // calendar does not have, so the weekday cannot be resolved.
    let r = BengaliDate::create_date(16, BengaliMonths::Falgun, 1306);
    assert!(matches!(
        r,
        Err(DateError::WrongWeekDay(WeekDayError::FailedDateTimes))
    ));
    // A day later corresponds to 1 March 1900, which exists.
    assert!(BengaliDate::create_date(17, BengaliMonths::Falgun, 1306).is_ok());
}

#[test]
fn month_registry_rejects_out_of_range_indexes() {
    assert!(matches!(
        EnglishMonths::get_month(0),
        Err(MonthError::WrongRange)
    ));
    assert!(matches!(
        EnglishMonths::get_month(13),
        Err(MonthError::WrongRange)
    ));
    assert!(matches!(
        BengaliMonths::get_month(0),
        Err(MonthError::WrongRange)
    ));
    assert!(matches!(
        BengaliMonths::get_month(13),
        Err(MonthError::WrongRange)
    ));
    assert!(matches!(
        EnglishMonths::get_month(5),
        Ok(EnglishMonths::May)
    ));
    assert!(matches!(
        BengaliMonths::get_month(11),
        Ok(BengaliMonths::Falgun)
    ));
}

#[test]
fn month_indexes_round_trip() {
    for i in 1..=12u8 {
        assert_eq!(EnglishMonths::get_month(i).unwrap().map_to_index(), i);
        assert_eq!(BengaliMonths::get_month(i).unwrap().map_to_index(), i);
    }
}
