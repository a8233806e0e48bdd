use ponjika::calendar;
use ponjika::season::BengaliSeasons;
use ponjika::{
    BengaliDate, BengaliMonths, BengaliWeekDays, Date, DateError, EnglishDate, EnglishMonths,
    Month, MonthError,
};

#[test]
fn english_date_renders_western_digits() {
    let e = EnglishDate::create_date(19, EnglishMonths::September, 2002).unwrap();
    assert_eq!(e.get_day(), "19");
    assert_eq!(e.get_year(), "2002");
    assert_eq!(e.get_week_day().unwrap(), "Thursday");
    assert_eq!(e.get_month().unwrap(), "September");
    assert_eq!(e.get_date(), (19, 9, 2002));
    assert_eq!(e.get_day_number(), 19);
    assert_eq!(e.get_month_number(), 9);
    assert_eq!(e.get_year_number(), 2002);
}

#[test]
fn bengali_date_renders_bengali_digits() {
    let b = BengaliDate::create_date_with_weekday(
        25,
        BengaliWeekDays::Robibar,
        BengaliMonths::Ashwin,
        1417,
    )
    .unwrap();
    assert_eq!(b.get_day().unwrap(), "২৫");
    assert_eq!(b.get_year().unwrap(), "১৪১৭");
    assert_eq!(b.get_week_day().unwrap(), "রবিবার");
    assert_eq!(b.get_month().unwrap(), "আশ্বিন");
    assert_eq!(b.get_date_number(), (25, 6, 1417));
}

#[test]
fn bengali_digits_cover_all_glyphs() {
    // 1903: one digit of each of four glyphs, including the zero.
    let b = BengaliDate::create_date_with_weekday(
        1,
        BengaliWeekDays::Sombar,
        BengaliMonths::Baishakh,
        1903,
    )
    .unwrap();
    assert_eq!(b.get_year().unwrap(), "১৯০৩");
    let b = BengaliDate::create_date_with_weekday(
        30,
        BengaliWeekDays::Sombar,
        BengaliMonths::Chaitra,
        8567,
    )
    .unwrap();
    assert_eq!(b.get_day().unwrap(), "৩০");
    assert_eq!(b.get_year().unwrap(), "৮৫৬৭");
}

#[test]
fn month_registry_names() {
    assert_eq!(EnglishMonths::January.as_str(), "January");
    assert_eq!(BengaliMonths::Baishakh.as_str(), "বৈশাখ");
    let m = Month::English(EnglishMonths::December);
    assert_eq!(m.get_month_name().unwrap(), "December");
    let m = Month::Bengali(BengaliMonths::Ogrohaeon);
    assert_eq!(m.get_month_name().unwrap(), "অগ্রহায়ণ");
    let m = Month::Unknown;
    assert!(matches!(m.get_month_name(), Err(MonthError::UnknownMonth)));
}

#[test]
fn date_enum_accessors() {
    let e = EnglishDate::create_date(1, EnglishMonths::January, 2000).unwrap();
    let d = Date::English(e);
    assert!(d.get_bengali_date().is_none());
    let e = EnglishDate::create_date(1, EnglishMonths::January, 2000).unwrap();
    let d = Date::English(e);
    let back = d.get_english_date().unwrap();
    assert_eq!(back.get_date(), (1, 1, 2000));

    let b = BengaliDate::create_date(4, BengaliMonths::Ashwin, 1409).unwrap();
    let d = Date::Bengali(b);
    assert!(d.get_english_date().is_none());

    let d = Date::Unknown;
    assert!(matches!(d.get_date(), Err(DateError::UnknownDate)));
}

#[test]
fn date_get_day_matches_get_date() {
    let e = EnglishDate::create_date(10, EnglishMonths::October, 2010).unwrap();
    let d = Date::English(e);
    assert_eq!(d.get_day().unwrap(), d.get_date().unwrap());
    assert_eq!(
        d.get_day().unwrap(),
        (
            "10".to_string(),
            "Sunday".to_string(),
            "October".to_string(),
            "2010".to_string()
        )
    );
    let d = Date::Unknown;
    assert!(matches!(d.get_day(), Err(DateError::UnknownDate)));
}

#[test]
fn round_trip_returns_original_gregorian_date() {
    let samples: [(u8, u8, u16); 6] = [
        (1, 1, 2000),
        (14, 4, 1999),
        (13, 4, 1999),
        (29, 2, 2024),
        (31, 12, 1995),
        (15, 10, 2020),
    ];
    for (day, month, year) in samples {
        let e = EnglishDate::create_date(day, EnglishMonths::get_month(month).unwrap(), year)
            .unwrap();
        let b = calendar::get_bengali_date_from_gregorian(e)
            .unwrap()
            .get_bengali_date()
            .unwrap();
        let back = calendar::get_gregorian_date_from_bengali(b)
            .unwrap()
            .get_english_date()
            .unwrap();
        let expect = EnglishDate::create_date(day, EnglishMonths::get_month(month).unwrap(), year)
            .unwrap();
        assert_eq!(back.get_date(), expect.get_date());
        assert_eq!(back.get_week_day().unwrap(), expect.get_week_day().unwrap());
    }
}

#[test]
fn conversion_rejects_the_unreachable_bengali_day() {
    // The forward table sends 16 October to a 31st day of Ashwin, a 30-day
    // month, so this one date of the year cannot be converted.
    let e = EnglishDate::create_date(16, EnglishMonths::October, 2020).unwrap();
    let r = calendar::get_bengali_date_from_gregorian(e);
    assert!(matches!(r, Err(DateError::WrongDay)));
}

#[test]
fn conversion_of_earliest_years_reports_arithmetic_error() {
    let e = EnglishDate::create_date(1, EnglishMonths::January, 593).unwrap();
    let r = calendar::get_bengali_date_from_gregorian(e);
    assert!(matches!(r, Err(DateError::ArithmeticError)));
    // After the new year of 593 the Bengali year would be zero.
    let e = EnglishDate::create_date(1, EnglishMonths::May, 593).unwrap();
    let r = calendar::get_bengali_date_from_gregorian(e);
    assert!(matches!(r, Err(DateError::WrongYear)));
}

#[test]
fn conversion_of_latest_years_reports_wrong_year() {
    // Gregorian 9999 corresponds to a Bengali year past the supported 8568.
    let e = EnglishDate::create_date(1, EnglishMonths::July, 9999).unwrap();
    let r = calendar::get_bengali_date_from_gregorian(e);
    assert!(matches!(r, Err(DateError::WrongYear)));
}

#[test]
fn seasons_cover_the_year() {
    assert_eq!(BengaliSeasons::from_month(1).as_str(), "গ্রীষ্ম");
    assert_eq!(BengaliSeasons::from_month(2).as_str(), "গ্রীষ্ম");
    assert_eq!(BengaliSeasons::from_month(3).as_str(), "বর্ষা");
    assert_eq!(BengaliSeasons::from_month(5).as_str(), "শরৎ");
    assert_eq!(BengaliSeasons::from_month(8).as_str(), "হেমন্ত");
    assert_eq!(BengaliSeasons::from_month(9).as_str(), "শীত");
    assert_eq!(BengaliSeasons::from_month(12).as_str(), "বসন্ত");
    // Out-of-range months fall back to Sheet.
    assert_eq!(BengaliSeasons::from_month(0).as_str(), "শীত");
    assert_eq!(BengaliSeasons::from_month(13).as_str(), "শীত");
}
