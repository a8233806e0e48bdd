use ponjika::{BengaliWeekDays, EnglishWeekDays, WeekDayError, WeekDays};

#[test]
fn weekday_mapping_round_trips_from_english() {
    let days = [
        EnglishWeekDays::Sunday,
        EnglishWeekDays::Monday,
        EnglishWeekDays::Tuesday,
        EnglishWeekDays::Wednesday,
        EnglishWeekDays::Thursday,
        EnglishWeekDays::Friday,
        EnglishWeekDays::Saturday,
    ];
    for day in days.iter() {
        let there = day.map_to_bengali();
        let back = there.map_to_english();
        assert_eq!(back.as_str(), day.as_str());
    }
}

#[test]
fn weekday_mapping_round_trips_from_bengali() {
    let days = [
        BengaliWeekDays::Robibar,
        BengaliWeekDays::Sombar,
        BengaliWeekDays::Mongolbar,
        BengaliWeekDays::Budhbar,
        BengaliWeekDays::Brihoshpotibar,
        BengaliWeekDays::Shukrobar,
        BengaliWeekDays::Shonibar,
    ];
    for day in days.iter() {
        let there = day.map_to_english();
        let back = there.map_to_bengali();
        assert_eq!(back.as_str(), day.as_str());
    }
}

#[test]
fn weekday_mapping_pairs() {
    assert!(matches!(
        EnglishWeekDays::Sunday.map_to_bengali(),
        BengaliWeekDays::Robibar
    ));
    assert!(matches!(
        EnglishWeekDays::Thursday.map_to_bengali(),
        BengaliWeekDays::Brihoshpotibar
    ));
    assert!(matches!(
        BengaliWeekDays::Shonibar.map_to_english(),
        EnglishWeekDays::Saturday
    ));
    assert!(matches!(
        BengaliWeekDays::Mongolbar.map_to_english(),
        EnglishWeekDays::Tuesday
    ));
}

#[test]
fn english_weekday_parses_bengali_names() {
    assert!(matches!(
        EnglishWeekDays::get_english_weekday("রবিবার"),
        Ok(EnglishWeekDays::Sunday)
    ));
    assert!(matches!(
        EnglishWeekDays::get_english_weekday("শনিবার"),
        Ok(EnglishWeekDays::Saturday)
    ));
    assert!(matches!(
        EnglishWeekDays::get_english_weekday("nonsense"),
        Err(WeekDayError::UnknownWeekDays)
    ));
}

#[test]
fn bengali_weekday_parses_english_names() {
    assert!(matches!(
        BengaliWeekDays::get_english_weekday("Sunday"),
        Ok(BengaliWeekDays::Robibar)
    ));
    assert!(matches!(
        BengaliWeekDays::get_english_weekday("Friday"),
        Ok(BengaliWeekDays::Shukrobar)
    ));
    assert!(matches!(
        BengaliWeekDays::get_english_weekday("রবিবার"),
        Err(WeekDayError::UnknownWeekDays)
    ));
}

#[test]
fn weekday_names_render() {
    let wd = WeekDays::English(EnglishWeekDays::Sunday);
    assert_eq!(wd.get_week_day().unwrap(), "Sunday");
    let wd = WeekDays::Bengali(BengaliWeekDays::Robibar);
    assert_eq!(wd.get_week_day().unwrap(), "রবিবার");
    let wd = WeekDays::Unknown;
    assert!(matches!(
        wd.get_week_day(),
        Err(WeekDayError::UnknownWeekDays)
    ));
}
