//! Conversion between Gregorian (English) and Bengali solar calendar dates,
//! with validation, weekday resolution and Bengali-script rendering.

pub mod calendar;
pub mod date;
pub mod days;
pub mod months;
pub mod season;

pub use calendar::get_bengali_date_from_gregorian;
pub use calendar::get_gregorian_date_from_bengali;
pub use date::BengaliDate;
pub use date::Date;
pub use date::DateError;
pub use date::EnglishDate;
pub use days::BengaliWeekDays;
pub use days::EnglishWeekDays;
pub use days::WeekDayError;
pub use days::WeekDays;
pub use months::BengaliMonths;
pub use months::EnglishMonths;
pub use months::Month;
pub use months::MonthError;
pub use season::BengaliSeasons;
