//! The dates of both calendars: validation, the typed `EnglishDate` and
//! `BengaliDate` values constructible only through validated factories,
//! weekday resolution, and localized rendering of the fields.

use vstd::prelude::*;

use crate::calendar::{b2g_day_month, b2g_year, is_leap_year, leap_spec};
use crate::days::{
    bengali_weekday_name, english_weekday_name, english_weekday_of_index, spec_map_to_bengali,
    BengaliWeekDays, EnglishWeekDays, WeekDayError, WeekDays,
};
use crate::months::{
    bengali_month_index, bengali_month_name, bengali_month_of_index, english_month_index,
    english_month_name, english_month_of_index, BengaliMonths, EnglishMonths, Month, MonthError,
};

verus! {

/// Error raised when a date is invalid or cannot be converted.
#[derive(Debug)]
pub enum DateError {
    /// The date failed validation without a more specific cause.
    UnknownDate,
    /// The weekday could not be resolved, or an unknown weekday name was
    /// supplied.
    WrongWeekDay(WeekDayError),
    /// The month was invalid.
    WrongMonth(MonthError),
    /// The day was outside the valid range for the month and calendar.
    WrongDay,
    /// The year was outside the supported range for the calendar.
    WrongYear,
    /// A digit could not be translated to its Bengali-script glyph.
    NumToCharError,
    /// A wider host-clock numeric type could not be narrowed.
    CastingError(std::num::TryFromIntError),
    /// Year arithmetic underflowed or overflowed during conversion.
    ArithmeticError,
}

/// Length of a Gregorian month under the simplified leap rule (every fourth
/// year; no century exception).  Meaningful for `m` in 1..=12.
pub open spec fn greg_month_len(m: int, y: int) -> int {
    if m == 2 {
        if leap_spec(y) {
            29
        } else {
            28
        }
    } else if m == 4 || m == 6 || m == 9 || m == 11 {
        30
    } else {
        31
    }
}

/// Validation of a Gregorian day/month/year: the checks in the order they
/// are made, each with the error it fails with.
pub open spec fn greg_check(d: int, m: int, y: int) -> Result<(), DateError> {
    if d < 1 || d > 31 {
        Err(DateError::WrongDay)
    } else if y < 593 || y > 9999 {
        Err(DateError::WrongYear)
    } else if m < 1 || m > 12 {
        Err(DateError::WrongMonth(MonthError::WrongRange))
    } else if d > greg_month_len(m, y) {
        Err(DateError::WrongDay)
    } else {
        Ok(())
    }
}

/// Length of a Bengali month: months 1..=5 have 31 days, months 6..=10 and
/// 12 have 30, and month 11 (Falgun) has 31 exactly when the Gregorian year
/// it falls in (the Bengali year plus 594) is a leap year.  Meaningful for
/// `m` in 1..=12.
pub open spec fn beng_month_len(m: int, y: int) -> int {
    if m <= 5 {
        31
    } else if m == 11 {
        if leap_spec(y + 594) {
            31
        } else {
            30
        }
    } else {
        30
    }
}

/// Validation of a Bengali day/month/year: the checks in the order they are
/// made, each with the error it fails with.
pub open spec fn beng_check(d: int, m: int, y: int) -> Result<(), DateError> {
    if d < 1 || d > 31 {
        Err(DateError::WrongDay)
    } else if y < 1 || y > 8568 {
        Err(DateError::WrongYear)
    } else if m < 1 || m > 12 {
        Err(DateError::WrongMonth(MonthError::WrongRange))
    } else if d > beng_month_len(m, y) {
        Err(DateError::WrongDay)
    } else {
        Ok(())
    }
}

/// The full proleptic-Gregorian leap rule, century exception included.  This
/// is the rule of the actual calendar, which the date-construction primitive
/// enforces; the validator above deliberately uses the simplified rule.
pub open spec fn real_leap_spec(y: int) -> bool {
    y % 4 == 0 && (y % 100 != 0 || y % 400 == 0)
}

/// Length of a Gregorian month in the actual proleptic-Gregorian calendar.
pub open spec fn real_month_len(m: int, y: int) -> int {
    if m == 2 {
        if real_leap_spec(y) {
            29
        } else {
            28
        }
    } else if m == 4 || m == 6 || m == 9 || m == 11 {
        30
    } else {
        31
    }
}

/// Whether (d, m, y) is a date of the actual proleptic-Gregorian calendar.
pub open spec fn real_gregorian_date(d: int, m: int, y: int) -> bool {
    &&& 1 <= m <= 12
    &&& 1 <= d <= real_month_len(m, y)
}

/// Day of week of a proleptic-Gregorian date, counted from Sunday as 0, via
/// the standard civil day-count: days are counted within 400-year eras from
/// year 0, March first, and the count is reduced modulo the week.
pub open spec fn weekday_index(d: int, m: int, y: int) -> int {
    let yy = if m <= 2 {
        y - 1
    } else {
        y
    };
    let era = yy / 400;
    let yoe = yy % 400;
    let mp = if m > 2 {
        m - 3
    } else {
        m + 9
    };
    let doy = (153 * mp + 2) / 5 + d - 1;
    let doe = yoe * 365 + yoe / 4 - yoe / 100 + doy;
    (era * 146097 + doe + 3) % 7
}

/// The weekday of a proleptic-Gregorian date as a typed English weekday.
pub open spec fn weekday_variant_of(d: int, m: int, y: int) -> EnglishWeekDays {
    english_weekday_of_index(weekday_index(d, m, y))
}

/// Weekday lookup for a Gregorian date.
///
/// Relies on `chrono::NaiveDate::from_ymd_opt`, which returns `Some` exactly
/// when (year, month, day) is a date of the proleptic Gregorian calendar
/// (all years in [593, 9999] are within chrono's supported range), and on
/// `chrono::Datelike::weekday` with `Weekday::num_days_from_sunday`, which
/// give that date's day of week counted from Sunday as 0.
#[verifier::external_body]
fn chrono_weekday_of(day: u8, month: u8, year: u16) -> (r: Option<u8>)
    requires
        593 <= year <= 9999,
    ensures
        r is Some <==> real_gregorian_date(day as int, month as int, year as int),
        r matches Some(w) ==> w as int == weekday_index(day as int, month as int, year as int),
{
    match chrono::NaiveDate::from_ymd_opt(year as i32, month as u32, day as u32) {
        Some(date) => Some(chrono::Datelike::weekday(&date).num_days_from_sunday() as u8),
        None => None,
    }
}

/// The English weekday at a given position in the week, Sunday as 0.
fn english_weekday_from_index(i: u8) -> (w: EnglishWeekDays)
    requires
        i < 7,
    ensures
        w == english_weekday_of_index(i as int),
{
    match i {
        0 => EnglishWeekDays::Sunday,
        1 => EnglishWeekDays::Monday,
        2 => EnglishWeekDays::Tuesday,
        3 => EnglishWeekDays::Wednesday,
        4 => EnglishWeekDays::Thursday,
        5 => EnglishWeekDays::Friday,
        _ => EnglishWeekDays::Saturday,
    }
}

/// The Western glyph of a decimal digit.
pub open spec fn ascii_digit(d: int) -> char {
    if d == 0 {
        '0'
    } else if d == 1 {
        '1'
    } else if d == 2 {
        '2'
    } else if d == 3 {
        '3'
    } else if d == 4 {
        '4'
    } else if d == 5 {
        '5'
    } else if d == 6 {
        '6'
    } else if d == 7 {
        '7'
    } else if d == 8 {
        '8'
    } else {
        '9'
    }
}

/// The Bengali-script glyph of a decimal digit.
pub open spec fn bengali_digit(d: int) -> char {
    if d == 0 {
        '০'
    } else if d == 1 {
        '১'
    } else if d == 2 {
        '২'
    } else if d == 3 {
        '৩'
    } else if d == 4 {
        '৪'
    } else if d == 5 {
        '৫'
    } else if d == 6 {
        '৬'
    } else if d == 7 {
        '৭'
    } else if d == 8 {
        '৮'
    } else {
        '৯'
    }
}

/// Decimal rendering of a number with Western digits, most significant
/// digit first.
pub open spec fn ascii_numeral(n: nat) -> Seq<char>
    decreases n,
{
    if n < 10 {
        seq![ascii_digit(n as int)]
    } else {
        ascii_numeral(n / 10).push(ascii_digit((n % 10) as int))
    }
}

/// Decimal rendering of a number with Bengali-script digits, most
/// significant digit first.
pub open spec fn bengali_numeral(n: nat) -> Seq<char>
    decreases n,
{
    if n < 10 {
        seq![bengali_digit(n as int)]
    } else {
        bengali_numeral(n / 10).push(bengali_digit((n % 10) as int))
    }
}

/// The Western glyph of a single decimal digit, as a string.
fn ascii_digit_str(d: u16) -> (r: &'static str)
    requires
        d < 10,
    ensures
        r@ =~= seq![ascii_digit(d as int)],
{
    proof {
        reveal_strlit("0");
        reveal_strlit("1");
        reveal_strlit("2");
        reveal_strlit("3");
        reveal_strlit("4");
        reveal_strlit("5");
        reveal_strlit("6");
        reveal_strlit("7");
        reveal_strlit("8");
        reveal_strlit("9");
    }
    match d {
        0 => "0",
        1 => "1",
        2 => "2",
        3 => "3",
        4 => "4",
        5 => "5",
        6 => "6",
        7 => "7",
        8 => "8",
        _ => "9",
    }
}

/// The Bengali-script glyph of a single decimal digit, as a string.
fn bengali_digit_str(d: u16) -> (r: &'static str)
    requires
        d < 10,
    ensures
        r@ =~= seq![bengali_digit(d as int)],
{
    proof {
        reveal_strlit("০");
        reveal_strlit("১");
        reveal_strlit("২");
        reveal_strlit("৩");
        reveal_strlit("৪");
        reveal_strlit("৫");
        reveal_strlit("৬");
        reveal_strlit("৭");
        reveal_strlit("৮");
        reveal_strlit("৯");
    }
    match d {
        0 => "০",
        1 => "১",
        2 => "২",
        3 => "৩",
        4 => "৪",
        5 => "৫",
        6 => "৬",
        7 => "৭",
        8 => "৮",
        _ => "৯",
    }
}

/// Renders a number in decimal with Western digits.
fn decimal_string(n: u16) -> (s: String)
    ensures
        s@ == ascii_numeral(n as nat),
    decreases n,
{
    if n < 10 {
        ascii_digit_str(n).to_owned()
    } else {
        let mut s = decimal_string(n / 10);
        s.append(ascii_digit_str(n % 10));
        proof {
            assert(s@ =~= ascii_numeral(n as nat));
        }
        s
    }
}

/// Renders a number in decimal with Bengali-script digits.
fn bengali_decimal_string(n: u16) -> (s: String)
    ensures
        s@ == bengali_numeral(n as nat),
    decreases n,
{
    if n < 10 {
        bengali_digit_str(n).to_owned()
    } else {
        let mut s = bengali_decimal_string(n / 10);
        s.append(bengali_digit_str(n % 10));
        proof {
            assert(s@ =~= bengali_numeral(n as nat));
        }
        s
    }
}

/// The mathematical content of an `EnglishDate`: its numeric fields and its
/// typed weekday.
pub ghost struct GregorianParts {
    pub day: int,
    pub month: int,
    pub year: int,
    pub weekday: EnglishWeekDays,
}

/// The mathematical content of a `BengaliDate`: its numeric fields and its
/// typed weekday.
pub ghost struct BengaliParts {
    pub day: int,
    pub month: int,
    pub year: int,
    pub weekday: BengaliWeekDays,
}

/// A date of either calendar, or the unknown placeholder.
pub enum Date {
    English(EnglishDate),
    Bengali(BengaliDate),
    Unknown,
}

/// The rendered fields of a date: day, weekday, month and year, each as a
/// localized string.
pub type DateResult = Result<(String, String, String, String), DateError>;

/// A validated Gregorian date.  Values exist only through `create_date`, so
/// every `EnglishDate` holds a day/month/year that passed validation and the
/// weekday of that very date.
#[derive(Debug)]
pub struct EnglishDate {
    day: u8,
    week_day: WeekDays,
    month: u8,
    month_name: Month,
    year: u16,
}

impl View for EnglishDate {
    type V = GregorianParts;

    closed spec fn view(&self) -> GregorianParts {
        GregorianParts {
            day: self.day as int,
            month: self.month as int,
            year: self.year as int,
            weekday: match self.week_day {
                WeekDays::English(w) => w,
                _ => EnglishWeekDays::Sunday,
            },
        }
    }
}

impl EnglishDate {
    /// Everything a constructed Gregorian date guarantees: the fields passed
    /// validation, the date exists in the actual calendar, and the stored
    /// weekday and month identifier agree with the numeric fields.
    #[verifier::type_invariant]
    spec fn well_formed(self) -> bool {
        &&& greg_check(self.day as int, self.month as int, self.year as int) is Ok
        &&& real_gregorian_date(self.day as int, self.month as int, self.year as int)
        &&& self.week_day == WeekDays::English(
            weekday_variant_of(self.day as int, self.month as int, self.year as int),
        )
        &&& self.month_name == Month::English(english_month_of_index(self.month as int))
    }

    /// Checks day, year and month-specific day bound, in that order.
    fn is_valid_date(day: u8, month: u8, year: u16) -> (r: Result<(), DateError>)
        ensures
            r == greg_check(day as int, month as int, year as int),
    {
        if day < 1 || day > 31 {
            return Err(DateError::WrongDay);
        }
        if year < 593 || year > 9999 {
            return Err(DateError::WrongYear);
        }
        if month < 1 || month > 12 {
            return Err(DateError::WrongMonth(MonthError::WrongRange));
        }
        let max_day: u8 = match month {
            1 => 31,
            2 => if is_leap_year(year) {
                29
            } else {
                28
            },
            3 => 31,
            4 => 30,
            5 => 31,
            6 => 30,
            7 => 31,
            8 => 31,
            9 => 30,
            10 => 31,
            11 => 30,
            _ => 31,
        };
        if day > max_day {
            return Err(DateError::WrongDay);
        }
        Ok(())
    }

    /// Creates a validated Gregorian date with its weekday resolved.
    ///
    /// Succeeds exactly when the fields pass validation and the date exists
    /// in the actual calendar; a validation failure keeps its specific
    /// error, and a date that only the actual calendar rejects (29 February
    /// of a century year the simplified rule accepts) fails with
    /// `UnknownDate`.
    pub fn create_date(day: u8, month: EnglishMonths, year: u16) -> (r: Result<Self, DateError>)
        ensures
            ({
                let m = english_month_index(month);
                &&& (r is Ok <==> greg_check(day as int, m, year as int) is Ok
                    && real_gregorian_date(day as int, m, year as int))
                &&& (r matches Ok(e) ==> e@ == (GregorianParts {
                    day: day as int,
                    month: m,
                    year: year as int,
                    weekday: weekday_variant_of(day as int, m, year as int),
                }))
                &&& (r matches Err(e) ==> e == (if greg_check(day as int, m, year as int) is Err {
                    greg_check(day as int, m, year as int)->Err_0
                } else {
                    DateError::UnknownDate
                }))
            }),
    {
        let month_index = month.map_to_index();
        match Self::is_valid_date(day, month_index, year) {
            Ok(_) => (),
            Err(err) => {
                return Err(err);
            },
        }
        proof {
            crate::months::lemma_english_month_index_of_index(month);
        }
        match chrono_weekday_of(day, month_index, year) {
            Some(w) => {
                let week_day = WeekDays::English(english_weekday_from_index(w));
                Ok(
                    EnglishDate {
                        day,
                        week_day,
                        month: month_index,
                        month_name: Month::English(month),
                        year,
                    },
                )
            },
            None => Err(DateError::UnknownDate),
        }
    }

    /// The numeric day, month and year of the date.  The triple of any
    /// `EnglishDate` passes validation, exists in the actual calendar, and
    /// determines the stored weekday.
    pub fn get_date(&self) -> (r: (u8, u8, u16))
        ensures
            r.0 as int == self@.day,
            r.1 as int == self@.month,
            r.2 as int == self@.year,
            greg_check(self@.day, self@.month, self@.year) is Ok,
            real_gregorian_date(self@.day, self@.month, self@.year),
            self@.weekday == weekday_variant_of(self@.day, self@.month, self@.year),
    {
        proof {
            use_type_invariant(&*self);
        }
        (self.day, self.month, self.year)
    }

    /// The day, rendered with Western digits.
    pub fn get_day(&self) -> (r: String)
        ensures
            r@ == ascii_numeral(self@.day as nat),
    {
        decimal_string(self.day as u16)
    }

    /// The numeric day of the date.
    pub fn get_day_number(&self) -> (r: u8)
        ensures
            r as int == self@.day,
    {
        self.day
    }

    /// The English name of the date's weekday.
    pub fn get_week_day(&self) -> (r: Result<String, WeekDayError>)
        ensures
            r matches Ok(s) && s@ == english_weekday_name(self@.weekday),
    {
        proof {
            use_type_invariant(&*self);
        }
        self.week_day.get_week_day()
    }

    /// The English name of the date's month.
    pub fn get_month(&self) -> (r: Result<String, MonthError>)
        ensures
            r matches Ok(s) && s@ == english_month_name(english_month_of_index(self@.month)),
    {
        proof {
            use_type_invariant(&*self);
        }
        self.month_name.get_month_name()
    }

    /// The numeric month of the date, in 1..=12.
    pub fn get_month_number(&self) -> (r: u8)
        ensures
            r as int == self@.month,
    {
        self.month
    }

    /// The year, rendered with Western digits.
    pub fn get_year(&self) -> (r: String)
        ensures
            r@ == ascii_numeral(self@.year as nat),
    {
        decimal_string(self.year)
    }

    /// The numeric year of the date.
    pub fn get_year_number(&self) -> (r: u16)
        ensures
            r as int == self@.year,
    {
        self.year
    }
}

/// A validated Bengali date.  Values exist only through the factories, so
/// every `BengaliDate` holds a day/month/year that passed validation.
#[derive(Debug)]
pub struct BengaliDate {
    day: u8,
    week_day: WeekDays,
    month: u8,
    month_name: Month,
    year: u16,
}

impl View for BengaliDate {
    type V = BengaliParts;

    closed spec fn view(&self) -> BengaliParts {
        BengaliParts {
            day: self.day as int,
            month: self.month as int,
            year: self.year as int,
            weekday: match self.week_day {
                WeekDays::Bengali(w) => w,
                _ => BengaliWeekDays::Robibar,
            },
        }
    }
}

impl BengaliDate {
    /// Everything a constructed Bengali date guarantees: the fields passed
    /// validation and the stored identifiers agree with the numeric fields.
    /// The weekday is whichever one the factory stored; `create_date`
    /// derives it from the corresponding Gregorian date, while the
    /// weekday-supplying factories store the caller's weekday as given.
    #[verifier::type_invariant]
    spec fn well_formed(self) -> bool {
        &&& beng_check(self.day as int, self.month as int, self.year as int) is Ok
        &&& self.week_day is Bengali
        &&& self.month_name == Month::Bengali(bengali_month_of_index(self.month as int))
    }

    /// Checks day, year and month-specific day bound, in that order.  Month
    /// 11 (Falgun) has its 31st day exactly when the Gregorian year it falls
    /// in, the Bengali year plus 594, is a leap year.
    fn is_valid_date(day: u8, month: u8, year: u16) -> (r: Result<(), DateError>)
        ensures
            r == beng_check(day as int, month as int, year as int),
    {
        if day < 1 || day > 31 {
            return Err(DateError::WrongDay);
        }
        if year < 1 || year > 8568 {
            return Err(DateError::WrongYear);
        }
        if month < 1 || month > 12 {
            return Err(DateError::WrongMonth(MonthError::WrongRange));
        }
        let max_day: u8 = match month {
            1 => 31,
            2 => 31,
            3 => 31,
            4 => 31,
            5 => 31,
            6 => 30,
            7 => 30,
            8 => 30,
            9 => 30,
            10 => 30,
            11 => if is_leap_year(year + 594) {
                31
            } else {
                30
            },
            _ => 30,
        };
        if day > max_day {
            return Err(DateError::WrongDay);
        }
        Ok(())
    }

    /// Creates a validated Bengali date carrying the supplied weekday.
    ///
    /// Succeeds exactly when the fields pass validation; the supplied
    /// weekday is stored as given.
    pub fn create_date_with_weekday(
        day: u8,
        week_day: BengaliWeekDays,
        month: BengaliMonths,
        year: u16,
    ) -> (r: Result<Self, DateError>)
        ensures
            ({
                let m = bengali_month_index(month);
                &&& (r is Ok <==> beng_check(day as int, m, year as int) is Ok)
                &&& (r matches Ok(b) ==> b@ == (BengaliParts {
                    day: day as int,
                    month: m,
                    year: year as int,
                    weekday: week_day,
                }))
                &&& (r matches Err(e) ==> e == beng_check(day as int, m, year as int)->Err_0)
            }),
    {
        let month_index = month.map_to_index();
        match Self::is_valid_date(day, month_index, year) {
            Ok(_) => (),
            Err(err) => {
                return Err(err);
            },
        }
        proof {
            crate::months::lemma_bengali_month_index_of_index(month);
        }
        Ok(
            BengaliDate {
                day,
                week_day: WeekDays::Bengali(week_day),
                month: month_index,
                month_name: Month::Bengali(month),
                year,
            },
        )
    }

    /// Creates a validated Bengali date carrying the supplied weekday.
    ///
    /// Same behaviour as `create_date_with_weekday`, kept under its older
    /// name.
    pub fn create_bengali_date(
        day: u8,
        week_day: BengaliWeekDays,
        month: BengaliMonths,
        year: u16,
    ) -> (r: Result<Self, DateError>)
        ensures
            ({
                let m = bengali_month_index(month);
                &&& (r is Ok <==> beng_check(day as int, m, year as int) is Ok)
                &&& (r matches Ok(b) ==> b@ == (BengaliParts {
                    day: day as int,
                    month: m,
                    year: year as int,
                    weekday: week_day,
                }))
                &&& (r matches Err(e) ==> e == beng_check(day as int, m, year as int)->Err_0)
            }),
    {
        Self::create_date_with_weekday(day, week_day, month, year)
    }

    /// Creates a validated Bengali date, deriving the weekday from the
    /// corresponding Gregorian date through the fixed weekday
    /// correspondence.
    ///
    /// Succeeds exactly when the fields pass validation and the
    /// corresponding Gregorian date exists in the actual calendar; when
    /// only the latter fails, the error is `WrongWeekDay(FailedDateTimes)`.
    pub fn create_date(day: u8, month: BengaliMonths, year: u16) -> (r: Result<Self, DateError>)
        ensures
            ({
                let m = bengali_month_index(month);
                let gy = b2g_year(day as int, m, year as int);
                let gdm = b2g_day_month(day as int, m, gy);
                &&& (r is Ok <==> beng_check(day as int, m, year as int) is Ok
                    && real_gregorian_date(gdm.0, gdm.1, gy))
                &&& (r matches Ok(b) ==> b@ == (BengaliParts {
                    day: day as int,
                    month: m,
                    year: year as int,
                    weekday: spec_map_to_bengali(weekday_variant_of(gdm.0, gdm.1, gy)),
                }))
                &&& (r matches Err(e) ==> e == (if beng_check(day as int, m, year as int) is Err {
                    beng_check(day as int, m, year as int)->Err_0
                } else {
                    DateError::WrongWeekDay(WeekDayError::FailedDateTimes)
                }))
            }),
    {
        let month_index = month.map_to_index();
        match Self::is_valid_date(day, month_index, year) {
            Ok(_) => (),
            Err(err) => {
                return Err(err);
            },
        }
        let (greg_day, greg_month, greg_year) = crate::calendar::bengali_to_gregorian_numbers(
            day,
            month_index,
            year,
        );
        proof {
            crate::months::lemma_bengali_month_index_of_index(month);
        }
        match chrono_weekday_of(greg_day, greg_month, greg_year) {
            Some(w) => {
                let week_day = english_weekday_from_index(w).map_to_bengali();
                Ok(
                    BengaliDate {
                        day,
                        week_day: WeekDays::Bengali(week_day),
                        month: month_index,
                        month_name: Month::Bengali(month),
                        year,
                    },
                )
            },
            None => Err(DateError::WrongWeekDay(WeekDayError::FailedDateTimes)),
        }
    }

    /// The numeric day, month and year of the date.  The triple of any
    /// `BengaliDate` passes validation.
    pub fn get_date_number(&self) -> (r: (u8, u8, u16))
        ensures
            r.0 as int == self@.day,
            r.1 as int == self@.month,
            r.2 as int == self@.year,
            beng_check(self@.day, self@.month, self@.year) is Ok,
    {
        proof {
            use_type_invariant(&*self);
        }
        (self.day, self.month, self.year)
    }

    /// The day, rendered with Bengali-script digits.
    pub fn get_day(&self) -> (r: Result<String, DateError>)
        ensures
            r matches Ok(s) && s@ == bengali_numeral(self@.day as nat),
    {
        Ok(bengali_decimal_string(self.day as u16))
    }

    /// The Bengali name of the date's weekday.
    pub fn get_week_day(&self) -> (r: Result<String, WeekDayError>)
        ensures
            r matches Ok(s) && s@ == bengali_weekday_name(self@.weekday),
    {
        proof {
            use_type_invariant(&*self);
        }
        self.week_day.get_week_day()
    }

    /// The Bengali name of the date's month.
    pub fn get_month(&self) -> (r: Result<String, MonthError>)
        ensures
            r matches Ok(s) && s@ == bengali_month_name(bengali_month_of_index(self@.month)),
    {
        proof {
            use_type_invariant(&*self);
        }
        self.month_name.get_month_name()
    }

    /// The year, rendered with Bengali-script digits.
    pub fn get_year(&self) -> (r: Result<String, DateError>)
        ensures
            r matches Ok(s) && s@ == bengali_numeral(self@.year as nat),
    {
        Ok(bengali_decimal_string(self.year))
    }
}

impl Date {
    /// The English date held by this value, if it holds one.
    pub fn get_english_date(self) -> (r: Option<EnglishDate>)
        ensures
            (self matches Date::English(d) ==> r == Some(d)),
            !(self is English) ==> r is None,
    {
        match self {
            Date::English(date) => Some(date),
            _ => None,
        }
    }

    /// The Bengali date held by this value, if it holds one.
    pub fn get_bengali_date(self) -> (r: Option<BengaliDate>)
        ensures
            (self matches Date::Bengali(d) ==> r == Some(d)),
            !(self is Bengali) ==> r is None,
    {
        match self {
            Date::Bengali(date) => Some(date),
            _ => None,
        }
    }

    /// The rendered day, weekday, month and year of the date, localized to
    /// its calendar: Western digits and English names for a Gregorian date,
    /// Bengali script throughout for a Bengali date.
    pub fn get_date(&self) -> (r: DateResult)
        ensures
            (*self matches Date::English(d) ==> (r matches Ok(t) && t.0@ == ascii_numeral(
                d@.day as nat,
            ) && t.1@ == english_weekday_name(d@.weekday) && t.2@ == english_month_name(
                english_month_of_index(d@.month),
            ) && t.3@ == ascii_numeral(d@.year as nat))),
            (*self matches Date::Bengali(d) ==> (r matches Ok(t) && t.0@ == bengali_numeral(
                d@.day as nat,
            ) && t.1@ == bengali_weekday_name(d@.weekday) && t.2@ == bengali_month_name(
                bengali_month_of_index(d@.month),
            ) && t.3@ == bengali_numeral(d@.year as nat))),
            self is Unknown ==> r == Err::<(String, String, String, String), DateError>(
                DateError::UnknownDate,
            ),
    {
        match self {
            Date::English(date) => Ok(
                (
                    date.get_day(),
                    match date.get_week_day() {
                        Ok(week_day) => week_day,
                        Err(err) => {
                            return Err(DateError::WrongWeekDay(err));
                        },
                    },
                    match date.get_month() {
                        Ok(month) => month,
                        Err(err) => {
                            return Err(DateError::WrongMonth(err));
                        },
                    },
                    date.get_year(),
                ),
            ),
            Date::Bengali(date) => Ok(
                (
                    match date.get_day() {
                        Ok(day) => day,
                        Err(err) => {
                            return Err(err);
                        },
                    },
                    match date.get_week_day() {
                        Ok(week_day) => week_day,
                        Err(err) => {
                            return Err(DateError::WrongWeekDay(err));
                        },
                    },
                    match date.get_month() {
                        Ok(month) => month,
                        Err(err) => {
                            return Err(DateError::WrongMonth(err));
                        },
                    },
                    match date.get_year() {
                        Ok(year) => year,
                        Err(err) => {
                            return Err(err);
                        },
                    },
                ),
            ),
            Date::Unknown => Err(DateError::UnknownDate),
        }
    }
}

impl Date {
    /// The rendered day, weekday, month and year of the date, as
    /// `get_date`; this is the accessor's older name.
    pub fn get_day(&self) -> (r: DateResult)
        ensures
            (*self matches Date::English(d) ==> (r matches Ok(t) && t.0@ == ascii_numeral(
                d@.day as nat,
            ) && t.1@ == english_weekday_name(d@.weekday) && t.2@ == english_month_name(
                english_month_of_index(d@.month),
            ) && t.3@ == ascii_numeral(d@.year as nat))),
            (*self matches Date::Bengali(d) ==> (r matches Ok(t) && t.0@ == bengali_numeral(
                d@.day as nat,
            ) && t.1@ == bengali_weekday_name(d@.weekday) && t.2@ == bengali_month_name(
                bengali_month_of_index(d@.month),
            ) && t.3@ == bengali_numeral(d@.year as nat))),
            self is Unknown ==> r == Err::<(String, String, String, String), DateError>(
                DateError::UnknownDate,
            ),
    {
        self.get_date()
    }
}

/// Validator day-range law: for any month of a year in the supported range,
/// day 0 and the day one past the month's length both fail with `WrongDay`,
/// and every day from 1 up to the month's length passes.
pub proof fn lemma_gregorian_validator_day_range(d: int, m: int, y: int)
    requires
        1 <= m <= 12,
        593 <= y <= 9999,
    ensures
        greg_check(0, m, y) == Err::<(), DateError>(DateError::WrongDay),
        greg_check(greg_month_len(m, y) + 1, m, y) == Err::<(), DateError>(DateError::WrongDay),
        1 <= d <= greg_month_len(m, y) ==> greg_check(d, m, y) is Ok,
{
}

/// Validator day-range law for the Bengali calendar, as above.
pub proof fn lemma_bengali_validator_day_range(d: int, m: int, y: int)
    requires
        1 <= m <= 12,
        1 <= y <= 8568,
    ensures
        beng_check(0, m, y) == Err::<(), DateError>(DateError::WrongDay),
        beng_check(beng_month_len(m, y) + 1, m, y) == Err::<(), DateError>(DateError::WrongDay),
        1 <= d <= beng_month_len(m, y) ==> beng_check(d, m, y) is Ok,
{
}

/// Leap-year boundary law: 29 February validates exactly in the years the
/// simplified rule calls leap, and Falgun (Bengali month 11) has a 31st day
/// exactly when the Gregorian year it falls in, the Bengali year plus 594,
/// is such a leap year.
pub proof fn lemma_leap_year_boundary(y: int, by: int)
    requires
        593 <= y <= 9999,
        1 <= by <= 8568,
    ensures
        greg_check(29, 2, y) is Ok <==> y % 4 == 0,
        beng_check(31, 11, by) is Ok <==> (by + 594) % 4 == 0,
{
}

} // verus!
