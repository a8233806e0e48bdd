//! Calendar-level rules shared by both calendars: the leap-year rule and the
//! conversion tables between Gregorian and Bengali dates.

use vstd::prelude::*;

use crate::date::{
    beng_check, greg_check, real_gregorian_date, weekday_variant_of, BengaliDate, BengaliParts,
    Date, DateError, EnglishDate, GregorianParts,
};
use crate::days::{lemma_parse_english_weekday_name, spec_map_to_bengali, BengaliWeekDays};
use crate::months::{BengaliMonths, EnglishMonths};

verus! {

/// The leap-year rule used throughout: a year is a leap year exactly when it
/// is divisible by four.  The Gregorian century exception is deliberately not
/// applied here; the conversion tables are calibrated against this rule.
pub open spec fn leap_spec(year: int) -> bool {
    year % 4 == 0
}

/// Checks if the year is a leap year (divisible by four).
pub(crate) fn is_leap_year(year: u16) -> (r: bool)
    ensures
        r == leap_spec(year as int),
{
    year % 4 == 0
}

/// The Bengali year that a Gregorian date falls in.  The Bengali new year is
/// 14 April, so dates before it belong to the Bengali year that started in
/// the previous Gregorian year.
pub open spec fn g2b_year(d: int, m: int, y: int) -> int {
    if m < 4 || (m == 4 && d < 14) {
        y - 594
    } else {
        y - 593
    }
}

/// The Bengali (day, month) of a Gregorian date: a fixed per-Gregorian-month
/// offset table with one exact cutoff day per month, leap-sensitive at the
/// February/Falgun boundary (March entries).
pub open spec fn g2b_day_month(d: int, m: int, y: int) -> (int, int) {
    if m == 1 {
        if d <= 14 {
            (d + 16, 9)
        } else {
            (d - 14, 10)
        }
    } else if m == 2 {
        if d <= 13 {
            (d + 17, 10)
        } else {
            (d - 13, 11)
        }
    } else if m == 3 {
        if d <= 14 {
            if leap_spec(y) {
                (d + 16, 11)
            } else {
                (d + 15, 11)
            }
        } else {
            (d - 14, 12)
        }
    } else if m == 4 {
        if d <= 13 {
            (d + 17, 12)
        } else {
            (d - 13, 1)
        }
    } else if m == 5 {
        if d <= 14 {
            (d + 17, 1)
        } else {
            (d - 14, 2)
        }
    } else if m == 6 {
        if d <= 14 {
            (d + 17, 2)
        } else {
            (d - 14, 3)
        }
    } else if m == 7 {
        if d <= 15 {
            (d + 16, 3)
        } else {
            (d - 15, 4)
        }
    } else if m == 8 {
        if d <= 15 {
            (d + 16, 4)
        } else {
            (d - 15, 5)
        }
    } else if m == 9 {
        if d <= 15 {
            (d + 16, 5)
        } else {
            (d - 15, 6)
        }
    } else if m == 10 {
        if d <= 16 {
            (d + 15, 6)
        } else {
            (d - 16, 7)
        }
    } else if m == 11 {
        if d <= 15 {
            (d + 15, 7)
        } else {
            (d - 15, 8)
        }
    } else {
        if d <= 15 {
            (d + 15, 8)
        } else {
            (d - 15, 9)
        }
    }
}

/// The Gregorian year that a Bengali date falls in.  Bengali months 10 and 11
/// lie wholly after the Gregorian new year, month 9 straddles it at day 17,
/// and month 12 lies wholly before the Bengali new year.
pub open spec fn b2g_year(d: int, m: int, y: int) -> int {
    if (m == 9 && d >= 17) || (m == 12 && d <= 30) || m == 10 || m == 11 {
        y + 594
    } else {
        y + 593
    }
}

/// The Gregorian (day, month) of a Bengali date: the independent inverse
/// offset table, leap-sensitive at Bengali month 11 where the leap status of
/// the already-derived Gregorian year `gy` decides the cutoff.
pub open spec fn b2g_day_month(d: int, m: int, gy: int) -> (int, int) {
    if m == 9 {
        if d >= 17 {
            (d - 16, 1)
        } else {
            (d + 15, 12)
        }
    } else if m == 10 {
        if d >= 18 {
            (d - 17, 2)
        } else {
            (d + 14, 1)
        }
    } else if m == 11 {
        if leap_spec(gy) {
            if d >= 17 {
                (d - 16, 3)
            } else {
                (d + 13, 2)
            }
        } else {
            if d >= 16 {
                (d - 15, 3)
            } else {
                (d + 13, 2)
            }
        }
    } else if m == 12 {
        if d >= 18 {
            (d - 17, 4)
        } else {
            (d + 14, 3)
        }
    } else if m == 1 {
        if d >= 18 {
            (d - 17, 5)
        } else {
            (d + 13, 4)
        }
    } else if m == 2 {
        if d >= 18 {
            (d - 17, 6)
        } else {
            (d + 14, 5)
        }
    } else if m == 3 {
        if d >= 17 {
            (d - 16, 7)
        } else {
            (d + 14, 6)
        }
    } else if m == 4 {
        if d >= 17 {
            (d - 16, 8)
        } else {
            (d + 15, 7)
        }
    } else if m == 5 {
        if d >= 17 {
            (d - 16, 9)
        } else {
            (d + 15, 8)
        }
    } else if m == 6 {
        if d >= 16 {
            (d - 15, 10)
        } else {
            (d + 15, 9)
        }
    } else if m == 7 {
        if d >= 16 {
            (d - 15, 11)
        } else {
            (d + 16, 10)
        }
    } else {
        if d >= 16 {
            (d - 15, 12)
        } else {
            (d + 15, 11)
        }
    }
}

/// Converts a valid Gregorian day/month/year to the Bengali day/month/year
/// given by the offset tables.  Fails with `ArithmeticError` exactly when
/// the Bengali year would be negative.
pub(crate) fn gregorian_to_bengali_numbers(day: u8, month: u8, year: u16) -> (r: Result<
    (u8, u8, u16),
    DateError,
>)
    requires
        greg_check(day as int, month as int, year as int) is Ok,
    ensures
        ({
            let by = g2b_year(day as int, month as int, year as int);
            let (bd, bm) = g2b_day_month(day as int, month as int, year as int);
            &&& r is Ok <==> by >= 0
            &&& (r matches Ok(t) ==> t.0 as int == bd && t.1 as int == bm && t.2 as int == by)
            &&& (r matches Ok(t) ==> 1 <= t.0 <= 31 && 1 <= t.1 <= 12)
            &&& (r is Err ==> r == Err::<(u8, u8, u16), DateError>(DateError::ArithmeticError))
        }),
{
    let bengali_year: u16 = if month < 4 || (month == 4 && day < 14) {
        match year.checked_sub(594) {
            Some(y) => y,
            None => {
                return Err(DateError::ArithmeticError);
            },
        }
    } else {
        match year.checked_sub(593) {
            Some(y) => y,
            None => {
                return Err(DateError::ArithmeticError);
            },
        }
    };
    let (bengali_day, bengali_month): (u8, u8) = if month == 1 {
        if day <= 14 {
            (day + 16, 9)
        } else {
            (day - 14, 10)
        }
    } else if month == 2 {
        if day <= 13 {
            (day + 17, 10)
        } else {
            (day - 13, 11)
        }
    } else if month == 3 {
        if day <= 14 {
            if is_leap_year(year) {
                (day + 16, 11)
            } else {
                (day + 15, 11)
            }
        } else {
            (day - 14, 12)
        }
    } else if month == 4 {
        if day <= 13 {
            (day + 17, 12)
        } else {
            (day - 13, 1)
        }
    } else if month == 5 {
        if day <= 14 {
            (day + 17, 1)
        } else {
            (day - 14, 2)
        }
    } else if month == 6 {
        if day <= 14 {
            (day + 17, 2)
        } else {
            (day - 14, 3)
        }
    } else if month == 7 {
        if day <= 15 {
            (day + 16, 3)
        } else {
            (day - 15, 4)
        }
    } else if month == 8 {
        if day <= 15 {
            (day + 16, 4)
        } else {
            (day - 15, 5)
        }
    } else if month == 9 {
        if day <= 15 {
            (day + 16, 5)
        } else {
            (day - 15, 6)
        }
    } else if month == 10 {
        if day <= 16 {
            (day + 15, 6)
        } else {
            (day - 16, 7)
        }
    } else if month == 11 {
        if day <= 15 {
            (day + 15, 7)
        } else {
            (day - 15, 8)
        }
    } else {
        if day <= 15 {
            (day + 15, 8)
        } else {
            (day - 15, 9)
        }
    };
    Ok((bengali_day, bengali_month, bengali_year))
}

/// Converts a valid Bengali day/month/year to the Gregorian day/month/year
/// given by the inverse offset tables.  The result always passes the
/// simplified Gregorian validation; the year stays within [594, 9162].
pub(crate) fn bengali_to_gregorian_numbers(day: u8, month: u8, year: u16) -> (t: (u8, u8, u16))
    requires
        beng_check(day as int, month as int, year as int) is Ok,
    ensures
        t.2 as int == b2g_year(day as int, month as int, year as int),
        (t.0 as int, t.1 as int) == b2g_day_month(day as int, month as int, t.2 as int),
        greg_check(t.0 as int, t.1 as int, t.2 as int) is Ok,
        593 <= t.2 <= 9999,
{
    let english_year: u16 = if (month == 9 && day >= 17) || (month == 12 && day <= 30) || month
        == 10 || month == 11 {
        year + 594
    } else {
        year + 593
    };
    let (english_day, english_month): (u8, u8) = if month == 9 {
        if day >= 17 {
            (day - 16, 1)
        } else {
            (day + 15, 12)
        }
    } else if month == 10 {
        if day >= 18 {
            (day - 17, 2)
        } else {
            (day + 14, 1)
        }
    } else if month == 11 {
        if is_leap_year(english_year) {
            if day >= 17 {
                (day - 16, 3)
            } else {
                (day + 13, 2)
            }
        } else {
            if day >= 16 {
                (day - 15, 3)
            } else {
                (day + 13, 2)
            }
        }
    } else if month == 12 {
        if day >= 18 {
            (day - 17, 4)
        } else {
            (day + 14, 3)
        }
    } else if month == 1 {
        if day >= 18 {
            (day - 17, 5)
        } else {
            (day + 13, 4)
        }
    } else if month == 2 {
        if day >= 18 {
            (day - 17, 6)
        } else {
            (day + 14, 5)
        }
    } else if month == 3 {
        if day >= 17 {
            (day - 16, 7)
        } else {
            (day + 14, 6)
        }
    } else if month == 4 {
        if day >= 17 {
            (day - 16, 8)
        } else {
            (day + 15, 7)
        }
    } else if month == 5 {
        if day >= 17 {
            (day - 16, 9)
        } else {
            (day + 15, 8)
        }
    } else if month == 6 {
        if day >= 16 {
            (day - 15, 10)
        } else {
            (day + 15, 9)
        }
    } else if month == 7 {
        if day >= 16 {
            (day - 15, 11)
        } else {
            (day + 16, 10)
        }
    } else {
        if day >= 16 {
            (day - 15, 12)
        } else {
            (day + 15, 11)
        }
    };
    (english_day, english_month, english_year)
}

/// Converts a Gregorian date to the corresponding Bengali date.
///
/// Succeeds exactly when the Bengali year is positive and the converted
/// day/month/year passes Bengali validation; a year that would be negative
/// fails with `ArithmeticError`, and otherwise the validation error is
/// returned.  The weekday is carried over through the fixed weekday
/// correspondence.
fn gregorian_to_bengali_date(english_date: EnglishDate) -> (r: Result<Date, DateError>)
    ensures
        ({
            let by = g2b_year(english_date@.day, english_date@.month, english_date@.year);
            let bdm = g2b_day_month(english_date@.day, english_date@.month, english_date@.year);
            &&& (r is Ok <==> by >= 0 && beng_check(bdm.0, bdm.1, by) is Ok)
            &&& (r matches Ok(res) ==> res matches Date::Bengali(b) && b@ == (BengaliParts {
                day: bdm.0,
                month: bdm.1,
                year: by,
                weekday: spec_map_to_bengali(english_date@.weekday),
            }))
            &&& (r matches Err(e) ==> e == (if by < 0 {
                DateError::ArithmeticError
            } else {
                beng_check(bdm.0, bdm.1, by)->Err_0
            }))
        }),
{
    let (english_day, english_month, english_year) = english_date.get_date();

    let (bengali_day, bengali_month, bengali_year) = match gregorian_to_bengali_numbers(
        english_day,
        english_month,
        english_year,
    ) {
        Ok(t) => t,
        Err(err) => {
            return Err(err);
        },
    };

    proof {
        lemma_parse_english_weekday_name(english_date@.weekday);
    }
    let bengali_weekday = BengaliWeekDays::get_english_weekday(
        english_date.get_week_day().unwrap().as_str(),
    );

    match BengaliDate::create_date_with_weekday(
        bengali_day,
        bengali_weekday.unwrap(),
        BengaliMonths::get_month(bengali_month).unwrap(),
        bengali_year,
    ) {
        Ok(bengali_date) => Ok(Date::Bengali(bengali_date)),
        Err(err) => Err(err),
    }
}

/// Converts a Bengali date to the corresponding Gregorian date.
///
/// Succeeds exactly when the converted day/month/year exists in the actual
/// Gregorian calendar; the converted triple always passes the simplified
/// validation, so the only possible failure is the defensive `UnknownDate`
/// of the Gregorian factory.  The weekday is computed afresh from the
/// Gregorian date.
fn bengali_to_gregorian_date(bengali_date: BengaliDate) -> (r: Result<Date, DateError>)
    ensures
        ({
            let gy = b2g_year(bengali_date@.day, bengali_date@.month, bengali_date@.year);
            let gdm = b2g_day_month(bengali_date@.day, bengali_date@.month, gy);
            &&& (r is Ok <==> real_gregorian_date(gdm.0, gdm.1, gy))
            &&& (r matches Ok(res) ==> res matches Date::English(e) && e@ == (GregorianParts {
                day: gdm.0,
                month: gdm.1,
                year: gy,
                weekday: weekday_variant_of(gdm.0, gdm.1, gy),
            }))
            &&& (r is Err ==> r == Err::<Date, DateError>(DateError::UnknownDate))
        }),
{
    let (bengali_day, bengali_month, bengali_year) = bengali_date.get_date_number();

    let (english_day, english_month, english_year) = bengali_to_gregorian_numbers(
        bengali_day,
        bengali_month,
        bengali_year,
    );

    match EnglishDate::create_date(
        english_day,
        EnglishMonths::get_month(english_month).unwrap(),
        english_year,
    ) {
        Ok(english_date) => Ok(Date::English(english_date)),
        Err(err) => Err(err),
    }
}

/// Converts a validated Gregorian date to the corresponding Bengali date.
pub fn get_bengali_date_from_gregorian(english_date: EnglishDate) -> (r: Result<Date, DateError>)
    ensures
        ({
            let by = g2b_year(english_date@.day, english_date@.month, english_date@.year);
            let bdm = g2b_day_month(english_date@.day, english_date@.month, english_date@.year);
            &&& (r is Ok <==> by >= 0 && beng_check(bdm.0, bdm.1, by) is Ok)
            &&& (r matches Ok(res) ==> res matches Date::Bengali(b) && b@ == (BengaliParts {
                day: bdm.0,
                month: bdm.1,
                year: by,
                weekday: spec_map_to_bengali(english_date@.weekday),
            }))
            &&& (r matches Err(e) ==> e == (if by < 0 {
                DateError::ArithmeticError
            } else {
                beng_check(bdm.0, bdm.1, by)->Err_0
            }))
        }),
{
    match gregorian_to_bengali_date(english_date) {
        Ok(date) => Ok(date),
        Err(err) => Err(err),
    }
}

/// Converts a validated Bengali date to the corresponding Gregorian date.
pub fn get_gregorian_date_from_bengali(bengali_date: BengaliDate) -> (r: Result<Date, DateError>)
    ensures
        ({
            let gy = b2g_year(bengali_date@.day, bengali_date@.month, bengali_date@.year);
            let gdm = b2g_day_month(bengali_date@.day, bengali_date@.month, gy);
            &&& (r is Ok <==> real_gregorian_date(gdm.0, gdm.1, gy))
            &&& (r matches Ok(res) ==> res matches Date::English(e) && e@ == (GregorianParts {
                day: gdm.0,
                month: gdm.1,
                year: gy,
                weekday: weekday_variant_of(gdm.0, gdm.1, gy),
            }))
            &&& (r is Err ==> r == Err::<Date, DateError>(DateError::UnknownDate))
        }),
{
    match bengali_to_gregorian_date(bengali_date) {
        Ok(date) => Ok(date),
        Err(err) => Err(err),
    }
}

/// Round-trip law: converting a valid Gregorian date to the Bengali
/// calendar yields a valid Bengali date, and converting that back yields
/// the original day, month and year.  The weekday, being a function of the
/// day, month and year alone, is then also unchanged.
///
/// The two stated side conditions carve out the inputs on which the tables
/// do not round-trip: dates whose Bengali year falls outside the supported
/// range (Gregorian years at the very edges of [593, 9999]), and 16 October,
/// which the forward table sends to a 31st day of a 30-day Bengali month.
pub proof fn lemma_gregorian_round_trip(d: int, m: int, y: int)
    requires
        greg_check(d, m, y) is Ok,
        1 <= g2b_year(d, m, y) <= 8568,
        !(m == 10 && d == 16),
    ensures
        ({
            let by = g2b_year(d, m, y);
            let bdm = g2b_day_month(d, m, y);
            &&& beng_check(bdm.0, bdm.1, by) is Ok
            &&& b2g_year(bdm.0, bdm.1, by) == y
            &&& b2g_day_month(bdm.0, bdm.1, y) == (d, m)
        }),
{
}

} // verus!
