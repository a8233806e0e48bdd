//! The months of both calendars: typed identifiers for the twelve English
//! (Gregorian) and twelve Bengali months, lookups by numeric index, and the
//! display names.

use vstd::prelude::*;

verus! {

/// Error raised by the month registry.
#[derive(Debug)]
pub enum MonthError {
    /// The month identifier was the unknown placeholder.
    UnknownMonth,
    /// The numeric month index was outside 1..=12.
    WrongRange,
}

/// A month of either calendar, or the unknown placeholder.
#[derive(Debug)]
pub enum Month {
    English(EnglishMonths),
    Bengali(BengaliMonths),
    Unknown,
}

/// The twelve Gregorian months.
#[derive(Debug)]
pub enum EnglishMonths {
    January,
    February,
    March,
    April,
    May,
    June,
    July,
    August,
    September,
    October,
    November,
    December,
}

/// The twelve Bengali months.
#[derive(Debug)]
pub enum BengaliMonths {
    Baishakh,
    Jestha,
    Ashad,
    Shrawan,
    Bhadra,
    Ashwin,
    Kartik,
    Ogrohaeon,
    Poush,
    Magh,
    Falgun,
    Chaitra,
}

/// Numeric index of a Gregorian month, always in 1..=12.
pub open spec fn english_month_index(m: EnglishMonths) -> int {
    match m {
        EnglishMonths::January => 1,
        EnglishMonths::February => 2,
        EnglishMonths::March => 3,
        EnglishMonths::April => 4,
        EnglishMonths::May => 5,
        EnglishMonths::June => 6,
        EnglishMonths::July => 7,
        EnglishMonths::August => 8,
        EnglishMonths::September => 9,
        EnglishMonths::October => 10,
        EnglishMonths::November => 11,
        EnglishMonths::December => 12,
    }
}

/// Numeric index of a Bengali month, always in 1..=12.
pub open spec fn bengali_month_index(m: BengaliMonths) -> int {
    match m {
        BengaliMonths::Baishakh => 1,
        BengaliMonths::Jestha => 2,
        BengaliMonths::Ashad => 3,
        BengaliMonths::Shrawan => 4,
        BengaliMonths::Bhadra => 5,
        BengaliMonths::Ashwin => 6,
        BengaliMonths::Kartik => 7,
        BengaliMonths::Ogrohaeon => 8,
        BengaliMonths::Poush => 9,
        BengaliMonths::Magh => 10,
        BengaliMonths::Falgun => 11,
        BengaliMonths::Chaitra => 12,
    }
}

/// The Gregorian month with a given numeric index (1..=12).
pub open spec fn english_month_of_index(i: int) -> EnglishMonths {
    if i == 1 {
        EnglishMonths::January
    } else if i == 2 {
        EnglishMonths::February
    } else if i == 3 {
        EnglishMonths::March
    } else if i == 4 {
        EnglishMonths::April
    } else if i == 5 {
        EnglishMonths::May
    } else if i == 6 {
        EnglishMonths::June
    } else if i == 7 {
        EnglishMonths::July
    } else if i == 8 {
        EnglishMonths::August
    } else if i == 9 {
        EnglishMonths::September
    } else if i == 10 {
        EnglishMonths::October
    } else if i == 11 {
        EnglishMonths::November
    } else {
        EnglishMonths::December
    }
}

/// The Bengali month with a given numeric index (1..=12).
pub open spec fn bengali_month_of_index(i: int) -> BengaliMonths {
    if i == 1 {
        BengaliMonths::Baishakh
    } else if i == 2 {
        BengaliMonths::Jestha
    } else if i == 3 {
        BengaliMonths::Ashad
    } else if i == 4 {
        BengaliMonths::Shrawan
    } else if i == 5 {
        BengaliMonths::Bhadra
    } else if i == 6 {
        BengaliMonths::Ashwin
    } else if i == 7 {
        BengaliMonths::Kartik
    } else if i == 8 {
        BengaliMonths::Ogrohaeon
    } else if i == 9 {
        BengaliMonths::Poush
    } else if i == 10 {
        BengaliMonths::Magh
    } else if i == 11 {
        BengaliMonths::Falgun
    } else {
        BengaliMonths::Chaitra
    }
}

/// Display name of a Gregorian month.
pub open spec fn english_month_name(m: EnglishMonths) -> Seq<char> {
    match m {
        EnglishMonths::January => "January"@,
        EnglishMonths::February => "February"@,
        EnglishMonths::March => "March"@,
        EnglishMonths::April => "April"@,
        EnglishMonths::May => "May"@,
        EnglishMonths::June => "June"@,
        EnglishMonths::July => "July"@,
        EnglishMonths::August => "August"@,
        EnglishMonths::September => "September"@,
        EnglishMonths::October => "October"@,
        EnglishMonths::November => "November"@,
        EnglishMonths::December => "December"@,
    }
}

/// Display name of a Bengali month, in Bengali script.
pub open spec fn bengali_month_name(m: BengaliMonths) -> Seq<char> {
    match m {
        BengaliMonths::Baishakh => "বৈশাখ"@,
        BengaliMonths::Jestha => "জ্যৈষ্ঠ"@,
        BengaliMonths::Ashad => "আষাঢ়"@,
        BengaliMonths::Shrawan => "শ্রাবণ"@,
        BengaliMonths::Bhadra => "ভাদ্র"@,
        BengaliMonths::Ashwin => "আশ্বিন"@,
        BengaliMonths::Kartik => "কার্তিক"@,
        BengaliMonths::Ogrohaeon => "অগ্রহায়ণ"@,
        BengaliMonths::Poush => "পৌষ"@,
        BengaliMonths::Magh => "মাঘ"@,
        BengaliMonths::Falgun => "ফাল্গুন"@,
        BengaliMonths::Chaitra => "চৈত্র"@,
    }
}

/// Looking a Gregorian month up by its own index yields it back.
pub proof fn lemma_english_month_index_of_index(m: EnglishMonths)
    ensures
        english_month_of_index(english_month_index(m)) == m,
{
}

/// Looking a Bengali month up by its own index yields it back.
pub proof fn lemma_bengali_month_index_of_index(m: BengaliMonths)
    ensures
        bengali_month_of_index(bengali_month_index(m)) == m,
{
}

impl Month {
    /// The display name of the month, or `UnknownMonth` for the placeholder.
    pub fn get_month_name(&self) -> (r: Result<String, MonthError>)
        ensures
            *self matches Month::English(m) ==> (r matches Ok(s) && s@ == english_month_name(m)),
            *self matches Month::Bengali(m) ==> (r matches Ok(s) && s@ == bengali_month_name(m)),
            self is Unknown ==> r == Err::<String, MonthError>(MonthError::UnknownMonth),
    {
        match self {
            Month::English(month) => Ok(month.as_str().to_owned()),
            Month::Bengali(month) => Ok(month.as_str().to_owned()),
            Month::Unknown => Err(MonthError::UnknownMonth),
        }
    }
}

impl EnglishMonths {
    /// The Gregorian month with the given numeric index, or `WrongRange` when
    /// the index is outside 1..=12.
    pub fn get_month(month: u8) -> (r: Result<Self, MonthError>)
        ensures
            1 <= month <= 12 ==> (r matches Ok(m) && english_month_index(m) == month as int),
            !(1 <= month <= 12) ==> r == Err::<EnglishMonths, MonthError>(MonthError::WrongRange),
    {
        match month {
            1 => Ok(EnglishMonths::January),
            2 => Ok(EnglishMonths::February),
            3 => Ok(EnglishMonths::March),
            4 => Ok(EnglishMonths::April),
            5 => Ok(EnglishMonths::May),
            6 => Ok(EnglishMonths::June),
            7 => Ok(EnglishMonths::July),
            8 => Ok(EnglishMonths::August),
            9 => Ok(EnglishMonths::September),
            10 => Ok(EnglishMonths::October),
            11 => Ok(EnglishMonths::November),
            12 => Ok(EnglishMonths::December),
            _ => Err(MonthError::WrongRange),
        }
    }

    /// The numeric index of the month, in 1..=12.
    pub fn map_to_index(&self) -> (r: u8)
        ensures
            r as int == english_month_index(*self),
            1 <= r <= 12,
    {
        match self {
            EnglishMonths::January => 1,
            EnglishMonths::February => 2,
            EnglishMonths::March => 3,
            EnglishMonths::April => 4,
            EnglishMonths::May => 5,
            EnglishMonths::June => 6,
            EnglishMonths::July => 7,
            EnglishMonths::August => 8,
            EnglishMonths::September => 9,
            EnglishMonths::October => 10,
            EnglishMonths::November => 11,
            EnglishMonths::December => 12,
        }
    }

    /// The English name of the month.
    pub fn as_str(&self) -> (r: &'static str)
        ensures
            r@ == english_month_name(*self),
    {
        match self {
            EnglishMonths::January => "January",
            EnglishMonths::February => "February",
            EnglishMonths::March => "March",
            EnglishMonths::April => "April",
            EnglishMonths::May => "May",
            EnglishMonths::June => "June",
            EnglishMonths::July => "July",
            EnglishMonths::August => "August",
            EnglishMonths::September => "September",
            EnglishMonths::October => "October",
            EnglishMonths::November => "November",
            EnglishMonths::December => "December",
        }
    }
}

impl BengaliMonths {
    /// The Bengali month with the given numeric index, or `WrongRange` when
    /// the index is outside 1..=12.
    pub fn get_month(month: u8) -> (r: Result<Self, MonthError>)
        ensures
            1 <= month <= 12 ==> (r matches Ok(m) && bengali_month_index(m) == month as int),
            !(1 <= month <= 12) ==> r == Err::<BengaliMonths, MonthError>(MonthError::WrongRange),
    {
        match month {
            1 => Ok(BengaliMonths::Baishakh),
            2 => Ok(BengaliMonths::Jestha),
            3 => Ok(BengaliMonths::Ashad),
            4 => Ok(BengaliMonths::Shrawan),
            5 => Ok(BengaliMonths::Bhadra),
            6 => Ok(BengaliMonths::Ashwin),
            7 => Ok(BengaliMonths::Kartik),
            8 => Ok(BengaliMonths::Ogrohaeon),
            9 => Ok(BengaliMonths::Poush),
            10 => Ok(BengaliMonths::Magh),
            11 => Ok(BengaliMonths::Falgun),
            12 => Ok(BengaliMonths::Chaitra),
            _ => Err(MonthError::WrongRange),
        }
    }

    /// The numeric index of the month, in 1..=12.
    pub fn map_to_index(&self) -> (r: u8)
        ensures
            r as int == bengali_month_index(*self),
            1 <= r <= 12,
    {
        match self {
            BengaliMonths::Baishakh => 1,
            BengaliMonths::Jestha => 2,
            BengaliMonths::Ashad => 3,
            BengaliMonths::Shrawan => 4,
            BengaliMonths::Bhadra => 5,
            BengaliMonths::Ashwin => 6,
            BengaliMonths::Kartik => 7,
            BengaliMonths::Ogrohaeon => 8,
            BengaliMonths::Poush => 9,
            BengaliMonths::Magh => 10,
            BengaliMonths::Falgun => 11,
            BengaliMonths::Chaitra => 12,
        }
    }

    /// The Bengali-script name of the month.
    pub fn as_str(&self) -> (r: &'static str)
        ensures
            r@ == bengali_month_name(*self),
    {
        match self {
            BengaliMonths::Baishakh => "বৈশাখ",
            BengaliMonths::Jestha => "জ্যৈষ্ঠ",
            BengaliMonths::Ashad => "আষাঢ়",
            BengaliMonths::Shrawan => "শ্রাবণ",
            BengaliMonths::Bhadra => "ভাদ্র",
            BengaliMonths::Ashwin => "আশ্বিন",
            BengaliMonths::Kartik => "কার্তিক",
            BengaliMonths::Ogrohaeon => "অগ্রহায়ণ",
            BengaliMonths::Poush => "পৌষ",
            BengaliMonths::Magh => "মাঘ",
            BengaliMonths::Falgun => "ফাল্গুন",
            BengaliMonths::Chaitra => "চৈত্র",
        }
    }
}

} // verus!
