//! The week days of both calendars and the fixed one-to-one correspondence
//! between them (Sunday ↔ Robibar, Monday ↔ Sombar, …).

use vstd::prelude::*;

verus! {

/// Error raised by the weekday registry.
#[derive(Debug)]
pub enum WeekDayError {
    /// The weekday was neither a known English nor a known Bengali weekday.
    UnknownWeekDays,
    /// The date-construction primitive could not represent the date whose
    /// weekday was requested.
    FailedDateTimes,
}

/// A weekday of either calendar, or the unknown placeholder.
#[derive(Debug)]
pub enum WeekDays {
    English(EnglishWeekDays),
    Bengali(BengaliWeekDays),
    Unknown,
}

/// The seven Gregorian week days.
#[derive(Debug)]
pub enum EnglishWeekDays {
    Sunday,
    Monday,
    Tuesday,
    Wednesday,
    Thursday,
    Friday,
    Saturday,
}

/// The seven Bengali week days.
#[derive(Debug)]
pub enum BengaliWeekDays {
    Robibar,
    Sombar,
    Mongolbar,
    Budhbar,
    Brihoshpotibar,
    Shukrobar,
    Shonibar,
}

/// Position of an English weekday in the week, with Sunday as 0.
pub open spec fn english_weekday_index(w: EnglishWeekDays) -> int {
    match w {
        EnglishWeekDays::Sunday => 0,
        EnglishWeekDays::Monday => 1,
        EnglishWeekDays::Tuesday => 2,
        EnglishWeekDays::Wednesday => 3,
        EnglishWeekDays::Thursday => 4,
        EnglishWeekDays::Friday => 5,
        EnglishWeekDays::Saturday => 6,
    }
}

/// Position of a Bengali weekday in the week, with Robibar as 0.
pub open spec fn bengali_weekday_index(w: BengaliWeekDays) -> int {
    match w {
        BengaliWeekDays::Robibar => 0,
        BengaliWeekDays::Sombar => 1,
        BengaliWeekDays::Mongolbar => 2,
        BengaliWeekDays::Budhbar => 3,
        BengaliWeekDays::Brihoshpotibar => 4,
        BengaliWeekDays::Shukrobar => 5,
        BengaliWeekDays::Shonibar => 6,
    }
}

/// The fixed English → Bengali weekday correspondence.
pub open spec fn spec_map_to_bengali(w: EnglishWeekDays) -> BengaliWeekDays {
    match w {
        EnglishWeekDays::Sunday => BengaliWeekDays::Robibar,
        EnglishWeekDays::Monday => BengaliWeekDays::Sombar,
        EnglishWeekDays::Tuesday => BengaliWeekDays::Mongolbar,
        EnglishWeekDays::Wednesday => BengaliWeekDays::Budhbar,
        EnglishWeekDays::Thursday => BengaliWeekDays::Brihoshpotibar,
        EnglishWeekDays::Friday => BengaliWeekDays::Shukrobar,
        EnglishWeekDays::Saturday => BengaliWeekDays::Shonibar,
    }
}

/// The fixed Bengali → English weekday correspondence.
pub open spec fn spec_map_to_english(w: BengaliWeekDays) -> EnglishWeekDays {
    match w {
        BengaliWeekDays::Robibar => EnglishWeekDays::Sunday,
        BengaliWeekDays::Sombar => EnglishWeekDays::Monday,
        BengaliWeekDays::Mongolbar => EnglishWeekDays::Tuesday,
        BengaliWeekDays::Budhbar => EnglishWeekDays::Wednesday,
        BengaliWeekDays::Brihoshpotibar => EnglishWeekDays::Thursday,
        BengaliWeekDays::Shukrobar => EnglishWeekDays::Friday,
        BengaliWeekDays::Shonibar => EnglishWeekDays::Saturday,
    }
}

/// The English weekday at a given position in the week (Sunday as 0).
pub open spec fn english_weekday_of_index(i: int) -> EnglishWeekDays {
    if i == 0 {
        EnglishWeekDays::Sunday
    } else if i == 1 {
        EnglishWeekDays::Monday
    } else if i == 2 {
        EnglishWeekDays::Tuesday
    } else if i == 3 {
        EnglishWeekDays::Wednesday
    } else if i == 4 {
        EnglishWeekDays::Thursday
    } else if i == 5 {
        EnglishWeekDays::Friday
    } else {
        EnglishWeekDays::Saturday
    }
}

/// English name of an English weekday.
pub open spec fn english_weekday_name(w: EnglishWeekDays) -> Seq<char> {
    match w {
        EnglishWeekDays::Sunday => "Sunday"@,
        EnglishWeekDays::Monday => "Monday"@,
        EnglishWeekDays::Tuesday => "Tuesday"@,
        EnglishWeekDays::Wednesday => "Wednesday"@,
        EnglishWeekDays::Thursday => "Thursday"@,
        EnglishWeekDays::Friday => "Friday"@,
        EnglishWeekDays::Saturday => "Saturday"@,
    }
}

/// Bengali-script name of a Bengali weekday.
pub open spec fn bengali_weekday_name(w: BengaliWeekDays) -> Seq<char> {
    match w {
        BengaliWeekDays::Robibar => "রবিবার"@,
        BengaliWeekDays::Sombar => "সোমবার"@,
        BengaliWeekDays::Mongolbar => "মঙ্গলবার"@,
        BengaliWeekDays::Budhbar => "বুধবার"@,
        BengaliWeekDays::Brihoshpotibar => "বৃহস্পতিবার"@,
        BengaliWeekDays::Shukrobar => "শুক্রবার"@,
        BengaliWeekDays::Shonibar => "শনিবার"@,
    }
}

/// What parsing a Bengali weekday name yields: the corresponding English
/// weekday, or `UnknownWeekDays` for any other string.
pub open spec fn spec_english_weekday_of_bengali_name(s: Seq<char>) -> Result<
    EnglishWeekDays,
    WeekDayError,
> {
    if s == "রবিবার"@ {
        Ok(EnglishWeekDays::Sunday)
    } else if s == "সোমবার"@ {
        Ok(EnglishWeekDays::Monday)
    } else if s == "মঙ্গলবার"@ {
        Ok(EnglishWeekDays::Tuesday)
    } else if s == "বুধবার"@ {
        Ok(EnglishWeekDays::Wednesday)
    } else if s == "বৃহস্পতিবার"@ {
        Ok(EnglishWeekDays::Thursday)
    } else if s == "শুক্রবার"@ {
        Ok(EnglishWeekDays::Friday)
    } else if s == "শনিবার"@ {
        Ok(EnglishWeekDays::Saturday)
    } else {
        Err(WeekDayError::UnknownWeekDays)
    }
}

/// What parsing an English weekday name yields: the corresponding Bengali
/// weekday, or `UnknownWeekDays` for any other string.
pub open spec fn spec_bengali_weekday_of_english_name(s: Seq<char>) -> Result<
    BengaliWeekDays,
    WeekDayError,
> {
    if s == "Sunday"@ {
        Ok(BengaliWeekDays::Robibar)
    } else if s == "Monday"@ {
        Ok(BengaliWeekDays::Sombar)
    } else if s == "Tuesday"@ {
        Ok(BengaliWeekDays::Mongolbar)
    } else if s == "Wednesday"@ {
        Ok(BengaliWeekDays::Budhbar)
    } else if s == "Thursday"@ {
        Ok(BengaliWeekDays::Brihoshpotibar)
    } else if s == "Friday"@ {
        Ok(BengaliWeekDays::Shukrobar)
    } else if s == "Saturday"@ {
        Ok(BengaliWeekDays::Shonibar)
    } else {
        Err(WeekDayError::UnknownWeekDays)
    }
}

impl WeekDays {
    /// The display name of the weekday, or `UnknownWeekDays` for the
    /// placeholder.
    pub fn get_week_day(&self) -> (r: Result<String, WeekDayError>)
        ensures
            *self matches WeekDays::English(d) ==> (r matches Ok(s) && s@ == english_weekday_name(
                d,
            )),
            *self matches WeekDays::Bengali(d) ==> (r matches Ok(s) && s@ == bengali_weekday_name(
                d,
            )),
            self is Unknown ==> r == Err::<String, WeekDayError>(WeekDayError::UnknownWeekDays),
    {
        match self {
            WeekDays::English(day) => Ok(day.as_str().to_owned()),
            WeekDays::Bengali(day) => Ok(day.as_str().to_owned()),
            WeekDays::Unknown => Err(WeekDayError::UnknownWeekDays),
        }
    }
}

impl EnglishWeekDays {
    /// The Bengali weekday corresponding to this English weekday.
    pub fn map_to_bengali(&self) -> (r: BengaliWeekDays)
        ensures
            r == spec_map_to_bengali(*self),
    {
        match self {
            EnglishWeekDays::Sunday => BengaliWeekDays::Robibar,
            EnglishWeekDays::Monday => BengaliWeekDays::Sombar,
            EnglishWeekDays::Tuesday => BengaliWeekDays::Mongolbar,
            EnglishWeekDays::Wednesday => BengaliWeekDays::Budhbar,
            EnglishWeekDays::Thursday => BengaliWeekDays::Brihoshpotibar,
            EnglishWeekDays::Friday => BengaliWeekDays::Shukrobar,
            EnglishWeekDays::Saturday => BengaliWeekDays::Shonibar,
        }
    }

    /// The English weekday named by a Bengali weekday name.
    pub fn get_english_weekday(week_day: &str) -> (r: Result<Self, WeekDayError>)
        ensures
            r == spec_english_weekday_of_bengali_name(week_day@),
    {
        let w = week_day.to_owned();
        if w == "রবিবার".to_owned() {
            Ok(EnglishWeekDays::Sunday)
        } else if w == "সোমবার".to_owned() {
            Ok(EnglishWeekDays::Monday)
        } else if w == "মঙ্গলবার".to_owned() {
            Ok(EnglishWeekDays::Tuesday)
        } else if w == "বুধবার".to_owned() {
            Ok(EnglishWeekDays::Wednesday)
        } else if w == "বৃহস্পতিবার".to_owned() {
            Ok(EnglishWeekDays::Thursday)
        } else if w == "শুক্রবার".to_owned() {
            Ok(EnglishWeekDays::Friday)
        } else if w == "শনিবার".to_owned() {
            Ok(EnglishWeekDays::Saturday)
        } else {
            Err(WeekDayError::UnknownWeekDays)
        }
    }

    /// The English name of the weekday.
    pub fn as_str(&self) -> (r: &'static str)
        ensures
            r@ == english_weekday_name(*self),
    {
        match self {
            EnglishWeekDays::Sunday => "Sunday",
            EnglishWeekDays::Monday => "Monday",
            EnglishWeekDays::Tuesday => "Tuesday",
            EnglishWeekDays::Wednesday => "Wednesday",
            EnglishWeekDays::Thursday => "Thursday",
            EnglishWeekDays::Friday => "Friday",
            EnglishWeekDays::Saturday => "Saturday",
        }
    }
}

impl BengaliWeekDays {
    /// The English weekday corresponding to this Bengali weekday.
    pub fn map_to_english(&self) -> (r: EnglishWeekDays)
        ensures
            r == spec_map_to_english(*self),
    {
        match self {
            BengaliWeekDays::Robibar => EnglishWeekDays::Sunday,
            BengaliWeekDays::Sombar => EnglishWeekDays::Monday,
            BengaliWeekDays::Mongolbar => EnglishWeekDays::Tuesday,
            BengaliWeekDays::Budhbar => EnglishWeekDays::Wednesday,
            BengaliWeekDays::Brihoshpotibar => EnglishWeekDays::Thursday,
            BengaliWeekDays::Shukrobar => EnglishWeekDays::Friday,
            BengaliWeekDays::Shonibar => EnglishWeekDays::Saturday,
        }
    }

    /// The Bengali weekday named by an English weekday name.
    pub fn get_english_weekday(week_day: &str) -> (r: Result<Self, WeekDayError>)
        ensures
            r == spec_bengali_weekday_of_english_name(week_day@),
    {
        let w = week_day.to_owned();
        if w == "Sunday".to_owned() {
            Ok(BengaliWeekDays::Robibar)
        } else if w == "Monday".to_owned() {
            Ok(BengaliWeekDays::Sombar)
        } else if w == "Tuesday".to_owned() {
            Ok(BengaliWeekDays::Mongolbar)
        } else if w == "Wednesday".to_owned() {
            Ok(BengaliWeekDays::Budhbar)
        } else if w == "Thursday".to_owned() {
            Ok(BengaliWeekDays::Brihoshpotibar)
        } else if w == "Friday".to_owned() {
            Ok(BengaliWeekDays::Shukrobar)
        } else if w == "Saturday".to_owned() {
            Ok(BengaliWeekDays::Shonibar)
        } else {
            Err(WeekDayError::UnknownWeekDays)
        }
    }

    /// The Bengali-script name of the weekday.
    pub fn as_str(&self) -> (r: &'static str)
        ensures
            r@ == bengali_weekday_name(*self),
    {
        match self {
            BengaliWeekDays::Robibar => "রবিবার",
            BengaliWeekDays::Sombar => "সোমবার",
            BengaliWeekDays::Mongolbar => "মঙ্গলবার",
            BengaliWeekDays::Budhbar => "বুধবার",
            BengaliWeekDays::Brihoshpotibar => "বৃহস্পতিবার",
            BengaliWeekDays::Shukrobar => "শুক্রবার",
            BengaliWeekDays::Shonibar => "শনিবার",
        }
    }
}

/// Parsing the English name of any English weekday yields exactly the
/// corresponding Bengali weekday.
pub proof fn lemma_parse_english_weekday_name(w: EnglishWeekDays)
    ensures
        spec_bengali_weekday_of_english_name(english_weekday_name(w)) == Ok::<
            BengaliWeekDays,
            WeekDayError,
        >(spec_map_to_bengali(w)),
{
    reveal_strlit("Sunday");
    reveal_strlit("Monday");
    reveal_strlit("Tuesday");
    reveal_strlit("Wednesday");
    reveal_strlit("Thursday");
    reveal_strlit("Friday");
    reveal_strlit("Saturday");
    assert("Sunday"@.len() == 6 && "Sunday"@[0] == 'S');
    assert("Monday"@.len() == 6 && "Monday"@[0] == 'M');
    assert("Tuesday"@.len() == 7 && "Tuesday"@[0] == 'T');
    assert("Wednesday"@.len() == 9 && "Wednesday"@[0] == 'W');
    assert("Thursday"@.len() == 8 && "Thursday"@[0] == 'T');
    assert("Friday"@.len() == 6 && "Friday"@[0] == 'F');
    assert("Saturday"@.len() == 8 && "Saturday"@[0] == 'S');
}

/// Parsing the Bengali name of any Bengali weekday yields exactly the
/// corresponding English weekday.
pub proof fn lemma_parse_bengali_weekday_name(w: BengaliWeekDays)
    ensures
        spec_english_weekday_of_bengali_name(bengali_weekday_name(w)) == Ok::<
            EnglishWeekDays,
            WeekDayError,
        >(spec_map_to_english(w)),
{
    reveal_strlit("রবিবার");
    reveal_strlit("সোমবার");
    reveal_strlit("মঙ্গলবার");
    reveal_strlit("বুধবার");
    reveal_strlit("বৃহস্পতিবার");
    reveal_strlit("শুক্রবার");
    reveal_strlit("শনিবার");
    assert("রবিবার"@.len() == 6 && "রবিবার"@[0] == 'র');
    assert("সোমবার"@.len() == 6 && "সোমবার"@[0] == 'স');
    assert("মঙ্গলবার"@.len() == 8 && "মঙ্গলবার"@[0] == 'ম');
    assert("বুধবার"@.len() == 6 && "বুধবার"@[0] == 'ব');
    assert("বৃহস্পতিবার"@.len() == 11 && "বৃহস্পতিবার"@[0] == 'ব');
    assert("শুক্রবার"@.len() == 8 && "শুক্রবার"@[0] == 'শ');
    assert("শনিবার"@.len() == 6 && "শনিবার"@[0] == 'শ');
}

/// The weekday correspondence is a bijection: mapping an English weekday to
/// Bengali and back yields the original weekday, and likewise starting from a
/// Bengali weekday.
pub proof fn lemma_weekday_bijection(e: EnglishWeekDays, b: BengaliWeekDays)
    ensures
        spec_map_to_english(spec_map_to_bengali(e)) == e,
        spec_map_to_bengali(spec_map_to_english(b)) == b,
        bengali_weekday_index(spec_map_to_bengali(e)) == english_weekday_index(e),
        english_weekday_index(spec_map_to_english(b)) == bengali_weekday_index(b),
{
}

} // verus!
