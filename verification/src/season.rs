//! The six seasons of the Bengali calendar, two months each.

use vstd::prelude::*;

verus! {

/// A season of the Bengali year.
pub enum BengaliSeasons {
    Grishmo,
    Borsha,
    Sharat,
    Hemonto,
    Sheet,
    Bashonto,
}

/// Bengali-script name of a season.
pub open spec fn season_name(s: BengaliSeasons) -> Seq<char> {
    match s {
        BengaliSeasons::Grishmo => "গ্রীষ্ম"@,
        BengaliSeasons::Borsha => "বর্ষা"@,
        BengaliSeasons::Sharat => "শরৎ"@,
        BengaliSeasons::Hemonto => "হেমন্ত"@,
        BengaliSeasons::Sheet => "শীত"@,
        BengaliSeasons::Bashonto => "বসন্ত"@,
    }
}

/// The season a Bengali month falls in: two consecutive months per season,
/// with `Sheet` as the fallback for an out-of-range index.
pub open spec fn season_of_month(month: int) -> BengaliSeasons {
    if month == 1 || month == 2 {
        BengaliSeasons::Grishmo
    } else if month == 3 || month == 4 {
        BengaliSeasons::Borsha
    } else if month == 5 || month == 6 {
        BengaliSeasons::Sharat
    } else if month == 7 || month == 8 {
        BengaliSeasons::Hemonto
    } else if month == 9 || month == 10 {
        BengaliSeasons::Sheet
    } else if month == 11 || month == 12 {
        BengaliSeasons::Bashonto
    } else {
        BengaliSeasons::Sheet
    }
}

impl BengaliSeasons {
    /// The Bengali-script name of the season.
    pub fn as_str(&self) -> (r: &'static str)
        ensures
            r@ == season_name(*self),
    {
        match self {
            BengaliSeasons::Grishmo => "গ্রীষ্ম",
            BengaliSeasons::Borsha => "বর্ষা",
            BengaliSeasons::Sharat => "শরৎ",
            BengaliSeasons::Hemonto => "হেমন্ত",
            BengaliSeasons::Sheet => "শীত",
            BengaliSeasons::Bashonto => "বসন্ত",
        }
    }

    /// The season the given Bengali month falls in.
    pub fn from_month(month: u8) -> (r: BengaliSeasons)
        ensures
            r == season_of_month(month as int),
    {
        match month {
            1 | 2 => BengaliSeasons::Grishmo,
            3 | 4 => BengaliSeasons::Borsha,
            5 | 6 => BengaliSeasons::Sharat,
            7 | 8 => BengaliSeasons::Hemonto,
            9 | 10 => BengaliSeasons::Sheet,
            11 | 12 => BengaliSeasons::Bashonto,
            _ => BengaliSeasons::Sheet,
        }
    }
}

} // verus!
