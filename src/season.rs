use vstd::prelude::*;

verus! {

/// Number of days in each of the four seasons.
pub const DAYS_PER_SEASON: u32 = 10;

/// Number of days in a calendar year.
pub const DAYS_PER_YEAR: u32 = 40;

#[derive(Debug, Clone, Copy, PartialEq, Eq, Structural)]
pub enum Season {
    Spring,
    Summer,
    Autumn,
    Winter,
}

/// 1-based position of `day` within its year.
pub open spec fn year_day(day: int) -> int {
    ((day - 1) % (DAYS_PER_YEAR as int)) + 1
}

/// 0-based index of the season that `day` falls in.
pub open spec fn season_index(day: int) -> int {
    (year_day(day) - 1) / (DAYS_PER_SEASON as int)
}

pub open spec fn season_at(index: int) -> Season {
    if index == 0 {
        Season::Spring
    } else if index == 1 {
        Season::Summer
    } else if index == 2 {
        Season::Autumn
    } else {
        Season::Winter
    }
}

/// The season that `day` falls in.
pub open spec fn season_of(day: int) -> Season {
    season_at(season_index(day))
}

/// 1-based position of `day` within its season.
pub open spec fn day_in_season_of(day: int) -> int {
    year_day(day) - season_index(day) * (DAYS_PER_SEASON as int)
}

/// The 1-based year that `day` falls in.
pub open spec fn year_of(day: int) -> int {
    (day - 1) / (DAYS_PER_YEAR as int) + 1
}

impl Season {
    pub fn from_day(day: u32) -> (r: Season)
        requires
            day >= 1,
        ensures
            r == season_of(day as int),
    {
        let year_day: u32 = ((day - 1) % DAYS_PER_YEAR) + 1;
        if year_day <= DAYS_PER_SEASON {
            Season::Spring
        } else if year_day <= DAYS_PER_SEASON * 2 {
            Season::Summer
        } else if year_day <= DAYS_PER_SEASON * 3 {
            Season::Autumn
        } else {
            Season::Winter
        }
    }

    pub fn day_in_season(day: u32) -> (r: u32)
        requires
            day >= 1,
        ensures
            r == day_in_season_of(day as int),
            1 <= r <= DAYS_PER_SEASON,
    {
        let year_day: u32 = ((day - 1) % DAYS_PER_YEAR) + 1;
        if year_day <= DAYS_PER_SEASON {
            year_day
        } else if year_day <= DAYS_PER_SEASON * 2 {
            year_day - DAYS_PER_SEASON
        } else if year_day <= DAYS_PER_SEASON * 3 {
            year_day - DAYS_PER_SEASON * 2
        } else {
            year_day - DAYS_PER_SEASON * 3
        }
    }

    pub fn year(day: u32) -> (r: u32)
        requires
            day >= 1,
        ensures
            r == year_of(day as int),
    {
        ((day - 1) / DAYS_PER_YEAR) + 1
    }

    pub fn icon(&self) -> (r: &'static str)
        ensures
            r@ == season_icon(*self),
    {
        match self {
            Season::Spring => "🌸",
            Season::Summer => "☀️",
            Season::Autumn => "🍂",
            Season::Winter => "❄️",
        }
    }

    pub fn name(&self) -> (r: &'static str)
        ensures
            r@ == season_name(*self),
    {
        match self {
            Season::Spring => "Spring",
            Season::Summer => "Summer",
            Season::Autumn => "Autumn",
            Season::Winter => "Winter",
        }
    }
}

pub open spec fn season_icon(s: Season) -> Seq<char> {
    match s {
        Season::Spring => "🌸"@,
        Season::Summer => "☀️"@,
        Season::Autumn => "🍂"@,
        Season::Winter => "❄️"@,
    }
}

pub open spec fn season_name(s: Season) -> Seq<char> {
    match s {
        Season::Spring => "Spring"@,
        Season::Summer => "Summer"@,
        Season::Autumn => "Autumn"@,
        Season::Winter => "Winter"@,
    }
}

/// The calendar repeats every year: a day and the same day one year later have
/// the same season and the same position in it, and that position always lies
/// between 1 and the season length.
pub proof fn lemma_calendar_periodic(day: int)
    requires
        day >= 1,
    ensures
        season_of(day + DAYS_PER_YEAR as int) == season_of(day),
        day_in_season_of(day + DAYS_PER_YEAR as int) == day_in_season_of(day),
        year_of(day + DAYS_PER_YEAR as int) == year_of(day) + 1,
        1 <= day_in_season_of(day) <= DAYS_PER_SEASON as int,
        0 <= season_index(day) < 4,
{
    assert(year_day(day + 40) == year_day(day)) by {
        vstd::arithmetic::div_mod::lemma_mod_add_multiples_vanish(day - 1, 40);
    }
    assert(year_of(day + 40) == year_of(day) + 1) by {
        vstd::arithmetic::div_mod::lemma_div_plus_one(day - 1, 40);
    }
}

} // verus!
