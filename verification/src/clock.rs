//! Civil time: what the calendar and the clock say at a moment.
use vstd::prelude::*;
use vstd::string::*;

verus! {

/// A minute of the Gregorian calendar, in UTC.
#[derive(Debug, Clone, Copy, PartialEq, Eq, Structural)]
pub struct CivilTime {
    pub year: i32,
    /// The month, from 1 to 12.
    pub month: u8,
    /// The day of the month, from 1.
    pub day: u8,
    pub hour: u8,
    pub minute: u8,
    /// The day of the week, from 0 for Sunday to 6 for Saturday.
    pub weekday: u8,
}

/// A year of 366 days.
pub open spec fn is_leap(year: int) -> bool {
    year % 4 == 0 && (year % 100 != 0 || year % 400 == 0)
}

/// The days of a year that pass before a month begins.
pub open spec fn days_before_month(year: int, month: int) -> int {
    let leap: int = if is_leap(year) {
        1
    } else {
        0
    };
    if month <= 1 {
        0
    } else if month == 2 {
        31
    } else if month == 3 {
        59 + leap
    } else if month == 4 {
        90 + leap
    } else if month == 5 {
        120 + leap
    } else if month == 6 {
        151 + leap
    } else if month == 7 {
        181 + leap
    } else if month == 8 {
        212 + leap
    } else if month == 9 {
        243 + leap
    } else if month == 10 {
        273 + leap
    } else if month == 11 {
        304 + leap
    } else if month == 12 {
        334 + leap
    } else {
        365 + leap
    }
}

/// The days from the first of January 1970 to the first of January of a year.
pub open spec fn days_before_year(year: int) -> int {
    365 * (year - 1) + (year - 1) / 4 - (year - 1) / 100 + (year - 1) / 400 - 719162
}

/// The days from the first of January 1970 to a date.
pub open spec fn day_number(year: int, month: int, day: int) -> int {
    days_before_year(year) + days_before_month(year, month) + day - 1
}

/// A day that a month has.
pub open spec fn is_date(year: int, month: int, day: int) -> bool {
    1 <= month <= 12 && 1 <= day <= days_before_month(year, month + 1) - days_before_month(
        year,
        month,
    )
}

/// What the calendar and the clock say some seconds after the beginning of 1970.
pub open spec fn is_civil(seconds: int, c: CivilTime) -> bool {
    &&& is_date(c.year as int, c.month as int, c.day as int)
    &&& day_number(c.year as int, c.month as int, c.day as int) == seconds / 86400
    &&& c.hour == seconds % 86400 / 3600
    &&& c.minute == seconds % 3600 / 60
    &&& c.weekday == (seconds / 86400 + 4) % 7
}

/// The moments whose year has four digits at most.
pub open spec fn in_calendar(seconds: int) -> bool {
    -377705116800 <= seconds <= 253402300799
}

/// What the calendar and the clock say at a moment.
pub open spec fn civil_at(seconds: int) -> Result<CivilTime, Seq<char>> {
    if in_calendar(seconds) {
        Ok(choose|c: CivilTime| is_civil(seconds, c))
    } else {
        Err("timestamp was not in range"@)
    }
}

/// A civil time or an error, in characters.
pub open spec fn civil_result(r: Result<CivilTime, String>) -> Result<CivilTime, Seq<char>> {
    match r {
        Ok(c) => Ok(c),
        Err(e) => Err(e@),
    }
}

/// `time::OffsetDateTime::from_unix_timestamp`: the date and the time of day in
/// UTC, of the Gregorian calendar carried on in both directions; an error where
/// the year would have more than four digits.
#[verifier::external_body]
pub(crate) fn civil_from_timestamp(seconds: i64) -> (r: Result<CivilTime, String>)
    ensures
        r is Ok <==> in_calendar(seconds as int),
        r matches Ok(c) ==> is_civil(seconds as int, c),
        r matches Err(e) ==> e@ == "timestamp was not in range"@,
{
    match time::OffsetDateTime::from_unix_timestamp(seconds) {
        Ok(t) => Ok(
            CivilTime {
                year: t.year(),
                month: u8::from(t.month()),
                day: t.day(),
                hour: t.hour(),
                minute: t.minute(),
                weekday: t.weekday().number_days_from_sunday(),
            },
        ),
        Err(e) => Err(e.to_string()),
    }
}

proof fn lemma_year_ends(year: int)
    ensures
        days_before_year(year + 1) == days_before_year(year) + days_before_month(year, 13),
{
}

proof fn lemma_years_ascend(a: int, b: int)
    requires
        a < b,
    ensures
        days_before_year(a) + days_before_month(a, 13) <= days_before_year(b),
    decreases b - a,
{
    lemma_year_ends(a);
    if a + 1 < b {
        lemma_years_ascend(a + 1, b);
    }
}

/// A day of the calendar has one date only.
pub proof fn law_dates_are_unique(y1: int, m1: int, d1: int, y2: int, m2: int, d2: int)
    requires
        is_date(y1, m1, d1),
        is_date(y2, m2, d2),
        day_number(y1, m1, d1) == day_number(y2, m2, d2),
    ensures
        y1 == y2 && m1 == m2 && d1 == d2,
{
    if y1 < y2 {
        lemma_years_ascend(y1, y2);
    }
    if y2 < y1 {
        lemma_years_ascend(y2, y1);
    }
}

/// At a moment the calendar and the clock say one thing only.
pub proof fn law_civil_time_is_unique(seconds: int, a: CivilTime, b: CivilTime)
    requires
        is_civil(seconds, a),
        is_civil(seconds, b),
    ensures
        a == b,
{
    law_dates_are_unique(
        a.year as int,
        a.month as int,
        a.day as int,
        b.year as int,
        b.month as int,
        b.day as int,
    );
}

impl CivilTime {
    /// What the calendar and the clock say some seconds after the beginning of
    /// 1970.
    pub fn at(seconds: i64) -> (r: Result<CivilTime, String>)
        ensures
            civil_result(r) == civil_at(seconds as int),
            r matches Ok(c) ==> is_civil(seconds as int, c),
    {
        let r = civil_from_timestamp(seconds);
        proof {
            if let Ok(c) = r {
                let d = choose|d: CivilTime| is_civil(seconds as int, d);
                law_civil_time_is_unique(seconds as int, c, d);
            }
        }
        r
    }
}

/// The minute in which a moment lies, counted from the beginning of 1970.
pub fn minute_of(seconds: i64) -> (r: i64)
    ensures
        r == seconds as int / 60,
{
    if seconds >= 0 {
        seconds / 60
    } else {
        -((-(seconds + 1)) / 60) - 1
    }
}

} // verus!
