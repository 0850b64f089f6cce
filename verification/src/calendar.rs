//! Dates of the proleptic Gregorian calendar, and the order in which they
//! follow each other.

use vstd::prelude::*;

verus! {

/// The first year that a date can lie in.
pub const MIN_YEAR: i32 = -9999;

/// The last year that a date can lie in.
pub const MAX_YEAR: i32 = 9999;

/// Whether `year` has a 29th of February.
pub open spec fn is_leap_year(year: int) -> bool {
    year % 4 == 0 && (year % 100 != 0 || year % 400 == 0)
}

/// How many days `year` has.
pub open spec fn days_in_year(year: int) -> int {
    if is_leap_year(year) {
        366
    } else {
        365
    }
}

/// How many days the month has in `year`.
pub open spec fn days_in_month(year: int, month: int) -> int {
    if month == 2 {
        if is_leap_year(year) {
            29
        } else {
            28
        }
    } else if month == 4 || month == 6 || month == 9 || month == 11 {
        30
    } else {
        31
    }
}

/// How many days of `year` lie before the first of the month.
pub open spec fn days_before_month(year: int, month: int) -> int {
    let in_common_year: int = if month <= 1 {
        0
    } else if month == 2 {
        31
    } else if month == 3 {
        59
    } else if month == 4 {
        90
    } else if month == 5 {
        120
    } else if month == 6 {
        151
    } else if month == 7 {
        181
    } else if month == 8 {
        212
    } else if month == 9 {
        243
    } else if month == 10 {
        273
    } else if month == 11 {
        304
    } else {
        334
    };
    if month > 2 && is_leap_year(year) {
        in_common_year + 1
    } else {
        in_common_year
    }
}

/// How many days lie between the first day of year 1 and the first day of
/// `year`; negative for the years before year 1.
pub open spec fn days_before_year(year: int) -> int {
    365 * (year - 1) + (year - 1) / 4 - (year - 1) / 100 + (year - 1) / 400
}

/// A day of the calendar.
#[derive(Clone, Copy, Debug, PartialEq, Eq, Structural)]
pub struct CalendarDate {
    pub year: i32,
    /// 1 for January, 12 for December.
    pub month: u8,
    /// 1 for the first day of the month.
    pub day: u8,
}

impl CalendarDate {
    /// The date exists, and its year is in range.
    pub open spec fn wf(self) -> bool {
        &&& MIN_YEAR <= self.year <= MAX_YEAR
        &&& 1 <= self.month <= 12
        &&& 1 <= self.day <= days_in_month(self.year as int, self.month as int)
    }

    /// The number of the day, counted on from 1 on the first of January of
    /// year 1.
    pub open spec fn day_number(self) -> int {
        days_before_year(self.year as int) + days_before_month(
            self.year as int,
            self.month as int,
        ) + self.day
    }

    /// The date one day later, if its year is in range.
    pub open spec fn next(self) -> Option<CalendarDate> {
        if self.day < days_in_month(self.year as int, self.month as int) {
            Some(CalendarDate { day: (self.day + 1) as u8, ..self })
        } else if self.month < 12 {
            Some(CalendarDate { month: (self.month + 1) as u8, day: 1, ..self })
        } else if self.year < MAX_YEAR {
            Some(CalendarDate { year: (self.year + 1) as i32, month: 1, day: 1 })
        } else {
            None
        }
    }
}

/// Whether some date in range has the day number `number`.
pub open spec fn day_in_range(number: int) -> bool {
    days_before_year(MIN_YEAR as int) < number <= days_before_year(MAX_YEAR + 1)
}

/// A year is followed, as many days later as it has, by the next one.
pub proof fn lemma_days_before_next_year(year: int)
    ensures
        days_before_year(year + 1) == days_before_year(year) + days_in_year(year),
{
}

/// A later year starts at least a year's days later.
pub proof fn lemma_days_before_year_increases(year: int, later: int)
    requires
        year <= later,
    ensures
        days_before_year(year) + 365 * (later - year) <= days_before_year(later),
    decreases later - year,
{
    if year < later {
        lemma_days_before_next_year(later - 1);
        lemma_days_before_year_increases(year, later - 1);
    }
}

/// A date lies inside its year.
pub proof fn lemma_day_number_in_year(date: CalendarDate)
    requires
        date.wf(),
    ensures
        days_before_year(date.year as int) < date.day_number() <= days_before_year(
            date.year as int,
        ) + days_in_year(date.year as int),
{
}

/// The day numbers of all dates are in range.
pub proof fn lemma_day_number_in_range(date: CalendarDate)
    requires
        date.wf(),
    ensures
        day_in_range(date.day_number()),
{
    lemma_day_number_in_year(date);
    lemma_days_before_next_year(date.year as int);
    lemma_days_before_year_increases(MIN_YEAR as int, date.year as int);
    lemma_days_before_year_increases(date.year + 1, MAX_YEAR + 1);
}

/// Two dates with one day number are one date.
pub proof fn lemma_day_number_injective(a: CalendarDate, b: CalendarDate)
    requires
        a.wf(),
        b.wf(),
        a.day_number() == b.day_number(),
    ensures
        a == b,
{
    lemma_day_number_in_year(a);
    lemma_day_number_in_year(b);
    lemma_days_before_next_year(a.year as int);
    lemma_days_before_next_year(b.year as int);
    if a.year < b.year {
        lemma_days_before_year_increases(a.year + 1, b.year as int);
    } else if b.year < a.year {
        lemma_days_before_year_increases(b.year + 1, a.year as int);
    }
}

/// The next date exists, and its day number is one higher. Only the last day
/// of the last year has none.
pub proof fn lemma_next_date(date: CalendarDate)
    requires
        date.wf(),
    ensures
        date.next() matches Some(next) ==> next.wf() && next.day_number() == date.day_number() + 1,
        date.next() is None <==> date.day_number() == days_before_year(MAX_YEAR + 1),
{
    lemma_days_before_next_year(date.year as int);
    lemma_day_number_in_year(date);
    lemma_days_before_year_increases(date.year as int + 1, MAX_YEAR + 1);
}

/// Each day number in range is that of a date.
pub proof fn lemma_date_exists(number: int) -> (date: CalendarDate)
    requires
        day_in_range(number),
    ensures
        date.wf(),
        date.day_number() == number,
    decreases number - days_before_year(MIN_YEAR as int),
{
    if number == days_before_year(MIN_YEAR as int) + 1 {
        CalendarDate { year: MIN_YEAR, month: 1, day: 1 }
    } else {
        let before = lemma_date_exists(number - 1);
        lemma_next_date(before);
        before.next().unwrap()
    }
}

} // verus!
