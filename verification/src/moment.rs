//! Moments as clocks at various distances from UTC show them.

use crate::calendar::{
    day_in_range, lemma_date_exists, lemma_day_number_injective, CalendarDate,
};
use vstd::prelude::*;

verus! {

/// The day number of the first of January 1970, when Unix time starts.
pub const UNIX_EPOCH_DAY: i32 = 719163;

/// How many seconds a day has.
pub const SECONDS_PER_DAY: i32 = 86400;

/// How far a clock may be from UTC, in seconds: one second less than 26 hours.
pub const MAX_OFFSET_SECONDS: i32 = 93599;

/// How far a clock is ahead of UTC.
#[derive(Clone, Copy, Debug, PartialEq, Eq, Structural)]
pub struct UtcOffset {
    /// Negative for a clock that is behind UTC.
    pub seconds: i32,
}

impl UtcOffset {
    pub open spec fn wf(self) -> bool {
        -MAX_OFFSET_SECONDS <= self.seconds <= MAX_OFFSET_SECONDS
    }
}

/// A moment, as the calendar and the clock at a distance from UTC show it, to
/// the second.
#[derive(Clone, Copy, Debug, PartialEq, Eq, Structural)]
pub struct Timestamp {
    pub date: CalendarDate,
    pub hour: u8,
    pub minute: u8,
    pub second: u8,
    pub offset: UtcOffset,
}

impl Timestamp {
    pub open spec fn wf(self) -> bool {
        &&& self.date.wf()
        &&& self.hour < 24
        &&& self.minute < 60
        &&& self.second < 60
        &&& self.offset.wf()
    }

    /// The seconds that the clock shown has counted since it showed the start
    /// of 1970.
    pub open spec fn clock_seconds(self) -> int {
        (self.date.day_number() - UNIX_EPOCH_DAY) * SECONDS_PER_DAY + self.hour * 3600
            + self.minute * 60 + self.second
    }

    /// The moment itself: the seconds since 1970 started at UTC.
    pub open spec fn unix_seconds(self) -> int {
        self.clock_seconds() - self.offset.seconds
    }

    /// Whether a clock at `offset` shows a date in range at this moment.
    pub open spec fn fits(self, offset: UtcOffset) -> bool {
        day_in_range(day_at(self.unix_seconds() + offset.seconds))
    }

    /// Whether `self` is what a clock at `offset` shows at the moment `moment`.
    pub open spec fn shows(self, moment: Timestamp, offset: UtcOffset) -> bool {
        &&& self.wf()
        &&& self.offset == offset
        &&& self.unix_seconds() == moment.unix_seconds()
    }

    /// What a clock at `offset` shows at this moment.
    pub open spec fn at_offset(self, offset: UtcOffset) -> Timestamp {
        choose|local: Timestamp| local.shows(self, offset)
    }
}

/// The number of the day that a clock shows which has counted `clock_seconds`
/// since the start of 1970.
pub open spec fn day_at(clock_seconds: int) -> int {
    clock_seconds / (SECONDS_PER_DAY as int) + UNIX_EPOCH_DAY
}

/// Days, hours, minutes and seconds can be read off the seconds that they come
/// to.
proof fn lemma_join_seconds(days: int, hours: int, minutes: int, seconds: int)
    requires
        0 <= hours < 24,
        0 <= minutes < 60,
        0 <= seconds < 60,
    ensures
        ({
            let count = days * 86400 + hours * 3600 + minutes * 60 + seconds;
            &&& count / 86400 == days
            &&& count % 86400 / 3600 == hours
            &&& count % 3600 / 60 == minutes
            &&& count % 60 == seconds
        }),
{
    let count = days * 86400 + hours * 3600 + minutes * 60 + seconds;
    assert(count % 86400 == hours * 3600 + minutes * 60 + seconds);
    assert(count == (days * 24 + hours) * 3600 + minutes * 60 + seconds);
    assert(count % 3600 == minutes * 60 + seconds);
    assert(count == (days * 1440 + hours * 60 + minutes) * 60 + seconds);
}

/// The day and the time of day can be read off the seconds that a clock has
/// counted.
pub proof fn lemma_clock_seconds(moment: Timestamp)
    requires
        moment.wf(),
    ensures
        moment.date.day_number() == day_at(moment.clock_seconds()),
        moment.hour == moment.clock_seconds() % (SECONDS_PER_DAY as int) / 3600,
        moment.minute == moment.clock_seconds() % 3600 / 60,
        moment.second == moment.clock_seconds() % 60,
{
    let days = moment.date.day_number() - UNIX_EPOCH_DAY;
    lemma_join_seconds(days, moment.hour as int, moment.minute as int, moment.second as int);
}

/// A clock at a given distance from UTC shows one date and time only at any
/// moment.
pub proof fn lemma_at_offset_unique(moment: Timestamp, offset: UtcOffset, local: Timestamp)
    requires
        local.shows(moment, offset),
    ensures
        moment.at_offset(offset) == local,
{
    let shown = moment.at_offset(offset);
    assert(shown.shows(moment, offset));
    lemma_clock_seconds(shown);
    lemma_clock_seconds(local);
    lemma_day_number_injective(shown.date, local.date);
}

/// Any count of seconds is one of days, hours, minutes and seconds.
proof fn lemma_split_seconds(count: int)
    ensures
        ({
            let of_day = count % (SECONDS_PER_DAY as int);
            &&& 0 <= of_day / 3600 < 24
            &&& 0 <= of_day % 3600 / 60 < 60
            &&& 0 <= of_day % 60 < 60
            &&& count == count / (SECONDS_PER_DAY as int) * SECONDS_PER_DAY + of_day / 3600 * 3600
                + of_day % 3600 / 60 * 60 + of_day % 60
        }),
{
    let of_day = count % 86400;
    assert(of_day == of_day / 3600 * 3600 + of_day % 3600);
    assert(of_day % 3600 % 60 == of_day % 60);
}

/// Where its date is in range, a clock shows the moment.
pub proof fn lemma_at_offset_shows(moment: Timestamp, offset: UtcOffset)
    requires
        offset.wf(),
        moment.fits(offset),
    ensures
        moment.at_offset(offset).shows(moment, offset),
{
    let clock = moment.unix_seconds() + offset.seconds;
    let of_day = clock % (SECONDS_PER_DAY as int);
    lemma_split_seconds(clock);
    let local = Timestamp {
        date: lemma_date_exists(day_at(clock)),
        hour: (of_day / 3600) as u8,
        minute: (of_day % 3600 / 60) as u8,
        second: (of_day % 60) as u8,
        offset,
    };
    assert(local.clock_seconds() == clock);
    assert(local.shows(moment, offset));
}

/// `time::OffsetDateTime::to_offset`: the same moment, shown at `offset`. It
/// panics where the date shown is out of range, which `requires` leaves out.
#[verifier::external_body]
pub(crate) fn to_offset(moment: Timestamp, offset: UtcOffset) -> (local: Timestamp)
    requires
        moment.wf(),
        offset.wf(),
        moment.fits(offset),
    ensures
        local.shows(moment, offset),
{
    let month = time::Month::try_from(moment.date.month).unwrap();
    let local = time::Date::from_calendar_date(moment.date.year, month, moment.date.day)
        .unwrap()
        .with_hms(moment.hour, moment.minute, moment.second)
        .unwrap()
        .assume_offset(time::UtcOffset::from_whole_seconds(moment.offset.seconds).unwrap())
        .to_offset(time::UtcOffset::from_whole_seconds(offset.seconds).unwrap());
    Timestamp {
        date: CalendarDate { year: local.year(), month: local.month().into(), day: local.day() },
        hour: local.hour(),
        minute: local.minute(),
        second: local.second(),
        offset: UtcOffset { seconds: local.offset().whole_seconds() },
    }
}

/// `time::Date::next_day`: the date one day later; nothing after the last day
/// of the last year.
#[verifier::external_body]
pub(crate) fn next_day(date: CalendarDate) -> (next: Option<CalendarDate>)
    requires
        date.wf(),
    ensures
        next == date.next(),
{
    let month = time::Month::try_from(date.month).unwrap();
    let date = time::Date::from_calendar_date(date.year, month, date.day).unwrap();
    match date.next_day() {
        Some(next) => Some(
            CalendarDate { year: next.year(), month: next.month().into(), day: next.day() },
        ),
        None => None,
    }
}

} // verus!
