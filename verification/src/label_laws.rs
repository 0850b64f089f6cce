//! What holds of the times that the panel writes.

use crate::calendar::{
    lemma_day_number_in_range, lemma_day_number_injective, lemma_next_date, CalendarDate,
};
use crate::moment::{
    day_at, lemma_at_offset_shows, lemma_at_offset_unique, lemma_clock_seconds, Timestamp,
    UtcOffset, SECONDS_PER_DAY,
};
use crate::numerals::{decimal, digit, signed_decimal, two_digits};
use crate::timestamp::{clock_label, date_label, local_label};
use vstd::prelude::*;

verus! {

/// What is written for a moment depends on when it is, and not on the clock by
/// which it was recorded.
pub proof fn law_label_is_of_the_moment(
    timestamp: Timestamp,
    same_timestamp: Timestamp,
    now: Timestamp,
    same_now: Timestamp,
    local_timezone: UtcOffset,
)
    requires
        local_timezone.wf(),
        timestamp.fits(local_timezone),
        now.fits(local_timezone),
        timestamp.unix_seconds() == same_timestamp.unix_seconds(),
        now.unix_seconds() == same_now.unix_seconds(),
    ensures
        local_label(timestamp.at_offset(local_timezone), now.at_offset(local_timezone))
            == local_label(
            same_timestamp.at_offset(local_timezone),
            same_now.at_offset(local_timezone),
        ),
{
    lemma_at_offset_shows(timestamp, local_timezone);
    lemma_at_offset_shows(now, local_timezone);
    lemma_at_offset_unique(
        same_timestamp,
        local_timezone,
        timestamp.at_offset(local_timezone),
    );
    lemma_at_offset_unique(same_now, local_timezone, now.at_offset(local_timezone));
}

/// Which of the three forms is written goes by the days that the reader's clock
/// has counted: the time for a moment of the same day, the time behind
/// "yesterday at" for one of the day before, and the date for any other, be it
/// earlier or later.
pub proof fn law_label_goes_by_the_readers_days(
    timestamp: Timestamp,
    now: Timestamp,
    local_timezone: UtcOffset,
)
    requires
        local_timezone.wf(),
        timestamp.fits(local_timezone),
        now.fits(local_timezone),
    ensures
        ({
            let clock = timestamp.unix_seconds() + local_timezone.seconds;
            let clock_now = now.unix_seconds() + local_timezone.seconds;
            let time = clock_label(
                clock % (SECONDS_PER_DAY as int) / 3600,
                clock % 3600 / 60,
            );
            let date = timestamp.at_offset(local_timezone).date;
            &&& date.wf()
            &&& date.day_number() == day_at(clock)
            &&& local_label(
                timestamp.at_offset(local_timezone),
                now.at_offset(local_timezone),
            ) == if day_at(clock) == day_at(clock_now) {
                time
            } else if day_at(clock) + 1 == day_at(clock_now) {
                "yesterday at "@ + time
            } else {
                date_label(date)
            }
        }),
{
    lemma_at_offset_shows(timestamp, local_timezone);
    lemma_at_offset_shows(now, local_timezone);
    let local = timestamp.at_offset(local_timezone);
    let local_now = now.at_offset(local_timezone);
    lemma_clock_seconds(local);
    lemma_clock_seconds(local_now);
    lemma_next_date(local.date);
    lemma_day_number_in_range(local_now.date);
    if local.date.day_number() == local_now.date.day_number() {
        lemma_day_number_injective(local.date, local_now.date);
    }
    if local.date.day_number() + 1 == local_now.date.day_number() {
        lemma_day_number_injective(local.date.next().unwrap(), local_now.date);
    }
}

/// What is written for a moment of yesterday is what was written for it on its
/// own day, behind "yesterday at".
pub proof fn law_yesterday_repeats_the_time(
    timestamp: Timestamp,
    that_day: Timestamp,
    next_day: Timestamp,
)
    requires
        timestamp.date.wf(),
        that_day.date == timestamp.date,
        timestamp.date.next() == Some(next_day.date),
    ensures
        local_label(timestamp, next_day) == "yesterday at "@ + local_label(timestamp, that_day),
{
    lemma_next_date(timestamp.date);
}

/// Different minutes of the day are written differently.
pub proof fn law_clock_labels_differ(hour: int, minute: int, other_hour: int, other_minute: int)
    requires
        0 <= hour < 24,
        0 <= minute < 60,
        0 <= other_hour < 24,
        0 <= other_minute < 60,
        clock_label(hour, minute) == clock_label(other_hour, other_minute),
    ensures
        hour == other_hour,
        minute == other_minute,
{
    reveal_strlit(":");
    reveal_strlit("am");
    reveal_strlit("pm");
    let a = clock_label(hour, minute);
    let b = clock_label(other_hour, other_minute);
    assert(a[0] == b[0] && a[1] == b[1] && a[3] == b[3] && a[4] == b[4] && a[5] == b[5]);
}

proof fn lemma_decimal_digits(n: nat)
    ensures
        decimal(n).len() >= 1,
        forall|i: int| 0 <= i < decimal(n).len() ==> '0' <= #[trigger] decimal(n)[i] <= '9',
    decreases n,
{
    if n >= 10 {
        lemma_decimal_digits(n / 10);
    }
}

proof fn lemma_decimal_injective(a: nat, b: nat)
    requires
        decimal(a) == decimal(b),
    ensures
        a == b,
    decreases a,
{
    assert(decimal(a).last() == digit(a as int % 10));
    assert(decimal(b).last() == digit(b as int % 10));
    assert(a % 10 == b % 10);
    if a >= 10 {
        lemma_decimal_digits(a / 10);
    }
    if b >= 10 {
        lemma_decimal_digits(b / 10);
    }
    if a >= 10 && b >= 10 {
        assert(decimal(a).drop_last() =~= decimal(a / 10));
        assert(decimal(b).drop_last() =~= decimal(b / 10));
        lemma_decimal_injective(a / 10, b / 10);
    }
}

proof fn lemma_signed_decimal_injective(a: int, b: int)
    requires
        signed_decimal(a) == signed_decimal(b),
    ensures
        a == b,
{
    let abs_a: nat = if a < 0 { (-a) as nat } else { a as nat };
    let abs_b: nat = if b < 0 { (-b) as nat } else { b as nat };
    lemma_decimal_digits(abs_a);
    lemma_decimal_digits(abs_b);
    assert(signed_decimal(a)[0] == signed_decimal(b)[0]);
    assert(a >= 0 ==> signed_decimal(a)[0] == decimal(abs_a)[0]);
    assert(b >= 0 ==> signed_decimal(b)[0] == decimal(abs_b)[0]);
    if a < 0 {
        assert(signed_decimal(a).skip(1) =~= decimal(abs_a));
        assert(signed_decimal(b).skip(1) =~= decimal(abs_b));
    }
    lemma_decimal_injective(abs_a, abs_b);
}

/// Different dates are written differently.
pub proof fn law_date_labels_differ(date: CalendarDate, other: CalendarDate)
    requires
        date.wf(),
        other.wf(),
        date_label(date) == date_label(other),
    ensures
        date == other,
{
    reveal_strlit("/");
    let a = date_label(date);
    let b = date_label(other);
    assert(two_digits(date.month as int) =~= a.subrange(0, 2));
    assert(two_digits(other.month as int) =~= b.subrange(0, 2));
    assert(digit(date.month as int / 10) == a[0] && digit(other.month as int / 10) == a[0]);
    assert(digit(date.month as int % 10) == a[1] && digit(other.month as int % 10) == a[1]);
    assert(date.month == other.month);
    let day_a = decimal(date.day as nat);
    let day_b = decimal(other.day as nat);
    let len_a = day_a.len() as int;
    let len_b = day_b.len() as int;
    lemma_decimal_digits(date.day as nat);
    lemma_decimal_digits(other.day as nat);
    assert(a[3 + len_a] == '/');
    assert(b[3 + len_b] == '/');
    if len_a < len_b {
        assert(b[3 + len_a] == day_b[len_a]);
    } else if len_b < len_a {
        assert(a[3 + len_b] == day_a[len_b]);
    }
    assert(day_a =~= a.subrange(3, 3 + len_a));
    assert(day_b =~= b.subrange(3, 3 + len_b));
    lemma_decimal_injective(date.day as nat, other.day as nat);
    assert(signed_decimal(date.year as int) =~= a.skip(4 + len_a));
    assert(signed_decimal(other.year as int) =~= b.skip(4 + len_b));
    lemma_signed_decimal_injective(date.year as int, other.year as int);
}

/// What is written at one time for two moments tells their days apart, and of
/// moments of today or yesterday their minutes too.
pub proof fn law_labels_differ(timestamp: Timestamp, other: Timestamp, now: Timestamp)
    requires
        timestamp.wf(),
        other.wf(),
        now.wf(),
        local_label(timestamp, now) == local_label(other, now),
    ensures
        timestamp.date == other.date,
        timestamp.date == now.date || timestamp.date.next() == Some(now.date) ==> timestamp.hour
            == other.hour && timestamp.minute == other.minute,
{
    reveal_strlit("/");
    reveal_strlit(":");
    reveal_strlit("am");
    reveal_strlit("pm");
    reveal_strlit("yesterday at ");
    let a = local_label(timestamp, now);
    let b = local_label(other, now);
    assert(a[2] == b[2]);
    lemma_next_date(timestamp.date);
    lemma_next_date(other.date);
    let time_a = clock_label(timestamp.hour as int, timestamp.minute as int);
    let time_b = clock_label(other.hour as int, other.minute as int);
    if timestamp.date == now.date {
        assert(a[2] == ':');
    } else if timestamp.date.next() == Some(now.date) {
        assert(a[2] == 's');
        assert(a.skip(13) =~= time_a);
    } else {
        assert(a[2] == '/');
    }
    if other.date == now.date {
        assert(b[2] == ':');
    } else if other.date.next() == Some(now.date) {
        assert(b[2] == 's');
        assert(b.skip(13) =~= time_b);
    } else {
        assert(b[2] == '/');
    }
    if timestamp.date == now.date {
        law_clock_labels_differ(
            timestamp.hour as int,
            timestamp.minute as int,
            other.hour as int,
            other.minute as int,
        );
    } else if timestamp.date.next() == Some(now.date) {
        law_clock_labels_differ(
            timestamp.hour as int,
            timestamp.minute as int,
            other.hour as int,
            other.minute as int,
        );
        lemma_day_number_injective(timestamp.date, other.date);
    } else {
        law_date_labels_differ(timestamp.date, other.date);
    }
}

} // verus!
