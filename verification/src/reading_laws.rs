//! What the panel writes for a time can be read back.

use crate::calendar::{
    lemma_day_number_in_range, lemma_day_number_injective, lemma_next_date, CalendarDate,
};
use crate::moment::{day_at, lemma_at_offset_shows, lemma_clock_seconds, Timestamp, UtcOffset};
use crate::numerals::{decimal, signed_decimal, two_digits};
use crate::timestamp::{clock_label, date_label, local_label};
use vstd::prelude::*;

verus! {

/// Whether a text is made of decimal digits.
pub open spec fn is_digits(text: Seq<char>) -> bool {
    text.len() > 0 && forall|i: int| 0 <= i < text.len() ==> '0' <= #[trigger] text[i] <= '9'
}

/// The number that decimal digits stand for.
pub open spec fn read(text: Seq<char>) -> int
    decreases text.len(),
{
    if text.len() == 0 {
        0
    } else {
        10 * read(text.drop_last()) + (text.last() as int - '0' as int)
    }
}

/// Whether a text is a number as it is usually written, with no zero in front.
pub open spec fn is_numeral(text: Seq<char>) -> bool {
    is_digits(text) && (text.len() > 1 ==> text[0] != '0')
}

/// Whether a text is the number `n` as it is usually written, with a minus sign
/// if it is negative.
pub open spec fn reads_number(text: Seq<char>, n: int) -> bool {
    if n < 0 {
        text.len() > 0 && text[0] == '-' && is_numeral(text.skip(1)) && read(text.skip(1)) == -n
    } else {
        is_numeral(text) && read(text) == n
    }
}

/// Whether a text is the number `n` in two digits.
pub open spec fn reads_pair(text: Seq<char>, n: int) -> bool {
    text.len() == 2 && is_digits(text) && read(text) == n
}

/// Whether a text is a time of day: hours and minutes in two digits each, with a
/// colon between them, up to the twelfth hour with "am" behind, and later, less
/// twelve hours, with "pm".
pub open spec fn reads_time(text: Seq<char>, hour: int, minute: int) -> bool {
    &&& text.len() == 7
    &&& text[2] == ':'
    &&& reads_pair(text.subrange(3, 5), minute)
    &&& if hour <= 12 {
        reads_pair(text.subrange(0, 2), hour) && text[5] == 'a'
    } else {
        reads_pair(text.subrange(0, 2), hour - 12) && text[5] == 'p'
    }
    &&& text[6] == 'm'
}

/// Whether a text is a date: the month in two digits, the day and the year, with
/// slashes between them.
pub open spec fn reads_date(text: Seq<char>, year: int, month: int, day: int) -> bool {
    let second_slash: int = if day < 10 {
        4
    } else {
        5
    };
    &&& text.len() > second_slash
    &&& text[2] == '/'
    &&& text[second_slash] == '/'
    &&& reads_pair(text.subrange(0, 2), month)
    &&& reads_number(text.subrange(3, second_slash), day)
    &&& reads_number(text.skip(second_slash + 1), year)
}

/// Whole numbers are written so that they read as they should.
pub proof fn law_decimals_can_be_read(n: nat)
    ensures
        is_numeral(decimal(n)),
        read(decimal(n)) == n,
        n > 0 ==> decimal(n)[0] != '0',
        n < 10 ==> decimal(n).len() == 1,
        10 <= n < 100 ==> decimal(n).len() == 2,
    decreases n,
{
    reveal_with_fuel(read, 2);
    if n >= 10 {
        law_decimals_can_be_read(n / 10);
        assert(decimal(n).drop_last() =~= decimal(n / 10));
        assert(decimal(n)[0] == decimal(n / 10)[0]);
    }
}

/// Numbers with a sign are written so that they read as they should.
pub proof fn law_signed_decimals_can_be_read(n: int)
    ensures
        reads_number(signed_decimal(n), n),
{
    if n < 0 {
        law_decimals_can_be_read((-n) as nat);
        assert(signed_decimal(n).skip(1) =~= decimal((-n) as nat));
    } else {
        law_decimals_can_be_read(n as nat);
    }
}

/// Numbers below one hundred are written in two digits that read as they should.
pub proof fn law_two_digits_can_be_read(n: int)
    requires
        0 <= n < 100,
    ensures
        reads_pair(two_digits(n), n),
{
    reveal_with_fuel(read, 3);
}

/// The time of day can be read from what is written for it.
pub proof fn law_times_can_be_read(hour: int, minute: int)
    requires
        0 <= hour < 24,
        0 <= minute < 60,
    ensures
        reads_time(clock_label(hour, minute), hour, minute),
{
    reveal_strlit(":");
    reveal_strlit("am");
    reveal_strlit("pm");
    let text = clock_label(hour, minute);
    let shown = if hour > 12 {
        hour - 12
    } else {
        hour
    };
    law_two_digits_can_be_read(shown);
    law_two_digits_can_be_read(minute);
    assert(text.subrange(0, 2) =~= two_digits(shown));
    assert(text.subrange(3, 5) =~= two_digits(minute));
}

/// The date can be read from what is written for it: the month before the first
/// slash, the day between the slashes, and the year behind them.
pub proof fn law_dates_can_be_read(date: CalendarDate)
    requires
        date.wf(),
    ensures
        reads_date(date_label(date), date.year as int, date.month as int, date.day as int),
{
    reveal_strlit("/");
    let text = date_label(date);
    let day = decimal(date.day as nat);
    law_two_digits_can_be_read(date.month as int);
    law_decimals_can_be_read(date.day as nat);
    law_signed_decimals_can_be_read(date.year as int);
    assert(text.subrange(0, 2) =~= two_digits(date.month as int));
    assert(text.subrange(3, 3 + day.len() as int) =~= day);
    assert(text.skip(4 + day.len() as int) =~= signed_decimal(date.year as int));
}

/// Whether a text is what a reader is to see for a moment of the day `date`, at
/// this time of it, when their own day has the number `today`.
pub open spec fn reads_label(
    text: Seq<char>,
    date: CalendarDate,
    hour: int,
    minute: int,
    today: int,
) -> bool {
    let yesterday_at = seq!['y', 'e', 's', 't', 'e', 'r', 'd', 'a', 'y', ' ', 'a', 't', ' '];
    if date.day_number() == today {
        reads_time(text, hour, minute)
    } else if date.day_number() == today - 1 {
        text.len() == 20 && text.take(13) == yesterday_at && reads_time(
            text.skip(13),
            hour,
            minute,
        )
    } else {
        reads_date(text, date.year as int, date.month as int, date.day as int)
    }
}

/// What is written for a moment on the reader's own clock reads as the time for
/// a moment of today, as yesterday at that time for one of yesterday, and as the
/// date for any other.
pub proof fn law_local_labels_can_be_read(timestamp: Timestamp, now: Timestamp)
    requires
        timestamp.wf(),
        now.wf(),
    ensures
        reads_label(
            local_label(timestamp, now),
            timestamp.date,
            timestamp.hour as int,
            timestamp.minute as int,
            now.date.day_number(),
        ),
{
    reveal_strlit("yesterday at ");
    let text = local_label(timestamp, now);
    let time = clock_label(timestamp.hour as int, timestamp.minute as int);
    law_times_can_be_read(timestamp.hour as int, timestamp.minute as int);
    law_dates_can_be_read(timestamp.date);
    lemma_next_date(timestamp.date);
    lemma_day_number_in_range(now.date);
    if timestamp.date.day_number() == now.date.day_number() {
        lemma_day_number_injective(timestamp.date, now.date);
    } else if timestamp.date.day_number() == now.date.day_number() - 1 {
        lemma_day_number_injective(timestamp.date.next().unwrap(), now.date);
        assert(text == "yesterday at "@ + time);
        assert(text.skip(13) =~= time);
        assert(text.take(13) =~= seq![
            'y',
            'e',
            's',
            't',
            'e',
            'r',
            'd',
            'a',
            'y',
            ' ',
            'a',
            't',
            ' ',
        ]);
    }
}

/// What is written for a moment reads as the time or the date that the clock of
/// the reader, so many seconds ahead of UTC, has counted up to at that moment.
pub proof fn law_labels_can_be_read(
    timestamp: Timestamp,
    now: Timestamp,
    local_timezone: UtcOffset,
    date: CalendarDate,
)
    requires
        local_timezone.wf(),
        timestamp.fits(local_timezone),
        now.fits(local_timezone),
        date.wf(),
        date.day_number() == day_at(timestamp.unix_seconds() + local_timezone.seconds),
    ensures
        ({
            let clock = timestamp.unix_seconds() + local_timezone.seconds;
            reads_label(
                local_label(
                    timestamp.at_offset(local_timezone),
                    now.at_offset(local_timezone),
                ),
                date,
                clock % 86400 / 3600,
                clock % 3600 / 60,
                day_at(now.unix_seconds() + local_timezone.seconds),
            )
        }),
{
    lemma_at_offset_shows(timestamp, local_timezone);
    lemma_at_offset_shows(now, local_timezone);
    let local = timestamp.at_offset(local_timezone);
    let local_now = now.at_offset(local_timezone);
    lemma_clock_seconds(local);
    lemma_clock_seconds(local_now);
    lemma_day_number_injective(local.date, date);
    law_local_labels_can_be_read(local, local_now);
}

} // verus!
