//! The time at which a message was sent, as the panel writes it.

use crate::calendar::CalendarDate;
use crate::moment::{day_at, lemma_at_offset_unique, next_day, to_offset, Timestamp, UtcOffset};
use crate::numerals::{
    append_decimal, append_signed_decimal, append_two_digits, decimal, signed_decimal, two_digits,
};
use crate::reading_laws::{law_labels_can_be_read, law_local_labels_can_be_read, reads_label};
use vstd::prelude::*;
use vstd::string::*;

verus! {

/// A time of day: `00` to `12` with `am`, then `01` to `11` with `pm`.
pub open spec fn clock_label(hour: int, minute: int) -> Seq<char> {
    if hour > 12 {
        two_digits(hour - 12) + ":"@ + two_digits(minute) + "pm"@
    } else {
        two_digits(hour) + ":"@ + two_digits(minute) + "am"@
    }
}

/// A date: the month in two digits, then the day and the year.
pub open spec fn date_label(date: CalendarDate) -> Seq<char> {
    two_digits(date.month as int) + "/"@ + decimal(date.day as nat) + "/"@ + signed_decimal(
        date.year as int,
    )
}

/// What is written for a moment when it is `now`, both on the same clock: the
/// time for a moment of today or yesterday, the date for any other.
pub open spec fn local_label(timestamp: Timestamp, now: Timestamp) -> Seq<char> {
    if timestamp.date == now.date {
        clock_label(timestamp.hour as int, timestamp.minute as int)
    } else if timestamp.date.next() == Some(now.date) {
        "yesterday at "@ + clock_label(timestamp.hour as int, timestamp.minute as int)
    } else {
        date_label(timestamp.date)
    }
}

/// Appends the time of day.
fn append_clock(text: &mut String, hour: u8, minute: u8)
    requires
        hour < 24,
        minute < 60,
    ensures
        final(text)@ == old(text)@ + clock_label(hour as int, minute as int),
{
    let mut hour = hour;
    let mut part = "am";
    if hour > 12 {
        hour = hour - 12;
        part = "pm";
    }
    append_two_digits(text, hour);
    text.append(":");
    append_two_digits(text, minute);
    text.append(part);
}

/// Writes a moment for a reader whose clock shows `now`. Both moments are given
/// as that clock shows them.
pub fn format_local_timestamp(timestamp: Timestamp, now: Timestamp) -> (label: String)
    requires
        timestamp.wf(),
        now.wf(),
    ensures
        label@ == local_label(timestamp, now),
        reads_label(
            label@,
            timestamp.date,
            timestamp.hour as int,
            timestamp.minute as int,
            now.date.day_number(),
        ),
{
    proof {
        law_local_labels_can_be_read(timestamp, now);
    }
    let mut label = String::new();
    if timestamp.date == now.date {
        append_clock(&mut label, timestamp.hour, timestamp.minute);
    } else if next_day(timestamp.date) == Some(now.date) {
        label.append("yesterday at ");
        append_clock(&mut label, timestamp.hour, timestamp.minute);
    } else {
        append_two_digits(&mut label, timestamp.date.month);
        label.append("/");
        append_decimal(&mut label, timestamp.date.day as u32);
        label.append("/");
        append_signed_decimal(&mut label, timestamp.date.year);
    }
    label
}

/// Writes the moment `timestamp` for a reader at `local_timezone`, for whom it
/// is `now`.
pub fn format_timestamp(timestamp: Timestamp, now: Timestamp, local_timezone: UtcOffset) -> (label:
    String)
    requires
        timestamp.wf(),
        now.wf(),
        local_timezone.wf(),
        timestamp.fits(local_timezone),
        now.fits(local_timezone),
    ensures
        label@ == local_label(timestamp.at_offset(local_timezone), now.at_offset(local_timezone)),
        forall|date: CalendarDate|
            date.wf() && #[trigger] date.day_number() == day_at(
                timestamp.unix_seconds() + local_timezone.seconds,
            ) ==> reads_label(
                label@,
                date,
                (timestamp.unix_seconds() + local_timezone.seconds) % 86400 / 3600,
                (timestamp.unix_seconds() + local_timezone.seconds) % 3600 / 60,
                day_at(now.unix_seconds() + local_timezone.seconds),
            ),
{
    proof {
        assert forall|date: CalendarDate|
            date.wf() && #[trigger] date.day_number() == day_at(
                timestamp.unix_seconds() + local_timezone.seconds,
            ) implies reads_label(
            local_label(timestamp.at_offset(local_timezone), now.at_offset(local_timezone)),
            date,
            (timestamp.unix_seconds() + local_timezone.seconds) % 86400 / 3600,
            (timestamp.unix_seconds() + local_timezone.seconds) % 3600 / 60,
            day_at(now.unix_seconds() + local_timezone.seconds),
        ) by {
            law_labels_can_be_read(timestamp, now, local_timezone, date);
        }
    }
    let timestamp_there = to_offset(timestamp, local_timezone);
    let now_there = to_offset(now, local_timezone);
    proof {
        lemma_at_offset_unique(timestamp, local_timezone, timestamp_there);
        lemma_at_offset_unique(now, local_timezone, now_there);
    }
    format_local_timestamp(timestamp_there, now_there)
}

} // verus!
