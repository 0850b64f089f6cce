use chat_panel::calendar::CalendarDate;
use chat_panel::moment::{Timestamp, UtcOffset};
use chat_panel::numerals::{append_decimal, append_signed_decimal, append_two_digits};
use chat_panel::timestamp::{format_local_timestamp, format_timestamp};

const UTC: UtcOffset = UtcOffset { seconds: 0 };

fn at(year: i32, month: u8, day: u8, hour: u8, minute: u8, offset: UtcOffset) -> Timestamp {
    Timestamp { date: CalendarDate { year, month, day }, hour, minute, second: 0, offset }
}

fn hours(hours: i32) -> UtcOffset {
    UtcOffset { seconds: hours * 3600 }
}

fn from_time(moment: time::OffsetDateTime) -> Timestamp {
    Timestamp {
        date: CalendarDate {
            year: moment.year(),
            month: moment.month().into(),
            day: moment.day(),
        },
        hour: moment.hour(),
        minute: moment.minute(),
        second: moment.second(),
        offset: UtcOffset { seconds: moment.offset().whole_seconds() },
    }
}

/// The label, computed on the values of the `time` crate.
fn expected(
    timestamp: time::OffsetDateTime,
    now: time::OffsetDateTime,
    timezone: time::UtcOffset,
) -> String {
    let timestamp = timestamp.to_offset(timezone);
    let today = now.to_offset(timezone).date();
    let date = timestamp.date();
    let (hour, part) = if timestamp.hour() > 12 {
        (timestamp.hour() - 12, "pm")
    } else {
        (timestamp.hour(), "am")
    };
    if date == today {
        format!("{:02}:{:02}{}", hour, timestamp.minute(), part)
    } else if date.next_day() == Some(today) {
        format!("yesterday at {:02}:{:02}{}", hour, timestamp.minute(), part)
    } else {
        format!("{:02}/{}/{}", u8::from(date.month()), date.day(), date.year())
    }
}

#[test]
fn today_shows_the_time() {
    let now = at(2023, 9, 14, 23, 59, UTC);
    assert_eq!(format_timestamp(at(2023, 9, 14, 9, 5, UTC), now, UTC), "09:05am");
    assert_eq!(format_timestamp(at(2023, 9, 14, 13, 0, UTC), now, UTC), "01:00pm");
    assert_eq!(format_timestamp(at(2023, 9, 14, 23, 59, UTC), now, UTC), "11:59pm");
}

#[test]
fn midnight_and_noon_are_both_am() {
    let now = at(2023, 9, 14, 15, 0, UTC);
    assert_eq!(format_timestamp(at(2023, 9, 14, 0, 30, UTC), now, UTC), "00:30am");
    assert_eq!(format_timestamp(at(2023, 9, 14, 12, 30, UTC), now, UTC), "12:30am");
    assert_eq!(format_timestamp(at(2023, 9, 14, 13, 30, UTC), now, UTC), "01:30pm");
}

#[test]
fn yesterday_shows_the_time_behind_a_word() {
    let now = at(2023, 9, 15, 0, 0, UTC);
    assert_eq!(
        format_timestamp(at(2023, 9, 14, 22, 7, UTC), now, UTC),
        "yesterday at 10:07pm"
    );
    // Across the end of a month, of February and of a year.
    assert_eq!(
        format_timestamp(at(2023, 8, 31, 1, 2, UTC), at(2023, 9, 1, 12, 0, UTC), UTC),
        "yesterday at 01:02am"
    );
    assert_eq!(
        format_timestamp(at(2024, 2, 29, 1, 2, UTC), at(2024, 3, 1, 12, 0, UTC), UTC),
        "yesterday at 01:02am"
    );
    assert_eq!(
        format_timestamp(at(2023, 2, 28, 1, 2, UTC), at(2023, 3, 1, 12, 0, UTC), UTC),
        "yesterday at 01:02am"
    );
    assert_eq!(
        format_timestamp(at(2022, 12, 31, 1, 2, UTC), at(2023, 1, 1, 12, 0, UTC), UTC),
        "yesterday at 01:02am"
    );
}

#[test]
fn other_days_show_the_date() {
    let now = at(2023, 9, 14, 12, 0, UTC);
    assert_eq!(format_timestamp(at(2023, 9, 12, 1, 2, UTC), now, UTC), "09/12/2023");
    assert_eq!(format_timestamp(at(2023, 9, 15, 1, 2, UTC), now, UTC), "09/15/2023");
    assert_eq!(format_timestamp(at(2022, 9, 14, 1, 2, UTC), now, UTC), "09/14/2022");
    assert_eq!(format_timestamp(at(2022, 12, 3, 1, 2, UTC), now, UTC), "12/3/2022");
    assert_eq!(format_timestamp(at(7, 1, 1, 1, 2, UTC), now, UTC), "01/1/7");
    assert_eq!(format_timestamp(at(-44, 3, 15, 1, 2, UTC), now, UTC), "03/15/-44");
}

#[test]
fn february_of_a_common_year_ends_on_the_28th() {
    assert_eq!(
        format_timestamp(at(1900, 2, 28, 1, 2, UTC), at(1900, 3, 1, 12, 0, UTC), UTC),
        "yesterday at 01:02am"
    );
    assert_eq!(
        format_timestamp(at(2000, 2, 28, 1, 2, UTC), at(2000, 3, 1, 12, 0, UTC), UTC),
        "02/28/2000"
    );
}

#[test]
fn no_day_follows_the_last() {
    let last = at(9999, 12, 31, 23, 0, UTC);
    assert_eq!(format_local_timestamp(last, last), "11:00pm");
    assert_eq!(format_local_timestamp(last, at(9999, 12, 30, 0, 0, UTC)), "12/31/9999");
    assert_eq!(
        format_local_timestamp(at(-9999, 1, 1, 0, 0, UTC), at(-9999, 1, 2, 0, 0, UTC)),
        "yesterday at 00:00am"
    );
}

#[test]
fn the_day_is_that_of_the_reader() {
    let timestamp = at(2023, 9, 15, 3, 5, UTC);
    let now = at(2023, 9, 15, 12, 5, UTC);
    assert_eq!(format_timestamp(timestamp, now, UTC), "03:05am");
    assert_eq!(format_timestamp(timestamp, now, hours(-5)), "yesterday at 10:05pm");
    assert_eq!(format_timestamp(timestamp, now, hours(9)), "12:05am");
    assert_eq!(format_timestamp(timestamp, now, hours(13)), "yesterday at 04:05pm");
}

#[test]
fn the_clock_of_the_record_does_not_matter() {
    let now = at(2023, 9, 15, 12, 5, UTC);
    let same_now = at(2023, 9, 15, 17, 35, UtcOffset { seconds: 19800 });
    for timezone in [-8, 0, 2, 11] {
        let label = format_timestamp(at(2023, 9, 15, 3, 5, UTC), now, hours(timezone));
        let same = format_timestamp(at(2023, 9, 14, 23, 5, hours(-4)), same_now, hours(timezone));
        assert_eq!(label, same);
    }
}

#[test]
fn a_moment_beyond_the_last_year_of_utc_fits_a_clock_behind() {
    let timestamp = at(9999, 12, 31, 22, 0, hours(-5));
    assert_eq!(format_timestamp(timestamp, timestamp, hours(-5)), "10:00pm");
    assert_eq!(format_timestamp(timestamp, timestamp, hours(-7)), "08:00pm");
}

#[test]
fn offsets_reach_to_nearly_26_hours() {
    let far = UtcOffset { seconds: 93599 };
    let near = UtcOffset { seconds: -93599 };
    let timestamp = at(2020, 1, 3, 2, 0, far);
    assert_eq!(format_timestamp(timestamp, timestamp, near), "10:00pm");
    assert_eq!(
        format_timestamp(timestamp, at(2020, 1, 5, 0, 0, UTC), near),
        "12/31/2019"
    );
}

#[test]
fn labels_agree_with_the_time_crate() {
    let offsets = [-93599, -43200, -18000, -1, 0, 59, 3600, 20700, 50400, 93599];
    for step in -40..40i64 {
        let seconds = 1_694_700_000 + step * 1_234_567_891;
        let moment = time::OffsetDateTime::from_unix_timestamp(seconds).unwrap();
        for age in [0, 60, 3599, 43200, 86399, 86400, 100_000, 172_800, 9_000_000] {
            let now = time::OffsetDateTime::from_unix_timestamp(seconds + age).unwrap();
            for offset in offsets {
                let timezone = time::UtcOffset::from_whole_seconds(offset).unwrap();
                let recorded = moment.to_offset(time::UtcOffset::from_hms(1, 30, 0).unwrap());
                assert_eq!(
                    format_timestamp(
                        from_time(recorded),
                        from_time(now),
                        UtcOffset { seconds: offset }
                    ),
                    expected(moment, now, timezone)
                );
            }
        }
    }
}

#[test]
fn different_minutes_have_different_labels() {
    let now = at(2023, 9, 14, 12, 0, UTC);
    let mut labels: Vec<String> = Vec::new();
    for hour in 0..24 {
        for minute in 0..60 {
            labels.push(format_timestamp(at(2023, 9, 14, hour, minute, UTC), now, UTC));
        }
    }
    labels.sort();
    labels.dedup();
    assert_eq!(labels.len(), 24 * 60);
}

#[test]
fn different_days_have_different_labels() {
    let now = at(2024, 1, 1, 12, 0, UTC);
    let mut labels: Vec<String> = Vec::new();
    for month in 1..13 {
        for day in 1..29 {
            labels.push(format_timestamp(at(2023, month, day, 0, 0, UTC), now, UTC));
        }
    }
    labels.sort();
    labels.dedup();
    assert_eq!(labels.len(), 12 * 28);
}

#[test]
fn yesterdays_label_repeats_that_of_the_day() {
    let timestamp = at(2023, 2, 28, 17, 45, UTC);
    let on_the_day = format_timestamp(timestamp, at(2023, 2, 28, 18, 0, UTC), UTC);
    let a_day_later = format_timestamp(timestamp, at(2023, 3, 1, 18, 0, UTC), UTC);
    assert_eq!(on_the_day, "05:45pm");
    assert_eq!(a_day_later, format!("yesterday at {}", on_the_day));
}

#[test]
fn numbers_are_written_as_usual() {
    for n in [0, 7, 9, 10, 99, 100, 1234567890, u32::MAX] {
        let mut text = "n=".to_string();
        append_decimal(&mut text, n);
        assert_eq!(text, format!("n={}", n));
    }
    for n in [0, -1, 42, -9999, i32::MIN, i32::MAX] {
        let mut text = String::new();
        append_signed_decimal(&mut text, n);
        assert_eq!(text, n.to_string());
    }
    for n in 0..100u8 {
        let mut text = String::new();
        append_two_digits(&mut text, n);
        assert_eq!(text, format!("{:02}", n));
    }
}
