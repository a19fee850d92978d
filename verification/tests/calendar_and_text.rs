use chrono::{Datelike, NaiveDate};
use weekly_shift::calendar::{
    date_in_week_of, day_of_seconds, day_on_clock, div_rem_floor, is_timestamp_in_range, weekday_of,
    MAX_DAY, MIN_DAY,
};
use weekly_shift::text::split_fields;
use weekly_shift::{TimeOfDay, Weekday, Zone};

fn day(year: i32, month: u32, day: u32) -> i32 {
    NaiveDate::from_ymd_opt(year, month, day).unwrap().to_epoch_days()
}

#[test]
fn day_range_is_that_of_the_calendar() {
    assert_eq!(NaiveDate::MIN.to_epoch_days(), MIN_DAY);
    assert_eq!(NaiveDate::MAX.to_epoch_days(), MAX_DAY);
    assert!(NaiveDate::from_epoch_days(MIN_DAY).is_some());
    assert!(NaiveDate::from_epoch_days(MIN_DAY - 1).is_none());
    assert!(NaiveDate::from_epoch_days(MAX_DAY).is_some());
    assert!(NaiveDate::from_epoch_days(MAX_DAY + 1).is_none());
}

#[test]
fn timestamps_in_range_are_those_of_the_calendar() {
    let first: i64 = MIN_DAY as i64 * 86_400;
    let last: i64 = MAX_DAY as i64 * 86_400 + 86_399;
    assert_eq!(first, -8_334_601_228_800);
    assert_eq!(last, 8_210_266_876_799);
    for secs in [first, first + 1, -1, 0, 1, last - 1, last] {
        assert!(is_timestamp_in_range(secs));
        assert!(chrono::DateTime::from_timestamp(secs, 0).is_some());
    }
    for secs in [i64::MIN, first - 1, last + 1, i64::MAX] {
        assert!(!is_timestamp_in_range(secs));
        assert!(chrono::DateTime::from_timestamp(secs, 0).is_none());
    }
}

#[test]
fn seconds_fall_on_the_day_that_holds_them() {
    assert_eq!(day_of_seconds(0), 0);
    assert_eq!(day_of_seconds(86_399), 0);
    assert_eq!(day_of_seconds(86_400), 1);
    assert_eq!(day_of_seconds(-1), -1);
    assert_eq!(day_of_seconds(-86_400), -1);
    assert_eq!(day_of_seconds(-86_401), -2);
    assert_eq!(day_of_seconds(946_902_600), 10_959);
    assert_eq!(day_of_seconds(i64::MAX), 106_751_991_167_300);
    assert_eq!(day_of_seconds(i64::MIN), -106_751_991_167_301);
}

#[test]
fn division_rounds_down() {
    assert_eq!(div_rem_floor(7, 7), (1, 0));
    assert_eq!(div_rem_floor(6, 7), (0, 6));
    assert_eq!(div_rem_floor(0, 7), (0, 0));
    assert_eq!(div_rem_floor(-1, 7), (-1, 6));
    assert_eq!(div_rem_floor(-7, 7), (-1, 0));
    assert_eq!(div_rem_floor(-8, 7), (-2, 6));
    assert_eq!(div_rem_floor(-86_401, 86_400), (-2, 86_399));
    assert_eq!(div_rem_floor(i128::MAX, 1), (i128::MAX, 0));
    assert_eq!(div_rem_floor(i128::MIN, 1), (i128::MIN, 0));
    assert_eq!(div_rem_floor(i128::MIN, i128::MAX), (-2, i128::MAX - 1));
}

#[test]
fn day_on_a_clock_ahead_or_behind() {
    assert_eq!(day_on_clock(0, 0), 0);
    assert_eq!(day_on_clock(0, -1), -1);
    assert_eq!(day_on_clock(86_399, 1), 1);
    assert_eq!(day_on_clock(946_902_600, 43_200), 10_960);
    assert_eq!(day_on_clock(946_902_600, -46_800), 10_958);
    assert_eq!(day_on_clock(8_210_266_876_799, 86_399), MAX_DAY as i64 + 1);
    assert_eq!(day_on_clock(-8_334_601_228_800, -86_399), MIN_DAY as i64 - 1);
    assert_eq!(day_on_clock(i64::MAX, i32::MAX), 106_751_991_192_155);
    assert_eq!(day_on_clock(i64::MIN, i32::MIN), -106_751_991_192_156);
}

#[test]
fn weekdays_follow_the_calendar() {
    assert_eq!(weekday_of(0), Weekday::Thu);
    assert_eq!(weekday_of(-1), Weekday::Wed);
    assert_eq!(weekday_of(-3), Weekday::Mon);
    assert_eq!(weekday_of(-4), Weekday::Sun);
    assert_eq!(weekday_of(3), Weekday::Sun);
    assert_eq!(weekday_of(4), Weekday::Mon);
    assert_eq!(weekday_of(10_959), Weekday::Mon);
    assert_eq!(weekday_of(MIN_DAY as i64), Weekday::Thu);
    assert_eq!(weekday_of(MAX_DAY as i64), Weekday::Mon);
    for d in [-800_000, -36_525, -8, -7, -6, 0, 5, 6, 7, 18_262, 2_932_896] {
        let date = NaiveDate::from_epoch_days(d).unwrap();
        assert_eq!(weekday_of(d as i64).num_days_from_monday() as u32, date.weekday().num_days_from_monday());
    }
}

#[test]
fn weekday_positions_run_from_monday() {
    let days = [Weekday::Mon, Weekday::Tue, Weekday::Wed, Weekday::Thu, Weekday::Fri, Weekday::Sat, Weekday::Sun];
    for (position, weekday) in days.iter().enumerate() {
        assert_eq!(weekday.num_days_from_monday(), position as i32);
    }
}

#[test]
fn date_in_week_is_the_weekday_of_the_same_monday_to_sunday() {
    // 2000-01-03 was a Monday.
    let monday = day(2000, 1, 3);
    let days = [Weekday::Mon, Weekday::Tue, Weekday::Wed, Weekday::Thu, Weekday::Fri, Weekday::Sat, Weekday::Sun];
    for from in 0..7 {
        for (position, weekday) in days.iter().enumerate() {
            assert_eq!(date_in_week_of(monday + from, *weekday), Some(monday + position as i32));
        }
    }
    assert_eq!(date_in_week_of(monday - 1, Weekday::Mon), Some(monday - 7));
    assert_eq!(date_in_week_of(monday + 7, Weekday::Sun), Some(monday + 13));
}

#[test]
fn date_in_week_crosses_the_turn_of_the_year() {
    // Week 53 of 2015 ran from 2015-12-28 to 2016-01-03.
    assert_eq!(date_in_week_of(day(2016, 1, 1), Weekday::Mon), Some(day(2015, 12, 28)));
    assert_eq!(date_in_week_of(day(2015, 12, 31), Weekday::Sun), Some(day(2016, 1, 3)));
    // Week 1 of 2015 began on 2014-12-29.
    assert_eq!(date_in_week_of(day(2014, 12, 30), Weekday::Thu), Some(day(2015, 1, 1)));
    assert_eq!(date_in_week_of(day(2015, 1, 4), Weekday::Mon), Some(day(2014, 12, 29)));
    // Week 52 of 2020 and week 53 of 2020.
    assert_eq!(date_in_week_of(day(2020, 12, 27), Weekday::Mon), Some(day(2020, 12, 21)));
    assert_eq!(date_in_week_of(day(2021, 1, 3), Weekday::Mon), Some(day(2020, 12, 28)));
}

#[test]
fn date_in_week_stops_at_the_ends_of_the_calendar() {
    // The first date is a Thursday, the last a Monday.
    assert_eq!(date_in_week_of(MIN_DAY, Weekday::Thu), Some(MIN_DAY));
    assert_eq!(date_in_week_of(MIN_DAY, Weekday::Sun), Some(MIN_DAY + 3));
    assert_eq!(date_in_week_of(MIN_DAY, Weekday::Wed), None);
    assert_eq!(date_in_week_of(MIN_DAY, Weekday::Mon), None);
    assert_eq!(date_in_week_of(MIN_DAY + 3, Weekday::Mon), None);
    assert_eq!(date_in_week_of(MIN_DAY + 4, Weekday::Mon), Some(MIN_DAY + 4));
    assert_eq!(date_in_week_of(MIN_DAY - 1, Weekday::Thu), None);
    assert_eq!(date_in_week_of(MAX_DAY, Weekday::Mon), Some(MAX_DAY));
    assert_eq!(date_in_week_of(MAX_DAY, Weekday::Tue), None);
    assert_eq!(date_in_week_of(MAX_DAY, Weekday::Sun), None);
    assert_eq!(date_in_week_of(MAX_DAY - 1, Weekday::Sun), Some(MAX_DAY - 1));
    assert_eq!(date_in_week_of(MAX_DAY + 1, Weekday::Mon), None);
    assert_eq!(date_in_week_of(i32::MAX, Weekday::Mon), None);
    assert_eq!(date_in_week_of(i32::MIN, Weekday::Mon), None);
}

#[test]
fn earliest_reading_of_a_clock() {
    let london = Zone::from_name("Europe/London").unwrap();
    let half_past_one = TimeOfDay::from_hms(1, 30, 0).unwrap();
    // Shown once.
    let once = london.earliest_at(day(2020, 10, 18), &half_past_one).unwrap();
    assert_eq!((once.timestamp, once.nanos, once.utc_offset), (1_602_981_000, 0, 3600));
    // Shown twice: the first showing.
    let twice = london.earliest_at(day(2020, 10, 25), &half_past_one).unwrap();
    assert_eq!((twice.timestamp, twice.nanos, twice.utc_offset), (1_603_585_800, 0, 3600));
    // Never shown.
    assert_eq!(london.earliest_at(day(2020, 3, 29), &half_past_one), None);
    // Not a date, not a time, not a zone.
    assert_eq!(london.earliest_at(MAX_DAY + 1, &half_past_one), None);
    assert_eq!(london.earliest_at(0, &TimeOfDay { secs: 86_400, frac: 0 }), None);
    assert_eq!(london.earliest_at(0, &TimeOfDay { secs: 0, frac: 1_000_000_000 }), None);
    assert_eq!(Zone { name: "Nowhere".to_string() }.earliest_at(0, &half_past_one), None);
    // The nanoseconds go through.
    let fine = london.earliest_at(0, &TimeOfDay { secs: 59, frac: 1_234_567_890 }).unwrap();
    assert_eq!((fine.timestamp, fine.nanos, fine.utc_offset), (-3541, 1_234_567_890, 3600));
}

#[test]
fn time_of_day_from_clock_numbers() {
    assert_eq!(TimeOfDay::from_hms(0, 0, 0), Some(TimeOfDay { secs: 0, frac: 0 }));
    assert_eq!(TimeOfDay::from_hms(12, 30, 0), Some(TimeOfDay { secs: 45_000, frac: 0 }));
    assert_eq!(TimeOfDay::from_hms(23, 59, 59), Some(TimeOfDay { secs: 86_399, frac: 0 }));
    assert_eq!(TimeOfDay::from_hms(24, 0, 0), None);
    assert_eq!(TimeOfDay::from_hms(0, 60, 0), None);
    assert_eq!(TimeOfDay::from_hms(0, 0, 60), None);
    assert_eq!(TimeOfDay::from_hms(u32::MAX, u32::MAX, u32::MAX), None);
    let t = TimeOfDay::from_hms(13, 7, 42).unwrap();
    assert_eq!((t.hour(), t.minute(), t.second(), t.nanosecond()), (13, 7, 42, 0));
}

#[test]
fn time_of_day_validity() {
    assert!(TimeOfDay { secs: 0, frac: 0 }.is_valid());
    assert!(TimeOfDay { secs: 86_399, frac: 999_999_999 }.is_valid());
    assert!(TimeOfDay { secs: 86_399, frac: 1_999_999_999 }.is_valid());
    assert!(TimeOfDay { secs: 59, frac: 1_000_000_000 }.is_valid());
    assert!(!TimeOfDay { secs: 58, frac: 1_000_000_000 }.is_valid());
    assert!(!TimeOfDay { secs: 86_400, frac: 0 }.is_valid());
    assert!(!TimeOfDay { secs: 59, frac: 2_000_000_000 }.is_valid());
}

#[test]
fn fields_are_cut_at_single_spaces() {
    assert_eq!(split_fields("Monday 12:30 Europe/London"), ("Monday", Some("12:30"), Some("Europe/London")));
    assert_eq!(split_fields("a b c d e"), ("a", Some("b"), Some("c")));
    assert_eq!(split_fields("a b"), ("a", Some("b"), None));
    assert_eq!(split_fields("a"), ("a", None, None));
    assert_eq!(split_fields(""), ("", None, None));
    assert_eq!(split_fields(" "), ("", Some(""), None));
    assert_eq!(split_fields("  "), ("", Some(""), Some("")));
    assert_eq!(split_fields("a  b"), ("a", Some(""), Some("b")));
    assert_eq!(split_fields("a b "), ("a", Some("b"), Some("")));
    assert_eq!(split_fields("a\tb c"), ("a\tb", Some("c"), None));
    assert_eq!(split_fields("días 12:30 zoné x"), ("días", Some("12:30"), Some("zoné")));
}
