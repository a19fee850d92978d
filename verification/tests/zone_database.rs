use chrono::{NaiveDate, Offset, TimeZone};
use chrono_tz::{Tz, TZ_VARIANTS};
use weekly_shift::{AbsoluteInstant, OccurrenceError, TimeOfDay, Weekday, WeeklyShift, Zone};

const DAY: i64 = 86_400;

fn day_number(year: i32, month: u32, day: u32) -> i32 {
    NaiveDate::from_ymd_opt(year, month, day).unwrap().to_epoch_days()
}

/// Every half hour of the dates around each change of offset that the zone
/// makes between the two days, as days and times on the zone's clock.
fn readings_around_changes(zone: &Zone, from_day: i32, to_day: i32) -> Vec<(i32, TimeOfDay)> {
    let mut readings = Vec::new();
    let mut day = from_day;
    let mut before = zone.utc_offset_at(day as i64 * DAY).unwrap();
    while day < to_day {
        day += 1;
        let after = zone.utc_offset_at(day as i64 * DAY).unwrap();
        if after != before {
            for near in [day - 2, day - 1, day, day + 1] {
                for half_hour in 0..48 {
                    readings.push((near, TimeOfDay { secs: half_hour * 1_800, frac: 0 }));
                }
            }
        }
        before = after;
    }
    readings
}

fn check_readings_of_every_zone(from_day: i32, to_day: i32) {
    let mut changes = 0;
    for tz in TZ_VARIANTS.iter() {
        let zone = Zone::from_name(tz.name()).unwrap();
        for (day, time) in readings_around_changes(&zone, from_day, to_day) {
            changes += 1;
            let local = day as i64 * DAY + time.secs as i64;
            match zone.earliest_at(day, &time) {
                Some(instant) => {
                    // The instant reads as the date and time asked for.
                    assert_eq!(instant.timestamp + instant.utc_offset as i64, local);
                    assert_eq!(instant.civil_day(), day as i64);
                    assert_eq!(instant.civil_second_of_day(), time.secs);
                    // Its tag is the zone's own offset at that instant.
                    assert_eq!(zone.utc_offset_at(instant.timestamp), Some(instant.utc_offset));
                    // No instant within the day before reads the same.
                    let mut earlier = instant.timestamp - 1_800;
                    while earlier > instant.timestamp - DAY {
                        let offset = zone.utc_offset_at(earlier).unwrap();
                        assert_ne!(earlier + offset as i64, local, "{} {}", tz.name(), local);
                        earlier -= 1_800;
                    }
                }
                None => {
                    // No instant within a day either way reads as asked.
                    let mut instant = local - DAY;
                    while instant <= local + DAY {
                        let offset = zone.utc_offset_at(instant).unwrap();
                        assert_ne!(instant + offset as i64, local, "{} {}", tz.name(), local);
                        instant += 900;
                    }
                }
            }
        }
    }
    assert!(changes > 0);
}

#[test]
fn readings_around_the_changes_of_2011() {
    check_readings_of_every_zone(day_number(2011, 1, 1), day_number(2012, 1, 1));
}

#[test]
fn readings_around_the_changes_of_2020() {
    check_readings_of_every_zone(day_number(2020, 1, 1), day_number(2021, 1, 1));
}

#[test]
fn readings_around_the_changes_of_1945() {
    check_readings_of_every_zone(day_number(1945, 1, 1), day_number(1946, 1, 1));
}

#[test]
fn every_zone_of_the_database_is_known_by_its_name() {
    assert!(TZ_VARIANTS.len() > 400);
    for tz in TZ_VARIANTS.iter() {
        let zone = Zone::from_name(tz.name()).unwrap();
        assert_eq!(zone.name(), tz.name());
        let parsed: Tz = zone.name().parse().unwrap();
        assert_eq!(parsed, *tz);
    }
}

#[test]
fn offsets_are_those_of_the_database() {
    for tz in TZ_VARIANTS.iter() {
        let zone = Zone::from_name(tz.name()).unwrap();
        let mut secs: i64 = -2_208_988_800;
        while secs < 2_208_988_800 {
            let expected = tz.offset_from_utc_datetime(&chrono::DateTime::from_timestamp(secs, 0).unwrap().naive_utc());
            assert_eq!(zone.utc_offset_at(secs), Some(expected.fix().local_minus_utc()));
            secs += 61 * DAY + 3_607;
        }
    }
}

#[test]
fn answers_in_every_zone_show_the_shift_and_come_back_when_asked_again() {
    let days = [Weekday::Mon, Weekday::Tue, Weekday::Wed, Weekday::Thu, Weekday::Fri, Weekday::Sat, Weekday::Sun];
    let mut answers = 0;
    for (n, tz) in TZ_VARIANTS.iter().enumerate() {
        let shift = WeeklyShift {
            weekday: days[n % 7],
            start: TimeOfDay { secs: ((n * 1_801) % 86_400) as u32, frac: 0 },
            start_tz: Zone::from_name(tz.name()).unwrap(),
        };
        let mut secs: i64 = 1_262_304_000 + n as i64 * 977;
        while secs < 1_356_998_400 {
            let reference = AbsoluteInstant { timestamp: secs, nanos: 0, utc_offset: 0 };
            match shift.prev_start(&reference) {
                Ok(start) => {
                    answers += 1;
                    assert_eq!(start.civil_weekday(), shift.weekday);
                    assert_eq!(start.civil_second_of_day(), shift.start.secs);
                    assert_eq!(shift.start_tz.utc_offset_at(start.timestamp), Some(start.utc_offset));
                    assert_eq!(shift.prev_start(&start), Ok(start));
                    assert!(start.is_at_or_before(&reference), "{} {}", tz.name(), secs);
                    assert!(reference.timestamp - start.timestamp < 8 * DAY + 1, "{} {}", tz.name(), secs);
                }
                Err(e) => assert_eq!(e, OccurrenceError::NoSuchLocalTime),
            }
            secs += 5 * DAY + 40_009;
        }
    }
    assert!(answers > 100_000);
}
