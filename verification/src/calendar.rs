//! Day numbers and weeks.
//!
//! A civil date is held as its day number: the count of days since
//! 1970-01-01 in the proleptic Gregorian calendar, negative before it.
//! Day 0 was a Thursday, so the weekday of a day and the Monday of its week
//! are plain arithmetic on the number.

use crate::weekday::Weekday;
use vstd::arithmetic::div_mod::{
    lemma_add_mod_noop, lemma_fundamental_div_mod, lemma_fundamental_div_mod_converse,
};
use vstd::prelude::*;

verus! {

/// Day number of the first date that chrono can represent, 1 January of
/// the year -262143.
pub const MIN_DAY: i32 = -96_465_292;

/// Day number of the last date that chrono can represent, 31 December of
/// the year 262142.
pub const MAX_DAY: i32 = 95_026_236;

/// The ISO year of a representable date is its calendar year or the one
/// next to it.
pub open spec fn iso_year_in_range(year: int) -> bool {
    -262_144 <= year <= 262_143
}

/// Whether `day` is the number of a representable date.
pub open spec fn date_in_range(day: int) -> bool {
    MIN_DAY <= day <= MAX_DAY
}

/// Whether `secs`, a count of seconds since 1970-01-01T00:00:00, falls on a
/// representable date.
pub open spec fn timestamp_in_range(secs: int) -> bool {
    date_in_range(secs / 86_400)
}

/// Position of `day` in its week: 0 for Monday up to 6 for Sunday.
pub open spec fn weekday_of_day(day: int) -> int {
    (day + 3) % 7
}

/// Day number of the Monday that opens the week of `day`.
pub open spec fn week_start(day: int) -> int {
    day - weekday_of_day(day)
}

/// A week holds its Monday and the six days after it, each weekday once.
pub proof fn lemma_week_span(day: int, position: int)
    requires
        0 <= position <= 6,
    ensures
        week_start(day) <= day <= week_start(day) + 6,
        0 <= weekday_of_day(day) <= 6,
        weekday_of_day(week_start(day) + position) == position,
        week_start(week_start(day) + position) == week_start(day),
{
    lemma_fundamental_div_mod(day + 3, 7);
    let weeks = (day + 3) / 7;
    lemma_fundamental_div_mod_converse(week_start(day) + position + 3, 7, weeks, position);
}

/// Seven days earlier the weekday is the same, and the week is the one
/// before.
pub proof fn lemma_week_earlier(day: int)
    ensures
        weekday_of_day(day - 7) == weekday_of_day(day),
        week_start(day - 7) == week_start(day) - 7,
{
    lemma_fundamental_div_mod(day + 3, 7);
    lemma_fundamental_div_mod_converse(day - 7 + 3, 7, (day + 3) / 7 - 1, (day + 3) % 7);
}

/// Two different dates on the same weekday are at least seven days apart.
pub proof fn lemma_same_weekday_apart(earlier: int, later: int)
    requires
        weekday_of_day(earlier) == weekday_of_day(later),
        earlier < later,
    ensures
        earlier + 7 <= later,
{
    lemma_fundamental_div_mod(earlier + 3, 7);
    lemma_fundamental_div_mod(later + 3, 7);
}

/// Quotient and remainder of `x` by a positive `d`, the quotient rounded
/// down and the remainder never negative.
pub fn div_rem_floor(x: i128, d: i128) -> (qr: (i128, i128))
    requires
        0 < d,
    ensures
        qr.0 == x as int / d as int,
        qr.1 == x as int % d as int,
        0 <= qr.1 < d,
{
    if x >= 0 {
        proof {
            lemma_fundamental_div_mod(x as int, d as int);
        }
        (x / d, x % d)
    } else {
        let back: i128 = -(x + 1);
        let q: i128 = back / d;
        let r: i128 = back % d;
        proof {
            lemma_fundamental_div_mod(back as int, d as int);
            assert(x == (-q - 1) * d + (d - 1 - r)) by (nonlinear_arith)
                requires
                    back == d * q + r,
                    x == -back - 1,
            ;
            lemma_fundamental_div_mod_converse(x as int, d as int, -q - 1, d - 1 - r);
        }
        (-q - 1, d - 1 - r)
    }
}

/// The day on which a count of seconds since 1970-01-01T00:00:00 falls.
pub fn day_of_seconds(secs: i64) -> (day: i64)
    ensures
        day == secs as int / 86_400,
{
    let qr = div_rem_floor(secs as i128, 86_400);
    proof {
        lemma_fundamental_div_mod(secs as int, 86_400);
    }
    qr.0 as i64
}

/// The day of the week on which the date numbered `day` falls.
pub fn weekday_of(day: i64) -> (weekday: Weekday)
    ensures
        weekday.index() == weekday_of_day(day as int),
{
    let qr = div_rem_floor(day as i128, 7);
    let position: i128 = (qr.1 + 3) % 7;
    proof {
        lemma_add_mod_noop(day as int, 3, 7);
    }
    if position == 0 {
        Weekday::Mon
    } else if position == 1 {
        Weekday::Tue
    } else if position == 2 {
        Weekday::Wed
    } else if position == 3 {
        Weekday::Thu
    } else if position == 4 {
        Weekday::Fri
    } else if position == 5 {
        Weekday::Sat
    } else {
        Weekday::Sun
    }
}

/// The day that a clock `offset` seconds ahead of UTC shows at `secs`
/// seconds since 1970-01-01T00:00:00 UTC. With an offset of less than a
/// day it is at most one day off the day in UTC.
pub fn day_on_clock(secs: i64, offset: i32) -> (day: i64)
    ensures
        day == (secs + offset) / 86_400,
        timestamp_in_range(secs as int) && -86_400 < offset < 86_400 ==> MIN_DAY - 1 <= day
            <= MAX_DAY + 1,
{
    let qr = div_rem_floor(secs as i128 + offset as i128, 86_400);
    proof {
        lemma_fundamental_div_mod(secs as int, 86_400);
        lemma_fundamental_div_mod(secs + offset, 86_400);
    }
    qr.0 as i64
}

/// Whether a count of seconds since 1970-01-01T00:00:00 falls on a
/// representable date.
pub fn is_timestamp_in_range(secs: i64) -> (ok: bool)
    ensures
        ok == timestamp_in_range(secs as int),
{
    let day: i64 = day_of_seconds(secs);
    MIN_DAY as i64 <= day && day <= MAX_DAY as i64
}

/// The ISO 8601 week in which a day lies, as the pair of its week-numbering
/// year and its week number: what chrono's `NaiveDate::iso_week` finds for
/// the date numbered `day`.
pub uninterp spec fn iso_week_label(day: int) -> (int, int);

/// Asks chrono's `NaiveDate::iso_week` for the ISO week of a date.
///
/// Trusted: there is an answer exactly for a representable date, and it
/// depends on the date alone. A week runs from Monday to Sunday and has a
/// number from 1 to 53 within the date's year or one next to it: the
/// representable dates of the answer's week are those that share this
/// date's Monday, and no others.
#[verifier::external_body]
pub(crate) fn iso_week_of(day: i32) -> (r: Option<(i32, u32)>)
    ensures
        match r {
            Some(w) => {
                &&& date_in_range(day as int)
                &&& iso_week_label(day as int) == (w.0 as int, w.1 as int)
                &&& iso_year_in_range(w.0 as int)
                &&& 1 <= w.1 <= 53
                &&& forall|e: int|
                    date_in_range(e) ==> ((#[trigger] iso_week_label(e)) == (w.0 as int, w.1 as int)
                        <==> week_start(e) == week_start(day as int))
            },
            None => !date_in_range(day as int),
        },
{
    let week = chrono::Datelike::iso_week(&chrono::NaiveDate::from_epoch_days(day)?);
    Some((week.year(), week.week()))
}

/// Asks chrono's `NaiveDate::from_isoywd_opt` for the date with a given ISO
/// week date.
///
/// Trusted: the date handed out is representable, falls on the weekday
/// asked for and lies in the week asked for; there is none only where no
/// representable date does. The year is kept to those that a date can
/// have, within which chrono's own arithmetic on it stays in bounds.
#[verifier::external_body]
pub(crate) fn date_of_iso_week(year: i32, week: u32, weekday: Weekday) -> (r: Option<i32>)
    requires
        iso_year_in_range(year as int),
    ensures
        match r {
            Some(d) => {
                &&& date_in_range(d as int)
                &&& weekday_of_day(d as int) == weekday.index()
                &&& iso_week_label(d as int) == (year as int, week as int)
            },
            None => forall|e: int|
                date_in_range(e) && weekday_of_day(e) == weekday.index() ==> (
                #[trigger] iso_week_label(e)) != (year as int, week as int),
        },
{
    let wd = match weekday {
        Weekday::Mon => chrono::Weekday::Mon,
        Weekday::Tue => chrono::Weekday::Tue,
        Weekday::Wed => chrono::Weekday::Wed,
        Weekday::Thu => chrono::Weekday::Thu,
        Weekday::Fri => chrono::Weekday::Fri,
        Weekday::Sat => chrono::Weekday::Sat,
        Weekday::Sun => chrono::Weekday::Sun,
    };
    match chrono::NaiveDate::from_isoywd_opt(year, week, wd) {
        Some(date) => Some(date.to_epoch_days()),
        None => None,
    }
}

/// Asks chrono's `NaiveDate::checked_sub_days` for the date a number of
/// days before another.
///
/// Trusted: the answer is the day number less `days`, and there is one
/// exactly when both dates are representable.
#[verifier::external_body]
pub(crate) fn date_minus_days(day: i32, days: u64) -> (r: Option<i32>)
    ensures
        r == (if date_in_range(day as int) && date_in_range(day - days) {
            Some((day - days) as i32)
        } else {
            None
        }),
{
    let date = chrono::NaiveDate::from_epoch_days(day)?;
    match date.checked_sub_days(chrono::Days::new(days)) {
        Some(earlier) => Some(earlier.to_epoch_days()),
        None => None,
    }
}

/// The date that falls on `weekday` in the ISO week of `day`.
pub open spec fn weekday_in_week_of(day: int, weekday: Weekday) -> Option<int> {
    if date_in_range(day) && date_in_range(week_start(day) + weekday.index()) {
        Some(week_start(day) + weekday.index())
    } else {
        None
    }
}

/// The date that falls on `weekday` in the ISO week of the date numbered
/// `day`: the week is looked up by its ISO year and number, and the date by
/// its ISO week date. `None` where either date cannot be represented.
pub fn date_in_week_of(day: i32, weekday: Weekday) -> (r: Option<i32>)
    ensures
        r matches Some(d) ==> weekday_in_week_of(day as int, weekday) == Some(d as int),
        r is None ==> weekday_in_week_of(day as int, weekday) is None,
{
    match iso_week_of(day) {
        None => None,
        Some(week) => {
            let found = date_of_iso_week(week.0, week.1, weekday);
            proof {
                let target = week_start(day as int) + weekday.index();
                lemma_week_span(day as int, weekday.index());
                match found {
                    Some(d) => {
                        assert(week_start(d as int) == week_start(day as int));
                    },
                    None => {
                        if date_in_range(target) {
                            assert(iso_week_label(target) == (week.0 as int, week.1 as int));
                        }
                    },
                }
            }
            found
        },
    }
}

} // verus!
