//! Time zones by their IANA names.
//!
//! The rules of a zone (its offsets from UTC and the dates on which they
//! change) come from the zone database that chrono-tz carries. The library
//! holds a zone as its name and asks the database through the functions of
//! this module.

use crate::calendar::{date_in_range, timestamp_in_range};
use crate::instant::AbsoluteInstant;
use crate::time_of_day::TimeOfDay;
use vstd::prelude::*;

verus! {

/// Whether the zone database has a zone of this name: whether chrono-tz's
/// `<Tz as FromStr>::from_str` accepts it.
pub uninterp spec fn tz_known(name: Seq<char>) -> bool;

/// Seconds that the clock of the zone `name` is ahead of UTC at `secs`
/// seconds since 1970-01-01T00:00:00 UTC: what chrono-tz's
/// `Tz::offset_from_utc_datetime` finds.
pub uninterp spec fn tz_utc_offset(name: Seq<char>, secs: int) -> int;

/// Seconds that the clock of the zone `name` is ahead of UTC when it first
/// shows `local_secs` seconds since 1970-01-01T00:00:00: the offset of the
/// earliest result of chrono's `TimeZone::from_local_datetime` on
/// chrono-tz's `Tz`. `None` where the clock never shows that time, or where
/// the instant cannot be represented.
pub uninterp spec fn tz_earliest_offset(name: Seq<char>, local_secs: int) -> Option<int>;

#[verifier::external_type_specification]
#[verifier::external_body]
pub struct ExTzParseError(chrono_tz::ParseError);

/// A time zone, held as its IANA name.
#[derive(Clone, Debug)]
pub struct Zone {
    pub name: String,
}

impl View for Zone {
    type V = Seq<char>;

    open spec fn view(&self) -> Seq<char> {
        self.name@
    }
}

/// Looks a name up with chrono-tz's `<Tz as FromStr>::from_str`.
///
/// Trusted: whether the name is accepted depends on the name alone.
#[verifier::external_body]
pub(crate) fn lookup_zone(name: &str) -> (r: Result<(), chrono_tz::ParseError>)
    ensures
        r is Ok <==> tz_known(name@),
{
    match name.parse::<chrono_tz::Tz>() {
        Ok(_) => Ok(()),
        Err(e) => Err(e),
    }
}

/// Asks chrono-tz's `Tz::offset_from_utc_datetime` for the offset of a zone
/// at an instant.
///
/// Trusted: there is an answer exactly when the zone is known and the
/// instant falls on a representable date (`DateTime::from_timestamp`); the
/// answer depends on the zone and the second alone, and, being a
/// `FixedOffset`, is less than a day either way.
#[verifier::external_body]
pub(crate) fn zone_offset_at(name: &str, secs: i64) -> (r: Option<i32>)
    ensures
        match r {
            Some(o) => {
                &&& tz_known(name@)
                &&& timestamp_in_range(secs as int)
                &&& o == tz_utc_offset(name@, secs as int)
                &&& -86_400 < o < 86_400
            },
            None => !(tz_known(name@) && timestamp_in_range(secs as int)),
        },
{
    let tz: chrono_tz::Tz = name.parse().ok()?;
    let utc = chrono::DateTime::from_timestamp(secs, 0)?.naive_utc();
    let offset = chrono::TimeZone::offset_from_utc_datetime(&tz, &utc);
    Some(chrono::Offset::fix(&offset).local_minus_utc())
}

/// Asks chrono for the earliest instant at which the clock of a zone shows
/// a date and time: `NaiveDateTime::and_local_timezone` on chrono-tz's `Tz`,
/// then `MappedLocalTime::earliest`.
///
/// Trusted: whether there is such an instant, and the offset it carries,
/// depend on the zone and the local second alone. The instant is the local
/// time less that offset, with the nanoseconds of `time`; it can be
/// represented; and the offset it carries is the one that the zone has at
/// that instant.
#[verifier::external_body]
pub(crate) fn zone_earliest_at(name: &str, day: i32, time: &TimeOfDay) -> (r: Option<
    AbsoluteInstant,
>)
    ensures
        match r {
            Some(t) => {
                &&& tz_known(name@)
                &&& date_in_range(day as int)
                &&& time.wf()
                &&& tz_earliest_offset(name@, day * 86_400 + time.secs) == Some(
                    t.utc_offset as int,
                )
                &&& t.timestamp + t.utc_offset == day * 86_400 + time.secs
                &&& t.nanos == time.frac
                &&& -86_400 < t.utc_offset < 86_400
                &&& timestamp_in_range(t.timestamp as int)
                &&& tz_utc_offset(name@, t.timestamp as int) == t.utc_offset
            },
            None => !(tz_known(name@) && date_in_range(day as int) && time.wf()
                && tz_earliest_offset(name@, day * 86_400 + time.secs) is Some),
        },
{
    let tz: chrono_tz::Tz = name.parse().ok()?;
    let date = chrono::NaiveDate::from_epoch_days(day)?;
    let clock = chrono::NaiveTime::from_num_seconds_from_midnight_opt(time.secs, time.frac)?;
    let dt = date.and_time(clock).and_local_timezone(tz).earliest()?;
    Some(
        AbsoluteInstant {
            timestamp: dt.timestamp(),
            nanos: dt.timestamp_subsec_nanos(),
            utc_offset: chrono::Offset::fix(dt.offset()).local_minus_utc(),
        },
    )
}

impl Zone {
    /// The zone of the given name, if the zone database has one.
    pub fn from_name(name: &str) -> (r: Result<Zone, chrono_tz::ParseError>)
        ensures
            r is Ok <==> tz_known(name@),
            r matches Ok(z) ==> z@ == name@,
    {
        match lookup_zone(name) {
            Ok(_) => Ok(Zone { name: name.to_owned() }),
            Err(e) => Err(e),
        }
    }

    /// The IANA name of the zone.
    pub fn name(&self) -> (s: &str)
        ensures
            s@ == self@,
    {
        self.name.as_str()
    }

    /// Seconds that the zone's clock is ahead of UTC at `secs` seconds since
    /// 1970-01-01T00:00:00 UTC. `None` for a zone that the database lacks
    /// or an instant outside the representable dates.
    pub fn utc_offset_at(&self, secs: i64) -> (r: Option<i32>)
        ensures
            r is Some <==> tz_known(self@) && timestamp_in_range(secs as int),
            r matches Some(o) ==> o == tz_utc_offset(self@, secs as int) && -86_400 < o < 86_400,
    {
        zone_offset_at(self.name.as_str(), secs)
    }

    /// The earliest instant at which the zone's clock shows `time` on the
    /// date numbered `day`, tagged with the offset of the clock then.
    /// `None` where the clock never shows it (it was set forward past it),
    /// and for a zone, date or time that is not valid.
    pub fn earliest_at(&self, day: i32, time: &TimeOfDay) -> (r: Option<AbsoluteInstant>)
        ensures
            r == earliest_reading(self@, day as int, *time),
            r matches Some(t) ==> timestamp_in_range(t.timestamp as int) && tz_utc_offset(
                self@,
                t.timestamp as int,
            ) == t.utc_offset,
    {
        zone_earliest_at(self.name.as_str(), day, time)
    }
}

/// The earliest instant at which the clock of the zone `name` shows `time`
/// on the date numbered `day`.
pub open spec fn earliest_reading(name: Seq<char>, day: int, time: TimeOfDay) -> Option<
    AbsoluteInstant,
> {
    if tz_known(name) && date_in_range(day) && time.wf() {
        match tz_earliest_offset(name, day * 86_400 + time.secs) {
            Some(o) if -86_400 < o < 86_400 => Some(
                AbsoluteInstant {
                    timestamp: (day * 86_400 + time.secs - o) as i64,
                    nanos: time.frac,
                    utc_offset: o as i32,
                },
            ),
            _ => None,
        }
    } else {
        None
    }
}

} // verus!
