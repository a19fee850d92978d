//! Points on the universal timeline.

use crate::calendar::{day_on_clock, div_rem_floor, weekday_of, weekday_of_day};
use crate::weekday::Weekday;
use vstd::prelude::*;

verus! {

/// A point on the universal timeline, tagged with the offset of the clock
/// on which it is meant to be read.
///
/// `timestamp` counts non-leap seconds since 1970-01-01T00:00:00 UTC and
/// `nanos` the nanoseconds since the last of them. `utc_offset` is what the
/// reader's clock is ahead of UTC, in seconds. Two values with the same
/// `timestamp` and `nanos` are the same instant, whatever their offsets.
#[derive(Clone, Copy, Debug)]
pub struct AbsoluteInstant {
    pub timestamp: i64,
    pub nanos: u32,
    pub utc_offset: i32,
}

impl AbsoluteInstant {
    /// Whether `self` and `other` are the same point in time.
    pub open spec fn same_instant(self, other: AbsoluteInstant) -> bool {
        self.timestamp == other.timestamp && self.nanos == other.nanos
    }

    /// Whether `self` is not later than `other`.
    pub open spec fn at_or_before(self, other: AbsoluteInstant) -> bool {
        self.timestamp < other.timestamp || (self.timestamp == other.timestamp && self.nanos
            <= other.nanos)
    }

    /// Seconds since 1970-01-01T00:00:00 on the tagged clock.
    pub open spec fn local_seconds(self) -> int {
        self.timestamp + self.utc_offset
    }

    /// Day number of the date that the tagged clock shows.
    pub open spec fn local_day(self) -> int {
        self.local_seconds() / 86_400
    }

    /// Seconds since midnight that the tagged clock shows.
    pub open spec fn local_second_of_day(self) -> int {
        self.local_seconds() % 86_400
    }

    /// Day number of the date that the tagged clock shows.
    pub fn civil_day(&self) -> (day: i64)
        ensures
            day == self.local_day(),
    {
        day_on_clock(self.timestamp, self.utc_offset)
    }

    /// Seconds since midnight that the tagged clock shows.
    pub fn civil_second_of_day(&self) -> (secs: u32)
        ensures
            secs == self.local_second_of_day(),
    {
        let local: i128 = self.timestamp as i128 + self.utc_offset as i128;
        let qr = div_rem_floor(local, 86_400);
        qr.1 as u32
    }

    /// Day of the week that the tagged clock shows.
    pub fn civil_weekday(&self) -> (weekday: Weekday)
        ensures
            weekday.index() == weekday_of_day(self.local_day()),
    {
        weekday_of(self.civil_day())
    }

    /// Whether `self` is not later than `other`, offsets set aside.
    pub fn is_at_or_before(&self, other: &AbsoluteInstant) -> (r: bool)
        ensures
            r == self.at_or_before(*other),
    {
        self.timestamp < other.timestamp || (self.timestamp == other.timestamp && self.nanos
            <= other.nanos)
    }
}

impl PartialEq for AbsoluteInstant {
    /// Instants are equal when they are the same point in time.
    fn eq(&self, other: &AbsoluteInstant) -> (r: bool) {
        self.timestamp == other.timestamp && self.nanos == other.nanos
    }
}

impl Eq for AbsoluteInstant {

}

impl vstd::std_specs::cmp::PartialEqSpecImpl for AbsoluteInstant {
    open spec fn obeys_eq_spec() -> bool {
        true
    }

    open spec fn eq_spec(&self, other: &AbsoluteInstant) -> bool {
        self.same_instant(*other)
    }
}

} // verus!
