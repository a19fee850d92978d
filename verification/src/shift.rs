//! Weekly shifts and their latest start.

use crate::calendar::{
    date_in_range, date_in_week_of, date_minus_days, day_on_clock, is_timestamp_in_range,
    lemma_same_weekday_apart, lemma_week_earlier, lemma_week_span, timestamp_in_range,
    week_start, weekday_in_week_of, weekday_of_day, MAX_DAY, MIN_DAY,
};
use crate::instant::AbsoluteInstant;
use crate::time_of_day::TimeOfDay;
use crate::weekday::Weekday;
use crate::zone::{earliest_reading, tz_known, tz_utc_offset, Zone};
use vstd::arithmetic::div_mod::lemma_fundamental_div_mod_converse;
use vstd::prelude::*;

verus! {

/// A shift that starts every week on one weekday, at one time of day, on
/// the clock of one zone.
#[derive(Clone, Debug)]
pub struct WeeklyShift {
    pub weekday: Weekday,
    pub start: TimeOfDay,
    pub start_tz: Zone,
}

/// What a weekly shift holds, with the zone as the characters of its name.
pub struct ShiftFields {
    pub weekday: Weekday,
    pub start: TimeOfDay,
    pub zone: Seq<char>,
}

impl View for WeeklyShift {
    type V = ShiftFields;

    open spec fn view(&self) -> ShiftFields {
        ShiftFields { weekday: self.weekday, start: self.start, zone: self.start_tz@ }
    }
}

/// Why a shift has no latest start at or before an instant.
#[derive(Clone, Copy, Debug, PartialEq, Eq, Structural)]
pub enum OccurrenceError {
    /// The start of the shift is not a time of day.
    InvalidStartTime,
    /// The instant asked about falls outside the representable dates.
    ReferenceOutOfRange,
    /// The zone database has no zone of the shift's name.
    UnknownZone,
    /// The date of the start falls outside the representable dates.
    DateOutOfRange,
    /// The zone's clock never shows the start on the date in question: it
    /// was set forward past it. No other time is put in its place.
    NoSuchLocalTime,
}

/// Seconds since 1970-01-01T00:00:00 that the clock of the zone `zone`
/// shows at `secs` seconds since 1970-01-01T00:00:00 UTC.
pub open spec fn local_seconds_at(zone: Seq<char>, secs: int) -> int {
    secs + tz_utc_offset(zone, secs)
}

/// The date that the clock of the zone `zone` shows at `secs` seconds since
/// 1970-01-01T00:00:00 UTC.
pub open spec fn local_date_at(zone: Seq<char>, secs: int) -> int {
    local_seconds_at(zone, secs) / 86_400
}

/// Whether `t` is not after `reference`: on the universal timeline, or,
/// failing that, on the clock of the zone `zone`, on which `t` then falls
/// on an earlier date than `reference` and less than two days before it.
pub open spec fn not_after(t: AbsoluteInstant, reference: AbsoluteInstant, zone: Seq<char>) -> bool {
    ||| t.at_or_before(reference)
    ||| {
        &&& t.local_day() < local_date_at(zone, reference.timestamp as int)
        &&& local_seconds_at(zone, reference.timestamp as int) - t.local_seconds() < 172_800
    }
}

/// Whether the clock on which `t` is read shows the weekday and time of
/// day given.
pub open spec fn shows(t: AbsoluteInstant, weekday: Weekday, time: TimeOfDay) -> bool {
    &&& weekday_of_day(t.local_day()) == weekday.index()
    &&& t.local_second_of_day() == time.secs
    &&& t.nanos == time.frac
}

/// The start of `shift` on the date numbered `day`: the earliest instant
/// at which the zone's clock shows the start time on that date.
pub open spec fn start_on(shift: WeeklyShift, day: int) -> Result<
    AbsoluteInstant,
    OccurrenceError,
> {
    if !date_in_range(day) {
        Err(OccurrenceError::DateOutOfRange)
    } else {
        match earliest_reading(shift.start_tz@, day, shift.start) {
            Some(t) => Ok(t),
            None => Err(OccurrenceError::NoSuchLocalTime),
        }
    }
}

/// The latest start of `shift` at or before `reference`.
///
/// The reference is read on the clock of the shift's zone, and the shift's
/// weekday is taken in the ISO week of the date that the clock shows. The
/// start on that date is the answer unless it is after the reference; then
/// the start seven calendar days earlier is.
pub open spec fn previous_start(shift: WeeklyShift, reference: AbsoluteInstant) -> Result<
    AbsoluteInstant,
    OccurrenceError,
> {
    let zone = shift.start_tz@;
    if !shift.start.wf() {
        Err(OccurrenceError::InvalidStartTime)
    } else if !timestamp_in_range(reference.timestamp as int) {
        Err(OccurrenceError::ReferenceOutOfRange)
    } else if !tz_known(zone) {
        Err(OccurrenceError::UnknownZone)
    } else {
        match weekday_in_week_of(local_date_at(zone, reference.timestamp as int), shift.weekday) {
            None => Err(OccurrenceError::DateOutOfRange),
            Some(day) => match start_on(shift, day) {
                Err(e) => Err(e),
                Ok(candidate) => if candidate.at_or_before(reference) {
                    Ok(candidate)
                } else {
                    start_on(shift, day - 7)
                },
            },
        }
    }
}

impl WeeklyShift {
    /// The start of the shift on the date numbered `day`.
    fn start_on_day(&self, day: i32) -> (r: Result<AbsoluteInstant, OccurrenceError>)
        requires
            self.start.wf(),
            tz_known(self.start_tz@),
        ensures
            r == start_on(*self, day as int),
            r matches Ok(t) ==> timestamp_in_range(t.timestamp as int) && tz_utc_offset(
                self.start_tz@,
                t.timestamp as int,
            ) == t.utc_offset,
    {
        match self.start_tz.earliest_at(day, &self.start) {
            Some(t) => Ok(t),
            None => {
                if day < MIN_DAY || day > MAX_DAY {
                    Err(OccurrenceError::DateOutOfRange)
                } else {
                    Err(OccurrenceError::NoSuchLocalTime)
                }
            },
        }
    }

    /// The latest start of the shift at or before `reference`.
    ///
    /// The reference is read on the clock of the shift's zone, and the
    /// shift's weekday is taken in the ISO week of the date shown. The
    /// start on that date is the answer unless it is after the reference;
    /// then the start seven calendar days earlier is. Where the zone's
    /// clock was set back and shows the start time twice, the first
    /// showing is the start; where it was set forward past the start time,
    /// there is no start on that date and the call fails.
    ///
    /// The answer shows the shift's weekday and start time on a clock
    /// tagged with the zone's own offset at that instant; it is not after
    /// the reference, in the sense of `not_after`; and asking again at the
    /// answer gives the answer back.
    pub fn prev_start(&self, reference: &AbsoluteInstant) -> (r: Result<
        AbsoluteInstant,
        OccurrenceError,
    >)
        ensures
            r == previous_start(*self, *reference),
            r matches Ok(t) ==> shows(t, self.weekday, self.start),
            r matches Ok(t) ==> t.utc_offset == tz_utc_offset(self.start_tz@, t.timestamp as int),
            r matches Ok(t) ==> not_after(t, *reference, self.start_tz@),
            r matches Ok(t) ==> previous_start(*self, t) == r,
    {
        if !self.start.is_valid() {
            return Err(OccurrenceError::InvalidStartTime);
        }
        if !is_timestamp_in_range(reference.timestamp) {
            return Err(OccurrenceError::ReferenceOutOfRange);
        }
        let offset: i32 = match self.start_tz.utc_offset_at(reference.timestamp) {
            Some(o) => o,
            None => {
                return Err(OccurrenceError::UnknownZone);
            },
        };
        let today: i64 = day_on_clock(reference.timestamp, offset);
        let day: i32 = match date_in_week_of(today as i32, self.weekday) {
            Some(d) => d,
            None => {
                return Err(OccurrenceError::DateOutOfRange);
            },
        };
        let candidate: AbsoluteInstant = match self.start_on_day(day) {
            Ok(t) => t,
            Err(e) => {
                return Err(e);
            },
        };
        let r = if candidate.is_at_or_before(reference) {
            Ok(candidate)
        } else {
            match date_minus_days(day, 7) {
                Some(earlier) => self.start_on_day(earlier),
                None => Err(OccurrenceError::DateOutOfRange),
            }
        };
        proof {
            lemma_previous_start_shows_shift(*self, *reference);
            lemma_previous_start_not_after(*self, *reference);
            if r is Ok {
                lemma_previous_start_again(*self, *reference);
            }
        }
        r
    }
}

/// A start of a shift on a date shows that date and the shift's start time
/// on the clock with which it is tagged.
proof fn lemma_start_reading(shift: WeeklyShift, day: int, t: AbsoluteInstant)
    requires
        start_on(shift, day) == Ok::<AbsoluteInstant, OccurrenceError>(t),
    ensures
        t.timestamp + t.utc_offset == day * 86_400 + shift.start.secs,
        t.local_day() == day,
        t.local_second_of_day() == shift.start.secs,
        t.nanos == shift.start.frac,
{
    lemma_fundamental_div_mod_converse(
        day * 86_400 + shift.start.secs,
        86_400,
        day,
        shift.start.secs as int,
    );
}

/// The date on which the answer of `previous_start` falls: the shift's
/// weekday in the week of the reference's date in the zone, or seven days
/// before that where the start of that week is after the reference.
pub open spec fn previous_start_day(shift: WeeklyShift, reference: AbsoluteInstant) -> int {
    let today = local_date_at(shift.start_tz@, reference.timestamp as int);
    let this_week = week_start(today) + shift.weekday.index();
    if start_on(shift, this_week) matches Ok(candidate) && candidate.at_or_before(reference) {
        this_week
    } else {
        this_week - 7
    }
}

/// The answer of `previous_start` is the start on `previous_start_day`,
/// which is a date of the shift's weekday.
proof fn lemma_previous_start_day(shift: WeeklyShift, reference: AbsoluteInstant)
    requires
        previous_start(shift, reference) is Ok,
    ensures
        start_on(shift, previous_start_day(shift, reference)) == previous_start(shift, reference),
        weekday_of_day(previous_start_day(shift, reference)) == shift.weekday.index(),
        previous_start(shift, reference)->Ok_0.local_day() == previous_start_day(shift, reference),
        shift.start.wf(),
        tz_known(shift.start_tz@),
{
    let today = local_date_at(shift.start_tz@, reference.timestamp as int);
    let this_week = week_start(today) + shift.weekday.index();
    lemma_week_span(today, shift.weekday.index());
    lemma_week_earlier(this_week);
    lemma_start_reading(
        shift,
        previous_start_day(shift, reference),
        previous_start(shift, reference)->Ok_0,
    );
}

/// Round trip: the latest start shows the shift's own weekday and start
/// time on the clock with which it is tagged.
pub proof fn lemma_previous_start_shows_shift(shift: WeeklyShift, reference: AbsoluteInstant)
    ensures
        previous_start(shift, reference) matches Ok(t) ==> shows(t, shift.weekday, shift.start),
{
    if previous_start(shift, reference) is Ok {
        lemma_previous_start_day(shift, reference);
        lemma_start_reading(
            shift,
            previous_start_day(shift, reference),
            previous_start(shift, reference)->Ok_0,
        );
    }
}

/// Boundedness: the latest start is not after the reference, given that
/// the zone's clock is less than a day off UTC at the reference, as
/// `WeeklyShift::prev_start` finds it to be.
///
/// Where the start in the week of the reference is the answer, it is at or
/// before the reference on the universal timeline. Where the start of the
/// week before is, it falls on an earlier date than the reference does in
/// the zone; and it is at or before the reference on the universal
/// timeline too, unless the zone's clock shows less than two days between
/// them: no two offsets differ by as much as that.
pub proof fn lemma_previous_start_not_after(shift: WeeklyShift, reference: AbsoluteInstant)
    requires
        -86_400 < tz_utc_offset(shift.start_tz@, reference.timestamp as int) < 86_400,
    ensures
        previous_start(shift, reference) matches Ok(t) ==> not_after(t, reference, shift.start_tz@),
{
    if previous_start(shift, reference) is Ok {
        let t = previous_start(shift, reference)->Ok_0;
        let today = local_date_at(shift.start_tz@, reference.timestamp as int);
        lemma_previous_start_day(shift, reference);
        lemma_week_span(today, shift.weekday.index());
        assert(-86_400 < t.utc_offset < 86_400);
    }
}

/// No closer start: starts are seven calendar days apart, and of the dates
/// of the shift's weekday that come after the date of the latest start,
/// each either lies after the reference's date in the zone, or is the date
/// in the week of the reference, on which the shift starts after the
/// reference.
pub proof fn lemma_no_closer_start(shift: WeeklyShift, reference: AbsoluteInstant, day: int)
    requires
        previous_start(shift, reference) is Ok,
        weekday_of_day(day) == shift.weekday.index(),
        previous_start(shift, reference)->Ok_0.local_day() < day,
    ensures
        local_date_at(shift.start_tz@, reference.timestamp as int) < day || (start_on(shift, day)
            matches Ok(later) && !later.at_or_before(reference)),
{
    let today = local_date_at(shift.start_tz@, reference.timestamp as int);
    let this_week = week_start(today) + shift.weekday.index();
    lemma_previous_start_day(shift, reference);
    lemma_week_span(today, shift.weekday.index());
    lemma_same_weekday_apart(previous_start_day(shift, reference), day);
    if this_week < day {
        lemma_same_weekday_apart(this_week, day);
    }
}

/// Asking again: the latest start is its own latest start, given that it
/// can be represented and that the zone has, at that instant, the offset
/// with which the instant is tagged. `WeeklyShift::prev_start` finds both
/// to hold of every answer it gives.
pub proof fn lemma_previous_start_again(shift: WeeklyShift, reference: AbsoluteInstant)
    requires
        previous_start(shift, reference) is Ok,
        timestamp_in_range(previous_start(shift, reference)->Ok_0.timestamp as int),
        tz_utc_offset(
            shift.start_tz@,
            previous_start(shift, reference)->Ok_0.timestamp as int,
        ) == previous_start(shift, reference)->Ok_0.utc_offset,
    ensures
        previous_start(shift, previous_start(shift, reference)->Ok_0) == previous_start(
            shift,
            reference,
        ),
{
    let t = previous_start(shift, reference)->Ok_0;
    let day = previous_start_day(shift, reference);
    lemma_previous_start_day(shift, reference);
    assert(local_date_at(shift.start_tz@, t.timestamp as int) == day);
    assert(week_start(day) + shift.weekday.index() == day);
    assert(weekday_in_week_of(day, shift.weekday) == Some(day));
    assert(start_on(shift, day) == Ok::<AbsoluteInstant, OccurrenceError>(t));
    assert(t.at_or_before(t));
}

} // verus!
