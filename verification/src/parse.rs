//! Reading weekly shifts from text.
//!
//! A shift is written on one line as three fields with single spaces
//! between them: the weekday, the start time and the name of the zone, as
//! in `Monday 12:30 Europe/London`. A pattern is a text of such lines.

use crate::shift::{ShiftFields, WeeklyShift};
use crate::text::{field, find_from, index_from, lemma_index_from, split_fields};
use crate::time_of_day::{parse_time, time_from_text};
use crate::weekday::{parse_weekday, weekday_from_name};
use crate::zone::{tz_known, Zone};
use vstd::prelude::*;

verus! {

/// The ways in which a line can fail to describe a shift.
#[derive(Clone, Copy, Debug, PartialEq, Eq, Structural)]
pub enum ParseFailure {
    /// The first field names no weekday.
    Weekday,
    /// The second field is no time of day.
    StartTime,
    /// The third field names no zone of the zone database.
    TimeZone,
    /// The line has fewer than three fields.
    InvalidWeeklyShift,
}

/// Why a line was not read as a shift, with the cause that the field's
/// reader gave.
#[derive(Debug, PartialEq, Eq)]
pub enum WeeklyShiftParseError {
    Weekday(chrono::ParseWeekdayError),
    StartTime(chrono::ParseError),
    TimeZone(chrono_tz::ParseError),
    InvalidWeeklyShift,
}

/// The sentence that describes a failure.
pub open spec fn failure_message(failure: ParseFailure) -> Seq<char> {
    match failure {
        ParseFailure::Weekday => "Cannot parse weekday field"@,
        ParseFailure::StartTime => "Cannot parse start field"@,
        ParseFailure::TimeZone => "Cannot parse timezone field"@,
        ParseFailure::InvalidWeeklyShift => "Cannot read shift field"@,
    }
}

impl WeeklyShiftParseError {
    /// The way in which the line failed.
    pub open spec fn failure(self) -> ParseFailure {
        match self {
            WeeklyShiftParseError::Weekday(_) => ParseFailure::Weekday,
            WeeklyShiftParseError::StartTime(_) => ParseFailure::StartTime,
            WeeklyShiftParseError::TimeZone(_) => ParseFailure::TimeZone,
            WeeklyShiftParseError::InvalidWeeklyShift => ParseFailure::InvalidWeeklyShift,
        }
    }

    /// The way in which the line failed.
    pub fn kind(&self) -> (k: ParseFailure)
        ensures
            k == self.failure(),
    {
        match self {
            WeeklyShiftParseError::Weekday(_) => ParseFailure::Weekday,
            WeeklyShiftParseError::StartTime(_) => ParseFailure::StartTime,
            WeeklyShiftParseError::TimeZone(_) => ParseFailure::TimeZone,
            WeeklyShiftParseError::InvalidWeeklyShift => ParseFailure::InvalidWeeklyShift,
        }
    }

    /// The sentence that describes the error.
    pub fn message(&self) -> (m: &'static str)
        ensures
            m@ == failure_message(self.failure()),
    {
        match self {
            WeeklyShiftParseError::Weekday(_) => "Cannot parse weekday field",
            WeeklyShiftParseError::StartTime(_) => "Cannot parse start field",
            WeeklyShiftParseError::TimeZone(_) => "Cannot parse timezone field",
            WeeklyShiftParseError::InvalidWeeklyShift => "Cannot read shift field",
        }
    }
}

/// What a line says. The fields are read in order, each only when those
/// before it were read, so the first that fails decides the error; a field
/// that is missing is met when its turn comes.
pub open spec fn parsed_line(s: Seq<char>) -> Result<ShiftFields, ParseFailure> {
    match weekday_from_name(s.subrange(0, index_from(s, ' ', 0))) {
        None => Err(ParseFailure::Weekday),
        Some(weekday) => match field(s, 1) {
            None => Err(ParseFailure::InvalidWeeklyShift),
            Some(second) => match time_from_text(second) {
                None => Err(ParseFailure::StartTime),
                Some(start) => match field(s, 2) {
                    None => Err(ParseFailure::InvalidWeeklyShift),
                    Some(third) => if tz_known(third) {
                        Ok(ShiftFields { weekday, start, zone: third })
                    } else {
                        Err(ParseFailure::TimeZone)
                    },
                },
            },
        },
    }
}

impl WeeklyShift {
    /// Reads a shift from a line such as `Monday 12:30 Europe/London`.
    pub fn from_str(s: &str) -> (r: Result<WeeklyShift, WeeklyShiftParseError>)
        ensures
            match r {
                Ok(shift) => parsed_line(s@) == Ok::<ShiftFields, ParseFailure>(shift@)
                    && shift.start.wf() && tz_known(shift.start_tz@),
                Err(e) => parsed_line(s@) == Err::<ShiftFields, ParseFailure>(e.failure()),
            },
    {
        let fields = split_fields(s);
        let weekday = match parse_weekday(fields.0) {
            Ok(w) => w,
            Err(e) => {
                return Err(WeeklyShiftParseError::Weekday(e));
            },
        };
        let start = match fields.1 {
            Some(text) => match parse_time(text) {
                Ok(t) => t,
                Err(e) => {
                    return Err(WeeklyShiftParseError::StartTime(e));
                },
            },
            None => {
                return Err(WeeklyShiftParseError::InvalidWeeklyShift);
            },
        };
        let start_tz = match fields.2 {
            Some(text) => match Zone::from_name(text) {
                Ok(z) => z,
                Err(e) => {
                    return Err(WeeklyShiftParseError::TimeZone(e));
                },
            },
            None => {
                return Err(WeeklyShiftParseError::InvalidWeeklyShift);
            },
        };
        Ok(WeeklyShift { weekday, start, start_tz })
    }
}

/// A weekly pattern of shifts, in the order in which they were written.
#[derive(Clone, Debug)]
pub struct WeeklyShiftPattern {
    pub shifts: Vec<WeeklyShift>,
}

impl View for WeeklyShiftPattern {
    type V = Seq<ShiftFields>;

    open spec fn view(&self) -> Seq<ShiftFields> {
        self.shifts@.map_values(|shift: WeeklyShift| shift@)
    }
}

/// The line of `s` that runs from `from` to `end`, where `end` is the index
/// of its newline or the length of `s`. A carriage return just before the
/// newline belongs to the line ending.
pub open spec fn line_text(s: Seq<char>, from: int, end: int) -> Seq<char> {
    if from < end < s.len() && s[end - 1] == '\r' {
        s.subrange(from, end - 1)
    } else {
        s.subrange(from, end)
    }
}

/// `done` followed by the shifts of `rest`, or the failure of `rest`.
pub open spec fn followed_by(done: Seq<ShiftFields>, rest: Result<Seq<ShiftFields>, ParseFailure>)
    -> Result<Seq<ShiftFields>, ParseFailure> {
    match rest {
        Ok(more) => Ok(done + more),
        Err(e) => Err(e),
    }
}

/// What the lines of `s` from index `from` on say: the shifts of the lines
/// that are not empty, in order, or the failure of the first line that
/// cannot be read.
pub open spec fn parsed_lines(s: Seq<char>, from: int) -> Result<Seq<ShiftFields>, ParseFailure>
    decreases s.len() + 1 - from,
    via parsed_lines_decreases
{
    if from < 0 || from >= s.len() {
        Ok(Seq::empty())
    } else {
        let end = index_from(s, '\n', from);
        let line = line_text(s, from, end);
        let rest = parsed_lines(s, end + 1);
        if line.len() == 0 {
            rest
        } else {
            match parsed_line(line) {
                Err(e) => Err(e),
                Ok(shift) => followed_by(seq![shift], rest),
            }
        }
    }
}

#[via_fn]
proof fn parsed_lines_decreases(s: Seq<char>, from: int) {
    if 0 <= from < s.len() {
        lemma_index_from(s, '\n', from);
    }
}

impl WeeklyShiftPattern {
    /// Reads a pattern from a text with one shift on each line. Lines end
    /// in a newline, or in a carriage return and a newline; the last needs
    /// no ending. Empty lines hold no shift. The first line that cannot be
    /// read fails the whole text.
    pub fn from_str(s: &str) -> (r: Result<WeeklyShiftPattern, WeeklyShiftParseError>)
        ensures
            match r {
                Ok(pattern) => {
                    &&& parsed_lines(s@, 0) == Ok::<Seq<ShiftFields>, ParseFailure>(pattern@)
                    &&& forall|i: int|
                        0 <= i < pattern.shifts.len() ==> (#[trigger] pattern.shifts[i]).start.wf()
                            && tz_known(pattern.shifts[i].start_tz@)
                },
                Err(e) => parsed_lines(s@, 0) == Err::<Seq<ShiftFields>, ParseFailure>(
                    e.failure(),
                ),
            },
    {
        let len: usize = s.unicode_len();
        let mut shifts: Vec<WeeklyShift> = Vec::new();
        let mut from: usize = 0;
        let mut more: bool = true;
        while more
            invariant
                len == s@.len(),
                from <= len,
                parsed_lines(s@, 0) == followed_by(
                    shifts@.map_values(|shift: WeeklyShift| shift@),
                    if more {
                        parsed_lines(s@, from as int)
                    } else {
                        Ok(Seq::empty())
                    },
                ),
                forall|i: int|
                    0 <= i < shifts.len() ==> (#[trigger] shifts[i]).start.wf() && tz_known(
                        shifts[i].start_tz@,
                    ),
            decreases len - from + (if more { 1int } else { 0int }),
        {
            if from >= len {
                more = false;
            } else {
                let end: usize = find_from(s, len, '\n', from);
                let stop: usize = if from < end && end < len && s.get_char(end - 1) == '\r' {
                    end - 1
                } else {
                    end
                };
                let ghost done = shifts@.map_values(|shift: WeeklyShift| shift@);
                let ghost rest = parsed_lines(s@, end + 1);
                if from < stop {
                    match WeeklyShift::from_str(s.substring_char(from, stop)) {
                        Ok(shift) => {
                            shifts.push(shift);
                            proof {
                                let now = shifts@.map_values(|shift: WeeklyShift| shift@);
                                assert(now =~= done.push(shift@));
                                match rest {
                                    Ok(tail) => {
                                        assert(done + (seq![shift@] + tail) =~= now + tail);
                                    },
                                    Err(_) => {},
                                }
                            }
                        },
                        Err(e) => {
                            return Err(e);
                        },
                    }
                }
                if end == len {
                    more = false;
                } else {
                    from = end + 1;
                }
            }
        }
        proof {
            let done = shifts@.map_values(|shift: WeeklyShift| shift@);
            assert(done + Seq::<ShiftFields>::empty() =~= done);
        }
        Ok(WeeklyShiftPattern { shifts })
    }
}

} // verus!
