//! Times of day on a civil clock.

use vstd::prelude::*;

verus! {

/// A time of day without date or zone.
///
/// `secs` counts whole seconds since midnight. `frac` counts nanoseconds
/// since the last whole second; within a leap second, which can only follow
/// a second numbered 59, it runs on from 1,000,000,000.
#[derive(Clone, Copy, Debug, PartialEq, Eq, Structural)]
pub struct TimeOfDay {
    pub secs: u32,
    pub frac: u32,
}

impl TimeOfDay {
    /// Whether the two counts denote a time of day.
    pub open spec fn wf(self) -> bool {
        &&& self.secs < 86_400
        &&& self.frac < 2_000_000_000
        &&& (self.frac < 1_000_000_000 || self.secs % 60 == 59)
    }

    /// Whether the two counts denote a time of day.
    pub fn is_valid(&self) -> (ok: bool)
        ensures
            ok == self.wf(),
    {
        self.secs < 86_400 && self.frac < 2_000_000_000 && (self.frac < 1_000_000_000
            || self.secs % 60 == 59)
    }

    /// The time `hour:min:sec`, if the three numbers are on the clock.
    pub fn from_hms(hour: u32, min: u32, sec: u32) -> (r: Option<TimeOfDay>)
        ensures
            r is Some <==> hour < 24 && min < 60 && sec < 60,
            r matches Some(t) ==> t.wf() && t.secs == hour * 3600 + min * 60 + sec && t.frac == 0,
    {
        if hour < 24 && min < 60 && sec < 60 {
            Some(TimeOfDay { secs: hour * 3600 + min * 60 + sec, frac: 0 })
        } else {
            None
        }
    }

    /// Hour of the day, 0 to 23 on a valid time.
    pub fn hour(&self) -> (h: u32)
        ensures
            h == self.secs / 3600,
    {
        self.secs / 3600
    }

    /// Minute of the hour, 0 to 59.
    pub fn minute(&self) -> (m: u32)
        ensures
            m == (self.secs / 60) % 60,
    {
        (self.secs / 60) % 60
    }

    /// Second of the minute, 0 to 59.
    pub fn second(&self) -> (s: u32)
        ensures
            s == self.secs % 60,
    {
        self.secs % 60
    }

    /// Nanoseconds since the last whole second.
    pub fn nanosecond(&self) -> (n: u32)
        ensures
            n == self.frac,
    {
        self.frac
    }
}

/// What chrono's `<NaiveTime as FromStr>::from_str` makes of a text: the
/// seconds since midnight and the nanoseconds of the time it reads, or
/// `None` where it reports an error.
pub uninterp spec fn naive_time_parse(s: Seq<char>) -> Option<(int, int)>;

/// The number that the two decimal digits at `at` and behind it write.
pub open spec fn two_digits(s: Seq<char>, at: int) -> Option<int> {
    if 0 <= at && at + 1 < s.len() && '0' <= s[at] && s[at] <= '9' && '0' <= s[at + 1] && s[at + 1]
        <= '9' {
        Some((s[at] as int - 48) * 10 + (s[at + 1] as int - 48))
    } else {
        None
    }
}

/// The time that a text of the form `HH:MM` or `HH:MM:SS` writes: two
/// digits each for an hour up to 23, a minute and a second up to 59, with
/// colons between them and nothing else.
pub open spec fn clock_text(s: Seq<char>) -> Option<TimeOfDay> {
    match (two_digits(s, 0), two_digits(s, 3)) {
        (Some(hour), Some(min)) => if hour < 24 && min < 60 && s[2] == ':' {
            if s.len() == 5 {
                Some(TimeOfDay { secs: (hour * 3600 + min * 60) as u32, frac: 0 })
            } else if s.len() == 8 && s[5] == ':' {
                match two_digits(s, 6) {
                    Some(sec) => if sec < 60 {
                        Some(TimeOfDay { secs: (hour * 3600 + min * 60 + sec) as u32, frac: 0 })
                    } else {
                        None
                    },
                    None => None,
                }
            } else {
                None
            }
        } else {
            None
        },
        _ => None,
    }
}

/// The time of day that a text writes. A text of the form `HH:MM` or
/// `HH:MM:SS` writes what it says. Of any other text the reader that
/// chrono gives to `NaiveTime` decides, which is more lenient.
pub open spec fn time_from_text(s: Seq<char>) -> Option<TimeOfDay> {
    match clock_text(s) {
        Some(t) => Some(t),
        None => match naive_time_parse(s) {
            Some(read) => Some(TimeOfDay { secs: read.0 as u32, frac: read.1 as u32 }),
            None => None,
        },
    }
}

#[verifier::external_type_specification]
#[verifier::external_body]
pub struct ExParseError(chrono::ParseError);

/// Reads a time of day with chrono's `<NaiveTime as FromStr>::from_str`.
///
/// Trusted: chrono reads the format `%H:%M:%S%.f` with the seconds
/// optional, so a text of the form `HH:MM` or `HH:MM:SS` gives the time it
/// writes; the outcome on any other text depends on the text alone; and a
/// time that chrono hands out keeps within the bounds of
/// [`TimeOfDay::wf`].
#[verifier::external_body]
pub(crate) fn parse_time(s: &str) -> (r: Result<TimeOfDay, chrono::ParseError>)
    ensures
        match r {
            Ok(t) => naive_time_parse(s@) == Some((t.secs as int, t.frac as int)) && t.wf(),
            Err(_) => naive_time_parse(s@) is None,
        },
        match r {
            Ok(t) => clock_text(s@) is Some ==> clock_text(s@) == Some(t),
            Err(_) => clock_text(s@) is None,
        },
{
    match s.parse::<chrono::NaiveTime>() {
        Ok(t) => Ok(
            TimeOfDay {
                secs: chrono::Timelike::num_seconds_from_midnight(&t),
                frac: chrono::Timelike::nanosecond(&t),
            },
        ),
        Err(e) => Err(e),
    }
}

} // verus!
