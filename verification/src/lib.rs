//! Weekly shifts on a civil clock.
//!
//! A weekly shift starts at one time of day, on one day of the week, in one
//! IANA time zone. Given an instant, the library finds the latest start of
//! the shift that is not after it, whatever the zone's clock did in between.

pub mod calendar;
pub mod instant;
pub mod parse;
pub mod shift;
pub mod text;
pub mod time_of_day;
pub mod weekday;
pub mod zone;

pub use instant::AbsoluteInstant;
pub use parse::{ParseFailure, WeeklyShiftParseError, WeeklyShiftPattern};
pub use shift::{OccurrenceError, WeeklyShift};
pub use time_of_day::TimeOfDay;
pub use weekday::Weekday;
pub use zone::Zone;
