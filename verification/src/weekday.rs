//! Days of the week and their English names.

use vstd::prelude::*;

verus! {

/// A day of the week, Monday first.
#[derive(Clone, Copy, Debug, PartialEq, Eq, Structural)]
pub enum Weekday {
    Mon,
    Tue,
    Wed,
    Thu,
    Fri,
    Sat,
    Sun,
}

impl Weekday {
    /// Position in the week: 0 for Monday up to 6 for Sunday.
    pub open spec fn index(self) -> int {
        match self {
            Weekday::Mon => 0,
            Weekday::Tue => 1,
            Weekday::Wed => 2,
            Weekday::Thu => 3,
            Weekday::Fri => 4,
            Weekday::Sat => 5,
            Weekday::Sun => 6,
        }
    }

    /// Number of days from Monday to this day.
    pub fn num_days_from_monday(&self) -> (n: i32)
        ensures
            n == self.index(),
            0 <= n <= 6,
    {
        match self {
            Weekday::Mon => 0,
            Weekday::Tue => 1,
            Weekday::Wed => 2,
            Weekday::Thu => 3,
            Weekday::Fri => 4,
            Weekday::Sat => 5,
            Weekday::Sun => 6,
        }
    }
}

/// The lower-case form of an ASCII capital; any other character unchanged.
pub open spec fn ascii_lower(c: char) -> char {
    if 'A' <= c && c <= 'Z' {
        ((c as u8 + 32) as u8) as char
    } else {
        c
    }
}

/// `s` with every ASCII capital in lower case.
pub open spec fn ascii_folded(s: Seq<char>) -> Seq<char> {
    Seq::new(s.len(), |i: int| ascii_lower(s[i]))
}

/// The day that `s` names. A name is the English word for the day or its
/// first three letters, in any mix of upper and lower case, with nothing
/// before or after it.
pub open spec fn weekday_from_name(s: Seq<char>) -> Option<Weekday> {
    let l = ascii_folded(s);
    if l == seq!['m', 'o', 'n'] || l == seq!['m', 'o', 'n', 'd', 'a', 'y'] {
        Some(Weekday::Mon)
    } else if l == seq!['t', 'u', 'e'] || l == seq!['t', 'u', 'e', 's', 'd', 'a', 'y'] {
        Some(Weekday::Tue)
    } else if l == seq!['w', 'e', 'd'] || l == seq!['w', 'e', 'd', 'n', 'e', 's', 'd', 'a', 'y'] {
        Some(Weekday::Wed)
    } else if l == seq!['t', 'h', 'u'] || l == seq!['t', 'h', 'u', 'r', 's', 'd', 'a', 'y'] {
        Some(Weekday::Thu)
    } else if l == seq!['f', 'r', 'i'] || l == seq!['f', 'r', 'i', 'd', 'a', 'y'] {
        Some(Weekday::Fri)
    } else if l == seq!['s', 'a', 't'] || l == seq!['s', 'a', 't', 'u', 'r', 'd', 'a', 'y'] {
        Some(Weekday::Sat)
    } else if l == seq!['s', 'u', 'n'] || l == seq!['s', 'u', 'n', 'd', 'a', 'y'] {
        Some(Weekday::Sun)
    } else {
        None
    }
}

#[verifier::external_type_specification]
#[verifier::external_body]
pub struct ExParseWeekdayError(chrono::ParseWeekdayError);

/// Reads a day of the week with chrono's `<Weekday as FromStr>::from_str`.
///
/// Trusted: chrono accepts exactly the short and the long English names,
/// ASCII letter case ignored, and says which day was named; every other
/// text is an error.
#[verifier::external_body]
pub(crate) fn parse_weekday(s: &str) -> (r: Result<Weekday, chrono::ParseWeekdayError>)
    ensures
        match r {
            Ok(w) => weekday_from_name(s@) == Some(w),
            Err(_) => weekday_from_name(s@) is None,
        },
{
    match s.parse::<chrono::Weekday>() {
        Ok(chrono::Weekday::Mon) => Ok(Weekday::Mon),
        Ok(chrono::Weekday::Tue) => Ok(Weekday::Tue),
        Ok(chrono::Weekday::Wed) => Ok(Weekday::Wed),
        Ok(chrono::Weekday::Thu) => Ok(Weekday::Thu),
        Ok(chrono::Weekday::Fri) => Ok(Weekday::Fri),
        Ok(chrono::Weekday::Sat) => Ok(Weekday::Sat),
        Ok(chrono::Weekday::Sun) => Ok(Weekday::Sun),
        Err(e) => Err(e),
    }
}

} // verus!
