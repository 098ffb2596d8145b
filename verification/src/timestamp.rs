//! Points in time as a notification carries them, and their printed form.

use vstd::prelude::*;

verus! {

/// The first second that has a calendar date: midnight of 1 January of the
/// year -262143, counted from the Unix epoch.
pub const MIN_SECONDS: i64 = -8_334_601_228_800;

/// The last second that has a calendar date: the end of 31 December of the
/// year 262142, counted from the Unix epoch.
pub const MAX_SECONDS: i64 = 8_210_266_876_799;

/// A point in time: whole seconds since the Unix epoch and the nanoseconds
/// past that second.
#[derive(Clone, Copy, Debug, PartialEq, Eq, Structural)]
pub struct Timestamp {
    pub seconds: i64,
    pub nanos: i32,
}

/// Whether `seconds` and `nanos` name a calendar date and time of day: the
/// second lies in the years -262143 to 262142, and the nanoseconds stay
/// under one second, or under two in the last second of a minute, which is
/// how a leap second is written.
pub open spec fn has_date_time(seconds: int, nanos: int) -> bool {
    &&& MIN_SECONDS <= seconds <= MAX_SECONDS
    &&& 0 <= nanos < 2_000_000_000
    &&& (nanos >= 1_000_000_000 ==> seconds % 60 == 59)
}

/// The text of the calendar date and time of day, in UTC, that lies `seconds`
/// seconds and `nanos` nanoseconds after the Unix epoch: the date, the letter
/// `T`, the time of day, and the fraction of the second where there is one,
/// as in `2001-09-09T01:46:40.500`.
pub uninterp spec fn date_time_text(seconds: int, nanos: int) -> Seq<char>;

/// Calls `chrono::NaiveDateTime::from_timestamp` and formats what it returns
/// with `Debug`. The constructor panics unless the second lies in the years
/// chrono can represent and the nanoseconds are in range; `requires` admits
/// only such arguments. The text is a function of the two arguments alone and
/// is known here by name only.
#[allow(deprecated)]
#[verifier::external_body]
fn format_date_time(seconds: i64, nanos: u32) -> (s: String)
    requires
        has_date_time(seconds as int, nanos as int),
    ensures
        s@ == date_time_text(seconds as int, nanos as int),
{
    format!("{:?}", chrono::NaiveDateTime::from_timestamp(seconds, nanos))
}

impl Timestamp {
    /// Whether this point in time has a calendar date and time of day.
    pub open spec fn valid(self) -> bool {
        has_date_time(self.seconds as int, self.nanos as int)
    }

    /// The printed form of this point in time.
    pub open spec fn text(self) -> Seq<char> {
        date_time_text(self.seconds as int, self.nanos as int)
    }

    pub fn is_valid(&self) -> (b: bool)
        ensures
            b == self.valid(),
    {
        if self.seconds < MIN_SECONDS || self.seconds > MAX_SECONDS {
            return false;
        }
        if self.nanos < 0 || self.nanos >= 2_000_000_000 {
            return false;
        }
        if self.nanos >= 1_000_000_000 {
            let r: i64 = self.seconds % 60;
            r == 59 || r == -1
        } else {
            true
        }
    }

    /// The printed form of this point in time, or `None` if it has none.
    pub fn render(&self) -> (r: Option<String>)
        ensures
            r is Some <==> self.valid(),
            r matches Some(s) ==> s@ == self.text(),
    {
        if self.is_valid() {
            Some(format_date_time(self.seconds, self.nanos as u32))
        } else {
            None
        }
    }
}

} // verus!
