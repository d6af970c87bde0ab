//! Creation times: what the notification facility reports, the normalized
//! value (one-second resolution, offset kept), and its display text.

use vstd::prelude::*;
use vstd::string::StringExecFns;
use crate::text::{four_digits, push_four_digits, push_two_digits, two_digits};

verus! {

/// A creation time as the notification facility reports it: the local date
/// and time of day at the source, the fraction of the second in nanoseconds
/// (a leap second shows as `second == 59` with `nanosecond >= 1_000_000_000`),
/// and the source's offset from UTC in minutes, east positive.
#[derive(Clone, Copy, Debug, PartialEq, Eq)]
pub struct RawTimestamp {
    pub year: i32,
    pub month: u32,
    pub day: u32,
    pub hour: u32,
    pub minute: u32,
    pub second: u32,
    pub nanosecond: u32,
    pub offset_minutes: i32,
}

/// A normalized creation time: local date and time at the source, to the
/// second, with the source's offset from UTC in minutes, east positive.
#[derive(Clone, Copy, Debug, PartialEq, Eq)]
pub struct Timestamp {
    pub year: u32,
    pub month: u32,
    pub day: u32,
    pub hour: u32,
    pub minute: u32,
    pub second: u32,
    pub offset_minutes: i32,
}

pub open spec fn is_leap_year(y: int) -> bool {
    y % 4 == 0 && (y % 100 != 0 || y % 400 == 0)
}

/// Days in month `m` (1 to 12) of year `y`, proleptic Gregorian calendar.
pub open spec fn days_in_month(y: int, m: int) -> int {
    if m == 2 {
        if is_leap_year(y) {
            29
        } else {
            28
        }
    } else if m == 4 || m == 6 || m == 9 || m == 11 {
        30
    } else {
        31
    }
}

/// A calendar date with a four-digit year, a time of day, and an offset of
/// less than a day.
pub open spec fn valid_fields(
    year: int,
    month: int,
    day: int,
    hour: int,
    minute: int,
    second: int,
    offset_minutes: int,
) -> bool {
    &&& 0 <= year <= 9999
    &&& 1 <= month <= 12
    &&& 1 <= day <= days_in_month(year, month)
    &&& 0 <= hour < 24
    &&& 0 <= minute < 60
    &&& 0 <= second < 60
    &&& -1440 < offset_minutes < 1440
}

impl RawTimestamp {
    /// The reported time names a real instant that a `Timestamp` can hold.
    pub open spec fn is_valid(&self) -> bool {
        &&& valid_fields(
            self.year as int,
            self.month as int,
            self.day as int,
            self.hour as int,
            self.minute as int,
            self.second as int,
            self.offset_minutes as int,
        )
        &&& self.nanosecond < 2_000_000_000
    }
}

impl Timestamp {
    pub open spec fn wf(&self) -> bool {
        valid_fields(
            self.year as int,
            self.month as int,
            self.day as int,
            self.hour as int,
            self.minute as int,
            self.second as int,
            self.offset_minutes as int,
        )
    }

    /// The reported time truncated to the second, offset unchanged.
    pub open spec fn truncates(&self, raw: RawTimestamp) -> bool {
        &&& self.year as int == raw.year as int
        &&& self.month == raw.month
        &&& self.day == raw.day
        &&& self.hour == raw.hour
        &&& self.minute == raw.minute
        &&& self.second == raw.second
        &&& self.offset_minutes == raw.offset_minutes
    }

    /// The display text: `YYYY-MM-DD hh:mm:ss +hhmm`, the offset signed and
    /// written in hours and minutes.
    pub open spec fn text(&self) -> Seq<char> {
        let o = self.offset_minutes as int;
        let sign = if o < 0 {
            '-'
        } else {
            '+'
        };
        let a = if o < 0 {
            -o
        } else {
            o
        };
        four_digits(self.year as nat) + seq!['-'] + two_digits(self.month as nat) + seq!['-']
            + two_digits(self.day as nat) + seq![' '] + two_digits(self.hour as nat) + seq![':']
            + two_digits(self.minute as nat) + seq![':'] + two_digits(self.second as nat)
            + seq![' ', sign] + two_digits((a / 60) as nat) + two_digits((a % 60) as nat)
    }

    /// Normalizes a reported time: `None` when it is not valid, else the
    /// time truncated to the second with the offset kept.
    pub fn from_raw(raw: &RawTimestamp) -> (r: Option<Timestamp>)
        ensures
            r is Some <==> raw.is_valid(),
            r matches Some(t) ==> t.wf() && t.truncates(*raw),
    {
        let ok = 0 <= raw.year && raw.year <= 9999 && 1 <= raw.month && raw.month <= 12
            && 1 <= raw.day && raw.day <= month_length(raw.year as u32, raw.month) && raw.hour
            < 24 && raw.minute < 60 && raw.second < 60 && -1440 < raw.offset_minutes
            && raw.offset_minutes < 1440 && raw.nanosecond < 2_000_000_000;
        if ok {
            Some(
                Timestamp {
                    year: raw.year as u32,
                    month: raw.month,
                    day: raw.day,
                    hour: raw.hour,
                    minute: raw.minute,
                    second: raw.second,
                    offset_minutes: raw.offset_minutes,
                },
            )
        } else {
            None
        }
    }

    /// The display text of this time.
    pub fn format(&self) -> (r: String)
        requires
            self.wf(),
        ensures
            r@ == self.text(),
    {
        proof {
            reveal_strlit("-");
            reveal_strlit(" ");
            reveal_strlit(":");
            reveal_strlit(" +");
            reveal_strlit(" -");
        }
        let mut out = String::new();
        push_four_digits(&mut out, self.year);
        out.append("-");
        push_two_digits(&mut out, self.month);
        out.append("-");
        push_two_digits(&mut out, self.day);
        out.append(" ");
        push_two_digits(&mut out, self.hour);
        out.append(":");
        push_two_digits(&mut out, self.minute);
        out.append(":");
        push_two_digits(&mut out, self.second);
        let a: u32;
        if self.offset_minutes < 0 {
            out.append(" -");
            a = (-self.offset_minutes) as u32;
        } else {
            out.append(" +");
            a = self.offset_minutes as u32;
        }
        push_two_digits(&mut out, a / 60);
        push_two_digits(&mut out, a % 60);
        assert(out@ =~= self.text());
        out
    }
}

/// Days in month `m` of year `y`.
fn month_length(y: u32, m: u32) -> (r: u32)
    requires
        1 <= m <= 12,
    ensures
        r as int == days_in_month(y as int, m as int),
{
    if m == 2 {
        if y % 4 == 0 && (y % 100 != 0 || y % 400 == 0) {
            29
        } else {
            28
        }
    } else if m == 4 || m == 6 || m == 9 || m == 11 {
        30
    } else {
        31
    }
}

} // verus!
