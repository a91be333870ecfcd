//! Server-evaluated time ranges for event listing.
//!
//! The range filter of the remote protocol takes basic-format date-time
//! stamps (`YYYYMMDDTHHMMSSZ`).  A range is built from optional inclusive
//! calendar dates: the lower bound becomes midnight of its day, and the
//! upper bound — inclusive on the command line — becomes midnight of the
//! following day, the protocol's exclusive end.

use vstd::prelude::*;

use crate::text::four_digit_str;
use crate::text::four_digit_string;
use crate::text::is_digit_char;
use crate::text::two_digit_str;
use crate::text::two_digit_string;

verus! {

/// The smallest year a [`Date`] can hold.
pub open spec fn min_year() -> int {
    -262143
}

/// The largest year a [`Date`] can hold.
pub open spec fn max_year() -> int {
    262142
}

/// Whether a year is a leap year of the proleptic Gregorian calendar.
pub open spec fn is_leap_year(year: int) -> bool {
    (year % 4 == 0 && year % 100 != 0) || year % 400 == 0
}

/// How many days a month of a year has.
pub open spec fn days_in_month(year: int, month: int) -> int {
    if month == 2 {
        if is_leap_year(year) {
            29
        } else {
            28
        }
    } else if month == 4 || month == 6 || month == 9 || month == 11 {
        30
    } else {
        31
    }
}

/// A calendar date of the proleptic Gregorian calendar.
#[derive(Clone, Copy, Debug, PartialEq, Eq, Structural)]
pub struct Date {
    pub year: i32,
    pub month: u8,
    pub day: u8,
}

impl Date {
    /// A valid date: the year within the representable range, the month
    /// and the day within their calendar bounds.
    pub open spec fn wf(self) -> bool {
        &&& min_year() <= self.year <= max_year()
        &&& 1 <= self.month <= 12
        &&& 1 <= self.day <= days_in_month(self.year as int, self.month as int)
    }

    /// Make a date from its year, month and day, or nothing when they do
    /// not name a calendar date.
    pub fn from_ymd_opt(year: i32, month: u32, day: u32) -> (r: Option<Date>)
        ensures
            match r {
                Some(d) => d.wf() && d.year == year && d.month == month && d.day == day,
                None => !(min_year() <= year <= max_year() && 1 <= month <= 12 && 1 <= day
                    <= days_in_month(year as int, month as int)),
            },
    {
        if year < -262143 || year > 262142 || month < 1 || month > 12 || day < 1 {
            return None;
        }
        let d = Date { year, month: month as u8, day: day as u8 };
        if day <= days_in_month_exec(year, month as u8) as u32 {
            Some(d)
        } else {
            None
        }
    }

    /// The date of the following day, or nothing when it would fall
    /// outside the representable years.
    pub fn next_day(&self) -> (r: Option<Date>)
        requires
            self.wf(),
        ensures
            r == next_day_spec(*self),
            r matches Some(d) ==> d.wf(),
    {
        if self.day < days_in_month_exec(self.year, self.month) {
            Some(Date { year: self.year, month: self.month, day: self.day + 1 })
        } else if self.month < 12 {
            Some(Date { year: self.year, month: self.month + 1, day: 1 })
        } else if self.year < 262142 {
            Some(Date { year: self.year + 1, month: 1, day: 1 })
        } else {
            None
        }
    }
}

/// The date of the following day: the next day of the month, the first day
/// of the next month, or the first day of the next year; nothing past the
/// last representable day.
pub open spec fn next_day_spec(d: Date) -> Option<Date> {
    if d.day < days_in_month(d.year as int, d.month as int) {
        Some(Date { year: d.year, month: d.month, day: (d.day + 1) as u8 })
    } else if d.month < 12 {
        Some(Date { year: d.year, month: (d.month + 1) as u8, day: 1 })
    } else if d.year < max_year() {
        Some(Date { year: (d.year + 1) as i32, month: 1, day: 1 })
    } else {
        None
    }
}

/// Whether a year is a leap year.
pub fn is_leap_year_exec(year: i32) -> (r: bool)
    requires
        min_year() <= year <= max_year(),
    ensures
        r == is_leap_year(year as int),
{
    let n: u32 = (year + 400000) as u32;
    proof {
        lemma_shift_mod(year as int, n as int, 4);
        lemma_shift_mod(year as int, n as int, 100);
        lemma_shift_mod(year as int, n as int, 400);
    }
    (n % 4 == 0 && n % 100 != 0) || n % 400 == 0
}

/// Shifting by a multiple of the divisor leaves the remainder alone.
proof fn lemma_shift_mod(y: int, n: int, m: int)
    requires
        m == 4 || m == 100 || m == 400,
        n == y + 400000,
    ensures
        n % m == y % m,
{
    assert(n % m == y % m) by (nonlinear_arith)
        requires
            m == 4 || m == 100 || m == 400,
            n == y + 400000,
    ;
}

/// How many days a month has.
pub fn days_in_month_exec(year: i32, month: u8) -> (r: u8)
    requires
        min_year() <= year <= max_year(),
        1 <= month <= 12,
    ensures
        r == days_in_month(year as int, month as int),
{
    if month == 2 {
        if is_leap_year_exec(year) {
            29
        } else {
            28
        }
    } else if month == 4 || month == 6 || month == 9 || month == 11 {
        30
    } else {
        31
    }
}

/// A date whose stamp fits the protocol's fixed eight-digit date field:
/// the years of four decimal digits.
pub open spec fn stampable(d: Date) -> bool {
    0 <= d.year <= 9999
}

/// The midnight stamp of a date: `YYYYMMDDT000000Z`.
pub open spec fn stamp_of(d: Date) -> Seq<char> {
    four_digit_str(d.year as nat) + two_digit_str(d.month as nat) + two_digit_str(d.day as nat)
        + "T000000Z"@
}

/// A basic-format date-time stamp: eight digits, `T`, six digits, `Z`.
pub open spec fn is_stamp(s: Seq<char>) -> bool {
    &&& s.len() == 16
    &&& forall|i: int| 0 <= i < 8 ==> is_digit_char(#[trigger] s[i])
    &&& s[8] == 'T'
    &&& forall|i: int| 9 <= i < 15 ==> is_digit_char(#[trigger] s[i])
    &&& s[15] == 'Z'
}

/// Render the midnight stamp of a date.
pub fn date_stamp(d: &Date) -> (r: String)
    requires
        d.wf(),
        stampable(*d),
    ensures
        r@ == stamp_of(*d),
        is_stamp(r@),
{
    let mut s = four_digit_string(d.year as u16);
    let month = two_digit_string(d.month);
    let day = two_digit_string(d.day);
    s.append(month.as_str());
    s.append(day.as_str());
    s.append("T000000Z");
    proof {
        reveal_strlit("T000000Z");
        assert(s@ =~= stamp_of(*d));
        assert forall|i: int| 0 <= i < 8 implies is_digit_char(#[trigger] s@[i]) by {}
        assert forall|i: int| 9 <= i < 15 implies is_digit_char(#[trigger] s@[i]) by {}
    }
    s
}

/// A time range for the server-evaluated event filter: an optional start
/// stamp and an optional exclusive end stamp, at least one present, each
/// in the basic date-time form.
pub struct TimeRange {
    start: Option<String>,
    end: Option<String>,
}

impl TimeRange {
    /// The bounds a [`TimeRange`] holds.
    pub closed spec fn view(self) -> (Option<Seq<char>>, Option<Seq<char>>) {
        (
            match self.start {
                Some(s) => Some(s@),
                None => None,
            },
            match self.end {
                Some(s) => Some(s@),
                None => None,
            },
        )
    }

    /// Make a range from optional stamp texts.  Both bounds absent, or a
    /// bound that is not a well-formed stamp, make no range.
    pub fn new(start: Option<&str>, end: Option<&str>) -> (r: Option<TimeRange>)
        ensures
            match r {
                Some(tr) => {
                    &&& tr.view().0 == start.deep_view()
                    &&& tr.view().1 == end.deep_view()
                    &&& (start is Some || end is Some)
                    &&& (start matches Some(s) ==> is_stamp(s@))
                    &&& (end matches Some(e) ==> is_stamp(e@))
                },
                None => !(start is Some || end is Some) || (start matches Some(s) && !is_stamp(s@))
                    || (end matches Some(e) && !is_stamp(e@)),
            },
    {
        if start.is_none() && end.is_none() {
            return None;
        }
        let start_owned: Option<String> = match start {
            Some(s) => {
                if !check_stamp(s) {
                    return None;
                }
                Some(s.to_owned())
            }
            None => None,
        };
        let end_owned: Option<String> = match end {
            Some(e) => {
                if !check_stamp(e) {
                    return None;
                }
                Some(e.to_owned())
            }
            None => None,
        };
        Some(TimeRange { start: start_owned, end: end_owned })
    }

    /// The start stamp.
    pub fn start(&self) -> (r: Option<&str>)
        ensures
            r.deep_view() == self.view().0,
    {
        match &self.start {
            Some(s) => Some(s.as_str()),
            None => None,
        }
    }

    /// The exclusive end stamp.
    pub fn end(&self) -> (r: Option<&str>)
        ensures
            r.deep_view() == self.view().1,
    {
        match &self.end {
            Some(s) => Some(s.as_str()),
            None => None,
        }
    }
}

/// Errors of building a time range from dates.
#[derive(Clone, Copy, Debug, PartialEq, Eq, Structural)]
pub enum TimeRangeError {
    /// The day after the upper bound is not representable.
    ToDateOutOfRange,
    /// A bound's year does not fit the stamp's four-digit year field.
    InvalidFormat,
}

impl TimeRangeError {
    /// The error message.
    pub fn message(&self) -> (r: &'static str)
        ensures
            self is ToDateOutOfRange ==> r@ == "--to date is out of range"@,
            self is InvalidFormat ==> r@ == "invalid date format for --from/--to"@,
    {
        match self {
            TimeRangeError::ToDateOutOfRange => "--to date is out of range",
            TimeRangeError::InvalidFormat => "invalid date format for --from/--to",
        }
    }
}

/// What [`build_time_range`] yields, over the stamps a returned range
/// holds: no range when no bound is given; the out-of-range error when the
/// inclusive upper bound has no following day; the format error when a
/// bound's year does not fit four digits; otherwise the start stamp of the
/// lower bound and the end stamp of the day after the upper bound.
pub open spec fn build_time_range_spec(from: Option<Date>, to: Option<Date>) -> Result<
    Option<(Option<Seq<char>>, Option<Seq<char>>)>,
    TimeRangeError,
> {
    if from is None && to is None {
        Ok(None)
    } else {
        let end = match to {
            Some(d) => next_day_spec(d),
            None => None,
        };
        if to is Some && end is None {
            Err(TimeRangeError::ToDateOutOfRange)
        } else if (from matches Some(f) && !stampable(f)) || (end matches Some(e) && !stampable(
            e,
        )) {
            Err(TimeRangeError::InvalidFormat)
        } else {
            Ok(
                Some(
                    (
                        match from {
                            Some(f) => Some(stamp_of(f)),
                            None => None,
                        },
                        match end {
                            Some(e) => Some(stamp_of(e)),
                            None => None,
                        },
                    ),
                ),
            )
        }
    }
}

/// Build a time range from optional inclusive dates.
///
/// With no bound given there is no range to build.  The upper bound is
/// inclusive: it is shifted forward by one day to produce the exclusive end
/// bound the protocol's filter takes.
pub fn build_time_range(from: Option<Date>, to: Option<Date>) -> (r: Result<
    Option<TimeRange>,
    TimeRangeError,
>)
    requires
        from matches Some(d) ==> d.wf(),
        to matches Some(d) ==> d.wf(),
    ensures
        match r {
            Ok(None) => build_time_range_spec(from, to) == Result::<
                Option<(Option<Seq<char>>, Option<Seq<char>>)>,
                TimeRangeError,
            >::Ok(None),
            Ok(Some(tr)) => build_time_range_spec(from, to) == Result::<
                Option<(Option<Seq<char>>, Option<Seq<char>>)>,
                TimeRangeError,
            >::Ok(Some(tr.view())),
            Err(e) => build_time_range_spec(from, to) == Result::<
                Option<(Option<Seq<char>>, Option<Seq<char>>)>,
                TimeRangeError,
            >::Err(e),
        },
{
    if from.is_none() && to.is_none() {
        return Ok(None);
    }
    let end: Option<Date> = match &to {
        Some(d) => match d.next_day() {
            Some(n) => Some(n),
            None => {
                return Err(TimeRangeError::ToDateOutOfRange);
            }
        },
        None => None,
    };
    let start_stamp: Option<String> = match &from {
        Some(f) => {
            if f.year < 0 || f.year > 9999 {
                return Err(TimeRangeError::InvalidFormat);
            }
            Some(date_stamp(f))
        }
        None => None,
    };
    let end_stamp: Option<String> = match &end {
        Some(e) => {
            if e.year < 0 || e.year > 9999 {
                return Err(TimeRangeError::InvalidFormat);
            }
            Some(date_stamp(e))
        }
        None => None,
    };
    let tr = TimeRange { start: start_stamp, end: end_stamp };
    Ok(Some(tr))
}

/// Whether a text is a well-formed stamp.
fn check_stamp(s: &str) -> (r: bool)
    ensures
        r == is_stamp(s@),
{
    let n = s.unicode_len();
    if n != 16 {
        return false;
    }
    let mut i: usize = 0;
    while i < 8
        invariant
            i <= 8,
            s@.len() == 16,
            forall|j: int| 0 <= j < i ==> is_digit_char(#[trigger] s@[j]),
        decreases 8 - i,
    {
        let c = s.get_char(i);
        if !('0' <= c && c <= '9') {
            return false;
        }
        i = i + 1;
    }
    if s.get_char(8) != 'T' {
        return false;
    }
    let mut i: usize = 9;
    while i < 15
        invariant
            9 <= i <= 15,
            s@.len() == 16,
            forall|j: int| 9 <= j < i ==> is_digit_char(#[trigger] s@[j]),
        decreases 15 - i,
    {
        let c = s.get_char(i);
        if !('0' <= c && c <= '9') {
            return false;
        }
        i = i + 1;
    }
    if s.get_char(15) != 'Z' {
        return false;
    }
    true
}

} // verus!
