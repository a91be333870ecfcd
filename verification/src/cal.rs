//! Month-grid arithmetic for the agenda view, calendar reform included.
//!
//! The grid arithmetic follows the British calendar reform: up to a
//! configurable reform year the Julian leap rule applies, after it the
//! Gregorian one, and September of the reform year itself is missing its
//! eleven dropped days.  Day-of-week and week-number formulas switch
//! between the old-style and new-style variants around the reform.
//!
//! The functions here only compute: a month grid is a plain array of day
//! numbers and week numbers.  Laying the grids out on a terminal is the
//! caller's business.

use vstd::prelude::*;

use crate::text::lower_seq;
use crate::text::dec_len;
use crate::text::dec_len_of;
use crate::text::folded_is_prefix;
use crate::text::parse_int_sat;
use crate::text::sign_digits;

verus! {

/// Days in a week.
pub const DAYS_IN_WEEK: usize = 7;

/// Cells of a month grid: six week lines.
pub const MAXDAYS: usize = 42;

/// Months in a year.
pub const MONTHS_IN_YEAR: usize = 12;

/// The marker of an empty grid cell.
pub const SPACE: i32 = -1;

/// The month whose days the reform dropped.
pub const REFORMATION_MONTH: usize = 9;

/// How many days the reform dropped.
pub const NUMBER_MISSING_DAYS: i32 = 11;

/// The day of the reform year from which the drop is already behind.
pub const YDAY_AFTER_MISSING: i32 = 258;

/// The default reform year: the British switch.
pub const DEFAULT_REFORM_YEAR: i32 = 1752;

/// Options and request of one agenda rendering.
pub struct CalControl {
    pub reform_year: i32,
    pub num_months: usize,
    pub span_months: bool,
    pub months_in_row: usize,
    pub weekstart: usize,
    pub weektype: usize,
    pub day_width: usize,
    pub week_width: usize,
    pub gutter_width: usize,
    pub julian: bool,
    pub header_year: bool,
    pub header_hint: bool,
    pub vertical: bool,
    pub req: CalRequest,
}

/// The requested day, month and year, and the first month of a yearly
/// view.
pub struct CalRequest {
    pub day: i32,
    pub month: usize,
    pub year: i32,
    pub start_month: usize,
}

/// One month's grid: forty-two day cells and six week-number cells, empty
/// cells marked [`SPACE`].
pub struct CalMonth {
    pub days: Vec<i32>,
    pub weeks: Vec<i32>,
    pub month: usize,
    pub year: i32,
}

impl CalControl {
    /// The option combinations the grid arithmetic is defined for: the
    /// week starts on Sunday or Monday, and the week-number column is
    /// absent, Monday-based or Sunday-based.
    pub open spec fn wf(self) -> bool {
        &&& self.weekstart <= 1
        &&& (self.weektype == 0 || self.weektype == 0x100 || self.weektype == 0x200)
    }
}

/// Truncating division: the quotient rounded towards zero, as the
/// machine's signed division computes it.
pub open spec fn div_t(a: int, b: int) -> int {
    if a >= 0 {
        a / b
    } else {
        -((-a) / b)
    }
}

/// Truncating remainder: follows the sign of the dividend, as the
/// machine's signed remainder computes it.
pub open spec fn rem_t(a: int, b: int) -> int {
    if a >= 0 {
        a % b
    } else {
        -((-a) % b)
    }
}

/// Truncating division of a bounded number by a small positive one.
fn div_t_exec(a: i64, b: i64) -> (r: i64)
    requires
        0 < b <= 1000,
        -1000000000 <= a <= 1000000000,
    ensures
        r == div_t(a as int, b as int),
{
    if a >= 0 {
        ((a as u64) / (b as u64)) as i64
    } else {
        -((((-a) as u64) / (b as u64)) as i64)
    }
}

/// Truncating remainder of a bounded number by a small positive one.
fn rem_t_exec(a: i64, b: i64) -> (r: i64)
    requires
        0 < b <= 1000,
        -1000000000 <= a <= 1000000000,
    ensures
        r == rem_t(a as int, b as int),
        -b < r < b,
{
    if a >= 0 {
        ((a as u64) % (b as u64)) as i64
    } else {
        -((((-a) as u64) % (b as u64)) as i64)
    }
}

/// Which leap rule a year falls under and whether it is leap: one for a
/// leap year, zero otherwise.  Up to the reform year the Julian rule
/// (every fourth year) applies, after it the Gregorian one.
pub open spec fn leap_idx(reform_year: int, year: int) -> int {
    if year <= reform_year {
        if year % 4 == 0 {
            1
        } else {
            0
        }
    } else {
        if (year % 4 == 0 && year % 100 != 0) || year % 400 == 0 {
            1
        } else {
            0
        }
    }
}

/// Whether a year is a leap year, as one or zero.
pub fn leap_year(ctl: &CalControl, year: i32) -> (r: usize)
    requires
        -100000 <= year <= 100000,
    ensures
        r == leap_idx(ctl.reform_year as int, year as int),
        r <= 1,
{
    let n: u32 = (year + 400000) as u32;
    proof {
        lemma_mod_shift_400000(year as int, n as int, 4);
        lemma_mod_shift_400000(year as int, n as int, 100);
        lemma_mod_shift_400000(year as int, n as int, 400);
    }
    if year <= ctl.reform_year {
        if n % 4 == 0 {
            1
        } else {
            0
        }
    } else {
        if (n % 4 == 0 && n % 100 != 0) || n % 400 == 0 {
            1
        } else {
            0
        }
    }
}

/// Shifting by a multiple of the divisor leaves the remainder alone.
proof fn lemma_mod_shift_400000(y: int, n: int, m: int)
    requires
        m == 4 || m == 100 || m == 400,
        n == y + 400000,
    ensures
        n % m == y % m,
{
    assert(n % m == y % m) by (nonlinear_arith)
        requires
            m == 4 || m == 100 || m == 400,
            n == y + 400000,
    ;
}

/// How many days a month has under a leap rule outcome (one or zero).
pub open spec fn month_days_tab(leap: int, m: int) -> int {
    if m == 2 {
        28 + leap
    } else if m == 4 || m == 6 || m == 9 || m == 11 {
        30
    } else {
        31
    }
}

/// Days of the year before a month's first day.
pub open spec fn days_before_month(leap: int, month: int) -> int
    decreases month,
{
    if month <= 1 {
        0
    } else {
        days_before_month(leap, month - 1) + month_days_tab(leap, month - 1)
    }
}

/// Days in the given month of the given year.
pub fn month_length(ctl: &CalControl, month: usize, year: i32) -> (r: usize)
    requires
        1 <= month <= 12,
        -100000 <= year <= 100000,
    ensures
        r == month_days_tab(leap_idx(ctl.reform_year as int, year as int), month as int),
        28 <= r <= 31,
{
    let leap = leap_year(ctl, year);
    if month == 2 {
        28 + leap
    } else if month == 4 || month == 6 || month == 9 || month == 11 {
        30
    } else {
        31
    }
}

/// The day's ordinal within its year: the day of the month plus the days
/// of the preceding months.
pub fn day_in_year(ctl: &CalControl, day: i32, month: usize, year: i32) -> (r: i32)
    requires
        1 <= month <= 12,
        -100000 <= year <= 100000,
        -1000000 <= day <= 1000000,
    ensures
        r == day + days_before_month(leap_idx(ctl.reform_year as int, year as int), month as int),
        day <= r <= day + 341,
{
    let leap = leap_year(ctl, year);
    let ghost gleap = leap_idx(ctl.reform_year as int, year as int);
    let mut d: i32 = day;
    let mut i: usize = 1;
    while i < month
        invariant
            1 <= i <= month <= 12,
            leap == gleap,
            0 <= gleap <= 1,
            d == day + days_before_month(gleap, i as int),
            -1000000 <= day <= 1000000,
            day <= d <= day + 31 * (i as int - 1),
        decreases month - i,
    {
        let ml: i32 = if i == 2 {
            28 + leap as i32
        } else if i == 4 || i == 6 || i == 9 || i == 11 {
            30
        } else {
            31
        };
        d = d + ml;
        i = i + 1;
    }
    d
}

/// The new-style month offsets of the day-of-week formula.
pub open spec fn reform_offset(m: int) -> int {
    if m == 0 {
        0
    } else if m == 1 {
        3
    } else if m == 2 {
        2
    } else if m == 3 {
        5
    } else if m == 4 {
        0
    } else if m == 5 {
        3
    } else if m == 6 {
        5
    } else if m == 7 {
        1
    } else if m == 8 {
        4
    } else if m == 9 {
        6
    } else if m == 10 {
        2
    } else {
        4
    }
}

/// The old-style month offsets of the day-of-week formula.
pub open spec fn old_offset(m: int) -> int {
    if m == 0 {
        5
    } else if m == 1 {
        1
    } else if m == 2 {
        0
    } else if m == 3 {
        3
    } else if m == 4 {
        5
    } else if m == 5 {
        1
    } else if m == 6 {
        3
    } else if m == 7 {
        6
    } else if m == 8 {
        2
    } else if m == 9 {
        4
    } else if m == 10 {
        0
    } else {
        2
    }
}

/// The day of the week (zero for Sunday) of a date, by the reform-aware
/// formula: the Gregorian variant after the reform point, the Julian one
/// before it, and minus one inside the dropped days.
pub open spec fn wday_spec(reform_year: int, day: int, month: int, year: int) -> int {
    let m = if 1 <= month <= 12 {
        month - 1
    } else {
        0
    };
    let y0 = if month < 3 {
        year - 1
    } else {
        year
    };
    let y = if year == reform_year + 1 {
        y0 - 14
    } else {
        y0
    };
    if reform_year < year || (year == reform_year && 9 < month) || (year == reform_year && month
        == 9 && 13 < day) {
        rem_t(y + div_t(y, 4) - div_t(y, 100) + div_t(y, 400) + reform_offset(m) + day, 7)
    } else if year < reform_year || (year == reform_year && month < 9) || (year == reform_year
        && month == 9 && day < 3) {
        rem_t(y + div_t(y, 4) + old_offset(m) + day, 7)
    } else {
        -1
    }
}

fn reform_offset_exec(m: usize) -> (r: i64)
    requires
        m < 12,
    ensures
        r == reform_offset(m as int),
{
    match m {
        0 => 0,
        1 => 3,
        2 => 2,
        3 => 5,
        4 => 0,
        5 => 3,
        6 => 5,
        7 => 1,
        8 => 4,
        9 => 6,
        10 => 2,
        _ => 4,
    }
}

fn old_offset_exec(m: usize) -> (r: i64)
    requires
        m < 12,
    ensures
        r == old_offset(m as int),
{
    match m {
        0 => 5,
        1 => 1,
        2 => 0,
        3 => 3,
        4 => 5,
        5 => 1,
        6 => 3,
        7 => 6,
        8 => 2,
        9 => 4,
        10 => 0,
        _ => 2,
    }
}

/// The day of the week of a date, zero for Sunday, or minus one for the
/// days the reform dropped.
#[verifier::rlimit(50)]
pub fn day_in_week(ctl: &CalControl, day: i32, month: usize, year: i32) -> (r: i32)
    requires
        month <= 12,
        -100000 <= year <= 100000,
        -1000000 <= day <= 1000000,
    ensures
        r == wday_spec(ctl.reform_year as int, day as int, month as int, year as int),
        -7 < r < 7,
{
    let reform: i64 = ctl.reform_year as i64;
    let m: usize = if month > 0 && month <= 12 {
        month - 1
    } else {
        0
    };
    let y0: i64 = if month < 3 {
        year as i64 - 1
    } else {
        year as i64
    };
    let y: i64 = if year as i64 == reform + 1 {
        y0 - 14
    } else {
        y0
    };
    let after = reform < year as i64 || (year as i64 == reform && 9 < month) || (year as i64
        == reform && month == 9 && 13 < day as i64);
    if after {
        let sum = y + div_t_exec(y, 4) - div_t_exec(y, 100) + div_t_exec(y, 400)
            + reform_offset_exec(m) + day as i64;
        rem_t_exec(sum, 7) as i32
    } else {
        let before = (year as i64) < reform || (year as i64 == reform && month < 9) || (year
            as i64 == reform && month == 9 && (day as i64) < 3);
        if before {
            let sum = y + div_t_exec(y, 4) + old_offset_exec(m) + day as i64;
            rem_t_exec(sum, 7) as i32
        } else {
            -1
        }
    }
}

/// The day ordinal and week-counting offset the week-number formula works
/// from: the ordinal of the day (a day number above thirty-one is taken as
/// an ordinal already), and the offset of the year's first day, shifted
/// for Monday-based weeks and for the reform year's dropped days.
pub open spec fn wn_parts(ctl: CalControl, day: int, month: int, year: int) -> (int, int) {
    let wday = wday_spec(ctl.reform_year as int, 1, 1, year);
    let fday0 = if ctl.weektype == 0x100 {
        wday + (if wday >= 5 {
            -2
        } else {
            5
        })
    } else {
        wday + 6
    };
    let m = if day > 31 {
        1
    } else {
        month
    };
    let yday = day + days_before_month(leap_idx(ctl.reform_year as int, year), m);
    let fday = if year == ctl.reform_year as int && yday >= YDAY_AFTER_MISSING as int {
        fday0 - NUMBER_MISSING_DAYS as int
    } else {
        fday0
    };
    (yday, fday)
}

/// The week number before any year-end adjustment: the day ordinal plus
/// the offset, in weeks.
pub open spec fn wn_flat(ctl: CalControl, day: int, month: int, year: int) -> int {
    let p = wn_parts(ctl, day, month, year);
    div_t(p.0 + p.1, 7)
}

/// Whether a date in the last days of a Monday-counted year belongs to the
/// following year's first week.
pub open spec fn wn_cond2(ctl: CalControl, day: int, month: int, year: int) -> bool {
    let yday = wn_parts(ctl, day, month, year).0;
    &&& ctl.weektype == 0x100
    &&& yday >= 363
    &&& 1 <= wday_spec(ctl.reform_year as int, day, month, year) <= 3
    &&& 1 <= wday_spec(ctl.reform_year as int, 31, 12, year) <= 3
}

/// One adjustment level of the week number: a date in the year's first
/// days may fall into the last week of the previous year, and one in its
/// last days into the first week of the next; chained adjustments resolve
/// to the plain quotient.
pub open spec fn wn_hop(ctl: CalControl, day: int, month: int, year: int) -> int {
    let p = wn_parts(ctl, day, month, year);
    if p.0 + p.1 < 7 {
        wn_flat(ctl, 31, 12, year - 1)
    } else if wn_cond2(ctl, day, month, year) {
        wn_flat(ctl, 1, 1, year + 1)
    } else {
        div_t(p.0 + p.1, 7)
    }
}

/// The week number of a date: the plain quotient, adjusted across year
/// ends — a date before the year's first week start counts in the old
/// year's last week, and a Monday-counted date at the very end of a year
/// whose last days reach into the next first week counts there.
pub open spec fn week_number_spec(ctl: CalControl, day: int, month: int, year: int) -> int {
    let p = wn_parts(ctl, day, month, year);
    if p.0 + p.1 < 7 {
        wn_hop(ctl, 31, 12, year - 1)
    } else if wn_cond2(ctl, day, month, year) {
        wn_hop(ctl, 1, 1, year + 1)
    } else {
        div_t(p.0 + p.1, 7)
    }
}

fn wn_parts_exec(ctl: &CalControl, day: i32, month: usize, year: i32) -> (r: (i32, i32))
    requires
        ctl.wf(),
        1 <= month <= 12,
        -99000 <= year <= 99000,
        -100000 <= day <= 100000,
    ensures
        (r.0 as int, r.1 as int) == wn_parts(*ctl, day as int, month as int, year as int),
        -100000 <= r.0 <= 100400,
        -20 <= r.1 <= 12,
{
    let wday = day_in_week(ctl, 1, 1, year);
    let fday0: i32 = if ctl.weektype == 0x100 {
        wday + (if wday >= 5 {
            -2
        } else {
            5
        })
    } else {
        wday + 6
    };
    let m: usize = if day > 31 {
        1
    } else {
        month
    };
    let yday = day_in_year(ctl, day, m, year);
    proof {
        lemma_days_before_month_bounds(leap_idx(ctl.reform_year as int, year as int), m as int);
    }
    let fday = if year == ctl.reform_year && yday >= YDAY_AFTER_MISSING {
        fday0 - NUMBER_MISSING_DAYS
    } else {
        fday0
    };
    (yday, fday)
}

/// The days before a month sum to less than a year.
proof fn lemma_days_before_month_bounds(leap: int, month: int)
    requires
        0 <= leap <= 1,
        1 <= month <= 12,
    ensures
        0 <= days_before_month(leap, month) <= 31 * (month - 1),
    decreases month,
{
    if month > 1 {
        lemma_days_before_month_bounds(leap, month - 1);
    }
}

fn week_number_flat(ctl: &CalControl, day: i32, month: usize, year: i32) -> (r: i32)
    requires
        ctl.wf(),
        1 <= month <= 12,
        -99000 <= year <= 99000,
        -100000 <= day <= 100000,
    ensures
        r as int == wn_flat(*ctl, day as int, month as int, year as int),
        -20000 <= r <= 20000,
{
    let p = wn_parts_exec(ctl, day, month, year);
    div_t_exec((p.0 + p.1) as i64, 7) as i32
}

fn week_number_hop(ctl: &CalControl, day: i32, month: usize, year: i32) -> (r: i32)
    requires
        ctl.wf(),
        1 <= month <= 12,
        -98000 <= year <= 98000,
        -100000 <= day <= 100000,
    ensures
        r as int == wn_hop(*ctl, day as int, month as int, year as int),
        -20000 <= r <= 20000,
{
    let p = wn_parts_exec(ctl, day, month, year);
    if p.0 + p.1 < 7 {
        week_number_flat(ctl, 31, 12, year - 1)
    } else {
        let dow = day_in_week(ctl, day, month, year);
        let dow31 = day_in_week(ctl, 31, 12, year);
        if ctl.weektype == 0x100 && p.0 >= 363 && 1 <= dow && dow <= 3 && 1 <= dow31 && dow31
            <= 3 {
            week_number_flat(ctl, 1, 1, year + 1)
        } else {
            div_t_exec((p.0 + p.1) as i64, 7) as i32
        }
    }
}

/// The grid cells a month's first day leaves empty: its day of the week,
/// counted from the configured week start.
pub open spec fn fill_lead(ctl: CalControl, month: int, year: int) -> int {
    let w = wday_spec(ctl.reform_year as int, 1, month, year);
    let f = if ctl.weekstart != 0 {
        if w - ctl.weekstart < 0 {
            7 - ctl.weekstart
        } else {
            w - ctl.weekstart
        }
    } else {
        w
    };
    if f > 0 {
        f
    } else {
        0
    }
}

/// The first day number of a month's grid: one, or the day's ordinal in
/// its year for the Julian-day display.
pub open spec fn fill_j0(ctl: CalControl, month: int, year: int) -> int {
    if ctl.julian {
        1 + days_before_month(leap_idx(ctl.reform_year as int, year), month)
    } else {
        1
    }
}

/// One past the last day number of a month's grid.
pub open spec fn fill_md(ctl: CalControl, month: int, year: int) -> int {
    fill_j0(ctl, month, year) + month_days_tab(leap_idx(ctl.reform_year as int, year), month) + (
    if ctl.weekstart != 0 {
        ctl.weekstart - 1
    } else {
        0
    })
}

/// Whether a grid shows the reform year's September, the month with the
/// dropped days.
pub open spec fn fill_reform(ctl: CalControl, month: int, year: int) -> bool {
    year == ctl.reform_year as int && month == 9
}

/// The day number at which the dropped days begin: the third of the
/// month, as a plain day or as a year ordinal.
pub open spec fn fill_jump(j0: int) -> int {
    if j0 <= 3 {
        3
    } else {
        247
    }
}

/// The day number checked against the month's end before the k-th
/// placement: consecutive from the first, with the dropped days skipped.
pub open spec fn fill_u(ctl: CalControl, month: int, year: int, k: int) -> int {
    let j0 = fill_j0(ctl, month, year);
    if fill_reform(ctl, month, year) && j0 + k > fill_jump(j0) {
        j0 + k + NUMBER_MISSING_DAYS as int
    } else {
        j0 + k
    }
}

/// The day number the k-th placement writes: the checked one, pushed past
/// the dropped days when it lands on their first.
pub open spec fn fill_v(ctl: CalControl, month: int, year: int, k: int) -> int {
    let u = fill_u(ctl, month, year, k);
    if fill_reform(ctl, month, year) && (u == 3 || u == 247) {
        u + NUMBER_MISSING_DAYS as int
    } else {
        u
    }
}

/// The checked day numbers grow with the placement index.
proof fn lemma_fill_u_mono(ctl: CalControl, month: int, year: int, k1: int, k2: int)
    requires
        0 <= k1 <= k2,
    ensures
        fill_u(ctl, month, year, k1) <= fill_u(ctl, month, year, k2),
{
}

/// What a month grid's day cell holds: empty before the month's first
/// weekday and after its last day, the day numbers in between.
pub open spec fn fill_cell(ctl: CalControl, month: int, year: int, i: int) -> int {
    let lead = fill_lead(ctl, month, year);
    if i < lead {
        -1
    } else {
        let k = i - lead;
        if fill_u(ctl, month, year, k) < fill_md(ctl, month, year) {
            fill_v(ctl, month, year, k)
        } else {
            -1
        }
    }
}

/// How many of the first n cells after the lead receive a day number.
pub open spec fn fill_placed(ctl: CalControl, month: int, year: int, n: int) -> int
    decreases n,
{
    if n <= 0 {
        0
    } else {
        fill_placed(ctl, month, year, n - 1) + (if fill_u(ctl, month, year, n - 1) < fill_md(
            ctl,
            month,
            year,
        ) {
            1int
        } else {
            0int
        })
    }
}

/// The week-number cells of a month grid, from the top line down: each
/// line with days gets the running week number, re-anchored on the year
/// switch; the all-empty trailing lines stay empty.
pub open spec fn fill_weeks(
    ctl: CalControl,
    days: Seq<i32>,
    month: int,
    year: int,
    i: int,
    weeknum: int,
    count: int,
) -> Seq<int>
    decreases 6 - i,
{
    if i >= 6 {
        Seq::empty()
    } else if count > 0 {
        let wn = if weeknum > 52 {
            week_number_spec(ctl, days[7 * i] as int, month, year)
        } else {
            weeknum
        };
        seq![wn] + fill_weeks(ctl, days, month, year, i + 1, wn + 1, count - 1)
    } else {
        seq![-1int] + fill_weeks(ctl, days, month, year, i + 1, weeknum, count)
    }
}

/// How many week lines of a month grid carry a week number.
pub open spec fn fill_week_count(ctl: CalControl, month: int, year: int) -> int {
    let lead = fill_lead(ctl, month, year);
    let placed = fill_placed(ctl, month, year, 42 - lead);
    6 - (42 - lead - placed) / 7
}

/// [`fill_weeks`] yields one cell per remaining week line.
proof fn lemma_fill_weeks_len(
    ctl: CalControl,
    days: Seq<i32>,
    month: int,
    year: int,
    i: int,
    weeknum: int,
    count: int,
)
    requires
        0 <= i <= 6,
    ensures
        fill_weeks(ctl, days, month, year, i, weeknum, count).len() == 6 - i,
    decreases 6 - i,
{
    if i < 6 {
        if count > 0 {
            let wn = if weeknum > 52 {
                week_number_spec(ctl, days[7 * i] as int, month, year)
            } else {
                weeknum
            };
            lemma_fill_weeks_len(ctl, days, month, year, i + 1, wn + 1, count - 1);
        } else {
            lemma_fill_weeks_len(ctl, days, month, year, i + 1, weeknum, count);
        }
    }
}

/// A day cell holds the empty marker or a day number below four hundred.
proof fn lemma_fill_cell_bounds(ctl: CalControl, month: int, year: int, i: int)
    requires
        ctl.wf(),
        1 <= month <= 12,
    ensures
        fill_cell(ctl, month, year, i) == -1 || 1 <= fill_cell(ctl, month, year, i) <= 400,
{
    lemma_days_before_month_bounds(leap_idx(ctl.reform_year as int, year), month);
}

/// In the reform month the grid's first day number never lies beyond the
/// dropped days.
proof fn lemma_fill_j0_reform(ctl: CalControl, month: int, year: int)
    requires
        1 <= month <= 12,
    ensures
        fill_j0(ctl, month, year) >= 1,
        fill_reform(ctl, month, year) ==> fill_j0(ctl, month, year) <= 247,
{
    reveal_with_fuel(days_before_month, 13);
    lemma_days_before_month_bounds(leap_idx(ctl.reform_year as int, year), month);
    if fill_reform(ctl, month, year) && ctl.julian {
        let leap = leap_idx(ctl.reform_year as int, year);
        assert(days_before_month(leap, 9) == 243 + leap);
    }
}

/// Fill a month's grid: the day cells, and the week-number cells when a
/// week-number column is configured.
#[verifier::rlimit(100)]
pub fn cal_fill_month(month: &mut CalMonth, ctl: &CalControl)
    requires
        ctl.wf(),
        1 <= old(month).month <= 12,
        1 <= old(month).year <= 9999,
    ensures
        final(month).month == old(month).month,
        final(month).year == old(month).year,
        final(month).days@.len() == 42,
        forall|i: int|
            0 <= i < 42 ==> final(month).days@[i] as int == fill_cell(
                *ctl,
                old(month).month as int,
                old(month).year as int,
                i,
            ),
        ctl.weektype == 0 ==> final(month).weeks == old(month).weeks,
        ctl.weektype != 0 ==> final(month).weeks@.len() == 6 && (forall|i: int|
            0 <= i < 6 ==> final(month).weeks@[i] as int == fill_weeks(
                *ctl,
                final(month).days@,
                old(month).month as int,
                old(month).year as int,
                0,
                week_number_spec(*ctl, 1, old(month).month as int, old(month).year as int),
                fill_week_count(*ctl, old(month).month as int, old(month).year as int),
            )[i]),
{
    let m: usize = month.month;
    let y: i32 = month.year;
    let ghost gm = m as int;
    let ghost gy = y as int;
    let ghost gleap = leap_idx(ctl.reform_year as int, gy);
    proof {
        lemma_days_before_month_bounds(gleap, gm);
    }

    let mut fwd: i32 = day_in_week(ctl, 1, m, y);
    let mut j: i32 = if ctl.julian {
        day_in_year(ctl, 1, m, y)
    } else {
        1
    };
    let mut month_days: i32 = j + month_length(ctl, m, y) as i32;

    if ctl.weekstart != 0 {
        fwd = fwd - ctl.weekstart as i32;
        if fwd < 0 {
            fwd = 7 - ctl.weekstart as i32;
        }
        month_days = month_days + ctl.weekstart as i32 - 1;
    }

    let ghost f0 = fwd as int;
    let ghost lead = fill_lead(*ctl, gm, gy);
    proof {
        lemma_fill_j0_reform(*ctl, gm, gy);
        assert(lead == if f0 > 0 {
            f0
        } else {
            0
        });
        assert(j as int == fill_j0(*ctl, gm, gy));
        assert(month_days as int == fill_md(*ctl, gm, gy));
        assert(-8 <= f0 <= 6);
    }

    let mut days: Vec<i32> = Vec::new();
    let mut weeklines: usize = 0;
    let mut i: usize = 0;
    let ghost mut p: int = 0;

    while i < 42
        invariant
            ctl.wf(),
            1 <= gm <= 12,
            1 <= gy <= 9999,
            m as int == gm,
            y as int == gy,
            i <= 42,
            days@.len() == i,
            -8 <= f0 <= 6,
            lead == fill_lead(*ctl, gm, gy),
            lead == (if f0 > 0 {
                f0
            } else {
                0
            }),
            month_days as int == fill_md(*ctl, gm, gy),
            2 <= month_days <= 380,
            fill_j0(*ctl, gm, gy) >= 1,
            fill_reform(*ctl, gm, gy) ==> fill_j0(*ctl, gm, gy) <= 247,
            fwd as int == f0 - (if i as int <= lead {
                i as int
            } else {
                lead
            }),
            0 <= p <= 42,
            j as int == fill_u(*ctl, gm, gy, p),
            1 <= j <= 400,
            p == fill_placed(*ctl, gm, gy, if i as int <= lead {
                0
            } else {
                i - lead
            }),
            (p == (if i as int <= lead {
                0
            } else {
                i - lead
            })) || fill_u(*ctl, gm, gy, p) >= fill_md(*ctl, gm, gy),
            weeklines as int == (if i as int <= lead {
                0
            } else {
                i - lead
            }) - p,
            forall|idx: int| 0 <= idx < i ==> days@[idx] as int == fill_cell(*ctl, gm, gy, idx),
        decreases 42 - i,
    {
        if fwd > 0 {
            fwd = fwd - 1;
            days.push(SPACE);
            proof {
                assert((i as int) < lead);
            }
        } else if j < month_days {
            proof {
                assert(i as int >= lead);
                assert(p == i - lead);
            }
            if y == ctl.reform_year && m == REFORMATION_MONTH && (j == 3 || j == 247) {
                j = j + NUMBER_MISSING_DAYS;
            }
            days.push(j);
            proof {
                assert(j as int == fill_v(*ctl, gm, gy, p));
                assert(fill_placed(*ctl, gm, gy, p + 1) == p + 1);
                assert(fill_md(*ctl, gm, gy) <= fill_j0(*ctl, gm, gy) + 31 + 1);
                p = p + 1;
            }
            j = j + 1;
            proof {
                assert(j as int == fill_u(*ctl, gm, gy, p));
            }
        } else {
            weeklines = weeklines + 1;
            days.push(SPACE);
            proof {
                assert(i as int >= lead);
                let k = i - lead;
                lemma_fill_u_mono(*ctl, gm, gy, p, k);
                assert(fill_u(*ctl, gm, gy, k) >= fill_md(*ctl, gm, gy));
                assert(fill_placed(*ctl, gm, gy, k + 1) == p);
                assert(days@[i as int] as int == fill_cell(*ctl, gm, gy, i as int));
            }
        }
        i = i + 1;
    }

    month.days = days;

    if ctl.weektype != 0 {
        let wn0: i32 = week_number(1, m, y, ctl);
        let count0: usize = 6 - weeklines / 7;
        proof {
            assert(weeklines as int == 42 - lead - fill_placed(*ctl, gm, gy, 42 - lead));
            assert(count0 as int == fill_week_count(*ctl, gm, gy));
            assert forall|idx: int| 0 <= idx < 42 implies month.days@[idx] == SPACE || (1
                <= month.days@[idx] <= 400) by {
                lemma_fill_cell_bounds(*ctl, gm, gy, idx);
            }
        }
        let weeks = week_cells(ctl, &month.days, m, y, count0, wn0);
        month.weeks = weeks;
    }
}

/// Fill the week-number column beside a month's day cells.
fn week_cells(ctl: &CalControl, days: &Vec<i32>, m: usize, y: i32, count0: usize, wn0: i32) -> (weeks:
    Vec<i32>)
    requires
        ctl.wf(),
        1 <= m <= 12,
        1 <= y <= 9999,
        days@.len() == 42,
        count0 <= 6,
        wn0 as int == week_number_spec(*ctl, 1, m as int, y as int),
        -20000 <= wn0 <= 20000,
        forall|idx: int| 0 <= idx < 42 ==> days@[idx] == SPACE || (1 <= #[trigger] days@[idx] <= 400),
    ensures
        weeks@.len() == 6,
        forall|i: int|
            0 <= i < 6 ==> weeks@[i] as int == fill_weeks(
                *ctl,
                days@,
                m as int,
                y as int,
                0,
                wn0 as int,
                count0 as int,
            )[i],
{
    let ghost gm = m as int;
    let ghost gy = y as int;
    let ghost full = fill_weeks(*ctl, days@, gm, gy, 0, wn0 as int, count0 as int);
    proof {
        lemma_fill_weeks_len(*ctl, days@, gm, gy, 0, wn0 as int, count0 as int);
    }
    let mut weeknum: i32 = wn0;
    let mut count: usize = count0;
    let mut weeks: Vec<i32> = Vec::new();
    let mut wi: usize = 0;
    while wi < 6
        invariant
            ctl.wf(),
            1 <= gm <= 12,
            1 <= gy <= 9999,
            m as int == gm,
            y as int == gy,
            wi <= 6,
            weeks@.len() == wi,
            days@.len() == 42,
            forall|idx: int|
                0 <= idx < 42 ==> days@[idx] == SPACE || (1 <= #[trigger] days@[idx] <= 400),
            full.len() == 6,
            -20006 <= weeknum <= 20006,
            count <= 6,
            full.skip(wi as int) == fill_weeks(
                *ctl,
                days@,
                gm,
                gy,
                wi as int,
                weeknum as int,
                count as int,
            ),
            forall|idx: int| 0 <= idx < wi ==> weeks@[idx] as int == full[idx],
        decreases 6 - wi,
    {
        if count > 0 {
            if weeknum > 52 {
                weeknum = week_number(days[wi * 7], m, y, ctl);
            }
            weeks.push(weeknum);
            proof {
                assert(full.skip(wi as int)[0] == weeknum as int);
                assert(full[wi as int] == weeknum as int);
                assert(full.skip(wi as int + 1) =~= full.skip(wi as int).skip(1));
            }
            weeknum = weeknum + 1;
            count = count - 1;
        } else {
            weeks.push(SPACE);
            proof {
                assert(full.skip(wi as int)[0] == -1int);
                assert(full[wi as int] == -1int);
                assert(full.skip(wi as int + 1) =~= full.skip(wi as int).skip(1));
            }
        }
        wi = wi + 1;
    }
    weeks
}

/// The week number of a date, adjusted across year ends.
pub fn week_number(day: i32, month: usize, year: i32, ctl: &CalControl) -> (r: i32)
    requires
        ctl.wf(),
        1 <= month <= 12,
        -97000 <= year <= 97000,
        -100000 <= day <= 100000,
    ensures
        r as int == week_number_spec(*ctl, day as int, month as int, year as int),
        -20000 <= r <= 20000,
{
    let p = wn_parts_exec(ctl, day, month, year);
    if p.0 + p.1 < 7 {
        week_number_hop(ctl, 31, 12, year - 1)
    } else {
        let dow = day_in_week(ctl, day, month, year);
        let dow31 = day_in_week(ctl, 31, 12, year);
        if ctl.weektype == 0x100 && p.0 >= 363 && 1 <= dow && dow <= 3 && 1 <= dow31 && dow31
            <= 3 {
            week_number_hop(ctl, 1, 1, year + 1)
        } else {
            div_t_exec((p.0 + p.1) as i64, 7) as i32
        }
    }
}

/// The lower-case month names, first month first.
pub open spec fn month_name(i: int) -> Seq<char> {
    if i == 1 {
        "january"@
    } else if i == 2 {
        "february"@
    } else if i == 3 {
        "march"@
    } else if i == 4 {
        "april"@
    } else if i == 5 {
        "may"@
    } else if i == 6 {
        "june"@
    } else if i == 7 {
        "july"@
    } else if i == 8 {
        "august"@
    } else if i == 9 {
        "september"@
    } else if i == 10 {
        "october"@
    } else if i == 11 {
        "november"@
    } else {
        "december"@
    }
}

/// The first month, from the given one on, whose name the folded text is
/// a prefix of; the first month when none matches.
pub open spec fn month_scan(s: Seq<char>, i: int) -> int
    decreases 13 - i,
{
    if i > 12 {
        1
    } else if lower_seq(s).is_prefix_of(month_name(i)) {
        i
    } else {
        month_scan(s, i + 1)
    }
}

/// Whether a text is an unsigned decimal number, as the standard integer
/// parser takes it: an optional plus sign, then digits.
pub open spec fn is_month_number(s: Seq<char>) -> bool {
    crate::text::is_int_str(s) && !(s.len() > 0 && s[0] == '-')
}

/// What [`parse_month`] yields: the number the text holds when that lies
/// between one and twelve, else the first month whose name the text,
/// folded to lower case, starts; the first month when nothing matches.
pub open spec fn parse_month_spec(s: Seq<char>) -> int {
    let v = crate::text::int_val_sat(s, 13);
    if is_month_number(s) && 1 <= v <= 12 {
        v
    } else {
        month_scan(s, 1)
    }
}

/// Read a month from its number or from a prefix of its name, the first
/// month standing in for anything unreadable.
pub fn parse_month(s: &str) -> (r: usize)
    ensures
        r == parse_month_spec(s@),
        1 <= r <= 12,
{
    proof {
        reveal_with_fuel(month_scan, 14);
    }
    if let Some(v) = parse_int_sat(s, 13) {
        proof {
            if s@.len() > 0 && s@[0] == '-' {
                crate::text::lemma_digits_val_nonneg(sign_digits(s@));
            }
        }
        if 1 <= v && v <= 12 {
            return v as usize;
        }
    }
    if folded_is_prefix(s, "january") {
        1
    } else if folded_is_prefix(s, "february") {
        2
    } else if folded_is_prefix(s, "march") {
        3
    } else if folded_is_prefix(s, "april") {
        4
    } else if folded_is_prefix(s, "may") {
        5
    } else if folded_is_prefix(s, "june") {
        6
    } else if folded_is_prefix(s, "july") {
        7
    } else if folded_is_prefix(s, "august") {
        8
    } else if folded_is_prefix(s, "september") {
        9
    } else if folded_is_prefix(s, "october") {
        10
    } else if folded_is_prefix(s, "november") {
        11
    } else if folded_is_prefix(s, "december") {
        12
    } else {
        1
    }
}

/// The characters a year takes in decimal, its sign included.
pub open spec fn year_len(year: int) -> int {
    if year < 0 {
        1 + dec_len_of((-year) as nat) as int
    } else {
        dec_len_of(year as nat) as int
    }
}

/// Mark the header layout hint when a month name with the year would not
/// fit the week line: the widest month name is nine characters.
pub fn headers_init(ctl: &mut CalControl)
    ensures
        *final(ctl) == (CalControl {
            header_hint: old(ctl).header_hint || (old(ctl).week_width as int) < 9 + year_len(
                old(ctl).req.year as int,
            ) + 1,
            ..*old(ctl)
        }),
{
    let year: i64 = ctl.req.year as i64;
    let ylen: usize = if year < 0 {
        1 + dec_len((-year) as u64)
    } else {
        dec_len(year as u64)
    };
    if ctl.week_width < 9 + ylen + 1 {
        ctl.header_hint = true;
    }
}

/// The agenda command's options: which months to show, how weeks are
/// counted and started, which calendar reform applies, and the date words
/// naming the requested day, month or year.
pub struct AgendaCommand {
    pub calendar_id: String,
    pub date: Vec<String>,
    pub one: bool,
    pub three: bool,
    pub months: Option<u32>,
    pub span: bool,
    pub sunday: bool,
    pub monday: bool,
    pub julian: bool,
    pub reform: Option<String>,
    pub iso: bool,
    pub year: bool,
    pub twelve: bool,
    pub week: bool,
    pub vertical: bool,
}

/// Errors of planning an agenda view.
#[derive(Clone, Copy, Debug, PartialEq, Eq, Structural)]
pub enum CalError {
    /// The requested day exceeds its month; the month's length is carried
    /// for the message.
    IllegalDay(usize),
    /// The requested year lies outside the supported range.
    IllegalYear,
}

impl CalError {
    /// The error message.
    pub fn message(&self) -> (r: String)
        ensures
            self matches CalError::IllegalDay(dm) ==> r@ == "illegal day value: use 1-"@
                + crate::text::dec_str_of(dm as nat),
            self is IllegalYear ==> r@ == "illegal year value: use positive integer"@,
    {
        match self {
            CalError::IllegalDay(dm) => {
                let mut m = "illegal day value: use 1-".to_owned();
                let n = crate::text::dec_string(*dm as u64);
                m.append(n.as_str());
                m
            }
            CalError::IllegalYear => "illegal year value: use positive integer".to_owned(),
        }
    }
}

/// The value of an integer text, saturated in magnitude, or a default for
/// anything unreadable.
pub open spec fn parsed_or(s: Seq<char>, bound: int, default: int) -> int {
    if crate::text::is_int_str(s) {
        crate::text::int_val_sat(s, bound)
    } else {
        default
    }
}

/// Whether a reform option word is present and holds the given text.
pub open spec fn reform_is(reform: Option<String>, word: Seq<char>) -> bool {
    reform matches Some(r) && r@ == word
}

/// The reform year the options pick: the Gregorian calendar throughout,
/// the British switch, or the Julian calendar throughout.
pub open spec fn reform_year_spec(cmd: AgendaCommand) -> int {
    if cmd.iso || reform_is(cmd.reform, "iso"@) || reform_is(cmd.reform, "gregorian"@) {
        i32::MIN as int
    } else if reform_is(cmd.reform, "1752"@) {
        1752
    } else if reform_is(cmd.reform, "julian"@) {
        i32::MAX as int
    } else {
        1752
    }
}

/// How many months the options ask for before the yearly adjustment.
pub open spec fn num_months_spec(cmd: AgendaCommand) -> int {
    match cmd.months {
        Some(n) => n as int,
        None => if cmd.three {
            3
        } else if cmd.one {
            1
        } else {
            0
        },
    }
}

/// The requested day ordinal, month, year and yearly flag the date words
/// resolve to: day, month and year words; month and year words; a year
/// word alone, which asks for the whole year; or nothing, which asks for
/// the current month.
pub open spec fn resolve_spec(
    cmd: AgendaCommand,
    now_year: int,
    now_month: int,
    now_ordinal: int,
) -> Result<(int, int, int, bool), CalError> {
    let reform_year = reform_year_spec(cmd);
    let num0 = num_months_spec(cmd);
    if cmd.date.len() == 3 {
        let d0 = parsed_or(cmd.date[0]@, 1000000, 1);
        let m0 = parse_month_spec(cmd.date[1]@);
        let y0 = parsed_or(cmd.date[2]@, 100000, now_year);
        if y0 < 1 || y0 > 9999 {
            Err(CalError::IllegalYear)
        } else {
            let dm = month_days_tab(leap_idx(reform_year, y0), m0);
            if d0 > dm {
                Err(CalError::IllegalDay(dm as usize))
            } else {
                Ok((d0 + days_before_month(leap_idx(reform_year, y0), m0), m0, y0, cmd.year))
            }
        }
    } else if cmd.date.len() == 2 {
        let m0 = parse_month_spec(cmd.date[0]@);
        let y0 = parsed_or(cmd.date[1]@, 100000, now_year);
        if y0 < 1 || y0 > 9999 {
            Err(CalError::IllegalYear)
        } else {
            Ok((0, m0, y0, cmd.year))
        }
    } else if cmd.date.len() == 1 {
        let y0 = parsed_or(cmd.date[0]@, 100000, now_year);
        if y0 < 1 || y0 > 9999 {
            Err(CalError::IllegalYear)
        } else {
            let d0: int = if y0 == now_year {
                now_ordinal
            } else {
                0
            };
            Ok((d0, now_month, y0, cmd.year || num0 == 0))
        }
    } else {
        Ok((now_ordinal, now_month, now_year, cmd.year))
    }
}

/// What [`plan`] yields, field by field, from the command's options and
/// the current date.
pub open spec fn plan_spec(
    cmd: AgendaCommand,
    now_year: int,
    now_month: int,
    now_ordinal: int,
) -> Result<(CalControl, bool), CalError> {
    let reform_year: int = reform_year_spec(cmd);
    let weekstart: int = if cmd.sunday {
        0
    } else if cmd.monday {
        1
    } else {
        0
    };
    let day_width: int = if cmd.julian {
        4
    } else {
        3
    };
    let num0: int = num_months_spec(cmd);
    let span0: bool = cmd.three || cmd.span;
    let weektype: int = if cmd.week {
        if weekstart == 1 {
            0x100
        } else {
            0x200
        }
    } else {
        0
    };
    let week_width: int = if cmd.week {
        day_width * 7 + 3 - 1
    } else {
        day_width * 7 - 1
    };
    let resolved: Result<(int, int, int, bool), CalError> = resolve_spec(
        cmd,
        now_year,
        now_month,
        now_ordinal,
    );
    match resolved {
        Err(e) => Err(e),
        Ok((req_day, req_month, req_year, yflag)) => {
            let gutter0: int = if yflag || cmd.twelve {
                3
            } else {
                2
            };
            let num1: int = if (yflag || cmd.twelve) && num0 == 0 {
                12
            } else {
                num0
            };
            let start_month: int = if yflag {
                1
            } else {
                0
            };
            let header_year: bool = yflag;
            let gutter: int = if cmd.vertical {
                1
            } else {
                gutter0
            };
            let months_in_row: int = if num1 > 1 {
                3
            } else {
                1
            };
            let num2: int = if num1 == 0 {
                1
            } else {
                num1
            };
            let header_hint: bool = week_width < 9 + year_len(req_year) + 1;
            Ok(
                (
                    CalControl {
                        reform_year: reform_year as i32,
                        num_months: num2 as usize,
                        span_months: span0,
                        months_in_row: months_in_row as usize,
                        weekstart: weekstart as usize,
                        weektype: weektype as usize,
                        day_width: day_width as usize,
                        week_width: week_width as usize,
                        gutter_width: gutter as usize,
                        julian: cmd.julian,
                        header_year,
                        header_hint,
                        vertical: cmd.vertical,
                        req: CalRequest {
                            day: req_day as i32,
                            month: req_month as usize,
                            year: req_year as i32,
                            start_month: start_month as usize,
                        },
                    },
                    yflag || cmd.twelve,
                ),
            )
        }
    }
}

/// Turn the command's options and the current date into the agenda's
/// control block, and say whether the yearly layout is wanted.
///
/// A requested year outside the supported range and a requested day
/// beyond its month fail; everything else resolves to a plan whose
/// request names a day within its year.
fn reform_year_exec(cmd: &AgendaCommand) -> (r: i32)
    ensures
        r as int == reform_year_spec(*cmd),
{
    let reform_iso = match &cmd.reform {
        Some(r) => crate::text::str_eq(r.as_str(), "iso") || crate::text::str_eq(
            r.as_str(),
            "gregorian",
        ),
        None => false,
    };
    if cmd.iso || reform_iso {
        return i32::MIN;
    }
    let is_1752 = match &cmd.reform {
        Some(r) => crate::text::str_eq(r.as_str(), "1752"),
        None => false,
    };
    if is_1752 {
        return 1752;
    }
    let is_julian = match &cmd.reform {
        Some(r) => crate::text::str_eq(r.as_str(), "julian"),
        None => false,
    };
    if is_julian {
        return i32::MAX;
    }
    DEFAULT_REFORM_YEAR
}

fn resolve_date(cmd: &AgendaCommand, num0: usize, now_year: i32, now_month: u32, now_ordinal: u32) -> (r:
    Result<(i32, usize, i32, bool), CalError>)
    requires
        1 <= now_year <= 9999,
        1 <= now_month <= 12,
        1 <= now_ordinal <= 366,
        num0 as int == num_months_spec(*cmd),
    ensures
        match resolve_spec(*cmd, now_year as int, now_month as int, now_ordinal as int) {
            Ok(t) => r matches Ok(e) && (e.0 as int, e.1 as int, e.2 as int, e.3) == t,
            Err(err) => r == Err::<(i32, usize, i32, bool), CalError>(err),
        },
        r matches Ok(e) ==> 1 <= e.1 <= 12 && 1 <= e.2 <= 9999 && -1000000 <= e.0 <= 1001000,
{
    let reform_year = reform_year_exec(cmd);
    let scratch = CalControl {
        reform_year,
        num_months: 0,
        span_months: false,
        months_in_row: 0,
        weekstart: 0,
        weektype: 0,
        day_width: 0,
        week_width: 0,
        gutter_width: 0,
        julian: false,
        header_year: false,
        header_hint: false,
        vertical: false,
        req: CalRequest { day: 0, month: 0, year: 0, start_month: 0 },
    };
    if cmd.date.len() == 3 {
        let d0: i32 = match parse_int_sat(cmd.date[0].as_str(), 1000000) {
            Some(v) => v,
            None => 1,
        };
        let m0 = parse_month(cmd.date[1].as_str());
        let y0: i32 = match parse_int_sat(cmd.date[2].as_str(), 100000) {
            Some(v) => v,
            None => now_year,
        };
        if y0 < 1 || y0 > 9999 {
            return Err(CalError::IllegalYear);
        }
        let dm = month_length(&scratch, m0, y0);
        if d0 > dm as i32 {
            return Err(CalError::IllegalDay(dm));
        }
        Ok((day_in_year(&scratch, d0, m0, y0), m0, y0, cmd.year))
    } else if cmd.date.len() == 2 {
        let m0 = parse_month(cmd.date[0].as_str());
        let y0: i32 = match parse_int_sat(cmd.date[1].as_str(), 100000) {
            Some(v) => v,
            None => now_year,
        };
        if y0 < 1 || y0 > 9999 {
            return Err(CalError::IllegalYear);
        }
        Ok((0, m0, y0, cmd.year))
    } else if cmd.date.len() == 1 {
        let y0: i32 = match parse_int_sat(cmd.date[0].as_str(), 100000) {
            Some(v) => v,
            None => now_year,
        };
        if y0 < 1 || y0 > 9999 {
            return Err(CalError::IllegalYear);
        }
        let d0: i32 = if y0 == now_year {
            now_ordinal as i32
        } else {
            0
        };
        Ok((d0, now_month as usize, y0, cmd.year || num0 == 0))
    } else {
        Ok((now_ordinal as i32, now_month as usize, now_year, cmd.year))
    }
}

/// Turn the command's options and the current date into the agenda's
/// control block, and say whether the yearly layout is wanted.
///
/// A requested year outside the supported range and a requested day
/// beyond its month fail; everything else resolves to a plan whose
/// request names a day within its year.
#[verifier::rlimit(100)]
pub fn plan(cmd: &AgendaCommand, now_year: i32, now_month: u32, now_ordinal: u32) -> (r: Result<
    (CalControl, bool),
    CalError,
>)
    requires
        1 <= now_year <= 9999,
        1 <= now_month <= 12,
        1 <= now_ordinal <= 366,
    ensures
        r == plan_spec(*cmd, now_year as int, now_month as int, now_ordinal as int),
        r matches Ok(p) ==> p.0.wf() && 1 <= p.0.req.month <= 12 && 1 <= p.0.req.year <= 9999,
{
    let reform_year = reform_year_exec(cmd);
    let weekstart: usize = if cmd.sunday {
        0
    } else if cmd.monday {
        1
    } else {
        0
    };
    let day_width: usize = if cmd.julian {
        4
    } else {
        3
    };
    let num0: usize = match cmd.months {
        Some(n) => n as usize,
        None => {
            if cmd.three {
                3
            } else if cmd.one {
                1
            } else {
                0
            }
        }
    };
    let span0: bool = cmd.three || cmd.span;
    let weektype: usize = if cmd.week {
        if weekstart == 1 {
            0x100
        } else {
            0x200
        }
    } else {
        0
    };
    let week_width: usize = if cmd.week {
        day_width * 7 + 3 - 1
    } else {
        day_width * 7 - 1
    };

    let (req_day, req_month, req_year, yflag) = match resolve_date(
        cmd,
        num0,
        now_year,
        now_month,
        now_ordinal,
    ) {
        Ok(t) => t,
        Err(e) => {
            return Err(e);
        }
    };

    let gutter0: usize = if yflag || cmd.twelve {
        3
    } else {
        2
    };
    let num1: usize = if (yflag || cmd.twelve) && num0 == 0 {
        MONTHS_IN_YEAR
    } else {
        num0
    };
    let start_month: usize = if yflag {
        1
    } else {
        0
    };
    let header_year: bool = yflag;
    let gutter: usize = if cmd.vertical {
        1
    } else {
        gutter0
    };
    let months_in_row: usize = if num1 > 1 {
        3
    } else {
        1
    };
    let num2: usize = if num1 == 0 {
        1
    } else {
        num1
    };

    let mut ctl = CalControl {
        reform_year,
        num_months: num2,
        span_months: span0,
        months_in_row,
        weekstart,
        weektype,
        day_width,
        week_width,
        gutter_width: gutter,
        julian: cmd.julian,
        header_year,
        header_hint: false,
        vertical: cmd.vertical,
        req: CalRequest { day: req_day, month: req_month, year: req_year, start_month },
    };
    headers_init(&mut ctl);
    Ok((ctl, yflag || cmd.twelve))
}

/// The month a multi-month view spanning the requested one starts at,
/// with its year: half the view lies before the requested month, rolling
/// into earlier years as needed.  A span reaching back a multiple of
/// twelve months lands on month zero, which has no days.
pub open spec fn span_start_spec(month: int, year: int, num_months: int) -> (int, int) {
    let new_month = month - num_months / 2;
    if new_month < 1 {
        let nm = -new_month;
        let y = year - (nm / 12 + 1);
        let m = if nm > 12 {
            12 - nm % 12
        } else {
            12 - nm
        };
        (m, y)
    } else {
        (new_month, year)
    }
}

/// Where a spanning view starts.
pub fn span_start(month: usize, year: i32, num_months: usize) -> (r: (usize, i32))
    requires
        1 <= month <= 12,
        1 <= year <= 9999,
        num_months <= 1000000,
    ensures
        (r.0 as int, r.1 as int) == span_start_spec(month as int, year as int, num_months as int),
        r.0 <= 12,
        -100000 <= r.1 <= 9999,
{
    let half: usize = num_months / 2;
    if month > half {
        (month - half, year)
    } else {
        let nm: usize = half - month;
        let y: i32 = year - (nm / 12 + 1) as i32;
        let m: usize = if nm > 12 {
            12 - nm % 12
        } else {
            12 - nm
        };
        (m, y)
    }
}

/// The month after a given one, rolling into the next year.
pub fn next_month(month: usize, year: i32) -> (r: (usize, i32))
    requires
        1 <= month <= 12,
        -100000 <= year <= 100000,
    ensures
        month < 12 ==> r == ((month + 1) as usize, year),
        month == 12 ==> r == (1usize, (year + 1) as i32),
{
    if month == 12 {
        (1, year + 1)
    } else {
        (month + 1, year)
    }
}

} // verus!
