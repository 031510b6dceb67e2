//! Calendar timestamps with minute precision, used by the date-range
//! editor.  A `CalTime` is a plain Gregorian calendar value; ordering
//! is lexicographic on (year, month, day, hour, minute).  All
//! adjustments keep the value inside the supported year range by
//! leaving the value unchanged when a step would leave it, and clamp
//! the day of month when a month or year step lands on a shorter
//! month.

use vstd::prelude::*;

verus! {

/// Earliest supported year.
pub const MIN_YEAR: u16 = 1;

/// Latest supported year.
pub const MAX_YEAR: u16 = 9999;

/// A calendar timestamp with minute precision.
#[derive(Clone, Copy, Debug, PartialEq, Eq, Structural)]
pub struct CalTime {
    pub year: u16,
    pub month: u8,
    pub day: u8,
    pub hour: u8,
    pub minute: u8,
}

/// Gregorian leap year rule.
pub open spec fn is_leap_year(y: int) -> bool {
    (y % 4 == 0 && y % 100 != 0) || y % 400 == 0
}

/// Number of days in a month of a given year.
pub open spec fn days_in_month_spec(y: int, m: int) -> int {
    if m == 2 {
        if is_leap_year(y) {
            29
        } else {
            28
        }
    } else if m == 4 || m == 6 || m == 9 || m == 11 {
        30
    } else {
        31
    }
}

/// A well-formed calendar timestamp.
pub open spec fn valid_cal(t: CalTime) -> bool {
    &&& MIN_YEAR <= t.year <= MAX_YEAR
    &&& 1 <= t.month <= 12
    &&& 1 <= t.day <= days_in_month_spec(t.year as int, t.month as int)
    &&& t.hour <= 23
    &&& t.minute <= 59
}

/// Injective (on valid values) encoding of a timestamp as an integer
/// that preserves lexicographic field order.
pub open spec fn cal_index(t: CalTime) -> int {
    ((((t.year * 13 + t.month) * 32 + t.day) * 24 + t.hour) * 60 + t.minute) as int
}

/// `a` is no later than `b`.
pub open spec fn cal_le_spec(a: CalTime, b: CalTime) -> bool {
    cal_index(a) <= cal_index(b)
}

/// Executable leap-year test.
pub fn is_leap(y: u16) -> (r: bool)
    ensures
        r == is_leap_year(y as int),
{
    (y % 4 == 0 && y % 100 != 0) || y % 400 == 0
}

/// Executable day count of a month.
pub fn days_in_month(y: u16, m: u8) -> (r: u8)
    ensures
        r == days_in_month_spec(y as int, m as int),
        28 <= r <= 31,
{
    if m == 2 {
        if is_leap(y) {
            29
        } else {
            28
        }
    } else if m == 4 || m == 6 || m == 9 || m == 11 {
        30
    } else {
        31
    }
}

/// Executable ordering test.
pub fn cal_le(a: &CalTime, b: &CalTime) -> (r: bool)
    requires
        valid_cal(*a),
        valid_cal(*b),
    ensures
        r == cal_le_spec(*a, *b),
{
    if a.year != b.year {
        a.year < b.year
    } else if a.month != b.month {
        a.month < b.month
    } else if a.day != b.day {
        a.day < b.day
    } else if a.hour != b.hour {
        a.hour < b.hour
    } else {
        a.minute <= b.minute
    }
}

/// One minute later, with natural rollover; unchanged at the very end
/// of the supported range.
pub open spec fn inc_minute_spec(t: CalTime) -> CalTime {
    if t.minute < 59 {
        CalTime { minute: (t.minute + 1) as u8, ..t }
    } else if t.hour < 23 {
        CalTime { hour: (t.hour + 1) as u8, minute: 0, ..t }
    } else if t.day < days_in_month_spec(t.year as int, t.month as int) {
        CalTime { day: (t.day + 1) as u8, hour: 0, minute: 0, ..t }
    } else if t.month < 12 {
        CalTime { month: (t.month + 1) as u8, day: 1, hour: 0, minute: 0, ..t }
    } else if t.year < MAX_YEAR {
        CalTime { year: (t.year + 1) as u16, month: 1, day: 1, hour: 0, minute: 0 }
    } else {
        t
    }
}

/// One minute earlier, with natural rollover; unchanged at the very
/// start of the supported range.
pub open spec fn dec_minute_spec(t: CalTime) -> CalTime {
    if t.minute > 0 {
        CalTime { minute: (t.minute - 1) as u8, ..t }
    } else if t.hour > 0 {
        CalTime { hour: (t.hour - 1) as u8, minute: 59, ..t }
    } else if t.day > 1 {
        CalTime { day: (t.day - 1) as u8, hour: 23, minute: 59, ..t }
    } else if t.month > 1 {
        CalTime {
            month: (t.month - 1) as u8,
            day: days_in_month_spec(t.year as int, t.month - 1) as u8,
            hour: 23,
            minute: 59,
            ..t
        }
    } else if t.year > MIN_YEAR {
        CalTime { year: (t.year - 1) as u16, month: 12, day: 31, hour: 23, minute: 59 }
    } else {
        t
    }
}

/// One hour later, minute preserved.
pub open spec fn inc_hour_spec(t: CalTime) -> CalTime {
    if t.hour < 23 {
        CalTime { hour: (t.hour + 1) as u8, ..t }
    } else if t.day < days_in_month_spec(t.year as int, t.month as int) {
        CalTime { day: (t.day + 1) as u8, hour: 0, ..t }
    } else if t.month < 12 {
        CalTime { month: (t.month + 1) as u8, day: 1, hour: 0, ..t }
    } else if t.year < MAX_YEAR {
        CalTime { year: (t.year + 1) as u16, month: 1, day: 1, hour: 0, minute: t.minute }
    } else {
        t
    }
}

/// One hour earlier, minute preserved.
pub open spec fn dec_hour_spec(t: CalTime) -> CalTime {
    if t.hour > 0 {
        CalTime { hour: (t.hour - 1) as u8, ..t }
    } else if t.day > 1 {
        CalTime { day: (t.day - 1) as u8, hour: 23, ..t }
    } else if t.month > 1 {
        CalTime {
            month: (t.month - 1) as u8,
            day: days_in_month_spec(t.year as int, t.month - 1) as u8,
            hour: 23,
            ..t
        }
    } else if t.year > MIN_YEAR {
        CalTime { year: (t.year - 1) as u16, month: 12, day: 31, hour: 23, minute: t.minute }
    } else {
        t
    }
}

/// One day later, time of day preserved.
pub open spec fn inc_day_spec(t: CalTime) -> CalTime {
    if t.day < days_in_month_spec(t.year as int, t.month as int) {
        CalTime { day: (t.day + 1) as u8, ..t }
    } else if t.month < 12 {
        CalTime { month: (t.month + 1) as u8, day: 1, ..t }
    } else if t.year < MAX_YEAR {
        CalTime { year: (t.year + 1) as u16, month: 1, day: 1, hour: t.hour, minute: t.minute }
    } else {
        t
    }
}

/// One day earlier, time of day preserved.
pub open spec fn dec_day_spec(t: CalTime) -> CalTime {
    if t.day > 1 {
        CalTime { day: (t.day - 1) as u8, ..t }
    } else if t.month > 1 {
        CalTime {
            month: (t.month - 1) as u8,
            day: days_in_month_spec(t.year as int, t.month - 1) as u8,
            ..t
        }
    } else if t.year > MIN_YEAR {
        CalTime { year: (t.year - 1) as u16, month: 12, day: 31, hour: t.hour, minute: t.minute }
    } else {
        t
    }
}

/// One month forward or back, wrapping within the same year; the day
/// is clamped to the length of the target month.
pub open spec fn month_wrap_spec(t: CalTime, increment: bool) -> CalTime {
    let m = if increment {
        if t.month == 12 {
            1
        } else {
            (t.month + 1) as int
        }
    } else {
        if t.month == 1 {
            12
        } else {
            (t.month - 1) as int
        }
    };
    let dim = days_in_month_spec(t.year as int, m);
    CalTime {
        month: m as u8,
        day: if t.day <= dim {
            t.day
        } else {
            dim as u8
        },
        ..t
    }
}

/// One year forward or back; unchanged at the range bounds; the day is
/// clamped when the target February is shorter.
pub open spec fn year_step_spec(t: CalTime, increment: bool) -> CalTime {
    if increment && t.year < MAX_YEAR {
        let y = (t.year + 1) as int;
        let dim = days_in_month_spec(y, t.month as int);
        CalTime {
            year: y as u16,
            day: if t.day <= dim {
                t.day
            } else {
                dim as u8
            },
            ..t
        }
    } else if !increment && t.year > MIN_YEAR {
        let y = (t.year - 1) as int;
        let dim = days_in_month_spec(y, t.month as int);
        CalTime {
            year: y as u16,
            day: if t.day <= dim {
                t.day
            } else {
                dim as u8
            },
            ..t
        }
    } else {
        t
    }
}

impl CalTime {
    /// Adds one minute.
    pub fn inc_minute(&self) -> (r: CalTime)
        requires
            valid_cal(*self),
        ensures
            r == inc_minute_spec(*self),
            valid_cal(r),
    {
        let t = *self;
        if t.minute < 59 {
            CalTime { minute: t.minute + 1, ..t }
        } else if t.hour < 23 {
            CalTime { hour: t.hour + 1, minute: 0, ..t }
        } else if t.day < days_in_month(t.year, t.month) {
            CalTime { day: t.day + 1, hour: 0, minute: 0, ..t }
        } else if t.month < 12 {
            CalTime { month: t.month + 1, day: 1, hour: 0, minute: 0, ..t }
        } else if t.year < MAX_YEAR {
            CalTime { year: t.year + 1, month: 1, day: 1, hour: 0, minute: 0 }
        } else {
            t
        }
    }

    /// Subtracts one minute.
    pub fn dec_minute(&self) -> (r: CalTime)
        requires
            valid_cal(*self),
        ensures
            r == dec_minute_spec(*self),
            valid_cal(r),
    {
        let t = *self;
        if t.minute > 0 {
            CalTime { minute: t.minute - 1, ..t }
        } else if t.hour > 0 {
            CalTime { hour: t.hour - 1, minute: 59, ..t }
        } else if t.day > 1 {
            CalTime { day: t.day - 1, hour: 23, minute: 59, ..t }
        } else if t.month > 1 {
            CalTime {
                month: t.month - 1,
                day: days_in_month(t.year, t.month - 1),
                hour: 23,
                minute: 59,
                ..t
            }
        } else if t.year > MIN_YEAR {
            CalTime { year: t.year - 1, month: 12, day: 31, hour: 23, minute: 59 }
        } else {
            t
        }
    }

    /// Adds one hour.
    pub fn inc_hour(&self) -> (r: CalTime)
        requires
            valid_cal(*self),
        ensures
            r == inc_hour_spec(*self),
            valid_cal(r),
    {
        let t = *self;
        if t.hour < 23 {
            CalTime { hour: t.hour + 1, ..t }
        } else if t.day < days_in_month(t.year, t.month) {
            CalTime { day: t.day + 1, hour: 0, ..t }
        } else if t.month < 12 {
            CalTime { month: t.month + 1, day: 1, hour: 0, ..t }
        } else if t.year < MAX_YEAR {
            CalTime { year: t.year + 1, month: 1, day: 1, hour: 0, minute: t.minute }
        } else {
            t
        }
    }

    /// Subtracts one hour.
    pub fn dec_hour(&self) -> (r: CalTime)
        requires
            valid_cal(*self),
        ensures
            r == dec_hour_spec(*self),
            valid_cal(r),
    {
        let t = *self;
        if t.hour > 0 {
            CalTime { hour: t.hour - 1, ..t }
        } else if t.day > 1 {
            CalTime { day: t.day - 1, hour: 23, ..t }
        } else if t.month > 1 {
            CalTime { month: t.month - 1, day: days_in_month(t.year, t.month - 1), hour: 23, ..t }
        } else if t.year > MIN_YEAR {
            CalTime { year: t.year - 1, month: 12, day: 31, hour: 23, minute: t.minute }
        } else {
            t
        }
    }

    /// Adds one day.
    pub fn inc_day(&self) -> (r: CalTime)
        requires
            valid_cal(*self),
        ensures
            r == inc_day_spec(*self),
            valid_cal(r),
    {
        let t = *self;
        if t.day < days_in_month(t.year, t.month) {
            CalTime { day: t.day + 1, ..t }
        } else if t.month < 12 {
            CalTime { month: t.month + 1, day: 1, ..t }
        } else if t.year < MAX_YEAR {
            CalTime { year: t.year + 1, month: 1, day: 1, hour: t.hour, minute: t.minute }
        } else {
            t
        }
    }

    /// Subtracts one day.
    pub fn dec_day(&self) -> (r: CalTime)
        requires
            valid_cal(*self),
        ensures
            r == dec_day_spec(*self),
            valid_cal(r),
    {
        let t = *self;
        if t.day > 1 {
            CalTime { day: t.day - 1, ..t }
        } else if t.month > 1 {
            CalTime { month: t.month - 1, day: days_in_month(t.year, t.month - 1), ..t }
        } else if t.year > MIN_YEAR {
            CalTime { year: t.year - 1, month: 12, day: 31, hour: t.hour, minute: t.minute }
        } else {
            t
        }
    }

    /// Steps the month by one with wraparound inside the same year:
    /// incrementing December yields January and decrementing January
    /// yields December, the year unchanged either way.
    pub fn month_wrap(&self, increment: bool) -> (r: CalTime)
        requires
            valid_cal(*self),
        ensures
            r == month_wrap_spec(*self, increment),
            valid_cal(r),
            r.year == self.year && r.hour == self.hour && r.minute == self.minute,
            self.month == 12 && increment ==> r.month == 1,
            self.month == 1 && !increment ==> r.month == 12,
    {
        let t = *self;
        let m = if increment {
            if t.month == 12 {
                1
            } else {
                t.month + 1
            }
        } else {
            if t.month == 1 {
                12
            } else {
                t.month - 1
            }
        };
        let dim = days_in_month(t.year, m);
        CalTime {
            month: m,
            day: if t.day <= dim {
                t.day
            } else {
                dim
            },
            ..t
        }
    }

    /// Steps the year by one, leaving the value unchanged at the range
    /// bounds.
    pub fn year_step(&self, increment: bool) -> (r: CalTime)
        requires
            valid_cal(*self),
        ensures
            r == year_step_spec(*self, increment),
            valid_cal(r),
    {
        let t = *self;
        if increment && t.year < MAX_YEAR {
            let y = t.year + 1;
            let dim = days_in_month(y, t.month);
            CalTime {
                year: y,
                day: if t.day <= dim {
                    t.day
                } else {
                    dim
                },
                ..t
            }
        } else if !increment && t.year > MIN_YEAR {
            let y = t.year - 1;
            let dim = days_in_month(y, t.month);
            CalTime {
                year: y,
                day: if t.day <= dim {
                    t.day
                } else {
                    dim
                },
                ..t
            }
        } else {
            t
        }
    }
}

/// `t` moved back by `n` whole hours.
pub open spec fn sub_hours_spec(t: CalTime, n: int) -> CalTime
    decreases n,
{
    if n <= 0 {
        t
    } else {
        sub_hours_spec(dec_hour_spec(t), n - 1)
    }
}

impl CalTime {
    /// Moves this timestamp back by `n` whole hours.
    pub fn sub_hours(&self, n: u16) -> (r: CalTime)
        requires
            valid_cal(*self),
        ensures
            r == sub_hours_spec(*self, n as int),
            valid_cal(r),
            cal_le_spec(r, *self),
    {
        let mut cur = *self;
        let mut i: u16 = 0;
        while i < n
            invariant
                i <= n,
                valid_cal(cur),
                cal_le_spec(cur, *self),
                sub_hours_spec(cur, (n - i) as int) == sub_hours_spec(*self, n as int),
            decreases n - i,
        {
            proof {
                lemma_dec_hour_le(cur);
            }
            cur = cur.dec_hour();
            i = i + 1;
        }
        cur
    }
}

/// The decimal digit character for `d`.
pub open spec fn digit_char(d: int) -> char {
    if d == 0 {
        '0'
    } else if d == 1 {
        '1'
    } else if d == 2 {
        '2'
    } else if d == 3 {
        '3'
    } else if d == 4 {
        '4'
    } else if d == 5 {
        '5'
    } else if d == 6 {
        '6'
    } else if d == 7 {
        '7'
    } else if d == 8 {
        '8'
    } else {
        '9'
    }
}

/// `n` as two zero-padded decimal digits.
pub open spec fn two_digits(n: int) -> Seq<char> {
    seq![digit_char(n / 10), digit_char(n % 10)]
}

/// `n` as four zero-padded decimal digits.
pub open spec fn four_digits(n: int) -> Seq<char> {
    seq![
        digit_char(n / 1000),
        digit_char((n / 100) % 10),
        digit_char((n / 10) % 10),
        digit_char(n % 10),
    ]
}

/// `t` rendered as `YYYY-MM-DD HH:MM`.
pub open spec fn cal_display(t: CalTime) -> Seq<char> {
    four_digits(t.year as int) + seq!['-'] + two_digits(t.month as int) + seq!['-'] + two_digits(
        t.day as int,
    ) + seq![' '] + two_digits(t.hour as int) + seq![':'] + two_digits(t.minute as int)
}

/// The decimal digit character for `d`.
fn digit_to_char(d: u16) -> (r: char)
    requires
        d <= 9,
    ensures
        r == digit_char(d as int),
{
    match d {
        0 => '0',
        1 => '1',
        2 => '2',
        3 => '3',
        4 => '4',
        5 => '5',
        6 => '6',
        7 => '7',
        8 => '8',
        _ => '9',
    }
}

/// Renders `t` as `YYYY-MM-DD HH:MM` for display.
pub fn format_cal_time(t: &CalTime) -> (r: String)
    requires
        valid_cal(*t),
    ensures
        r@ == cal_display(*t),
{
    let mut cs: Vec<char> = Vec::new();
    cs.push(digit_to_char(t.year / 1000));
    cs.push(digit_to_char((t.year / 100) % 10));
    cs.push(digit_to_char((t.year / 10) % 10));
    cs.push(digit_to_char(t.year % 10));
    cs.push('-');
    cs.push(digit_to_char((t.month / 10) as u16));
    cs.push(digit_to_char((t.month % 10) as u16));
    cs.push('-');
    cs.push(digit_to_char((t.day / 10) as u16));
    cs.push(digit_to_char((t.day % 10) as u16));
    cs.push(' ');
    cs.push(digit_to_char((t.hour / 10) as u16));
    cs.push(digit_to_char((t.hour % 10) as u16));
    cs.push(':');
    cs.push(digit_to_char((t.minute / 10) as u16));
    cs.push(digit_to_char((t.minute % 10) as u16));
    proof {
        assert(cs@ =~= cal_display(*t));
    }
    crate::text::chars_to_string(&cs)
}

/// Stepping an hour back never moves a timestamp later.
pub proof fn lemma_dec_hour_le(t: CalTime)
    requires
        valid_cal(t),
    ensures
        cal_le_spec(dec_hour_spec(t), t),
        valid_cal(dec_hour_spec(t)),
{
}

} // verus!

