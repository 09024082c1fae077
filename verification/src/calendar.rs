//! Proleptic-Gregorian dates and minute-precision timestamps, with the
//! ordering and the today-or-yesterday recency rule used during selection.

use vstd::prelude::*;

verus! {

/// A calendar date.
#[derive(Clone, Copy, Debug, PartialEq, Eq, Structural)]
pub struct Date {
    pub year: i64,
    pub month: u32,
    pub day: u32,
}

/// A minute-precision timestamp carried by a versioned directory name.
#[derive(Clone, Copy, Debug, PartialEq, Eq, Structural)]
pub struct Stamp {
    pub date: Date,
    pub hour: u32,
    pub minute: u32,
}

/// Gregorian leap-year rule.
pub open spec fn is_leap(y: int) -> bool {
    y % 4 == 0 && (y % 100 != 0 || y % 400 == 0)
}

/// Number of days in month `m` of year `y`.
pub open spec fn month_len(y: int, m: int) -> int {
    if m == 2 {
        if is_leap(y) {
            29
        } else {
            28
        }
    } else if m == 4 || m == 6 || m == 9 || m == 11 {
        30
    } else {
        31
    }
}

impl Date {
    /// The date names a real day of the calendar.
    pub open spec fn wf(self) -> bool {
        &&& 1 <= self.month <= 12
        &&& 1 <= self.day <= month_len(self.year as int, self.month as int)
    }

    /// The day before `self`.
    pub open spec fn prev_spec(self) -> Date {
        if self.day > 1 {
            Date { year: self.year, month: self.month, day: (self.day - 1) as u32 }
        } else if self.month > 1 {
            Date {
                year: self.year,
                month: (self.month - 1) as u32,
                day: month_len(self.year as int, self.month - 1) as u32,
            }
        } else {
            Date { year: (self.year - 1) as i64, month: 12, day: 31 }
        }
    }
}

impl Stamp {
    /// Hour and minute are a real time of day on a real date.
    pub open spec fn wf(self) -> bool {
        &&& self.date.wf()
        &&& self.hour <= 23
        &&& self.minute <= 59
    }
}

/// Strict chronological order on timestamps.
pub open spec fn stamp_lt(a: Stamp, b: Stamp) -> bool {
    if a.date.year != b.date.year {
        a.date.year < b.date.year
    } else if a.date.month != b.date.month {
        a.date.month < b.date.month
    } else if a.date.day != b.date.day {
        a.date.day < b.date.day
    } else if a.hour != b.hour {
        a.hour < b.hour
    } else {
        a.minute < b.minute
    }
}

/// Strict order on optional timestamps: the missing timestamp is the
/// sentinel and loses every "most recent" comparison.
pub open spec fn opt_lt(a: Option<Stamp>, b: Option<Stamp>) -> bool {
    match (a, b) {
        (Option::None, Option::Some(_)) => true,
        (Option::Some(x), Option::Some(y)) => stamp_lt(x, y),
        _ => false,
    }
}

/// The optional-timestamp order is transitive.
pub proof fn lemma_opt_lt_trans(a: Option<Stamp>, b: Option<Stamp>, c: Option<Stamp>)
    requires
        opt_lt(a, b),
        opt_lt(b, c),
    ensures
        opt_lt(a, c),
{
}

/// What is no later than `a` stays strictly earlier than anything strictly
/// later than `a`.
pub proof fn lemma_opt_not_lt_lt(a: Option<Stamp>, b: Option<Stamp>, c: Option<Stamp>)
    requires
        !opt_lt(a, b),
        opt_lt(a, c),
    ensures
        opt_lt(b, c),
{
}

/// Whether `y` is a leap year.
pub fn leap_year(y: i64) -> (r: bool)
    requires
        y >= 0,
    ensures
        r == is_leap(y as int),
{
    let v = y as u64;
    (v % 4 == 0) && (v % 100 != 0 || v % 400 == 0)
}

/// Number of days in month `m` of year `y`.
pub fn month_days(y: i64, m: u32) -> (r: u32)
    requires
        y >= 0,
        1 <= m <= 12,
    ensures
        r == month_len(y as int, m as int),
{
    if m == 2 {
        if leap_year(y) {
            29
        } else {
            28
        }
    } else if m == 4 || m == 6 || m == 9 || m == 11 {
        30
    } else {
        31
    }
}

/// The day before `d`.
pub fn prev_date(d: Date) -> (r: Date)
    requires
        d.wf(),
        d.year >= 1,
    ensures
        r == d.prev_spec(),
        r.wf(),
        r.year >= 0,
{
    if d.day > 1 {
        Date { year: d.year, month: d.month, day: d.day - 1 }
    } else if d.month > 1 {
        Date { year: d.year, month: d.month - 1, day: month_days(d.year, d.month - 1) }
    } else {
        Date { year: d.year - 1, month: 12, day: 31 }
    }
}

/// Whether `a` is strictly earlier than `b`.
pub fn stamp_before(a: &Stamp, b: &Stamp) -> (r: bool)
    ensures
        r == stamp_lt(*a, *b),
{
    if a.date.year != b.date.year {
        a.date.year < b.date.year
    } else if a.date.month != b.date.month {
        a.date.month < b.date.month
    } else if a.date.day != b.date.day {
        a.date.day < b.date.day
    } else if a.hour != b.hour {
        a.hour < b.hour
    } else {
        a.minute < b.minute
    }
}

/// Whether `a` is strictly earlier than `b`, with the sentinel earliest.
pub fn opt_before(a: &Option<Stamp>, b: &Option<Stamp>) -> (r: bool)
    ensures
        r == opt_lt(*a, *b),
{
    match (a, b) {
        (Option::None, Option::Some(_)) => true,
        (Option::Some(x), Option::Some(y)) => stamp_before(x, y),
        _ => false,
    }
}

/// Whether `d` is today or yesterday, relative to `today`.
pub fn is_recent(d: Date, today: Date) -> (r: bool)
    requires
        today.wf(),
        today.year >= 1,
    ensures
        r == (d == today || d == today.prev_spec()),
{
    if d == today {
        true
    } else {
        d == prev_date(today)
    }
}

} // verus!
