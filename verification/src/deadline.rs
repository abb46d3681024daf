//! Calendar points in time and the deadline notation `day/month-year hour:minute`.
use vstd::prelude::*;
use crate::text::{all_digits, chars_of, decimal_value, parse_decimal, split, split_chars};

verus! {

/// A minute on the proleptic Gregorian calendar, without a time zone.
#[derive(Clone, Copy, Debug, PartialEq, Eq, Structural)]
pub struct DateTime {
    pub year: u16,
    pub month: u8,
    pub day: u8,
    pub hour: u8,
    pub minute: u8,
}

/// Whether `year` has a 29th of February.
pub open spec fn is_leap_year(year: int) -> bool {
    year % 4 == 0 && (year % 100 != 0 || year % 400 == 0)
}

/// The number of days of `year`.
pub open spec fn days_in_year(year: int) -> int {
    if is_leap_year(year) {
        366
    } else {
        365
    }
}

/// The number of days of `month` (1 to 12) in `year`.
pub open spec fn days_in_month(year: int, month: int) -> int {
    if month == 2 {
        if is_leap_year(year) {
            29
        } else {
            28
        }
    } else if month == 4 || month == 6 || month == 9 || month == 11 {
        30
    } else {
        31
    }
}

/// The days of the years `0` to `year - 1`.
pub open spec fn days_before_year(year: int) -> int
    decreases year,
{
    if year <= 0 {
        0
    } else {
        days_before_year(year - 1) + days_in_year(year - 1)
    }
}

/// The days of the months `1` to `month - 1` of `year`.
pub open spec fn days_before_month(year: int, month: int) -> int
    decreases month,
{
    if month <= 1 {
        0
    } else {
        days_before_month(year, month - 1) + days_in_month(year, month - 1)
    }
}

/// The leap years among the years `0` to `year - 1`.
pub open spec fn leap_years_before(year: int) -> int {
    (year + 3) / 4 - (year + 99) / 100 + (year + 399) / 400
}

/// Moving up by one passes a multiple of `d` exactly when the lower number is one.
proof fn lemma_multiple_step(y: int, d: int)
    requires
        0 <= y,
        d == 4 || d == 100 || d == 400,
    ensures
        (y + d) / d - (y + d - 1) / d == if y % d == 0 { 1int } else { 0int },
{
    if d == 4 {
        assert((y + 4) / 4 == y / 4 + 1);
        assert((y + 3) / 4 == if y % 4 == 0 { y / 4 } else { y / 4 + 1 });
    } else if d == 100 {
        assert((y + 100) / 100 == y / 100 + 1);
        assert((y + 99) / 100 == if y % 100 == 0 { y / 100 } else { y / 100 + 1 });
    } else {
        assert((y + 400) / 400 == y / 400 + 1);
        assert((y + 399) / 400 == if y % 400 == 0 { y / 400 } else { y / 400 + 1 });
    }
}

/// One more leap year lies before `year + 1` than before `year` exactly when `year` is one.
proof fn lemma_leap_step(year: int)
    requires
        0 <= year,
    ensures
        leap_years_before(year + 1) - leap_years_before(year) == if is_leap_year(year) {
            1int
        } else {
            0int
        },
{
    lemma_multiple_step(year, 4);
    lemma_multiple_step(year, 100);
    lemma_multiple_step(year, 400);
    assert(year % 400 == 0 ==> year % 100 == 0);
    assert(year % 100 == 0 ==> year % 4 == 0);
}

/// The closed form of [`days_before_year`].
pub proof fn lemma_days_before_year(year: int)
    requires
        0 <= year,
    ensures
        days_before_year(year) == 365 * year + leap_years_before(year),
    decreases year,
{
    if year > 0 {
        lemma_days_before_year(year - 1);
        lemma_leap_step(year - 1);
    }
}

/// A later year has more days before it.
pub proof fn lemma_days_before_year_grows(a: int, b: int)
    requires
        0 <= a <= b,
    ensures
        days_before_year(b) - days_before_year(a) >= 365 * (b - a),
    decreases b - a,
{
    if a < b {
        lemma_days_before_year_grows(a, b - 1);
    }
}

/// A later month has more days before it.
pub proof fn lemma_days_before_month_grows(year: int, a: int, b: int)
    requires
        1 <= a <= b <= 12,
    ensures
        days_before_month(year, b) - days_before_month(year, a) >= 28 * (b - a),
    decreases b - a,
{
    if a < b {
        lemma_days_before_month_grows(year, a, b - 1);
    }
}

/// The months before `month` hold at most 31 days each, and at least 28.
pub proof fn lemma_days_before_month_bounds(year: int, month: int)
    requires
        1 <= month <= 12,
    ensures
        28 * (month - 1) <= days_before_month(year, month) <= 31 * (month - 1),
        days_before_month(year, month) + days_in_month(year, month) <= days_in_year(year),
    decreases month,
{
    reveal_with_fuel(days_before_month, 13);
}

impl DateTime {
    /// Whether the fields name a minute that exists.
    pub open spec fn valid(self) -> bool {
        &&& 1 <= self.month <= 12
        &&& 1 <= self.day <= days_in_month(self.year as int, self.month as int)
        &&& self.hour <= 23
        &&& self.minute <= 59
        &&& self.year <= 9999
    }

    /// The days from 1 January of year 0 to this day.
    pub open spec fn day_number(self) -> int {
        days_before_year(self.year as int) + days_before_month(self.year as int, self.month as int)
            + (self.day - 1)
    }

    /// The minutes from the start of year 0 to this minute.
    pub open spec fn minute_number(self) -> int {
        self.day_number() * 1440 + self.hour * 60 + self.minute
    }

    /// Executable test for [`DateTime::valid`].
    pub fn is_valid(&self) -> (r: bool)
        ensures
            r == self.valid(),
    {
        self.year <= 9999 && 1 <= self.month && self.month <= 12 && 1 <= self.day && self.day
            <= month_length(self.year, self.month) && self.hour <= 23 && self.minute <= 59
    }

    /// The minutes from the start of year 0 to this minute.
    pub fn minutes(&self) -> (r: u64)
        requires
            self.valid(),
        ensures
            r == self.minute_number(),
            r < 5_300_000_000,
    {
        let y: u64 = self.year as u64;
        proof {
            lemma_days_before_year(self.year as int);
            lemma_days_before_month_bounds(self.year as int, self.month as int);
        }
        let year_days: u64 = 365 * y + ((y + 3) / 4 - (y + 99) / 100 + (y + 399) / 400);
        let mut month_days: u64 = 0;
        let mut m: u8 = 1;
        while m < self.month
            invariant
                1 <= m <= self.month <= 12,
                month_days == days_before_month(self.year as int, m as int),
                month_days <= 31 * (m - 1),
            decreases self.month - m,
        {
            month_days = month_days + month_length(self.year, m) as u64;
            m = m + 1;
        }
        let days: u64 = year_days + month_days + (self.day as u64 - 1);
        days * 1440 + self.hour as u64 * 60 + self.minute as u64
    }

    /// The whole minutes from `self` until `later`; negative where `later` is earlier.
    pub fn minutes_until(&self, later: &DateTime) -> (r: i64)
        requires
            self.valid(),
            later.valid(),
        ensures
            r == minutes_between(*self, *later),
            -5_300_000_000 < r < 5_300_000_000,
    {
        let from: u64 = self.minutes();
        let to: u64 = later.minutes();
        to as i64 - from as i64
    }
}

/// The whole minutes from `from` until `to`.
pub open spec fn minutes_between(from: DateTime, to: DateTime) -> int {
    to.minute_number() - from.minute_number()
}

/// Whether `a` comes before `b` on the calendar: in an earlier year, or in the same year
/// and an earlier month, and so on down to the minute.
pub open spec fn earlier(a: DateTime, b: DateTime) -> bool {
    ||| a.year < b.year
    ||| a.year == b.year && a.month < b.month
    ||| a.year == b.year && a.month == b.month && a.day < b.day
    ||| a.year == b.year && a.month == b.month && a.day == b.day && a.hour < b.hour
    ||| a.year == b.year && a.month == b.month && a.day == b.day && a.hour == b.hour && a.minute
        < b.minute
}

/// The count of minutes follows the calendar: what comes earlier has the lower number.
pub proof fn lemma_minutes_follow_calendar(a: DateTime, b: DateTime)
    requires
        a.valid(),
        b.valid(),
        earlier(a, b),
    ensures
        a.minute_number() < b.minute_number(),
        minutes_between(a, b) > 0,
{
    lemma_days_before_month_bounds(a.year as int, a.month as int);
    lemma_days_before_month_bounds(b.year as int, b.month as int);
    if a.year < b.year {
        lemma_days_before_year_grows(a.year + 1, b.year as int);
        assert(a.day_number() < days_before_year(a.year + 1));
        assert(days_before_year(b.year as int) <= b.day_number());
    } else if a.month < b.month {
        lemma_days_before_month_grows(a.year as int, a.month + 1, b.month as int);
        assert(days_before_month(a.year as int, a.month + 1) == days_before_month(
            a.year as int,
            a.month as int,
        ) + days_in_month(a.year as int, a.month as int));
        assert(a.day_number() < b.day_number());
    }
}

fn leap_year(year: u16) -> (r: bool)
    ensures
        r == is_leap_year(year as int),
{
    year % 4 == 0 && (year % 100 != 0 || year % 400 == 0)
}

fn month_length(year: u16, month: u8) -> (r: u8)
    ensures
        r == days_in_month(year as int, month as int),
{
    if month == 2 {
        if leap_year(year) {
            29
        } else {
            28
        }
    } else if month == 4 || month == 6 || month == 9 || month == 11 {
        30
    } else {
        31
    }
}

/// Whether `s` is a run of `min` to `max` decimal digits.
pub open spec fn is_number(s: Seq<char>, min: int, max: int) -> bool {
    all_digits(s) && min <= s.len() <= max
}

/// The point in time that a text in the notation `day/month-year hour:minute` names:
/// one or two digits for day, month and hour, four for the year, two for the minute,
/// 24-hour clock. `None` for any other text and for a date or time that does not exist.
pub open spec fn parse_deadline(s: Seq<char>) -> Option<DateTime> {
    let halves = split(s, ' ');
    if halves.len() != 2 {
        None
    } else {
        let date = split(halves[0], '/');
        let time = split(halves[1], ':');
        if date.len() != 2 || time.len() != 2 {
            None
        } else {
            let rest = split(date[1], '-');
            if rest.len() != 2 {
                None
            } else if is_number(date[0], 1, 2) && is_number(rest[0], 1, 2) && is_number(
                rest[1],
                4,
                4,
            ) && is_number(time[0], 1, 2) && is_number(time[1], 2, 2) {
                let dt = DateTime {
                    year: decimal_value(rest[1]) as u16,
                    month: decimal_value(rest[0]) as u8,
                    day: decimal_value(date[0]) as u8,
                    hour: decimal_value(time[0]) as u8,
                    minute: decimal_value(time[1]) as u8,
                };
                if dt.valid() {
                    Some(dt)
                } else {
                    None
                }
            } else {
                None
            }
        }
    }
}

/// Reads a run of `min` to `max` digits, `max` being at most four.
fn parse_number(v: &Vec<char>, min: usize, max: usize) -> (r: Option<u16>)
    requires
        max <= 4,
    ensures
        r.is_some() == is_number(v@, min as int, max as int),
        r.is_some() ==> r.unwrap() == decimal_value(v@),
{
    if v.len() < min || v.len() > max {
        return None;
    }
    match parse_decimal(v) {
        Some(n) => {
            proof {
                crate::text::lemma_decimal_value_bound(v@);
            }
            Some(n as u16)
        },
        None => None,
    }
}

/// Reads a deadline in the notation `day/month-year hour:minute`.
pub fn read_deadline(text: &str) -> (r: Option<DateTime>)
    ensures
        r == parse_deadline(text@),
        r.is_some() ==> r.unwrap().valid(),
{
    let chars = chars_of(text);
    let halves = split_chars(&chars, ' ');
    assert(halves.deep_view().len() == halves.len());
    if halves.len() != 2 {
        return None;
    }
    proof {
        crate::text::lemma_chars_deep_view(halves@[0]);
        crate::text::lemma_chars_deep_view(halves@[1]);
        assert(halves.deep_view()[0] == halves@[0]@);
        assert(halves.deep_view()[1] == halves@[1]@);
    }
    let date = split_chars(&halves[0], '/');
    let time = split_chars(&halves[1], ':');
    assert(date.deep_view().len() == date.len());
    assert(time.deep_view().len() == time.len());
    if date.len() != 2 || time.len() != 2 {
        return None;
    }
    proof {
        crate::text::lemma_chars_deep_view(date@[0]);
        crate::text::lemma_chars_deep_view(date@[1]);
        crate::text::lemma_chars_deep_view(time@[0]);
        crate::text::lemma_chars_deep_view(time@[1]);
        assert(date.deep_view()[0] == date@[0]@);
        assert(date.deep_view()[1] == date@[1]@);
        assert(time.deep_view()[0] == time@[0]@);
        assert(time.deep_view()[1] == time@[1]@);
    }
    let rest = split_chars(&date[1], '-');
    assert(rest.deep_view().len() == rest.len());
    if rest.len() != 2 {
        return None;
    }
    proof {
        crate::text::lemma_chars_deep_view(rest@[0]);
        crate::text::lemma_chars_deep_view(rest@[1]);
        assert(rest.deep_view()[0] == rest@[0]@);
        assert(rest.deep_view()[1] == rest@[1]@);
    }
    let day = parse_number(&date[0], 1, 2);
    let month = parse_number(&rest[0], 1, 2);
    let year = parse_number(&rest[1], 4, 4);
    let hour = parse_number(&time[0], 1, 2);
    let minute = parse_number(&time[1], 2, 2);
    match (day, month, year, hour, minute) {
        (Some(d), Some(mo), Some(y), Some(h), Some(mi)) => {
            proof {
                crate::text::lemma_decimal_value_bound(date@[0]@);
                crate::text::lemma_decimal_value_bound(rest@[0]@);
                crate::text::lemma_decimal_value_bound(rest@[1]@);
                crate::text::lemma_decimal_value_bound(time@[0]@);
                crate::text::lemma_decimal_value_bound(time@[1]@);
            }
            let dt = DateTime {
                year: y,
                month: mo as u8,
                day: d as u8,
                hour: h as u8,
                minute: mi as u8,
            };
            if dt.is_valid() {
                Some(dt)
            } else {
                None
            }
        },
        _ => None,
    }
}

} // verus!
