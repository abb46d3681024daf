//! Figures derived from an assignment's deadline: how urgent it is and how long is left.
use vstd::prelude::*;
use crate::deadline::{
    earlier, lemma_minutes_follow_calendar, minutes_between, parse_deadline, read_deadline, DateTime,
};
use crate::decimal::{decimal_millis, read_millis};
use crate::text::{decimal_digits, decimal_text, join, joined};

verus! {

/// Estimated student effort, in thousandths of an hour.
#[derive(Clone, Copy, Debug, PartialEq, Eq, Structural)]
pub struct Effort {
    pub millis: u32,
}

/// The effort that a cell's text states, in thousandths of an hour; text that is no
/// decimal number states none, which counts as zero.
pub open spec fn effort_of(s: Seq<char>) -> Effort {
    Effort { millis: decimal_millis(s) as u32 }
}

/// Reads the effort that a cell's text states.
pub fn read_effort(text: &str) -> (r: Effort)
    ensures
        r == effort_of(text@),
{
    Effort { millis: read_millis(text) }
}

/// A score as a fraction `numerator / denominator`; higher is more urgent.
#[derive(Clone, Copy, Debug, PartialEq, Eq, Structural)]
pub struct Urgency {
    pub numerator: u64,
    pub denominator: u64,
}

impl Urgency {
    /// Whether the fraction is defined.
    pub open spec fn valid(self) -> bool {
        self.denominator > 0
    }

    /// Whether `self` is at most `other`, as fractions.
    pub open spec fn at_most(self, other: Urgency) -> bool {
        self.numerator * other.denominator <= other.numerator * self.denominator
    }

    /// Whether `self` is below `other`, as fractions.
    pub open spec fn below(self, other: Urgency) -> bool {
        self.numerator * other.denominator < other.numerator * self.denominator
    }

    /// Whether the score is zero.
    pub open spec fn is_zero(self) -> bool {
        self.numerator == 0
    }
}

/// The score of an assignment whose deadline cannot be read: ten.
pub open spec fn urgency_unreadable() -> Urgency {
    Urgency { numerator: 10, denominator: 1 }
}

/// The score of an assignment whose deadline has passed: zero.
pub open spec fn urgency_none() -> Urgency {
    Urgency { numerator: 0, denominator: 1 }
}

/// The score of an assignment due in `minutes` minutes that takes `effort_millis`
/// thousandths of an hour: zero once the deadline is reached, else
/// `1 / (minutes + effort in hours)`.
pub open spec fn urgency_due_in(minutes: int, effort_millis: nat) -> Urgency {
    if minutes <= 0 {
        urgency_none()
    } else {
        Urgency { numerator: 1000, denominator: (1000 * minutes + effort_millis) as u64 }
    }
}

/// The score of an assignment, from what its deadline text reads as.
pub open spec fn urgency_score(deadline: Option<DateTime>, now: DateTime, effort: Effort) -> Urgency {
    match deadline {
        None => urgency_unreadable(),
        Some(due) => urgency_due_in(minutes_between(now, due), effort.millis as nat),
    }
}

/// The largest number of minutes that can lie between two valid points in time.
pub open spec fn max_minutes() -> int {
    5_300_000_000
}

/// Scores an assignment due in `minutes` minutes.
pub fn urgency_in(minutes: i64, effort: Effort) -> (r: Urgency)
    requires
        minutes <= max_minutes(),
    ensures
        r == urgency_due_in(minutes as int, effort.millis as nat),
        r.valid(),
{
    if minutes <= 0 {
        Urgency { numerator: 0, denominator: 1 }
    } else {
        Urgency { numerator: 1000, denominator: 1000 * (minutes as u64) + effort.millis as u64 }
    }
}

/// Scores an assignment from its deadline text, the effort it takes and the current time.
pub fn urgency(deadline_text: &str, effort: Effort, now: &DateTime) -> (r: Urgency)
    requires
        now.valid(),
    ensures
        r == urgency_score(parse_deadline(deadline_text@), *now, effort),
        r.valid(),
        parse_deadline(deadline_text@) is None ==> r == urgency_unreadable(),
{
    match read_deadline(deadline_text) {
        None => Urgency { numerator: 10, denominator: 1 },
        Some(due) => {
            let minutes = now.minutes_until(&due);
            urgency_in(minutes, effort)
        },
    }
}

/// For a fixed effort the score does not rise as the deadline moves away: of two
/// deadlines that both lie ahead, or both lie behind, the later one scores no higher.
pub proof fn lemma_urgency_falls_with_time(sooner: int, later: int, effort_millis: nat)
    requires
        sooner <= later,
        0 < sooner || later <= 0,
        later <= max_minutes(),
        effort_millis <= u32::MAX,
    ensures
        urgency_due_in(later, effort_millis).at_most(urgency_due_in(sooner, effort_millis)),
{
    if 0 < sooner {
        let a = 1000 * sooner + effort_millis;
        let b = 1000 * later + effort_millis;
        assert(a <= b);
        assert(1000 * a <= 1000 * b);
    }
}

/// Of two deadlines that both lie ahead of `now`, the later one scores no higher.
pub proof fn lemma_later_deadline_scores_lower(
    now: DateTime,
    first: DateTime,
    second: DateTime,
    effort: Effort,
)
    requires
        now.valid(),
        first.valid(),
        second.valid(),
        earlier(now, first),
        earlier(first, second),
    ensures
        urgency_score(Some(second), now, effort).at_most(urgency_score(Some(first), now, effort)),
{
    lemma_minutes_follow_calendar(now, first);
    lemma_minutes_follow_calendar(first, second);
    lemma_minutes_span(now, second);
    lemma_urgency_falls_with_time(
        minutes_between(now, first),
        minutes_between(now, second),
        effort.millis as nat,
    );
}

/// No two valid points in time lie further apart than [`max_minutes`].
pub proof fn lemma_minutes_span(from: DateTime, to: DateTime)
    requires
        from.valid(),
        to.valid(),
    ensures
        -max_minutes() < minutes_between(from, to) < max_minutes(),
{
    crate::deadline::lemma_days_before_year(from.year as int);
    crate::deadline::lemma_days_before_year(to.year as int);
    crate::deadline::lemma_days_before_month_bounds(from.year as int, from.month as int);
    crate::deadline::lemma_days_before_month_bounds(to.year as int, to.month as int);
}

/// A deadline that `now` has reached or passed scores exactly zero, whatever the effort.
pub proof fn lemma_passed_deadline_scores_zero(now: DateTime, due: DateTime, effort: Effort)
    requires
        now.valid(),
        due.valid(),
        !earlier(now, due),
    ensures
        urgency_score(Some(due), now, effort) == urgency_none(),
{
    if earlier(due, now) {
        lemma_minutes_follow_calendar(due, now);
    } else {
        assert(due == now);
    }
}

/// A deadline that is reached or passed scores exactly zero, whatever the effort.
pub proof fn lemma_urgency_zero_when_due(minutes: int, effort_millis: nat)
    requires
        minutes <= 0,
    ensures
        urgency_due_in(minutes, effort_millis) == urgency_none(),
{
}

/// A deadline that cannot be read scores exactly ten, whatever the effort.
pub proof fn lemma_urgency_unreadable(now: DateTime, effort: Effort)
    ensures
        urgency_score(None, now, effort) == urgency_unreadable(),
{
}

/// For a deadline that lies ahead, more effort gives a strictly lower, still positive score.
pub proof fn lemma_urgency_falls_with_effort(minutes: int, less: nat, more: nat)
    requires
        0 < minutes <= max_minutes(),
        less < more <= u32::MAX,
    ensures
        urgency_due_in(minutes, more).below(urgency_due_in(minutes, less)),
        !urgency_due_in(minutes, more).is_zero(),
{
    let a = 1000 * minutes + less;
    let b = 1000 * minutes + more;
    assert(a < b);
    assert(1000 * a < 1000 * b);
}

/// What is left until a deadline, in whole days, hours and minutes.
#[derive(Clone, Copy, Debug, PartialEq, Eq, Structural)]
pub struct Remaining {
    pub days: u64,
    pub hours: u64,
    pub minutes: u64,
}

/// `minutes` minutes as days, hours below 24 and minutes below 60.
pub open spec fn remaining_of(minutes: int) -> Remaining
    recommends
        0 <= minutes <= max_minutes(),
{
    Remaining {
        days: (minutes / 1440) as u64,
        hours: ((minutes % 1440) / 60) as u64,
        minutes: (minutes % 60) as u64,
    }
}

/// A count with its unit, such as "1 day" or "3 days".
pub open spec fn counted(n: nat, singular: Seq<char>, plural: Seq<char>) -> Seq<char> {
    decimal_digits(n) + (if n == 1 { singular } else { plural })
}

/// The days of `left`, where there are any.
pub open spec fn days_part(left: Remaining) -> Seq<Seq<char>> {
    if left.days > 0 {
        seq![counted(left.days as nat, " day"@, " days"@)]
    } else {
        Seq::empty()
    }
}

/// The hours and the minutes of `left`, each where there are any.
pub open spec fn clock_parts(left: Remaining) -> Seq<Seq<char>> {
    (if left.hours > 0 {
        seq![counted(left.hours as nat, " hour"@, " hours"@)]
    } else {
        Seq::empty()
    }) + (if left.minutes > 0 {
        seq![counted(left.minutes as nat, " minute"@, " minutes"@)]
    } else {
        Seq::empty()
    })
}

/// The components of `left` that are not zero: days, then hours, then minutes.
pub open spec fn countdown_parts(left: Remaining) -> Seq<Seq<char>> {
    days_part(left) + clock_parts(left)
}

/// How long is left when the deadline is `minutes` minutes away: "deadline passed" once
/// it is reached, else the components that are not zero, separated by ", ".
pub open spec fn countdown_text(minutes: int) -> Seq<char> {
    if minutes <= 0 {
        "deadline passed"@
    } else {
        joined(countdown_parts(remaining_of(minutes)), ", "@)
    }
}

/// How long is left until a deadline, from what its text reads as.
pub open spec fn countdown_of(deadline: Option<DateTime>, now: DateTime) -> Seq<char> {
    match deadline {
        None => "deadline passed"@,
        Some(due) => countdown_text(minutes_between(now, due)),
    }
}

fn counted_text(n: u64, singular: &str, plural: &str) -> (r: String)
    ensures
        r@ == counted(n as nat, singular@, plural@),
{
    let mut r = decimal_text(n);
    if n == 1 {
        r.append(singular);
    } else {
        r.append(plural);
    }
    r
}

/// Splits a number of minutes into days, hours and minutes.
pub fn remaining(minutes: u64) -> (r: Remaining)
    ensures
        r == remaining_of(minutes as int),
        r.hours < 24,
        r.minutes < 60,
        r.days * 1440 + r.hours * 60 + r.minutes == minutes,
{
    Remaining { days: minutes / 1440, hours: (minutes % 1440) / 60, minutes: minutes % 60 }
}

/// Writes how long is left when the deadline is `minutes` minutes away.
pub fn countdown_in(minutes: i64) -> (r: String)
    ensures
        r@ == countdown_text(minutes as int),
{
    if minutes <= 0 {
        return String::from_str("deadline passed");
    }
    let left = remaining(minutes as u64);
    let mut parts: Vec<String> = Vec::new();
    assert(parts.deep_view() =~= Seq::<Seq<char>>::empty());
    if left.days > 0 {
        parts.push(counted_text(left.days, " day", " days"));
    }
    assert(parts.deep_view() =~= days_part(left));
    if left.hours > 0 {
        let ghost before = parts.deep_view();
        let part = counted_text(left.hours, " hour", " hours");
        let ghost added = part@;
        parts.push(part);
        assert(parts.deep_view() =~= before.push(added));
    }
    if left.minutes > 0 {
        let ghost before = parts.deep_view();
        let part = counted_text(left.minutes, " minute", " minutes");
        let ghost added = part@;
        parts.push(part);
        assert(parts.deep_view() =~= before.push(added));
    }
    assert(parts.deep_view() =~= countdown_parts(left));
    join(&parts, ", ")
}

/// Writes how long is left until the deadline that `deadline_text` names.
/// A deadline that cannot be read counts as passed.
pub fn countdown(deadline_text: &str, now: &DateTime) -> (r: String)
    requires
        now.valid(),
    ensures
        r@ == countdown_of(parse_deadline(deadline_text@), *now),
{
    match read_deadline(deadline_text) {
        None => String::from_str("deadline passed"),
        Some(due) => countdown_in(now.minutes_until(&due)),
    }
}

/// With less than a day left, no days are counted: the text is made of hours and
/// minutes alone.
pub proof fn lemma_countdown_without_days(minutes: int)
    requires
        0 < minutes < 1440,
    ensures
        remaining_of(minutes).days == 0,
        countdown_parts(remaining_of(minutes)) == clock_parts(remaining_of(minutes)),
        countdown_text(minutes) == joined(clock_parts(remaining_of(minutes)), ", "@),
{
    assert(countdown_parts(remaining_of(minutes)) =~= clock_parts(remaining_of(minutes)));
}

/// The components of a countdown add up to the minutes that are left, with hours below
/// 24 and minutes below 60; none of them is negative.
pub proof fn lemma_remaining_adds_up(minutes: int)
    requires
        0 <= minutes <= max_minutes(),
    ensures
        remaining_of(minutes).days * 1440 + remaining_of(minutes).hours * 60 + remaining_of(
            minutes,
        ).minutes == minutes,
        remaining_of(minutes).hours < 24,
        remaining_of(minutes).minutes < 60,
{
}

} // verus!
