//! Recurrence patterns and the dates on which they fall: the next occurrence on or after a
//! date, and every occurrence within a range.
use vstd::prelude::*;
use crate::error::DomainError;
use crate::time::{calendar_date, date_in_range, date_month, date_year, weekday_of, LocalDate};

verus! {

/// How a recurring item repeats. Weekdays are numbered 1 (Monday) to 7 (Sunday).
#[derive(Debug, PartialEq, Eq)]
pub enum RecurrencePattern {
    Daily { interval: u32 },
    Weekdays,
    Weekly { interval: u32, weekdays: Vec<u8> },
    Monthly { interval: u32, day_of_month: u8 },
}

/// Months since year 0, January.
pub open spec fn month_index(d: int) -> int {
    date_year(d) * 12 + date_month(d) - 1
}

/// The day number of the Monday of the week holding `d`.
pub open spec fn week_start(d: int) -> int {
    d - weekday_of(d)
}

/// `day` moved back to the last day of the month `year-month` when the month is shorter:
/// the largest day, at most `day`, that the month has (days up to 28 are kept as they are).
pub open spec fn clamp_day(year: int, month: int, day: int) -> int
    decreases day,
{
    if day <= 28 || calendar_date(year, month, day) is Some {
        day
    } else {
        clamp_day(year, month, day - 1)
    }
}

/// Whether the pattern, counted from the day `starts`, falls on the day `d`.
pub open spec fn occurs_on(p: RecurrencePattern, starts: int, d: int) -> bool {
    d >= starts && match p {
        RecurrencePattern::Daily { interval } => interval > 0 && (d - starts) % (interval as int) == 0,
        RecurrencePattern::Weekdays => weekday_of(d) < 5,
        RecurrencePattern::Weekly { interval, weekdays } => interval > 0
            && weekdays@.contains((weekday_of(d) + 1) as u8)
            && ((week_start(d) - week_start(starts)) / 7) % (interval as int) == 0,
        RecurrencePattern::Monthly { interval, day_of_month } => interval > 0
            && (month_index(d) - month_index(starts)) % (interval as int) == 0
            && calendar_date(date_year(d), date_month(d), clamp_day(date_year(d), date_month(d), day_of_month as int))
                == Some(d),
    }
}

/// How far past its first candidate day the search for an occurrence looks: one full
/// period of the pattern and a little more.
pub open spec fn search_span(p: RecurrencePattern) -> int {
    match p {
        RecurrencePattern::Daily { interval } => interval as int,
        RecurrencePattern::Weekdays => 7,
        RecurrencePattern::Weekly { interval, .. } => 7 * (interval as int) + 7,
        RecurrencePattern::Monthly { interval, .. } => 372 * (interval as int) + 31,
    }
}

pub fn clamp_month_day(year: i32, month: u32, day: u8) -> (r: u32)
    ensures
        r == clamp_day(year as int, month as int, day as int),
{
    let mut k: u32 = day as u32;
    while k > 28 && LocalDate::from_ymd(year, month, k).is_none()
        invariant
            clamp_day(year as int, month as int, day as int) == clamp_day(year as int, month as int, k as int),
        decreases k,
    {
        k -= 1;
    }
    k
}

/// Whether `n` divides `x`.
pub fn divides(x: i64, n: u32) -> (r: bool)
    requires
        n > 0,
        -0x4000_0000_0000_0000 < x < 0x4000_0000_0000_0000,
    ensures
        r == ((x as int) % (n as int) == 0),
{
    let a: u64 = if x < 0 { (-x) as u64 } else { x as u64 };
    let m = a % (n as u64);
    proof { lemma_divides_abs(x as int, n as int); }
    m == 0
}

proof fn lemma_divides_abs(x: int, n: int)
    requires
        n > 0,
    ensures
        (x % n == 0) <==> ((if x < 0 { -x } else { x }) % n == 0),
{
    if x < 0 {
        vstd::arithmetic::div_mod::lemma_fundamental_div_mod(x, n);
        vstd::arithmetic::div_mod::lemma_fundamental_div_mod(-x, n);
        if x % n == 0 {
            let q = x / n;
            assert(-x == (-q) * n) by (nonlinear_arith) requires x == n * q;
            vstd::arithmetic::div_mod::lemma_mod_multiples_basic(-q, n);
        }
        if (-x) % n == 0 {
            let q = (-x) / n;
            assert(x == (-q) * n) by (nonlinear_arith) requires -x == n * q;
            vstd::arithmetic::div_mod::lemma_mod_multiples_basic(-q, n);
        }
    }
}

proof fn lemma_week_start_monotone(s: int, d: int)
    requires
        s <= d,
    ensures
        week_start(s) <= week_start(d),
        (week_start(d) - week_start(s)) % 7 == 0,
{
    assert(week_start(s) <= week_start(d) && (week_start(d) - week_start(s)) % 7 == 0) by (nonlinear_arith)
        requires
            s <= d,
            week_start(s) == s - (s - 1) % 7,
            week_start(d) == d - (d - 1) % 7,
            0 <= (s - 1) % 7 < 7,
            0 <= (d - 1) % 7 < 7,
            (s - 1) == 7 * ((s - 1) / 7) + (s - 1) % 7,
            (d - 1) == 7 * ((d - 1) / 7) + (d - 1) % 7;
}

impl RecurrencePattern {
    /// Whether the pattern, counted from `starts`, falls on `d`.
    pub fn occurs_on(&self, starts: LocalDate, d: LocalDate) -> (r: bool)
        ensures
            r == occurs_on(*self, starts.day_number(), d.day_number()),
    {
        if d.day_num() < starts.day_num() {
            return false;
        }
        match self {
            RecurrencePattern::Daily { interval } => {
                *interval > 0 && divides(d.day_num() as i64 - starts.day_num() as i64, *interval)
            },
            RecurrencePattern::Weekdays => d.weekday() < 5,
            RecurrencePattern::Weekly { interval, weekdays } => {
                if *interval == 0 {
                    return false;
                }
                let wd = (d.weekday() + 1) as u8;
                let mut found = false;
                let mut i: usize = 0;
                while i < weekdays.len()
                    invariant
                        i <= weekdays@.len(),
                        found <==> exists|k: int| 0 <= k < i && weekdays@[k] == wd,
                    decreases weekdays@.len() - i,
                {
                    if weekdays[i] == wd {
                        found = true;
                    }
                    i += 1;
                }
                assert(found <==> weekdays@.contains(wd));
                if !found {
                    return false;
                }
                let ws_d = d.day_num() as i64 - d.weekday() as i64;
                let ws_s = starts.day_num() as i64 - starts.weekday() as i64;
                proof { lemma_week_start_monotone(starts.day_number(), d.day_number()); }
                let weeks = ((ws_d - ws_s) as u64) / 7;
                assert(weeks == (week_start(d.day_number()) - week_start(starts.day_number())) / 7);
                divides(weeks as i64, *interval)
            },
            RecurrencePattern::Monthly { interval, day_of_month } => {
                if *interval == 0 {
                    return false;
                }
                let offset = (d.year() as i64 * 12 + d.month() as i64 - 1)
                    - (starts.year() as i64 * 12 + starts.month() as i64 - 1);
                if !divides(offset, *interval) {
                    return false;
                }
                let day = clamp_month_day(d.year(), d.month(), *day_of_month);
                match LocalDate::from_ymd(d.year(), d.month(), day) {
                    Some(c) => c.day_num() == d.day_num(),
                    None => false,
                }
            },
        }
    }
}

} // verus!

verus! {

pub open spec fn max_int(a: int, b: int) -> int {
    if a >= b { a } else { b }
}

/// No day in `lo..=hi` is an occurrence.
pub open spec fn none_between(p: RecurrencePattern, starts: int, lo: int, hi: int) -> bool {
    forall|x: int| lo <= x <= hi ==> !#[trigger] occurs_on(p, starts, x)
}

pub open spec fn within_end(ends: Option<LocalDate>, d: int) -> bool {
    match ends {
        Some(e) => d <= e.day_number(),
        None => true,
    }
}

/// The error for a date past the range of supported dates.
pub fn date_range_error() -> (e: DomainError)
    ensures
        e.code@ == "RECURRENCE_DATE_INVALID"@,
        e.field is None,
{
    DomainError::new("RECURRENCE_DATE_INVALID", "recurrence date exceeds supported values", None)
}

/// The first occurrence of the pattern (counted from `starts`, ending after `ends` when given)
/// on or after `from`. The search looks one period of the pattern ahead of its first candidate
/// day; within the Gregorian calendar every such period holds an occurrence of a valid pattern.
pub fn next_on_or_after(p: &RecurrencePattern, starts: LocalDate, ends: Option<LocalDate>, from: LocalDate)
    -> (r: Result<Option<LocalDate>, DomainError>)
    ensures
        ({
            let lo = max_int(from.day_number(), starts.day_number());
            &&& r matches Ok(Some(d)) ==> lo <= d.day_number() && within_end(ends, d.day_number())
                && occurs_on(*p, starts.day_number(), d.day_number())
                && none_between(*p, starts.day_number(), lo, d.day_number() - 1)
            &&& r matches Ok(None) ==> none_between(*p, starts.day_number(), lo,
                match ends {
                    Some(e) if e.day_number() < lo + search_span(*p) => e.day_number(),
                    _ => lo + search_span(*p),
                })
            &&& r matches Err(e) ==> e.code@ == "RECURRENCE_DATE_INVALID"@
                && exists|x: int| lo <= x && !date_in_range(x + 1) && none_between(*p, starts.day_number(), lo, x)
        }),
{
    let mut d = if from.day_num() >= starts.day_num() { from } else { starts };
    let ghost lo = d.day_number();
    let span: i64 = match p {
        RecurrencePattern::Daily { interval } => *interval as i64,
        RecurrencePattern::Weekdays => 7,
        RecurrencePattern::Weekly { interval, .. } => 7 * (*interval as i64) + 7,
        RecurrencePattern::Monthly { interval, .. } => 372 * (*interval as i64) + 31,
    };
    let limit: i64 = d.day_num() as i64 + span;
    loop
        invariant
            lo == max_int(from.day_number(), starts.day_number()),
            lo <= d.day_number(),
            limit == lo + search_span(*p),
            none_between(*p, starts.day_number(), lo, d.day_number() - 1),
        decreases limit + 1 - d.day_number(),
    {
        if let Some(e) = ends {
            if d.day_num() > e.day_num() {
                return Ok(None);
            }
        }
        if d.day_num() as i64 > limit {
            return Ok(None);
        }
        if p.occurs_on(starts, d) {
            return Ok(Some(d));
        }
        match d.add_days(1) {
            Some(next) => {
                d = next;
            },
            None => {
                assert(none_between(*p, starts.day_number(), lo, d.day_number()));
                return Err(date_range_error());
            },
        }
    }
}

pub open spec fn day_numbers(v: Seq<LocalDate>) -> Seq<int> {
    v.map_values(|d: LocalDate| d.day_number())
}

/// The occurrences within `lo..=hi`, in order.
pub open spec fn occurrences_between(p: RecurrencePattern, starts: int, ends: Option<LocalDate>, lo: int, hi: int) -> Seq<int>
    decreases hi - lo + 1,
{
    if hi < lo {
        Seq::empty()
    } else {
        let prev = occurrences_between(p, starts, ends, lo, hi - 1);
        if occurs_on(p, starts, hi) && within_end(ends, hi) {
            prev.push(hi)
        } else {
            prev
        }
    }
}

/// The occurrences in a range are strictly increasing and lie within it: generating a range
/// yields each date at most once, so a rule gets at most one instance per date.
pub proof fn lemma_occurrences_increasing(p: RecurrencePattern, starts: int, ends: Option<LocalDate>, lo: int, hi: int)
    ensures
        forall|i: int, j: int| 0 <= i < j < occurrences_between(p, starts, ends, lo, hi).len()
            ==> occurrences_between(p, starts, ends, lo, hi)[i] < occurrences_between(p, starts, ends, lo, hi)[j],
        forall|i: int| 0 <= i < occurrences_between(p, starts, ends, lo, hi).len()
            ==> lo <= #[trigger] occurrences_between(p, starts, ends, lo, hi)[i] <= hi,
    decreases hi - lo + 1,
{
    let s = occurrences_between(p, starts, ends, lo, hi);
    if hi >= lo {
        lemma_occurrences_increasing(p, starts, ends, lo, hi - 1);
        let prev = occurrences_between(p, starts, ends, lo, hi - 1);
        assert forall|i: int| 0 <= i < s.len() implies lo <= #[trigger] s[i] <= hi by {
            if i < prev.len() {
                assert(s[i] == prev[i]);
            }
        }
        assert forall|i: int, j: int| 0 <= i < j < s.len() implies s[i] < s[j] by {
            assert(s[i] == prev[i]);
            if j < prev.len() {
                assert(s[j] == prev[j]);
            } else {
                assert(s[j] == hi);
                assert(prev[i] <= hi - 1);
            }
        }
    }
}

/// Every occurrence of the pattern (counted from `starts`, ending after `ends` when given)
/// from `range_start` to `range_end`, in order.
pub fn occurrences_in(p: &RecurrencePattern, starts: LocalDate, ends: Option<LocalDate>, range_start: LocalDate, range_end: LocalDate)
    -> (r: Vec<LocalDate>)
    ensures
        day_numbers(r@) == occurrences_between(*p, starts.day_number(), ends, range_start.day_number(), range_end.day_number()),
{
    let mut out: Vec<LocalDate> = Vec::new();
    if range_end.day_num() < range_start.day_num() {
        return out;
    }
    let mut d = range_start;
    loop
        invariant
            range_start.day_number() <= d.day_number() <= range_end.day_number(),
            day_numbers(out@) == occurrences_between(*p, starts.day_number(), ends, range_start.day_number(), d.day_number() - 1),
        decreases range_end.day_number() - d.day_number(),
    {
        let within = match ends {
            Some(e) => d.day_num() <= e.day_num(),
            None => true,
        };
        if within && p.occurs_on(starts, d) {
            out.push(d);
        }
        assert(day_numbers(out@) == occurrences_between(*p, starts.day_number(), ends, range_start.day_number(), d.day_number()));
        if d.day_num() == range_end.day_num() {
            return out;
        }
        match d.add_days(1) {
            Some(next) => { d = next; },
            None => {
                assert(false);
                return out;
            },
        }
    }
}

} // verus!

verus! {

/// The weekday number of day `d`, 1 (Monday) to 7 (Sunday). Day 1, 1 January of year 1 in the
/// proleptic Gregorian calendar, was a Monday, so the days whose numbers 7 divides are Sundays.
pub open spec fn iso_weekday(d: int) -> int {
    if d % 7 == 0 { 7 } else { d % 7 }
}

/// The day number of the Monday that opens the calendar week (Monday to Sunday) holding `d`.
pub open spec fn monday_of(d: int) -> int {
    d - (iso_weekday(d) - 1)
}

/// A weekly pattern falls on day `d` exactly when `d` is not before the start, `d`'s weekday
/// number (1 = Monday .. 7 = Sunday) is listed, and the calendar week holding `d` lies a
/// whole multiple of `interval` weeks after the week holding the start (weeks counted
/// Monday to Monday, not from the start day itself).
pub proof fn law_weekly_occurrence(interval: u32, weekdays: Vec<u8>, starts: int, d: int)
    requires
        interval > 0,
    ensures
        occurs_on((RecurrencePattern::Weekly { interval, weekdays }), starts, d) <==> (
            starts <= d
            && weekdays@.contains(iso_weekday(d) as u8)
            && ((monday_of(d) - monday_of(starts)) / 7) % (interval as int) == 0
        ),
{
    assert(iso_weekday(d) == weekday_of(d) + 1);
    assert(iso_weekday(starts) == weekday_of(starts) + 1);
    assert(monday_of(d) == week_start(d));
    assert(monday_of(starts) == week_start(starts));
}

/// A weekly reminder on weekday 7 with interval 1 falls on every Sunday from its start on.
pub proof fn law_weekly_sunday_is_seven(weekdays: Vec<u8>, starts: int, d: int)
    requires
        weekdays@.contains(7u8),
        starts <= d,
        d % 7 == 0,
    ensures
        occurs_on((RecurrencePattern::Weekly { interval: 1, weekdays }), starts, d),
{
    law_weekly_occurrence(1, weekdays, starts, d);
}

/// A daily pattern falls on the start and then every `interval` days, and on no other day.
pub proof fn law_daily_occurrence(interval: u32, starts: int, d: int)
    requires
        interval > 0,
    ensures
        occurs_on((RecurrencePattern::Daily { interval }), starts, d)
            <==> exists|k: int| k >= 0 && #[trigger] (k * (interval as int)) == d - starts,
{
    let n = interval as int;
    if occurs_on((RecurrencePattern::Daily { interval }), starts, d) {
        let k = (d - starts) / n;
        vstd::arithmetic::div_mod::lemma_fundamental_div_mod(d - starts, n);
        assert(k * n == d - starts) by (nonlinear_arith)
            requires d - starts == n * ((d - starts) / n) + (d - starts) % n, (d - starts) % n == 0, k == (d - starts) / n;
        assert(k >= 0) by (nonlinear_arith)
            requires k * n == d - starts, d - starts >= 0, n > 0;
    }
    if exists|k: int| k >= 0 && #[trigger] (k * n) == d - starts {
        let k = choose|k: int| k >= 0 && #[trigger] (k * n) == d - starts;
        assert(d - starts >= 0) by (nonlinear_arith) requires k >= 0, n > 0, k * n == d - starts;
        vstd::arithmetic::div_mod::lemma_mod_multiples_basic(k, n);
    }
}

/// A weekday pattern falls on every Monday to Friday from the start on, and never on a
/// Saturday or Sunday.
pub proof fn law_weekdays_occurrence(starts: int, d: int)
    ensures
        occurs_on(RecurrencePattern::Weekdays, starts, d) <==> (starts <= d && 1 <= iso_weekday(d) <= 5),
{
    assert(iso_weekday(d) == weekday_of(d) + 1);
}

/// The clamped day is at most the asked day, and no day of the month after it, up to the
/// asked day, exists.
proof fn lemma_clamp_day(year: int, month: int, day: int)
    ensures
        clamp_day(year, month, day) <= day,
        forall|j: int| clamp_day(year, month, day) < j <= day ==> #[trigger] calendar_date(year, month, j) is None,
    decreases day,
{
    if day <= 28 || calendar_date(year, month, day) is Some {
    } else {
        lemma_clamp_day(year, month, day - 1);
    }
}

/// A monthly pattern falls only on a day a whole multiple of `interval` calendar months after
/// the start's month, not before the start, that is the asked day of its month or, when the
/// month is too short for it, the last day the month has before it.
pub proof fn law_monthly_occurrence(interval: u32, day_of_month: u8, starts: int, d: int)
    requires
        occurs_on((RecurrencePattern::Monthly { interval, day_of_month }), starts, d),
    ensures
        starts <= d,
        ((date_year(d) - date_year(starts)) * 12 + date_month(d) - date_month(starts)) % (interval as int) == 0,
        exists|k: int| k <= day_of_month
            && #[trigger] calendar_date(date_year(d), date_month(d), k) == Some(d)
            && forall|j: int| k < j <= day_of_month ==> #[trigger] calendar_date(date_year(d), date_month(d), j) is None,
{
    let k = clamp_day(date_year(d), date_month(d), day_of_month as int);
    lemma_clamp_day(date_year(d), date_month(d), day_of_month as int);
    assert(month_index(d) - month_index(starts)
        == (date_year(d) - date_year(starts)) * 12 + date_month(d) - date_month(starts));
    assert(calendar_date(date_year(d), date_month(d), k) == Some(d));
}

} // verus!
