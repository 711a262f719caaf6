//! The calendar view: the week, month or year around a date, and the planned tasks,
//! completed tasks and focus sessions of each of its days in the viewer's time zone.
use vstd::prelude::*;
use crate::error::{fails_on, fails_with, DomainError};
use crate::order::{
    compare_optional_time, compare_text, consistent, int_order, lemma_int_order, lemma_opt_text_order,
    lemma_text_order, lemma_then_consistent, lemma_then_reverse, opt_text_order, reverse,
    compare_none_first_text, compare_timestamps, instant_order, lemma_instant_order,
    lemma_none_first_text_order, none_first_text_order,
    sort_by_order, sorted_by, text_order, then, then_order, Order, OrderOn,
};
use crate::text::opt_text;
use crate::time::{
    calendar_date, clock_text, date_in_range, date_month, date_text, date_year, first_existing,
    format_clock, is_known_zone, local_time_of, parse_rfc3339, parsed_date, parsed_rfc3339,
    resolve_local, rfc3339_text, to_rfc3339, weekday_of, zone_known, zone_local, LocalDate, UtcInstant,
    local_day_is_supported, local_day_supported,
};

verus! {

#[derive(Clone, Copy, Debug, PartialEq, Eq, Structural)]
pub enum CalendarPeriod {
    Week,
    Month,
    Year,
}

/// The stored names of the calendar's kinds and statuses.
pub open spec fn calendar_source_text(k: CalendarSourceKind) -> Seq<char> {
    match k {
        CalendarSourceKind::Task => "task"@,
        CalendarSourceKind::RecurringInstance => "recurringInstance"@,
    }
}

pub open spec fn calendar_status_text(s: CalendarTaskStatus) -> Seq<char> {
    match s {
        CalendarTaskStatus::Pending => "pending"@,
        CalendarTaskStatus::Completed => "completed"@,
        CalendarTaskStatus::Skipped => "skipped"@,
        CalendarTaskStatus::Rescheduled => "rescheduled"@,
    }
}

pub open spec fn calendar_completion_text(k: CalendarCompletionKind) -> Seq<char> {
    match k {
        CalendarCompletionKind::Deadline => "deadline"@,
        CalendarCompletionKind::Early => "early"@,
    }
}

pub fn parse_calendar_source(name: &str) -> (r: Option<CalendarSourceKind>)
    ensures
        forall|k: CalendarSourceKind| r == Some(k) <==> calendar_source_text(k) == name@,
{
    proof {
        reveal_strlit("task");
        reveal_strlit("recurringInstance");
        assert("task"@.len() != "recurringInstance"@.len());
    }
    if crate::text::same_text(name, "task") {
        Some(CalendarSourceKind::Task)
    } else if crate::text::same_text(name, "recurringInstance") {
        Some(CalendarSourceKind::RecurringInstance)
    } else {
        None
    }
}

pub fn parse_calendar_status(name: &str) -> (r: Option<CalendarTaskStatus>)
    ensures
        forall|k: CalendarTaskStatus| r == Some(k) <==> calendar_status_text(k) == name@,
{
    proof {
        reveal_strlit("pending");
        reveal_strlit("completed");
        reveal_strlit("skipped");
        reveal_strlit("rescheduled");
        assert("pending"@.len() == 7 && "completed"@.len() == 9 && "skipped"@.len() == 7 && "rescheduled"@.len() == 11);
        assert("pending"@[0] != "skipped"@[0]);
    }
    if crate::text::same_text(name, "pending") {
        Some(CalendarTaskStatus::Pending)
    } else if crate::text::same_text(name, "completed") {
        Some(CalendarTaskStatus::Completed)
    } else if crate::text::same_text(name, "skipped") {
        Some(CalendarTaskStatus::Skipped)
    } else if crate::text::same_text(name, "rescheduled") {
        Some(CalendarTaskStatus::Rescheduled)
    } else {
        None
    }
}

pub fn parse_calendar_completion(name: &str) -> (r: Option<CalendarCompletionKind>)
    ensures
        forall|k: CalendarCompletionKind| r == Some(k) <==> calendar_completion_text(k) == name@,
{
    proof {
        reveal_strlit("deadline");
        reveal_strlit("early");
        assert("deadline"@.len() != "early"@.len());
    }
    if crate::text::same_text(name, "deadline") {
        Some(CalendarCompletionKind::Deadline)
    } else if crate::text::same_text(name, "early") {
        Some(CalendarCompletionKind::Early)
    } else {
        None
    }
}

/// The seconds of a stored session; a negative count is a corrupt row.
pub fn session_seconds(actual: i64) -> (r: Option<u64>)
    ensures
        actual >= 0 <==> r is Some,
        r matches Some(v) ==> v == actual,
{
    if actual >= 0 { Some(actual as u64) } else { None }
}

/// An error of the calendar.
pub fn calendar_error(code: &str, message: &str, field: Option<&str>) -> (e: DomainError)
    ensures
        e.code@ == code@,
        e.message@ == message@,
        opt_text(e.field) == (match field { Some(f) => Some(f@), None => None }),
{
    DomainError::new(code, message, field)
}

fn range_error() -> (e: DomainError)
    ensures
        e.code@ == "CALENDAR_DATE_INVALID"@,
{
    calendar_error("CALENDAR_DATE_INVALID", "calendar period exceeds supported dates", None)
}

/// The date `year-month-day`, or `CALENDAR_DATE_INVALID`.
pub fn date(year: i32, month: u32, day: u32) -> (r: Result<LocalDate, DomainError>)
    ensures
        r is Ok <==> calendar_date(year as int, month as int, day as int) is Some,
        r matches Ok(d) ==> calendar_date(year as int, month as int, day as int) == Some(d.day_number()),
        r is Err ==> fails_with(r, "CALENDAR_DATE_INVALID"@),
{
    match LocalDate::from_ymd(year, month, day) {
        Some(d) => Ok(d),
        None => Err(range_error()),
    }
}

/// Day `b` lies in the same calendar month as day `a` (for a month period) or in the same
/// calendar year (for a year period).
pub open spec fn same_unit(period: CalendarPeriod, a: int, b: int) -> bool {
    match period {
        CalendarPeriod::Year => date_year(a) == date_year(b),
        _ => date_year(a) == date_year(b) && date_month(a) == date_month(b),
    }
}

/// The first day of the unbroken run of days, ending at `x`, in `anchor`'s month (or year).
pub open spec fn run_start(period: CalendarPeriod, anchor: int, x: int) -> int
    decreases x + 95_746_129,
{
    if date_in_range(x - 1) && same_unit(period, x - 1, anchor) { run_start(period, anchor, x - 1) } else { x }
}

/// The last day of the unbroken run of days, starting at `x`, in `anchor`'s month (or year).
pub open spec fn run_end(period: CalendarPeriod, anchor: int, x: int) -> int
    decreases 95_745_399 - x,
{
    if date_in_range(x + 1) && same_unit(period, x + 1, anchor) { run_end(period, anchor, x + 1) } else { x }
}

/// The first and last day of the period holding `anchor`: its Monday-to-Sunday week, or the
/// days of its calendar month or year. `None` when the period reaches past the supported
/// dates (no day follows its last one).
pub open spec fn period_spec(period: CalendarPeriod, anchor: int) -> Option<(int, int)> {
    match period {
        CalendarPeriod::Week => {
            let s = anchor - weekday_of(anchor);
            if date_in_range(s) && date_in_range(s + 6) { Some((s, s + 6)) } else { None }
        },
        _ => {
            let e = run_end(period, anchor, anchor);
            if date_in_range(e + 1) { Some((run_start(period, anchor, anchor), e)) } else { None }
        },
    }
}

fn same_unit_as(period: CalendarPeriod, d: &LocalDate, year: i32, month: u32) -> (r: bool)
    requires
        period != CalendarPeriod::Week,
    ensures
        r == (date_year(d.day_number()) == year && (period == CalendarPeriod::Year || date_month(d.day_number()) == month)),
{
    d.year() == year && (period == CalendarPeriod::Year || d.month() == month)
}

pub fn period_bounds(period: CalendarPeriod, anchor: LocalDate) -> (r: Result<(LocalDate, LocalDate), DomainError>)
    ensures
        match period_spec(period, anchor.day_number()) {
            Some((s, e)) => r matches Ok((a, b)) && a.day_number() == s && b.day_number() == e,
            None => fails_with(r, "CALENDAR_DATE_INVALID"@),
        },
{
    if period == CalendarPeriod::Week {
        let starts = match anchor.add_days(-(anchor.weekday() as i64)) {
            Some(d) => d,
            None => return Err(range_error()),
        };
        let ends = match starts.add_days(6) {
            Some(d) => d,
            None => return Err(range_error()),
        };
        return Ok((starts, ends));
    }
    let ghost a = anchor.day_number();
    let y = anchor.year();
    let m = anchor.month();
    let mut starts = anchor;
    loop
        invariant
            period != CalendarPeriod::Week,
            y == date_year(a) && m == date_month(a),
            run_start(period, a, starts.day_number()) == run_start(period, a, a),
        ensures
            run_start(period, a, starts.day_number()) == starts.day_number(),
            run_start(period, a, a) == starts.day_number(),
        decreases starts.day_number() + 95_746_129,
    {
        let prev = match starts.add_days(-1) {
            Some(p) => p,
            None => break,
        };
        if same_unit_as(period, &prev, y, m) {
            starts = prev;
        } else {
            break;
        }
    }
    let mut ends = anchor;
    loop
        invariant
            period != CalendarPeriod::Week,
            y == date_year(a) && m == date_month(a),
            run_end(period, a, ends.day_number()) == run_end(period, a, a),
        ensures
            run_end(period, a, a) == ends.day_number(),
        decreases 95_745_399 - ends.day_number(),
    {
        let next = match ends.add_days(1) {
            Some(n) => n,
            None => break,
        };
        if same_unit_as(period, &next, y, m) {
            ends = next;
        } else {
            break;
        }
    }
    match ends.add_days(1) {
        Some(_) => Ok((starts, ends)),
        None => Err(range_error()),
    }
}

proof fn lemma_run_start(period: CalendarPeriod, anchor: int, x: int)
    requires
        date_in_range(x),
        same_unit(period, x, anchor),
    ensures
        run_start(period, anchor, x) <= x,
        date_in_range(run_start(period, anchor, x)),
        forall|z: int| run_start(period, anchor, x) <= z <= x ==> #[trigger] same_unit(period, z, anchor),
        !(date_in_range(run_start(period, anchor, x) - 1) && same_unit(period, run_start(period, anchor, x) - 1, anchor)),
    decreases x + 95_746_129,
{
    if date_in_range(x - 1) && same_unit(period, x - 1, anchor) {
        lemma_run_start(period, anchor, x - 1);
    }
}

proof fn lemma_run_end(period: CalendarPeriod, anchor: int, x: int)
    requires
        date_in_range(x),
        same_unit(period, x, anchor),
    ensures
        x <= run_end(period, anchor, x),
        date_in_range(run_end(period, anchor, x)),
        forall|z: int| x <= z <= run_end(period, anchor, x) ==> #[trigger] same_unit(period, z, anchor),
        !(date_in_range(run_end(period, anchor, x) + 1) && same_unit(period, run_end(period, anchor, x) + 1, anchor)),
    decreases 95_745_399 - x,
{
    if date_in_range(x + 1) && same_unit(period, x + 1, anchor) {
        lemma_run_end(period, anchor, x + 1);
    }
}

/// A month (year) period holds its anchor and is exactly the anchor's calendar month (year):
/// every day from its first to its last lies in the anchor's month (year), and the day before
/// its first and the day after its last do not.
pub proof fn lemma_month_and_year_periods(period: CalendarPeriod, anchor: int)
    requires
        period != CalendarPeriod::Week,
        date_in_range(anchor),
        period_spec(period, anchor) is Some,
    ensures
        ({
            let (s, e) = period_spec(period, anchor)->0;
            &&& s <= anchor <= e
            &&& forall|z: int| s <= z <= e ==> #[trigger] same_unit(period, z, anchor)
            &&& !(date_in_range(s - 1) && same_unit(period, s - 1, anchor))
            &&& !same_unit(period, e + 1, anchor)
        }),
{
    lemma_run_start(period, anchor, anchor);
    lemma_run_end(period, anchor, anchor);
}

/// A week period starts on a Monday, ends six days later on a Sunday, and holds its anchor.
pub proof fn lemma_week_period(anchor: int)
    requires
        period_spec(CalendarPeriod::Week, anchor) is Some,
    ensures
        ({
            let (s, e) = period_spec(CalendarPeriod::Week, anchor)->0;
            &&& weekday_of(s) == 0
            &&& weekday_of(e) == 6
            &&& e == s + 6
            &&& s <= anchor <= e
        }),
{
    let s = anchor - weekday_of(anchor);
    assert(weekday_of(s) == 0 && 0 <= weekday_of(anchor) < 7) by (nonlinear_arith)
        requires s == anchor - (anchor - 1) % 7;
    assert(weekday_of(s + 6) == 6) by (nonlinear_arith)
        requires (s - 1) % 7 == 0;
}

} // verus!

verus! {

#[derive(Clone, Copy, Debug, PartialEq, Eq, Structural)]
pub enum CalendarSourceKind {
    Task,
    RecurringInstance,
}

#[derive(Clone, Copy, Debug, PartialEq, Eq, Structural)]
pub enum CalendarTaskStatus {
    Pending,
    Completed,
    Skipped,
    Rescheduled,
}

#[derive(Clone, Copy, Debug, PartialEq, Eq, Structural)]
pub enum CalendarCompletionKind {
    Deadline,
    Early,
}

/// A project as the calendar shows it.
#[derive(Debug)]
pub struct CalendarProject {
    pub id: String,
    pub name: String,
    pub color: String,
    pub icon: String,
    pub status: String,
}

/// A task or recurring instance on the calendar.
#[derive(Debug)]
pub struct CalendarTaskItem {
    pub source_kind: CalendarSourceKind,
    pub source_id: String,
    pub title: String,
    pub category: String,
    pub project: Option<CalendarProject>,
    pub scheduled_date: Option<String>,
    pub scheduled_time: Option<String>,
    pub status: CalendarTaskStatus,
    pub completed_at: Option<String>,
}

/// A calendar item as read, with the stored instant and zone of a recurring instance.
#[derive(Debug)]
pub struct CalendarTaskCandidate {
    pub item: CalendarTaskItem,
    pub scheduled_at: Option<String>,
    pub timezone: Option<String>,
}

/// A finished focus session on the calendar.
#[derive(Debug)]
pub struct CalendarFocusSession {
    pub id: String,
    pub title: String,
    pub category: String,
    pub project: Option<CalendarProject>,
    pub actual_seconds: u64,
    pub completion_kind: CalendarCompletionKind,
    pub started_at: String,
    pub ended_at: String,
}

/// One day of the calendar.
#[derive(Debug)]
pub struct CalendarDay {
    pub date: String,
    pub planned_tasks: Vec<CalendarTaskItem>,
    pub completed_tasks: Vec<CalendarTaskItem>,
    pub focus_sessions: Vec<CalendarFocusSession>,
}

/// The calendar of a period.
#[derive(Debug)]
pub struct CalendarPeriodResult {
    pub period: CalendarPeriod,
    pub starts_on: String,
    pub ends_on: String,
    pub days: Vec<CalendarDay>,
    pub projects: Vec<CalendarProject>,
}

pub open spec fn parsed_opt(t: Option<String>) -> Option<(int, int)> {
    match t {
        Some(s) => parsed_rfc3339(s@),
        None => None,
    }
}

/// Planned items: by date (undated first), timed before untimed, by time, title and source.
pub open spec fn planned_order(a: CalendarTaskItem, b: CalendarTaskItem) -> Order {
    then(none_first_text_order(opt_text(a.scheduled_date), opt_text(b.scheduled_date)),
    then(opt_text_order(opt_text(a.scheduled_time), opt_text(b.scheduled_time)),
    then(text_order(a.title@, b.title@), text_order(a.source_id@, b.source_id@))))
}

/// Completed items: by completion instant, title and source.
pub open spec fn completed_order(a: CalendarTaskItem, b: CalendarTaskItem) -> Order {
    then(instant_order(parsed_opt(a.completed_at), parsed_opt(b.completed_at)),
    then(text_order(a.title@, b.title@), text_order(a.source_id@, b.source_id@)))
}

/// Focus sessions: by end instant, then id.
pub open spec fn session_order(a: CalendarFocusSession, b: CalendarFocusSession) -> Order {
    then(instant_order(parsed_rfc3339(a.ended_at@), parsed_rfc3339(b.ended_at@)), text_order(a.id@, b.id@))
}

pub fn compare_planned(left: &CalendarTaskItem, right: &CalendarTaskItem) -> (r: Order)
    ensures
        r == planned_order(*left, *right),
{
    then_order(compare_none_first_text(&left.scheduled_date, &right.scheduled_date),
    then_order(compare_optional_time(&left.scheduled_time, &right.scheduled_time),
    then_order(compare_text(left.title.as_str(), right.title.as_str()),
        compare_text(left.source_id.as_str(), right.source_id.as_str()))))
}

pub fn compare_completed(left: &CalendarTaskItem, right: &CalendarTaskItem) -> (r: Order)
    ensures
        r == completed_order(*left, *right),
{
    let a = match &left.completed_at {
        Some(t) => Some(t.as_str()),
        None => None,
    };
    let b = match &right.completed_at {
        Some(t) => Some(t.as_str()),
        None => None,
    };
    then_order(compare_timestamps(a, b),
    then_order(compare_text(left.title.as_str(), right.title.as_str()),
        compare_text(left.source_id.as_str(), right.source_id.as_str())))
}

pub fn compare_sessions(left: &CalendarFocusSession, right: &CalendarFocusSession) -> (r: Order)
    ensures
        r == session_order(*left, *right),
{
    then_order(compare_timestamps(Some(left.ended_at.as_str()), Some(right.ended_at.as_str())),
        compare_text(left.id.as_str(), right.id.as_str()))
}

pub proof fn lemma_planned_order(x: CalendarTaskItem, y: CalendarTaskItem, z: CalendarTaskItem)
    ensures
        consistent(planned_order(x, y), planned_order(y, z), planned_order(x, z)),
        planned_order(y, x) == reverse(planned_order(x, y)),
{
    lemma_none_first_text_order(opt_text(x.scheduled_date), opt_text(y.scheduled_date), opt_text(z.scheduled_date));
    lemma_opt_text_order(opt_text(x.scheduled_time), opt_text(y.scheduled_time), opt_text(z.scheduled_time));
    lemma_text_order(x.title@, y.title@, z.title@);
    lemma_text_order(x.source_id@, y.source_id@, z.source_id@);
    let t3 = |p: CalendarTaskItem, q: CalendarTaskItem| then(text_order(p.title@, q.title@), text_order(p.source_id@, q.source_id@));
    lemma_then_consistent(text_order(x.title@, y.title@), text_order(y.title@, z.title@), text_order(x.title@, z.title@),
        text_order(x.source_id@, y.source_id@), text_order(y.source_id@, z.source_id@), text_order(x.source_id@, z.source_id@));
    let t2 = |p: CalendarTaskItem, q: CalendarTaskItem| then(opt_text_order(opt_text(p.scheduled_time), opt_text(q.scheduled_time)), t3(p, q));
    lemma_then_consistent(
        opt_text_order(opt_text(x.scheduled_time), opt_text(y.scheduled_time)),
        opt_text_order(opt_text(y.scheduled_time), opt_text(z.scheduled_time)),
        opt_text_order(opt_text(x.scheduled_time), opt_text(z.scheduled_time)),
        t3(x, y), t3(y, z), t3(x, z));
    lemma_then_consistent(
        none_first_text_order(opt_text(x.scheduled_date), opt_text(y.scheduled_date)),
        none_first_text_order(opt_text(y.scheduled_date), opt_text(z.scheduled_date)),
        none_first_text_order(opt_text(x.scheduled_date), opt_text(z.scheduled_date)),
        t2(x, y), t2(y, z), t2(x, z));
    lemma_then_reverse(text_order(x.title@, y.title@), text_order(x.source_id@, y.source_id@));
    lemma_then_reverse(opt_text_order(opt_text(x.scheduled_time), opt_text(y.scheduled_time)), t3(x, y));
    lemma_then_reverse(none_first_text_order(opt_text(x.scheduled_date), opt_text(y.scheduled_date)), t2(x, y));
}

pub proof fn lemma_completed_order(x: CalendarTaskItem, y: CalendarTaskItem, z: CalendarTaskItem)
    ensures
        consistent(completed_order(x, y), completed_order(y, z), completed_order(x, z)),
        completed_order(y, x) == reverse(completed_order(x, y)),
{
    lemma_instant_order(parsed_opt(x.completed_at), parsed_opt(y.completed_at), parsed_opt(z.completed_at));
    lemma_text_order(x.title@, y.title@, z.title@);
    lemma_text_order(x.source_id@, y.source_id@, z.source_id@);
    let t2 = |p: CalendarTaskItem, q: CalendarTaskItem| then(text_order(p.title@, q.title@), text_order(p.source_id@, q.source_id@));
    lemma_then_consistent(text_order(x.title@, y.title@), text_order(y.title@, z.title@), text_order(x.title@, z.title@),
        text_order(x.source_id@, y.source_id@), text_order(y.source_id@, z.source_id@), text_order(x.source_id@, z.source_id@));
    lemma_then_consistent(
        instant_order(parsed_opt(x.completed_at), parsed_opt(y.completed_at)),
        instant_order(parsed_opt(y.completed_at), parsed_opt(z.completed_at)),
        instant_order(parsed_opt(x.completed_at), parsed_opt(z.completed_at)),
        t2(x, y), t2(y, z), t2(x, z));
    lemma_then_reverse(text_order(x.title@, y.title@), text_order(x.source_id@, y.source_id@));
    lemma_then_reverse(instant_order(parsed_opt(x.completed_at), parsed_opt(y.completed_at)), t2(x, y));
}

pub proof fn lemma_session_order(x: CalendarFocusSession, y: CalendarFocusSession, z: CalendarFocusSession)
    ensures
        consistent(session_order(x, y), session_order(y, z), session_order(x, z)),
        session_order(y, x) == reverse(session_order(x, y)),
{
    lemma_instant_order(parsed_rfc3339(x.ended_at@), parsed_rfc3339(y.ended_at@), parsed_rfc3339(z.ended_at@));
    lemma_text_order(x.id@, y.id@, z.id@);
    lemma_then_consistent(
        instant_order(parsed_rfc3339(x.ended_at@), parsed_rfc3339(y.ended_at@)),
        instant_order(parsed_rfc3339(y.ended_at@), parsed_rfc3339(z.ended_at@)),
        instant_order(parsed_rfc3339(x.ended_at@), parsed_rfc3339(z.ended_at@)),
        text_order(x.id@, y.id@), text_order(y.id@, z.id@), text_order(x.id@, z.id@));
    lemma_then_reverse(instant_order(parsed_rfc3339(x.ended_at@), parsed_rfc3339(y.ended_at@)), text_order(x.id@, y.id@));
}

pub struct PlannedOrder;
pub struct CompletedOrder;
pub struct SessionOrder;

impl OrderOn<CalendarTaskItem> for PlannedOrder {
    open spec fn precedes(a: CalendarTaskItem, b: CalendarTaskItem) -> bool {
        planned_order(a, b) != Order::Greater
    }

    proof fn lemma_total(a: CalendarTaskItem, b: CalendarTaskItem) {
        lemma_planned_order(a, b, b);
    }

    proof fn lemma_transitive(a: CalendarTaskItem, b: CalendarTaskItem, c: CalendarTaskItem) {
        lemma_planned_order(a, b, c);
    }

    fn precedes_exec(a: &CalendarTaskItem, b: &CalendarTaskItem) -> (r: bool) {
        compare_planned(a, b) != Order::Greater
    }
}

impl OrderOn<CalendarTaskItem> for CompletedOrder {
    open spec fn precedes(a: CalendarTaskItem, b: CalendarTaskItem) -> bool {
        completed_order(a, b) != Order::Greater
    }

    proof fn lemma_total(a: CalendarTaskItem, b: CalendarTaskItem) {
        lemma_completed_order(a, b, b);
    }

    proof fn lemma_transitive(a: CalendarTaskItem, b: CalendarTaskItem, c: CalendarTaskItem) {
        lemma_completed_order(a, b, c);
    }

    fn precedes_exec(a: &CalendarTaskItem, b: &CalendarTaskItem) -> (r: bool) {
        compare_completed(a, b) != Order::Greater
    }
}

impl OrderOn<CalendarFocusSession> for SessionOrder {
    open spec fn precedes(a: CalendarFocusSession, b: CalendarFocusSession) -> bool {
        session_order(a, b) != Order::Greater
    }

    proof fn lemma_total(a: CalendarFocusSession, b: CalendarFocusSession) {
        lemma_session_order(a, b, b);
    }

    proof fn lemma_transitive(a: CalendarFocusSession, b: CalendarFocusSession, c: CalendarFocusSession) {
        lemma_session_order(a, b, c);
    }

    fn precedes_exec(a: &CalendarFocusSession, b: &CalendarFocusSession) -> (r: bool) {
        compare_sessions(a, b) != Order::Greater
    }
}

} // verus!

verus! {

/// The items whose key is `Some(d)`, in order.
pub open spec fn bucket_of<T>(items: Seq<T>, keys: Seq<Option<Seq<char>>>, d: Seq<char>) -> Seq<T>
    decreases items.len(),
{
    if items.len() == 0 || keys.len() != items.len() {
        Seq::empty()
    } else {
        let prev = bucket_of(items.drop_last(), keys.drop_last(), d);
        if keys.last() == Some(d) {
            prev.push(items.last())
        } else {
            prev
        }
    }
}

/// No earlier date has the same text as `dates[k]`.
pub open spec fn first_date(dates: Seq<String>, k: int) -> bool {
    forall|j: int| 0 <= j < k ==> #[trigger] dates[j]@ != dates[k]@
}

/// The bucket of date `k`: the items keyed to its text, unless an earlier date has the same
/// text (then that one takes them).
pub open spec fn bucket_at<T>(items: Seq<T>, keys: Seq<Option<Seq<char>>>, dates: Seq<String>, k: int) -> Seq<T> {
    if first_date(dates, k) { bucket_of(items, keys, dates[k]@) } else { Seq::empty() }
}

pub open spec fn key_texts(keys: Seq<Option<String>>) -> Seq<Option<Seq<char>>> {
    keys.map_values(|k: Option<String>| opt_text(k))
}

/// Splits the items among the dates: bucket `k` holds, in order, the items whose key is
/// `dates[k]` (the first such date); items whose key matches no date are dropped.
pub fn distribute<T>(dates: &Vec<String>, items: Vec<T>, keys: &Vec<Option<String>>) -> (r: Vec<Vec<T>>)
    requires
        items@.len() == keys@.len(),
    ensures
        r@.len() == dates@.len(),
        forall|k: int| 0 <= k < dates@.len() ==> #[trigger] r@[k]@ == bucket_at(items@, key_texts(keys@), dates@, k),
{
    let ghost all_items = items@;
    let ghost all_keys = key_texts(keys@);
    let n = items.len();
    let mut buckets: Vec<Vec<T>> = Vec::new();
    let mut k: usize = 0;
    while k < dates.len()
        invariant
            k <= dates@.len(),
            buckets@.len() == k,
            forall|j: int| 0 <= j < k ==> (#[trigger] buckets@[j])@ == Seq::<T>::empty(),
        decreases dates@.len() - k,
    {
        buckets.push(Vec::new());
        k += 1;
    }
    let mut input = items;
    let mut i: usize = 0;
    assert(all_items.take(0) =~= Seq::<T>::empty());
    assert(input@ =~= all_items.subrange(0, all_items.len() as int));
    while input.len() > 0
        invariant
            i <= all_items.len(),
            all_items.len() == n,
            all_keys.len() == all_items.len(),
            all_keys == key_texts(keys@),
            input@ =~= all_items.subrange(i as int, all_items.len() as int),
            buckets@.len() == dates@.len(),
            forall|j: int| 0 <= j < dates@.len() ==> (#[trigger] buckets@[j])@
                == bucket_at(all_items.take(i as int), all_keys.take(i as int), dates@, j),
        decreases input@.len(),
    {
        assert(input@.len() == all_items.len() - i);
        let x = input.remove(0);
        assert(x == all_items[i as int]);
        let ghost before = buckets@;
        let mut target: Option<usize> = None;
        let mut j: usize = 0;
        let key = &keys[i];
        while j < dates.len()
            invariant
                j <= dates@.len(),
                target matches Some(t) ==> t < j && opt_text(*key) == Some(dates@[t as int]@)
                    && forall|q: int| 0 <= q < t ==> opt_text(*key) != Some(#[trigger] dates@[q]@),
                target is None ==> forall|q: int| 0 <= q < j ==> opt_text(*key) != Some(#[trigger] dates@[q]@),
            decreases dates@.len() - j,
        {
            if target.is_none() {
                if let Some(kt) = key {
                    if *kt == dates[j] {
                        target = Some(j);
                    }
                }
            }
            j += 1;
        }
        let ghost ti = all_items.take(i as int + 1);
        let ghost tk = all_keys.take(i as int + 1);
        assert(ti.drop_last() =~= all_items.take(i as int));
        assert(tk.drop_last() =~= all_keys.take(i as int));
        assert(ti.last() == x);
        assert(tk.last() == opt_text(*key));
        match target {
            Some(t) => {
                let mut bucket = buckets.remove(t);
                let ghost removed = buckets@;
                proof { before.remove_ensures(t as int); }
                assert(removed =~= before.remove(t as int));
                let ghost old_bucket = bucket@;
                assert(old_bucket == before[t as int]@);
                bucket.push(x);
                let ghost new_bucket = bucket@;
                let ghost bucket_value = bucket;
                buckets.insert(t, bucket);
                proof { removed.insert_ensures(t as int, bucket_value); }
                assert(buckets@[t as int]@ == new_bucket);
                assert(first_date(dates@, t as int)) by {
                    assert forall|j: int| 0 <= j < t implies #[trigger] dates@[j]@ != dates@[t as int]@ by {
                        assert(opt_text(*key) != Some(dates@[j]@));
                    }
                }
                assert forall|q: int| 0 <= q < dates@.len() implies (#[trigger] buckets@[q])@
                    == bucket_at(ti, tk, dates@, q) by {
                    if q == t {
                        assert(bucket_of(ti, tk, dates@[q]@) == bucket_of(ti.drop_last(), tk.drop_last(), dates@[q]@).push(x));
                    } else {
                        if q < t {
                            assert(buckets@[q] == removed[q]);
                            assert(removed[q] == before[q]);
                        } else {
                            assert(buckets@[q] == removed[q - 1]);
                            assert(removed[q - 1] == before[q]);
                        }
                        assert(buckets@[q] == before[q]);
                        if opt_text(*key) == Some(dates@[q]@) {
                            assert(dates@[q]@ == dates@[t as int]@);
                            if q < t {
                                assert(false);
                            } else {
                                assert(!first_date(dates@, q));
                            }
                        }
                    }
                }
            },
            None => {
                assert forall|q: int| 0 <= q < dates@.len() implies (#[trigger] buckets@[q])@
                    == bucket_at(ti, tk, dates@, q) by {
                    assert(opt_text(*key) != Some(dates@[q]@));
                }

            },
        }
        i += 1;
        assert(input@ =~= all_items.subrange(i as int, all_items.len() as int));
    }
    assert(all_items.take(all_items.len() as int) =~= all_items);
    assert(all_keys.take(all_keys.len() as int) =~= all_keys);
    buckets
}

} // verus!

verus! {

/// The UTC instant at which `date` starts in the zone: its first local minute that exists
/// (the earlier instant when that minute is ambiguous).
pub fn local_day_start(date: LocalDate, zone: &str) -> (r: Result<UtcInstant, DomainError>)
    ensures
        zone_known(zone@) ==> match first_existing(zone@, date.day_number(), 0, 0, 1440, true) {
            Some(p) => r matches Ok(t) && (t.secs(), t.nano()) == p,
            None => fails_with(r, "CALENDAR_TIMEZONE_INVALID"@),
        },
        !zone_known(zone@) ==> fails_with(r, "CALENDAR_TIMEZONE_INVALID"@),
{
    match resolve_local(zone, date, 0, 1440, true) {
        Some(t) => Ok(t),
        None => Err(calendar_error(
            "CALENDAR_TIMEZONE_INVALID",
            "timezone has no valid instant for a calendar boundary",
            Some("timezone"),
        )),
    }
}

/// The local date, `YYYY-MM-DD`, of a stored instant in the zone.
pub open spec fn local_date_text(timestamp: Option<Seq<char>>, zone: Seq<char>) -> Option<Seq<char>> {
    match timestamp {
        Some(t) => match parsed_rfc3339(t) {
            Some(p) => if zone_known(zone) && local_day_supported(p.0) {
                Some(date_text(zone_local(zone, p.0, p.1).0))
            } else {
                None
            },
            None => None,
        },
        None => None,
    }
}

pub fn local_date(timestamp: Option<&str>, zone: &str, field: &str) -> (r: Result<String, DomainError>)
    ensures
        match local_date_text(match timestamp { Some(t) => Some(t@), None => None }, zone@) {
            Some(d) => r matches Ok(s) && s@ == d,
            None => r is Err,
        },
{
    let text = match timestamp {
        Some(t) => t,
        None => return Err(calendar_error("CALENDAR_DATA_INVALID", "completed item has no timestamp", None)),
    };
    let t = match parse_rfc3339(text) {
        Some(t) => t,
        None => {
            let message = String::from_str("stored ").concat(field).concat(" timestamp is invalid");
            return Err(DomainError { code: String::from_str("CALENDAR_DATA_INVALID"), message, field: None });
        },
    };
    if !is_known_zone(zone) {
        return Err(calendar_error("CALENDAR_TIMEZONE_INVALID", "timezone must be a valid IANA timezone", Some("timezone")));
    }
    if !local_day_is_supported(&t) {
        let message = String::from_str("stored ").concat(field).concat(" timestamp exceeds supported dates");
        return Err(DomainError { code: String::from_str("CALENDAR_DATA_INVALID"), message, field: None });
    }
    match local_time_of(zone, t) {
        Some((d, _)) => Ok(d.format()),
        None => Err(calendar_error("CALENDAR_TIMEZONE_INVALID", "timezone must be a valid IANA timezone", Some("timezone"))),
    }
}

/// The calendar item of a candidate: an instance with a stored instant gets its local
/// `HH:MM` in the instance's zone as its time. An unreadable instant, a missing zone and an
/// unknown zone are each reported.
pub fn to_task_item(candidate: CalendarTaskCandidate) -> (r: Result<CalendarTaskItem, DomainError>)
    ensures
        candidate.scheduled_at is None ==> r == Ok::<CalendarTaskItem, DomainError>(candidate.item),
        candidate.scheduled_at matches Some(at) ==> match crate::today::local_clock(at@, opt_text(candidate.timezone)) {
            Some(t) => r matches Ok(item) && item == (CalendarTaskItem { scheduled_time: item.scheduled_time, ..candidate.item })
                && opt_text(item.scheduled_time) == Some(t),
            None => fails_with(r, "CALENDAR_DATA_INVALID"@),
        },
        candidate.scheduled_at matches Some(at) ==> (parsed_rfc3339(at@) is None ==> (r matches Err(e)
            && e.message@ == "stored instance scheduled timestamp is invalid"@)),
        candidate.scheduled_at matches Some(at) ==> (parsed_rfc3339(at@) is Some && candidate.timezone is None
            ==> (r matches Err(e) && e.message@ == "stored instance timezone is missing"@)),
        candidate.scheduled_at matches Some(at) ==> (parsed_rfc3339(at@) is Some && (candidate.timezone matches Some(z)
            && !zone_known(z@)) ==> (r matches Err(e) && e.message@ == "stored instance timezone is invalid"@)),
{
    let CalendarTaskCandidate { item, scheduled_at, timezone } = candidate;
    let at = match scheduled_at {
        None => return Ok(item),
        Some(at) => at,
    };
    if crate::time::parse_rfc3339(at.as_str()).is_none() {
        return Err(calendar_error("CALENDAR_DATA_INVALID", "stored instance scheduled timestamp is invalid", None));
    }
    let zone = match &timezone {
        Some(z) => z.as_str(),
        None => return Err(calendar_error("CALENDAR_DATA_INVALID", "stored instance timezone is missing", None)),
    };
    if !is_known_zone(zone) {
        return Err(calendar_error("CALENDAR_DATA_INVALID", "stored instance timezone is invalid", None));
    }
    let shown = match crate::today::instance_local_time(at.as_str(), Some(zone)) {
        Ok(s) => s,
        Err(_) => return Err(calendar_error("CALENDAR_DATA_INVALID", "stored instance timezone is invalid", None)),
    };
    let mut item = item;
    item.scheduled_time = Some(shown);
    Ok(item)
}

/// What a calendar query asks for.
#[derive(Debug)]
pub struct CalendarQuery {
    pub period: CalendarPeriod,
    pub anchor_date: String,
    pub timezone: String,
    pub category: Option<String>,
    pub project_id: Option<String>,
}

/// The dates and UTC bounds of the period a query asks for.
#[derive(Debug)]
pub struct PeriodPlan {
    pub starts_on: LocalDate,
    pub ends_on: LocalDate,
    /// The first instant of the period, RFC 3339.
    pub utc_start: String,
    /// The first instant after the period, RFC 3339.
    pub utc_end: String,
}

/// The query's filters, anchor date and zone are each well formed: the project filter, when
/// given, is not empty; the anchor is a date; the zone is known.
pub open spec fn query_well_formed(query: CalendarQuery) -> bool {
    &&& (query.project_id matches Some(p) ==> p@.len() > 0)
    &&& parsed_date(query.anchor_date@) is Some
    &&& zone_known(query.timezone@)
}

/// The first and last day of the query's period, when its anchor is a date and the period has
/// a day after it.
pub open spec fn query_days(query: CalendarQuery) -> Option<(int, int)> {
    match parsed_date(query.anchor_date@) {
        Some(a) => match period_spec(query.period, a) {
            Some((s, e)) => if date_in_range(e + 1) { Some((s, e)) } else { None },
            None => None,
        },
        None => None,
    }
}

/// The first day of the period and the day after it each have a first local minute in the zone.
pub open spec fn bounds_resolve(query: CalendarQuery) -> bool {
    query_days(query) matches Some((s, e))
        && first_existing(query.timezone@, s, 0, 0, 1440, true) is Some
        && first_existing(query.timezone@, e + 1, 0, 0, 1440, true) is Some
}

/// A query whose period can be planned.
pub open spec fn plannable(query: CalendarQuery) -> bool {
    query_well_formed(query) && query_days(query) is Some && bounds_resolve(query)
}

/// Checks a query and works out its period: the project filter, when given, is not empty;
/// the anchor is a `YYYY-MM-DD` date; the zone is known; the period runs from its first to its
/// last day, and in UTC from the start of its first day to the start of the day after it.
pub fn plan_period(query: &CalendarQuery) -> (r: Result<PeriodPlan, DomainError>)
    ensures
        r is Ok <==> plannable(*query),
        query_well_formed(*query) && query_days(*query) is None ==> fails_with(r, "CALENDAR_DATE_INVALID"@),
        query_well_formed(*query) && query_days(*query) is Some && !bounds_resolve(*query)
            ==> fails_with(r, "CALENDAR_TIMEZONE_INVALID"@),
        (query.project_id matches Some(p) && p@.len() == 0) ==> fails_on(r, "CALENDAR_PROJECT_INVALID"@, "projectId"@),
        (query.project_id matches Some(p) ==> p@.len() > 0) && parsed_date(query.anchor_date@) is None
            ==> fails_on(r, "CALENDAR_DATE_INVALID"@, "anchorDate"@),
        (query.project_id matches Some(p) ==> p@.len() > 0) && parsed_date(query.anchor_date@) is Some
            && !zone_known(query.timezone@) ==> fails_on(r, "CALENDAR_TIMEZONE_INVALID"@, "timezone"@),
        r matches Ok(plan) ==> ({
            &&& parsed_date(query.anchor_date@) matches Some(a)
                && period_spec(query.period, a) == Some((plan.starts_on.day_number(), plan.ends_on.day_number()))
            &&& first_existing(query.timezone@, plan.starts_on.day_number(), 0, 0, 1440, true) matches Some(s)
                && plan.utc_start@ == rfc3339_text(s.0, s.1)
            &&& first_existing(query.timezone@, plan.ends_on.day_number() + 1, 0, 0, 1440, true) matches Some(e)
                && plan.utc_end@ == rfc3339_text(e.0, e.1)
        }),
{
    if let Some(p) = &query.project_id {
        if crate::text::chars_of(p.as_str()).len() == 0 {
            return Err(calendar_error("CALENDAR_PROJECT_INVALID", "project id cannot be empty", Some("projectId")));
        }
    }
    let anchor = match LocalDate::parse(query.anchor_date.as_str()) {
        Some(d) => d,
        None => return Err(calendar_error("CALENDAR_DATE_INVALID", "anchor date must use YYYY-MM-DD", Some("anchorDate"))),
    };
    if !is_known_zone(query.timezone.as_str()) {
        return Err(calendar_error("CALENDAR_TIMEZONE_INVALID", "timezone must be a valid IANA timezone", Some("timezone")));
    }
    let (starts_on, ends_on) = period_bounds(query.period, anchor)?;
    let after_end = match ends_on.add_days(1) {
        Some(d) => d,
        None => return Err(range_error()),
    };
    let utc_start = local_day_start(starts_on, query.timezone.as_str())?;
    let utc_end = local_day_start(after_end, query.timezone.as_str())?;
    Ok(PeriodPlan {
        starts_on,
        ends_on,
        utc_start: to_rfc3339(&utc_start),
        utc_end: to_rfc3339(&utc_end),
    })
}

} // verus!

verus! {

/// `item` is the calendar item of candidate `c` (see `to_task_item`).
pub open spec fn item_from(c: CalendarTaskCandidate, item: CalendarTaskItem) -> bool {
    match c.scheduled_at {
        None => item == c.item,
        Some(at) => item == (CalendarTaskItem { scheduled_time: item.scheduled_time, ..c.item })
            && crate::today::local_clock(at@, opt_text(c.timezone)) == Some(opt_text(item.scheduled_time)->0)
            && item.scheduled_time is Some,
    }
}

/// The items of the candidates, in the order `O`.
pub open spec fn sorted_items_of<O: OrderOn<CalendarTaskItem>>(cands: Seq<CalendarTaskCandidate>, items: Seq<CalendarTaskItem>) -> bool {
    &&& sorted_by::<CalendarTaskItem, O>(items)
    &&& exists|m: Seq<CalendarTaskItem>| m.len() == cands.len()
        && (forall|i: int| 0 <= i < m.len() ==> item_from(#[trigger] cands[i], m[i]))
        && items.to_multiset() == #[trigger] m.to_multiset()
}

/// A candidate turns into a calendar item: it has no stored instant, or its instant reads
/// as a local time in its zone.
pub open spec fn item_readable(c: CalendarTaskCandidate) -> bool {
    match c.scheduled_at {
        None => true,
        Some(at) => crate::today::local_clock(at@, opt_text(c.timezone)) is Some,
    }
}

/// The calendar items of the candidates, in their order; the first candidate that does not
/// turn into an item is reported.
fn items_of(cands: Vec<CalendarTaskCandidate>) -> (r: Result<Vec<CalendarTaskItem>, DomainError>)
    ensures
        r is Ok <==> forall|i: int| 0 <= i < cands@.len() ==> item_readable(#[trigger] cands@[i]),
        r matches Ok(v) ==> v@.len() == cands@.len() && forall|i: int| 0 <= i < v@.len() ==> item_from(#[trigger] cands@[i], v@[i]),
        r is Err ==> fails_with(r, "CALENDAR_DATA_INVALID"@),
{
    let ghost all = cands@;
    let mut input = cands;
    let mut out: Vec<CalendarTaskItem> = Vec::new();
    let ghost mut i: int = 0;
    assert(input@ =~= all.subrange(0, all.len() as int));
    while input.len() > 0
        invariant
            0 <= i <= all.len(),
            input@ =~= all.subrange(i, all.len() as int),
            out@.len() == i,
            forall|k: int| 0 <= k < i ==> item_from(#[trigger] all[k], out@[k]),
            forall|k: int| 0 <= k < i ==> item_readable(#[trigger] all[k]),
            all == cands@,
        decreases input@.len(),
    {
        let c = input.remove(0);
        assert(c == all[i]);
        let item = match to_task_item(c) {
            Ok(item) => item,
            Err(e) => {
                assert(!item_readable(all[i]));
                return Err(e);
            },
        };
        out.push(item);
        proof { i = i + 1; }
        assert(input@ =~= all.subrange(i, all.len() as int));
    }
    Ok(out)
}

/// The text of every day from `starts` to `ends`.
pub fn day_texts(starts: LocalDate, ends: LocalDate) -> (r: Vec<String>)
    requires
        starts.day_number() <= ends.day_number(),
    ensures
        r@.len() == ends.day_number() - starts.day_number() + 1,
        forall|k: int| 0 <= k < r@.len() ==> (#[trigger] r@[k])@ == date_text(starts.day_number() + k),
{
    let mut out: Vec<String> = Vec::new();
    let mut d = starts;
    loop
        invariant
            starts.day_number() <= d.day_number() <= ends.day_number(),
            out@.len() == d.day_number() - starts.day_number(),
            forall|k: int| 0 <= k < out@.len() ==> (#[trigger] out@[k])@ == date_text(starts.day_number() + k),
        decreases ends.day_number() - d.day_number(),
    {
        out.push(d.format());
        if d.day_num() == ends.day_num() {
            return out;
        }
        d = match d.add_days(1) {
            Some(n) => n,
            None => {
                let _ = ends.day_num();
                return out;
            },
        };
    }
}

/// Everything read for a period can be placed on a day: every candidate turns into an item,
/// every completed item's completion instant has a local date in the zone, and so has every
/// session's end.
pub open spec fn period_readable(planned: Seq<CalendarTaskCandidate>, completed: Seq<CalendarTaskCandidate>,
    sessions: Seq<CalendarFocusSession>, zone: Seq<char>) -> bool
{
    &&& forall|i: int| 0 <= i < planned.len() ==> item_readable(#[trigger] planned[i])
    &&& forall|i: int| 0 <= i < completed.len() ==> item_readable(#[trigger] completed[i])
        && local_date_text(opt_text(completed[i].item.completed_at), zone) is Some
    &&& forall|i: int| 0 <= i < sessions.len() ==> local_date_text(Some((#[trigger] sessions[i]).ended_at@), zone) is Some
}

/// Two sequences with the same elements: each element of the first is somewhere in the second.
proof fn lemma_found_in<T>(a: Seq<T>, b: Seq<T>, k: int)
    requires
        a.to_multiset() == b.to_multiset(),
        0 <= k < a.len(),
    ensures
        exists|j: int| 0 <= j < b.len() && b[j] == a[k],
{
    broadcast use vstd::seq_lib::group_to_multiset_ensures;
    assert(a.contains(a[k]));
    assert(a.to_multiset().count(a[k]) > 0);
    assert(b.to_multiset().count(a[k]) > 0);
    assert(b.contains(a[k]));
}

/// The calendar of a planned period from what was read for it: the planned items, sorted,
/// on the day their date names; the completed items, sorted, on the local day they were
/// completed; the focus sessions, sorted, on the local day they ended; a day for every date.
pub fn assemble_period(
    period: CalendarPeriod,
    plan: &PeriodPlan,
    zone: &str,
    planned: Vec<CalendarTaskCandidate>,
    completed: Vec<CalendarTaskCandidate>,
    sessions: Vec<CalendarFocusSession>,
    projects: Vec<CalendarProject>,
) -> (r: Result<CalendarPeriodResult, DomainError>)
    requires
        plan.starts_on.day_number() <= plan.ends_on.day_number(),
    ensures
        r is Ok <==> period_readable(planned@, completed@, sessions@, zone@),
        r matches Ok(res) ==> ({
            let n = plan.ends_on.day_number() - plan.starts_on.day_number() + 1;
            &&& res.period == period
            &&& res.starts_on@ == date_text(plan.starts_on.day_number())
            &&& res.ends_on@ == date_text(plan.ends_on.day_number())
            &&& res.projects == projects
            &&& res.days@.len() == n
            &&& forall|k: int| 0 <= k < n ==> (#[trigger] res.days@[k]).date@ == date_text(plan.starts_on.day_number() + k)
            &&& exists|p: Seq<CalendarTaskItem>, c: Seq<CalendarTaskItem>, s: Seq<CalendarFocusSession>, dates: Seq<String>|
                sorted_items_of::<PlannedOrder>(planned@, p)
                && sorted_items_of::<CompletedOrder>(completed@, c)
                && sorted_by::<CalendarFocusSession, SessionOrder>(s) && s.to_multiset() == sessions@.to_multiset()
                && dates.len() == n
                && (forall|k: int| 0 <= k < n ==> (#[trigger] dates[k])@ == res.days@[k].date@)
                && (forall|k: int| 0 <= k < n ==> {
                    &&& (#[trigger] res.days@[k]).planned_tasks@
                        == bucket_at(p, p.map_values(|it: CalendarTaskItem| opt_text(it.scheduled_date)), dates, k)
                    &&& res.days@[k].completed_tasks@
                        == bucket_at(c, c.map_values(|it: CalendarTaskItem| local_date_text(opt_text(it.completed_at), zone@)), dates, k)
                    &&& res.days@[k].focus_sessions@
                        == bucket_at(s, s.map_values(|x: CalendarFocusSession| local_date_text(Some(x.ended_at@), zone@)), dates, k)
                })
        }),
{
    let ghost planned_in = planned@;
    let ghost completed_in = completed@;
    let ghost sessions_in = sessions@;
    let mapped_planned = items_of(planned)?;
    let ghost mp = mapped_planned@;
    let planned_items = sort_by_order::<CalendarTaskItem, PlannedOrder>(mapped_planned);
    assert(sorted_items_of::<PlannedOrder>(planned@, planned_items@)) by {
        assert(planned_items@.to_multiset() == mp.to_multiset());
    }
    let mapped_completed = items_of(completed)?;
    let ghost mc = mapped_completed@;
    let completed_items = sort_by_order::<CalendarTaskItem, CompletedOrder>(mapped_completed);
    assert(sorted_items_of::<CompletedOrder>(completed@, completed_items@)) by {
        assert(completed_items@.to_multiset() == mc.to_multiset());
    }
    let sorted_sessions = sort_by_order::<CalendarFocusSession, SessionOrder>(sessions);
    let dates = day_texts(plan.starts_on, plan.ends_on);

    let mut planned_keys: Vec<Option<String>> = Vec::new();
    let mut i: usize = 0;
    while i < planned_items.len()
        invariant
            i <= planned_items@.len(),
            planned_keys@.len() == i,
            forall|k: int| 0 <= k < i ==> opt_text(#[trigger] planned_keys@[k]) == opt_text(planned_items@[k].scheduled_date),
        decreases planned_items@.len() - i,
    {
        let key = match &planned_items[i].scheduled_date {
            Some(d) => Some(d.clone()),
            None => None,
        };
        planned_keys.push(key);
        i += 1;
    }
    let mut completed_keys: Vec<Option<String>> = Vec::new();
    let mut i: usize = 0;
    while i < completed_items.len()
        invariant
            i <= completed_items@.len(),
            completed_keys@.len() == i,
            forall|k: int| 0 <= k < i ==> opt_text(#[trigger] completed_keys@[k])
                == local_date_text(opt_text(completed_items@[k].completed_at), zone@),
            forall|k: int| 0 <= k < i ==> local_date_text(opt_text((#[trigger] completed_items@[k]).completed_at), zone@) is Some,
            completed_items@.to_multiset() == mc.to_multiset(),
            mc.len() == completed_in.len(),
            completed_in == completed@,
            forall|j: int| 0 <= j < mc.len() ==> item_from(#[trigger] completed_in[j], mc[j]),
        decreases completed_items@.len() - i,
    {
        let stamp = match &completed_items[i].completed_at {
            Some(t) => Some(t.as_str()),
            None => None,
        };
        let day = match local_date(stamp, zone, "completed_at") {
            Ok(day) => day,
            Err(e) => {
                proof {
                    lemma_found_in(completed_items@, mc, i as int);
                    let j = choose|j: int| 0 <= j < mc.len() && mc[j] == completed_items@[i as int];
                    assert(item_from(completed_in[j], mc[j]));
                    assert(local_date_text(opt_text(completed_in[j].item.completed_at), zone@) is None);
                    assert(!(item_readable(completed_in[j])
                        && local_date_text(opt_text(completed_in[j].item.completed_at), zone@) is Some));
                }
                return Err(e);
            },
        };
        completed_keys.push(Some(day));
        i += 1;
    }
    let mut session_keys: Vec<Option<String>> = Vec::new();
    let mut i: usize = 0;
    while i < sorted_sessions.len()
        invariant
            i <= sorted_sessions@.len(),
            session_keys@.len() == i,
            forall|k: int| 0 <= k < i ==> opt_text(#[trigger] session_keys@[k])
                == local_date_text(Some(sorted_sessions@[k].ended_at@), zone@),
            forall|k: int| 0 <= k < i ==> local_date_text(Some((#[trigger] sorted_sessions@[k]).ended_at@), zone@) is Some,
            sorted_sessions@.to_multiset() == sessions_in.to_multiset(),
            sessions_in == sessions@,
        decreases sorted_sessions@.len() - i,
    {
        let day = match local_date(Some(sorted_sessions[i].ended_at.as_str()), zone, "ended_at") {
            Ok(day) => day,
            Err(e) => {
                proof {
                    lemma_found_in(sorted_sessions@, sessions_in, i as int);
                    let j = choose|j: int| 0 <= j < sessions_in.len() && sessions_in[j] == sorted_sessions@[i as int];
                    assert(local_date_text(Some(sessions_in[j].ended_at@), zone@) is None);
                }
                return Err(e);
            },
        };
        session_keys.push(Some(day));
        i += 1;
    }
    let ghost p = planned_items@;
    let ghost c = completed_items@;
    let ghost s = sorted_sessions@;
    assert(key_texts(planned_keys@) =~= p.map_values(|it: CalendarTaskItem| opt_text(it.scheduled_date)));
    assert(key_texts(completed_keys@) =~= c.map_values(|it: CalendarTaskItem| local_date_text(opt_text(it.completed_at), zone@)));
    assert(key_texts(session_keys@) =~= s.map_values(|x: CalendarFocusSession| local_date_text(Some(x.ended_at@), zone@)));
    let planned_buckets = distribute(&dates, planned_items, &planned_keys);
    let completed_buckets = distribute(&dates, completed_items, &completed_keys);
    let session_buckets = distribute(&dates, sorted_sessions, &session_keys);

    let ghost pb = planned_buckets@;
    let ghost cb = completed_buckets@;
    let ghost sb = session_buckets@;
    let mut pin = planned_buckets;
    let mut cin = completed_buckets;
    let mut sin = session_buckets;
    let mut days: Vec<CalendarDay> = Vec::new();
    let mut k: usize = 0;
    let n = dates.len();
    while k < n
        invariant
            k <= n == dates@.len(),
            pb.len() == n && cb.len() == n && sb.len() == n,
            pin@ =~= pb.subrange(k as int, n as int),
            cin@ =~= cb.subrange(k as int, n as int),
            sin@ =~= sb.subrange(k as int, n as int),
            days@.len() == k,
            forall|j: int| 0 <= j < k ==> {
                &&& (#[trigger] days@[j]).date@ == dates@[j]@
                &&& days@[j].planned_tasks == pb[j]
                &&& days@[j].completed_tasks == cb[j]
                &&& days@[j].focus_sessions == sb[j]
            },
        decreases n - k,
    {
        let planned_tasks = pin.remove(0);
        let completed_tasks = cin.remove(0);
        let focus_sessions = sin.remove(0);
        days.push(CalendarDay { date: dates[k].clone(), planned_tasks, completed_tasks, focus_sessions });
        k += 1;
        assert(pin@ =~= pb.subrange(k as int, n as int));
        assert(cin@ =~= cb.subrange(k as int, n as int));
        assert(sin@ =~= sb.subrange(k as int, n as int));
    }
    assert(forall|j: int| 0 <= j < n ==> (#[trigger] days@[j]).planned_tasks@
        == bucket_at(p, p.map_values(|it: CalendarTaskItem| opt_text(it.scheduled_date)), dates@, j));
    assert(forall|j: int| 0 <= j < n ==> (#[trigger] days@[j]).completed_tasks@
        == bucket_at(c, c.map_values(|it: CalendarTaskItem| local_date_text(opt_text(it.completed_at), zone@)), dates@, j));
    assert(forall|j: int| 0 <= j < n ==> (#[trigger] days@[j]).focus_sessions@
        == bucket_at(s, s.map_values(|x: CalendarFocusSession| local_date_text(Some(x.ended_at@), zone@)), dates@, j));
    let result = CalendarPeriodResult {
        period,
        starts_on: plan.starts_on.format(),
        ends_on: plan.ends_on.format(),
        days,
        projects,
    };
    assert(forall|j: int| 0 <= j < n ==> (#[trigger] dates@[j])@ == result.days@[j].date@);
    proof {
        assert forall|j: int| 0 <= j < completed_in.len()
            implies local_date_text(opt_text(completed_in[j].item.completed_at), zone@) is Some by {
            lemma_found_in(mc, c, j);
            let k = choose|k: int| 0 <= k < c.len() && c[k] == mc[j];
            assert(local_date_text(opt_text(c[k].completed_at), zone@) is Some);
            assert(item_from(completed_in[j], mc[j]));
        }
        assert forall|j: int| 0 <= j < sessions_in.len()
            implies local_date_text(Some(sessions_in[j].ended_at@), zone@) is Some by {
            lemma_found_in(sessions_in, s, j);
            let k = choose|k: int| 0 <= k < s.len() && s[k] == sessions_in[j];
            assert(local_date_text(Some(s[k].ended_at@), zone@) is Some);
        }
    }
    Ok(result)
}

} // verus!

verus! {

/// The instant `a` is not after the instant `b` (each seconds and nanoseconds).
pub open spec fn instant_no_later(a: (int, int), b: (int, int)) -> bool {
    a.0 < b.0 || (a.0 == b.0 && a.1 <= b.1)
}

/// Planned items in calendar order: undated items first, then earlier dates first; on the
/// same date timed items before untimed ones and earlier times first; then by title; then by
/// source id.
pub proof fn law_planned_item_order(items: Seq<CalendarTaskItem>, i: int, j: int)
    requires
        sorted_by::<CalendarTaskItem, PlannedOrder>(items),
        0 <= i < j < items.len(),
    ensures
        items[i].scheduled_date is None || items[j].scheduled_date is Some,
        items[i].scheduled_date is Some && items[j].scheduled_date is Some
            ==> crate::order::lex_no_later(items[i].scheduled_date->0@, items[j].scheduled_date->0@),
        opt_text(items[i].scheduled_date) == opt_text(items[j].scheduled_date)
            ==> (items[i].scheduled_time is Some || items[j].scheduled_time is None),
        opt_text(items[i].scheduled_date) == opt_text(items[j].scheduled_date)
            && items[i].scheduled_time is Some && items[j].scheduled_time is Some
            ==> crate::order::lex_no_later(items[i].scheduled_time->0@, items[j].scheduled_time->0@),
        opt_text(items[i].scheduled_date) == opt_text(items[j].scheduled_date)
            && opt_text(items[i].scheduled_time) == opt_text(items[j].scheduled_time)
            ==> crate::order::lex_no_later(items[i].title@, items[j].title@),
        opt_text(items[i].scheduled_date) == opt_text(items[j].scheduled_date)
            && opt_text(items[i].scheduled_time) == opt_text(items[j].scheduled_time)
            && items[i].title@ == items[j].title@
            ==> crate::order::lex_no_later(items[i].source_id@, items[j].source_id@),
{
    let a = items[i];
    let b = items[j];
    assert(PlannedOrder::precedes(a, b));
    crate::order::lemma_text_order_antisymmetric(a.title@, b.title@);
    crate::order::lemma_text_order_is_lexicographic(a.title@, b.title@);
    crate::order::lemma_text_order_is_lexicographic(a.source_id@, b.source_id@);
    match (a.scheduled_date, b.scheduled_date) {
        (Some(x), Some(y)) => {
            crate::order::lemma_text_order_antisymmetric(x@, y@);
            crate::order::lemma_text_order_is_lexicographic(x@, y@);
        },
        _ => {},
    }
    match (a.scheduled_time, b.scheduled_time) {
        (Some(x), Some(y)) => {
            crate::order::lemma_text_order_antisymmetric(x@, y@);
            crate::order::lemma_text_order_is_lexicographic(x@, y@);
        },
        _ => {},
    }
}

/// Completed items in calendar order: items whose completion instant cannot be read first,
/// then earlier completion instants first; at the same instant by title, then by source id.
pub proof fn law_completed_item_order(items: Seq<CalendarTaskItem>, i: int, j: int)
    requires
        sorted_by::<CalendarTaskItem, CompletedOrder>(items),
        0 <= i < j < items.len(),
    ensures
        parsed_opt(items[i].completed_at) is None || parsed_opt(items[j].completed_at) is Some,
        parsed_opt(items[i].completed_at) is Some && parsed_opt(items[j].completed_at) is Some
            ==> instant_no_later(parsed_opt(items[i].completed_at)->0, parsed_opt(items[j].completed_at)->0),
        parsed_opt(items[i].completed_at) == parsed_opt(items[j].completed_at)
            ==> crate::order::lex_no_later(items[i].title@, items[j].title@),
        parsed_opt(items[i].completed_at) == parsed_opt(items[j].completed_at) && items[i].title@ == items[j].title@
            ==> crate::order::lex_no_later(items[i].source_id@, items[j].source_id@),
{
    let a = items[i];
    let b = items[j];
    assert(CompletedOrder::precedes(a, b));
    crate::order::lemma_text_order_antisymmetric(a.title@, b.title@);
    crate::order::lemma_text_order_is_lexicographic(a.title@, b.title@);
    crate::order::lemma_text_order_is_lexicographic(a.source_id@, b.source_id@);
}

/// Focus sessions in calendar order: sessions whose end cannot be read first, then earlier
/// ends first; at the same end by id.
pub proof fn law_session_order(sessions: Seq<CalendarFocusSession>, i: int, j: int)
    requires
        sorted_by::<CalendarFocusSession, SessionOrder>(sessions),
        0 <= i < j < sessions.len(),
    ensures
        parsed_rfc3339(sessions[i].ended_at@) is None || parsed_rfc3339(sessions[j].ended_at@) is Some,
        parsed_rfc3339(sessions[i].ended_at@) is Some && parsed_rfc3339(sessions[j].ended_at@) is Some
            ==> instant_no_later(parsed_rfc3339(sessions[i].ended_at@)->0, parsed_rfc3339(sessions[j].ended_at@)->0),
        parsed_rfc3339(sessions[i].ended_at@) == parsed_rfc3339(sessions[j].ended_at@)
            ==> crate::order::lex_no_later(sessions[i].id@, sessions[j].id@),
{
    let a = sessions[i];
    let b = sessions[j];
    assert(SessionOrder::precedes(a, b));
    crate::order::lemma_text_order_is_lexicographic(a.id@, b.id@);
}

} // verus!
