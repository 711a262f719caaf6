//! Memo reminders: when the next reminder falls, the rule a memo's schedule becomes, and
//! how a reminder moves on once delivered.
use vstd::prelude::*;
use crate::error::{fails_with, DomainError};
use crate::schedule::{max_int, next_on_or_after, none_between, occurs_on, search_span, within_end, RecurrencePattern};
use crate::recurrence::{new_id, parse_local_date};
use crate::text::opt_text;
use crate::time::{
    choose_candidate, date_in_range, first_existing, instant_before, is_before, is_known_zone, local_candidates,
    local_time_of, parse_clock, parse_local_datetime, parse_rfc3339, parsed_clock, parsed_date,
    parsed_local_datetime, parsed_rfc3339, resolve_local, rfc3339_text, to_rfc3339, zone_candidates,
    zone_known, zone_local, LocalDate, UtcInstant,
};

verus! {

#[derive(Clone, Copy, Debug, PartialEq, Eq, Structural)]
pub enum MemoReminderFrequency {
    Daily,
    Weekdays,
    Weekly,
    Monthly,
}

#[derive(Clone, Copy, Debug, PartialEq, Eq, Structural)]
pub enum MemoReminderStatus {
    Active,
    Completed,
    Cancelled,
}

/// When a memo reminds: once at a local date-time, or on a recurring schedule.
#[derive(Debug)]
pub enum MemoReminderInput {
    Once { scheduled_local: String, timezone: String },
    Recurring {
        frequency: MemoReminderFrequency,
        interval: u32,
        weekdays: Vec<u8>,
        monthly_day: Option<u8>,
        local_time: String,
        starts_on: String,
        ends_on: Option<String>,
        timezone: String,
    },
}

/// A memo's stored reminder and its next occurrence.
#[derive(Debug)]
pub struct MemoReminderRule {
    pub id: String,
    pub memo_id: String,
    pub schedule: MemoReminderInput,
    pub next_scheduled_for: Option<String>,
    pub status: MemoReminderStatus,
    pub created_at: String,
    pub updated_at: String,
}

/// A reminder that is due, with the title to show for its memo.
#[derive(Debug)]
pub struct DueMemoReminder {
    pub reminder: MemoReminderRule,
    pub display_title: String,
}

/// The stored name of a frequency.
pub open spec fn frequency_text(f: MemoReminderFrequency) -> Seq<char> {
    match f {
        MemoReminderFrequency::Daily => "daily"@,
        MemoReminderFrequency::Weekdays => "weekdays"@,
        MemoReminderFrequency::Weekly => "weekly"@,
        MemoReminderFrequency::Monthly => "monthly"@,
    }
}

pub fn reminder_frequency(f: MemoReminderFrequency) -> (r: &'static str)
    ensures
        r@ == frequency_text(f),
{
    match f {
        MemoReminderFrequency::Daily => "daily",
        MemoReminderFrequency::Weekdays => "weekdays",
        MemoReminderFrequency::Weekly => "weekly",
        MemoReminderFrequency::Monthly => "monthly",
    }
}

/// The stored name of a reminder status.
pub open spec fn reminder_status_text(s: MemoReminderStatus) -> Seq<char> {
    match s {
        MemoReminderStatus::Active => "active"@,
        MemoReminderStatus::Completed => "completed"@,
        MemoReminderStatus::Cancelled => "cancelled"@,
    }
}

pub fn reminder_status(s: MemoReminderStatus) -> (r: &'static str)
    ensures
        r@ == reminder_status_text(s),
{
    match s {
        MemoReminderStatus::Active => "active",
        MemoReminderStatus::Completed => "completed",
        MemoReminderStatus::Cancelled => "cancelled",
    }
}

/// The error for a stored reminder that cannot be read.
pub fn memo_reminder_data_error() -> (e: DomainError)
    ensures
        e.code@ == "MEMO_REMINDER_DATA_INVALID"@,
        e.message@ == "stored memo reminder is invalid"@,
        e.field is None,
{
    DomainError::new("MEMO_REMINDER_DATA_INVALID", "stored memo reminder is invalid", None)
}

/// The frequency a stored name stands for; `MEMO_REMINDER_DATA_INVALID` for any other.
pub fn parse_frequency(value: Option<&str>) -> (r: Result<MemoReminderFrequency, DomainError>)
    ensures
        r matches Ok(f) ==> value matches Some(v) && frequency_text(f) == v@,
        (value is None || (value matches Some(v) && forall|f: MemoReminderFrequency| frequency_text(f) != v@))
            <==> fails_with(r, "MEMO_REMINDER_DATA_INVALID"@),
        r is Err ==> fails_with(r, "MEMO_REMINDER_DATA_INVALID"@),
{
    proof {
        reveal_strlit("daily");
        reveal_strlit("weekdays");
        reveal_strlit("weekly");
        reveal_strlit("monthly");
    }
    let v = match value {
        Some(v) => String::from_str(v),
        None => return Err(memo_reminder_data_error()),
    };
    if v == String::from_str("daily") {
        assert(frequency_text(MemoReminderFrequency::Daily) == v@);
        return Ok(MemoReminderFrequency::Daily);
    }
    if v == String::from_str("weekdays") {
        assert(frequency_text(MemoReminderFrequency::Weekdays) == v@);
        return Ok(MemoReminderFrequency::Weekdays);
    }
    if v == String::from_str("weekly") {
        assert(frequency_text(MemoReminderFrequency::Weekly) == v@);
        return Ok(MemoReminderFrequency::Weekly);
    }
    if v == String::from_str("monthly") {
        assert(frequency_text(MemoReminderFrequency::Monthly) == v@);
        return Ok(MemoReminderFrequency::Monthly);
    }
    assert forall|f: MemoReminderFrequency| frequency_text(f) != v@ by {
        match f {
            MemoReminderFrequency::Daily => {},
            MemoReminderFrequency::Weekdays => {},
            MemoReminderFrequency::Weekly => {},
            MemoReminderFrequency::Monthly => {},
        }
    }
    Err(memo_reminder_data_error())
}

/// The error for a stored occurrence that cannot be read.
pub fn stored_occurrence_error() -> (e: DomainError)
    ensures
        e.code@ == "MEMO_REMINDER_DATA_INVALID"@,
        e.message@ == "stored memo reminder occurrence is invalid"@,
        e.field is None,
{
    DomainError::new("MEMO_REMINDER_DATA_INVALID", "stored memo reminder occurrence is invalid", None)
}

/// A schedule error re-coded as a memo reminder date error, keeping message and field.
pub fn date_error(error: DomainError) -> (e: DomainError)
    ensures
        e.code@ == "MEMO_REMINDER_DATE_INVALID"@,
        e.message == error.message,
        e.field == error.field,
{
    DomainError { code: String::from_str("MEMO_REMINDER_DATE_INVALID"), message: error.message, field: error.field }
}

/// The error for a reminder date past the supported range.
pub fn supported_range_error() -> (e: DomainError)
    ensures
        e.code@ == "MEMO_REMINDER_DATE_INVALID"@,
        opt_text(e.field) == Some("startsOn"@),
{
    DomainError::new("MEMO_REMINDER_DATE_INVALID", "memo reminder date exceeds supported values", Some("startsOn"))
}

/// A memo reminder time error for a field.
pub fn time_error(message: &str, field: &str) -> (e: DomainError)
    ensures
        e.code@ == "MEMO_REMINDER_TIME_INVALID"@,
        e.message@ == message@,
        opt_text(e.field) == Some(field@),
{
    DomainError::new("MEMO_REMINDER_TIME_INVALID", message, Some(field))
}

/// The zone name, or `MEMO_REMINDER_TIMEZONE_INVALID`.
pub fn check_timezone(zone: &str) -> (r: Result<(), DomainError>)
    ensures
        r is Ok <==> zone_known(zone@),
        r is Err ==> fails_with(r, "MEMO_REMINDER_TIMEZONE_INVALID"@),
{
    if is_known_zone(zone) {
        Ok(())
    } else {
        Err(DomainError::new(
            "MEMO_REMINDER_TIMEZONE_INVALID",
            "memo reminder timezone must be a valid IANA timezone",
            Some("timezone"),
        ))
    }
}

fn interval_error() -> (e: DomainError)
    ensures
        e.code@ == "MEMO_REMINDER_INTERVAL_INVALID"@,
{
    DomainError::new("MEMO_REMINDER_INTERVAL_INVALID", "memo reminder interval is not valid for its frequency", Some("interval"))
}

/// The recurrence pattern of a recurring reminder. Weekday reminders repeat every week
/// (interval 1 only); every other interval must be positive; a monthly reminder names its day.
pub fn build_pattern(frequency: MemoReminderFrequency, interval: u32, weekdays: &Vec<u8>, monthly_day: Option<u8>)
    -> (r: Result<RecurrencePattern, DomainError>)
    ensures
        (interval == 0 || (frequency == MemoReminderFrequency::Weekdays && interval != 1))
            ==> fails_with(r, "MEMO_REMINDER_INTERVAL_INVALID"@),
        interval > 0 && frequency == MemoReminderFrequency::Daily
            ==> r == Ok::<RecurrencePattern, DomainError>(RecurrencePattern::Daily { interval }),
        interval == 1 && frequency == MemoReminderFrequency::Weekdays
            ==> r == Ok::<RecurrencePattern, DomainError>(RecurrencePattern::Weekdays),
        interval > 0 && frequency == MemoReminderFrequency::Weekly
            ==> (r matches Ok(RecurrencePattern::Weekly { interval: i, weekdays: w }) && i == interval && w@ == weekdays@),
        interval > 0 && frequency == MemoReminderFrequency::Monthly ==> match monthly_day {
            Some(d) => r == Ok::<RecurrencePattern, DomainError>(RecurrencePattern::Monthly { interval, day_of_month: d }),
            None => fails_with(r, "MEMO_REMINDER_DATE_INVALID"@),
        },
{
    if interval == 0 {
        return Err(interval_error());
    }
    match frequency {
        MemoReminderFrequency::Daily => Ok(RecurrencePattern::Daily { interval }),
        MemoReminderFrequency::Weekdays => {
            if interval != 1 {
                return Err(interval_error());
            }
            Ok(RecurrencePattern::Weekdays)
        },
        MemoReminderFrequency::Weekly => Ok(RecurrencePattern::Weekly { interval, weekdays: weekdays.clone() }),
        MemoReminderFrequency::Monthly => match monthly_day {
            Some(d) => Ok(RecurrencePattern::Monthly { interval, day_of_month: d }),
            None => Err(DomainError::new(
                "MEMO_REMINDER_DATE_INVALID",
                "a monthly memo reminder requires a day of the month",
                Some("monthlyDay"),
            )),
        },
    }
}

/// The instant at which a reminder on local day `d` at `second` fires: the first local
/// minute from that time (up to three hours later) that exists in the zone.
pub open spec fn fire_instant(zone: Seq<char>, d: int, second: int) -> Option<(int, int)> {
    first_existing(zone, d, second, 0, 180, false)
}

pub open spec fn parts_before(a: (int, int), b: (int, int)) -> bool {
    a.0 < b.0 || (a.0 == b.0 && a.1 < b.1)
}

/// Every occurrence day from `lo` up to (not including) `hi` fires at or before `after`.
pub open spec fn all_fired_by(p: RecurrencePattern, starts: int, ends: Option<LocalDate>, zone: Seq<char>, second: int,
    lo: int, hi: int, after: (int, int)) -> bool
{
    forall|x: int| lo <= x < hi && #[trigger] occurs_on(p, starts, x) && within_end(ends, x)
        ==> (fire_instant(zone, x, second) matches Some(t) && !parts_before(after, t))
}

/// `t` is when the first reminder after `after` fires: it fires on an occurrence day on or
/// after `after`'s local date (and the schedule's start), later than `after`, and every
/// earlier occurrence day from there fires at or before `after`.
pub open spec fn is_next_fire(p: RecurrencePattern, starts: LocalDate, ends: Option<LocalDate>, zone: Seq<char>, second: int,
    after: UtcInstant, t: UtcInstant) -> bool
{
    exists|d: int| {
        let lo = max_int(zone_local(zone, after.secs(), after.nano()).0, starts.day_number());
        &&& lo <= d
        &&& occurs_on(p, starts.day_number(), d) && within_end(ends, d)
        &&& #[trigger] fire_instant(zone, d, second) == Some((t.secs(), t.nano()))
        &&& instant_before(after, t)
        &&& all_fired_by(p, starts.day_number(), ends, zone, second, lo, d, (after.secs(), after.nano()))
    }
}

/// No reminder fires after `after` from day `lo` on: every occurrence day from `lo` up to some
/// day `x` fires at or before `after`, and from `x` there is no occurrence day through the end
/// date, or through a full period of the pattern when the schedule ends later or never.
pub open spec fn exhausted_from(p: RecurrencePattern, starts: int, ends: Option<LocalDate>, zone: Seq<char>, second: int,
    lo: int, after: (int, int)) -> bool
{
    exists|x: int| lo <= x && #[trigger] all_fired_by(p, starts, ends, zone, second, lo, x, after)
        && none_between(p, starts, x, match ends {
            Some(e) if e.day_number() < x + search_span(p) => e.day_number(),
            _ => x + search_span(p),
        })
}

/// Occurrences that fired by `after` up to `from` still all have when no occurrence day falls
/// between `from` and `to`.
proof fn lemma_fired_through_gap(p: RecurrencePattern, starts: int, ends: Option<LocalDate>, zone: Seq<char>, second: int,
    lo: int, from: int, to: int, after: (int, int))
    requires
        all_fired_by(p, starts, ends, zone, second, lo, from, after),
        none_between(p, starts, from, to - 1),
    ensures
        all_fired_by(p, starts, ends, zone, second, lo, to, after),
{
    assert forall|x: int| lo <= x < to && #[trigger] occurs_on(p, starts, x) && within_end(ends, x)
        implies (fire_instant(zone, x, second) matches Some(t) && !parts_before(after, t)) by {
        if x >= from {
            assert(!occurs_on(p, starts, x));
        }
    }
}

/// The search for the next firing from day `lo` failed, with error `code`: an occurrence day,
/// before which every occurrence fired by `after`, fires at no instant within three hours of
/// its time (`MEMO_REMINDER_TIME_INVALID`), or the search passed the last supported date
/// (`MEMO_REMINDER_DATE_INVALID`), or `after`'s local date itself is not a supported date in
/// every zone (`MEMO_REMINDER_DATE_INVALID`).
pub open spec fn search_failed(p: RecurrencePattern, starts: int, ends: Option<LocalDate>, zone: Seq<char>, second: int,
    lo: int, after: (int, int), code: Seq<char>) -> bool
{
    ||| code == "MEMO_REMINDER_TIME_INVALID"@ && exists|d: int| lo <= d && occurs_on(p, starts, d) && within_end(ends, d)
            && (#[trigger] fire_instant(zone, d, second)) is None && all_fired_by(p, starts, ends, zone, second, lo, d, after)
    ||| code == "MEMO_REMINDER_DATE_INVALID"@ && exists|y: int| lo < y && !date_in_range(y)
            && #[trigger] all_fired_by(p, starts, ends, zone, second, lo, y, after)
    ||| code == "MEMO_REMINDER_DATE_INVALID"@ && !crate::time::local_day_supported(after.0)
}

/// The first reminder of a recurring schedule that fires strictly after `after`: the earliest
/// occurrence day, from `after`'s local date on, whose firing instant is later than `after`.
pub fn next_recurring(p: &RecurrencePattern, starts: LocalDate, ends: Option<LocalDate>, zone: &str, second: u32, after: UtcInstant)
    -> (r: Result<Option<UtcInstant>, DomainError>)
    requires
        second < 86400,
        zone_known(zone@),
    ensures
        r matches Ok(Some(t)) ==> is_next_fire(*p, starts, ends, zone@, second as int, after, t),
        r matches Ok(None) ==> exhausted_from(*p, starts.day_number(), ends, zone@, second as int,
            max_int(zone_local(zone@, after.secs(), after.nano()).0, starts.day_number()), (after.secs(), after.nano())),
        r matches Err(e) ==> search_failed(*p, starts.day_number(), ends, zone@, second as int,
            max_int(zone_local(zone@, after.secs(), after.nano()).0, starts.day_number()), (after.secs(), after.nano()), e.code@),
{
    if !crate::time::local_day_is_supported(&after) {
        return Err(supported_range_error());
    }
    let (mut date, _) = match local_time_of(zone, after) {
        Some(v) => v,
        None => return Err(DomainError::new("MEMO_REMINDER_TIMEZONE_INVALID", "memo reminder timezone must be a valid IANA timezone", Some("timezone"))),
    };
    let ghost lo = max_int(date.day_number(), starts.day_number());
    loop
        invariant
            second < 86400,
            zone_known(zone@),
            lo == max_int(zone_local(zone@, after.secs(), after.nano()).0, starts.day_number()),
            lo <= max_int(date.day_number(), starts.day_number()),
            all_fired_by(*p, starts.day_number(), ends, zone@, second as int, lo,
                max_int(date.day_number(), starts.day_number()), (after.secs(), after.nano())),
        decreases 95_745_400 - date.day_number(),
    {
        let next = match next_on_or_after(p, starts, ends, date) {
            Ok(Some(d)) => d,
            Ok(None) => {
                assert(all_fired_by(*p, starts.day_number(), ends, zone@, second as int, lo,
                    max_int(date.day_number(), starts.day_number()), (after.secs(), after.nano())));
                return Ok(None);
            },
            Err(e) => {
                proof {
                    let from = max_int(date.day_number(), starts.day_number());
                    let x = choose|x: int| from <= x && !date_in_range(x + 1) && none_between(*p, starts.day_number(), from, x);
                    lemma_fired_through_gap(*p, starts.day_number(), ends, zone@, second as int, lo, from, x + 1,
                        (after.secs(), after.nano()));
                }
                return Err(date_error(e));
            },
        };
        proof {
            lemma_fired_through_gap(*p, starts.day_number(), ends, zone@, second as int, lo,
                max_int(date.day_number(), starts.day_number()), next.day_number(), (after.secs(), after.nano()));
        }
        let occurrence = match resolve_local(zone, next, second, 180, false) {
            Some(t) => t,
            None => {
                return Err(time_error(
                    "memo reminder local time could not be resolved in the selected timezone",
                    "localTime",
                ));
            },
        };
        if is_before(&after, &occurrence) {
            return Ok(Some(occurrence));
        }
        assert(all_fired_by(*p, starts.day_number(), ends, zone@, second as int, lo,
            next.day_number() + 1, (after.secs(), after.nano())));
        date = match next.add_days(1) {
            Some(d) => d,
            None => return Err(supported_range_error()),
        };
        assert(all_fired_by(*p, starts.day_number(), ends, zone@, second as int, lo,
            max_int(date.day_number(), starts.day_number()), (after.secs(), after.nano())));
    }
}

/// The instant of a one-time reminder: its local date-time in the zone (the earlier instant
/// when ambiguous); an error when that local time does not exist.
pub open spec fn once_instant(zone: Seq<char>, local: (int, int)) -> Option<(int, int)> {
    if zone_candidates(zone, local.0, local.1).len() > 0 {
        Some(choose_candidate(zone_candidates(zone, local.0, local.1), true))
    } else {
        None
    }
}

pub fn resolve_once(zone: &str, date: LocalDate, second: u32) -> (r: Result<UtcInstant, DomainError>)
    requires
        second < 86400,
        zone_known(zone@),
    ensures
        r matches Ok(t) ==> once_instant(zone@, (date.day_number(), second as int)) == Some((t.secs(), t.nano())),
        r is Err <==> once_instant(zone@, (date.day_number(), second as int)) is None,
        r is Err ==> fails_with(r, "MEMO_REMINDER_TIME_INVALID"@),
{
    let candidates = match local_candidates(zone, date, second) {
        Some(c) => c,
        None => return Err(time_error("memo reminder local time does not exist in the selected timezone", "scheduledLocal")),
    };
    if candidates.len() == 0 {
        return Err(time_error("memo reminder local time does not exist in the selected timezone", "scheduledLocal"));
    }
    let mut chosen = candidates[0];
    if candidates.len() >= 2 {
        let other = candidates[1];
        if other.seconds() < chosen.seconds() || (other.seconds() == chosen.seconds() && other.nanos() <= chosen.nanos()) {
            chosen = other;
        }
    }
    assert(crate::time::instant_parts(candidates@)[0] == (candidates@[0].secs(), candidates@[0].nano()));
    assert(candidates@.len() >= 2 ==> crate::time::instant_parts(candidates@)[1] == (candidates@[1].secs(), candidates@[1].nano()));
    Ok(chosen)
}


/// The pattern, first and last day and time of day that a recurring reminder's fields read as.
pub open spec fn recurring_parts(frequency: MemoReminderFrequency, interval: u32, weekdays: Seq<u8>, monthly_day: Option<u8>,
    local_time: Seq<char>, starts_on: Seq<char>, ends_on: Option<Seq<char>>,
    p: RecurrencePattern, s: LocalDate, e: Option<LocalDate>, sec: int) -> bool
{
    &&& parsed_clock(local_time) == Some(sec)
    &&& parsed_date(starts_on) == Some(s.day_number())
    &&& (ends_on is None ==> e is None)
    &&& (ends_on matches Some(x) ==> (e matches Some(y) && parsed_date(x) == Some(y.day_number())))
    &&& (frequency == MemoReminderFrequency::Daily ==> p == RecurrencePattern::Daily { interval })
    &&& (frequency == MemoReminderFrequency::Weekdays ==> p == RecurrencePattern::Weekdays)
    &&& (frequency == MemoReminderFrequency::Weekly ==> (p matches RecurrencePattern::Weekly { interval: i, weekdays: w }
        && i == interval && w@ == weekdays))
    &&& (frequency == MemoReminderFrequency::Monthly ==> (monthly_day matches Some(m)
        && p == RecurrencePattern::Monthly { interval, day_of_month: m }))
}

/// The interval suits the frequency: positive, and one for weekday reminders.
pub open spec fn interval_fits(frequency: MemoReminderFrequency, interval: u32) -> bool {
    interval > 0 && !(frequency == MemoReminderFrequency::Weekdays && interval != 1)
}

/// The day from which a reminder starting on `s` looks for its next firing after `after`.
pub open spec fn search_start(zone: Seq<char>, s: LocalDate, after: UtcInstant) -> int {
    max_int(zone_local(zone, after.secs(), after.nano()).0, s.day_number())
}

/// What the next reminder of `schedule` after `after` is, as `r` reports it: a one-time
/// reminder at its local date-time; a recurring one at the first firing later than `after`,
/// or none once the schedule has run out; an error exactly for a bad zone, time, date,
/// interval or missing monthly day, or a failed search.
pub open spec fn next_occurrence_ok(schedule: MemoReminderInput, after: UtcInstant, r: Result<Option<UtcInstant>, DomainError>) -> bool {
    &&& (schedule matches MemoReminderInput::Once { scheduled_local, timezone } ==> {
        &&& !zone_known(timezone@) ==> fails_with(r, "MEMO_REMINDER_TIMEZONE_INVALID"@)
        &&& zone_known(timezone@) && parsed_local_datetime(scheduled_local@) is None ==> fails_with(r, "MEMO_REMINDER_TIME_INVALID"@)
        &&& r matches Ok(o) ==> (o matches Some(t) && (zone_known(timezone@)
            && (parsed_local_datetime(scheduled_local@) matches Some(l)
            && once_instant(timezone@, l) == Some((t.secs(), t.nano())))))
        &&& r is Err ==> !zone_known(timezone@) || parsed_local_datetime(scheduled_local@) is None
            || once_instant(timezone@, parsed_local_datetime(scheduled_local@).unwrap()) is None
    })
    &&& (schedule matches MemoReminderInput::Recurring { frequency, interval, weekdays, monthly_day, local_time, starts_on, ends_on, timezone } ==> {
        &&& !zone_known(timezone@) ==> fails_with(r, "MEMO_REMINDER_TIMEZONE_INVALID"@)
        &&& zone_known(timezone@) && parsed_clock(local_time@) is None ==> fails_with(r, "MEMO_REMINDER_TIME_INVALID"@)
        &&& zone_known(timezone@) && parsed_clock(local_time@) is Some
            && (interval == 0 || (frequency == MemoReminderFrequency::Weekdays && interval != 1))
            ==> fails_with(r, "MEMO_REMINDER_INTERVAL_INVALID"@)
        &&& zone_known(timezone@) && parsed_clock(local_time@) is Some && interval_fits(frequency, interval)
            && frequency == MemoReminderFrequency::Monthly && monthly_day is None
            ==> fails_with(r, "MEMO_REMINDER_DATE_INVALID"@)
        &&& zone_known(timezone@) && parsed_clock(local_time@) is Some && interval_fits(frequency, interval)
            && !(frequency == MemoReminderFrequency::Monthly && monthly_day is None)
            && (parsed_date(starts_on@) is None || (ends_on is Some && parsed_date(ends_on.unwrap()@) is None))
            ==> fails_with(r, "MEMO_REMINDER_DATE_INVALID"@)
        &&& r matches Ok(Some(t)) ==> exists|p: RecurrencePattern, s: LocalDate, e: Option<LocalDate>, sec: int|
            #[trigger] recurring_parts(frequency, interval, weekdays@, monthly_day, local_time@, starts_on@, opt_text(ends_on), p, s, e, sec)
            && is_next_fire(p, s, e, timezone@, sec, after, t)
        &&& r matches Ok(None) ==> exists|p: RecurrencePattern, s: LocalDate, e: Option<LocalDate>, sec: int|
            #[trigger] recurring_parts(frequency, interval, weekdays@, monthly_day, local_time@, starts_on@, opt_text(ends_on), p, s, e, sec)
            && exhausted_from(p, s.day_number(), e, timezone@, sec, search_start(timezone@, s, after), (after.secs(), after.nano()))
        &&& r matches Err(err) ==> {
            ||| !zone_known(timezone@)
            ||| parsed_clock(local_time@) is None
            ||| interval == 0
            ||| (frequency == MemoReminderFrequency::Weekdays && interval != 1)
            ||| (frequency == MemoReminderFrequency::Monthly && monthly_day is None)
            ||| parsed_date(starts_on@) is None
            ||| (ends_on is Some && parsed_date(ends_on.unwrap()@) is None)
            ||| exists|p: RecurrencePattern, s: LocalDate, e: Option<LocalDate>, sec: int|
                #[trigger] recurring_parts(frequency, interval, weekdays@, monthly_day, local_time@, starts_on@, opt_text(ends_on), p, s, e, sec)
                && search_failed(p, s.day_number(), e, timezone@, sec, search_start(timezone@, s, after), (after.secs(), after.nano()), err.code@)
        }
    })
}

/// When the schedule next reminds after `after`: a one-time reminder at its local date-time;
/// a recurring one at the first firing later than `after` (`None` once the schedule has ended).
pub fn next_occurrence(schedule: &MemoReminderInput, after: UtcInstant) -> (r: Result<Option<UtcInstant>, DomainError>)
    ensures
        next_occurrence_ok(*schedule, after, r),
{
    match schedule {
        MemoReminderInput::Once { scheduled_local, timezone } => {
            check_timezone(timezone.as_str())?;
            let (date, second) = match parse_local_datetime(scheduled_local.as_str()) {
                Some(v) => v,
                None => return Err(time_error("memo reminder time must use YYYY-MM-DDTHH:MM format", "scheduledLocal")),
            };
            let t = resolve_once(timezone.as_str(), date, second)?;
            Ok(Some(t))
        },
        MemoReminderInput::Recurring { frequency, interval, weekdays, monthly_day, local_time, starts_on, ends_on, timezone } => {
            check_timezone(timezone.as_str())?;
            let second = match parse_clock(local_time.as_str()) {
                Some(s) => s,
                None => return Err(time_error("memo reminder local time must use HH:MM format", "localTime")),
            };
            let pattern = build_pattern(*frequency, *interval, weekdays, *monthly_day)?;
            let starts = match parse_local_date(starts_on.as_str(), "startsOn") {
                Ok(d) => d,
                Err(e) => return Err(date_error(e)),
            };
            let ends = match ends_on {
                Some(t) => match parse_local_date(t.as_str(), "endsOn") {
                    Ok(d) => Some(d),
                    Err(e) => return Err(date_error(e)),
                },
                None => None,
            };
            let r = next_recurring(&pattern, starts, ends, timezone.as_str(), second, after);
            assert(recurring_parts(*frequency, *interval, weekdays@, *monthly_day, local_time@, starts_on@, opt_text(*ends_on),
                pattern, starts, ends, second as int));
            r
        },
    }
}


pub open spec fn same_schedule(a: MemoReminderInput, b: MemoReminderInput) -> bool {
    match (a, b) {
        (MemoReminderInput::Once { scheduled_local: l1, timezone: z1 }, MemoReminderInput::Once { scheduled_local: l2, timezone: z2 }) =>
            l1@ == l2@ && z1@ == z2@,
        (MemoReminderInput::Recurring { frequency: f1, interval: i1, weekdays: w1, monthly_day: m1, local_time: t1, starts_on: s1, ends_on: e1, timezone: z1 },
         MemoReminderInput::Recurring { frequency: f2, interval: i2, weekdays: w2, monthly_day: m2, local_time: t2, starts_on: s2, ends_on: e2, timezone: z2 }) =>
            f1 == f2 && i1 == i2 && w1@ == w2@ && m1 == m2 && t1@ == t2@ && s1@ == s2@ && opt_text(e1) == opt_text(e2) && z1@ == z2@,
        _ => false,
    }
}

fn copy_bytes(v: &Vec<u8>) -> (r: Vec<u8>)
    ensures
        r@ == v@,
{
    let mut out: Vec<u8> = Vec::new();
    let mut i: usize = 0;
    while i < v.len()
        invariant
            i <= v@.len(),
            out@ == v@.take(i as int),
        decreases v@.len() - i,
    {
        out.push(v[i]);
        i += 1;
    }
    assert(v@.take(v@.len() as int) =~= v@);
    out
}

fn copy_opt(o: &Option<String>) -> (r: Option<String>)
    ensures
        opt_text(r) == opt_text(*o),
{
    match o {
        Some(s) => Some(s.clone()),
        None => None,
    }
}

impl MemoReminderInput {
    /// A copy of the schedule.
    pub fn duplicate(&self) -> (r: MemoReminderInput)
        ensures
            same_schedule(r, *self),
    {
        match self {
            MemoReminderInput::Once { scheduled_local, timezone } => MemoReminderInput::Once {
                scheduled_local: scheduled_local.clone(),
                timezone: timezone.clone(),
            },
            MemoReminderInput::Recurring { frequency, interval, weekdays, monthly_day, local_time, starts_on, ends_on, timezone } =>
                MemoReminderInput::Recurring {
                    frequency: *frequency,
                    interval: *interval,
                    weekdays: copy_bytes(weekdays),
                    monthly_day: *monthly_day,
                    local_time: local_time.clone(),
                    starts_on: starts_on.clone(),
                    ends_on: copy_opt(ends_on),
                    timezone: timezone.clone(),
                },
        }
    }
}

/// A recurring reminder only moves forward: the next occurrence after `after` is strictly
/// later than `after`, so each advance after a delivery lands later than the delivery.
pub proof fn lemma_recurring_advance_is_later(schedule: MemoReminderInput, after: UtcInstant, t: UtcInstant)
    requires
        schedule is Recurring,
        next_occurrence_ok(schedule, after, Ok(Some(t))),
    ensures
        instant_before(after, t),
{
}

/// The stored text of an occurrence, if there is one.
pub open spec fn next_text(o: Option<UtcInstant>) -> Option<Seq<char>> {
    match o {
        Some(t) => Some(rfc3339_text(t.secs(), t.nano())),
        None => None,
    }
}

/// The reminder rule a memo's schedule becomes at `now`: the schedule's next occurrence (if
/// any) decides whether it is active or completed; an existing rule keeps its identity and
/// creation time; `now` is the update time. No schedule, no rule.
pub fn prepare_rule(memo_id: &str, current: Option<&MemoReminderRule>, schedule: Option<&MemoReminderInput>, now: UtcInstant)
    -> (r: Result<Option<MemoReminderRule>, DomainError>)
    ensures
        schedule is None ==> r matches Ok(None),
        schedule is Some && r is Ok ==> r matches Ok(Some(_)),
        schedule matches Some(s) ==> exists|n: Result<Option<UtcInstant>, DomainError>|
            #[trigger] next_occurrence_ok(*s, now, n) && match n {
                Err(e) => r == Err::<Option<MemoReminderRule>, DomainError>(e),
                Ok(o) => r matches Ok(Some(rule)) && opt_text(rule.next_scheduled_for) == next_text(o),
            },
        r matches Ok(Some(rule)) ==> (schedule matches Some(s) && ({
            &&& rule.memo_id@ == memo_id@
            &&& same_schedule(rule.schedule, *s)
            &&& rule.updated_at@ == rfc3339_text(now.secs(), now.nano())
            &&& (rule.next_scheduled_for is Some <==> rule.status == MemoReminderStatus::Active)
            &&& (rule.next_scheduled_for is None ==> rule.status == MemoReminderStatus::Completed)
            &&& (current matches Some(c) ==> rule.id@ == c.id@ && rule.created_at@ == c.created_at@)
            &&& (current is None ==> rule.created_at@ == rule.updated_at@)
        })),
{
    let schedule = match schedule {
        Some(s) => s,
        None => return Ok(None),
    };
    let next = match next_occurrence(schedule, now) {
        Ok(n) => n,
        Err(e) => return Err(e),
    };
    let next_scheduled_for = match next {
        Some(t) => Some(to_rfc3339(&t)),
        None => None,
    };
    let status = if next_scheduled_for.is_some() { MemoReminderStatus::Active } else { MemoReminderStatus::Completed };
    let timestamp = to_rfc3339(&now);
    let (id, created_at) = match current {
        Some(c) => (c.id.clone(), c.created_at.clone()),
        None => (new_id(), timestamp.clone()),
    };
    Ok(Some(MemoReminderRule {
        id,
        memo_id: memo_id.to_string(),
        schedule: schedule.duplicate(),
        next_scheduled_for,
        status,
        created_at,
        updated_at: timestamp,
    }))
}


/// How a delivered reminder moves on: a one-time reminder completes; a recurring one moves to
/// its first occurrence after the one just delivered (completing when there is none).
/// Returns the delivered occurrence as stored, the next one, and the new status.
pub fn plan_advance(occurrence: &DueMemoReminder) -> (r: Result<(String, Option<String>, MemoReminderStatus), DomainError>)
    ensures
        occurrence.reminder.next_scheduled_for is None ==> fails_with(r, "MEMO_REMINDER_DATA_INVALID"@),
        (occurrence.reminder.next_scheduled_for matches Some(t) && parsed_rfc3339(t@) is None)
            ==> fails_with(r, "MEMO_REMINDER_DATA_INVALID"@),
        r matches Ok((scheduled, next, status)) ==> {
            &&& opt_text(occurrence.reminder.next_scheduled_for) == Some(scheduled@)
            &&& parsed_rfc3339(scheduled@) is Some
            &&& (next is Some <==> status == MemoReminderStatus::Active)
            &&& (next is None ==> status == MemoReminderStatus::Completed)
            &&& (occurrence.reminder.schedule is Once ==> next is None)
        },
        (occurrence.reminder.schedule is Once && (occurrence.reminder.next_scheduled_for matches Some(t)
            && parsed_rfc3339(t@) is Some)) ==> r is Ok,
        (occurrence.reminder.schedule is Recurring && occurrence.reminder.next_scheduled_for is Some
            && parsed_rfc3339(occurrence.reminder.next_scheduled_for.unwrap()@) is Some)
            ==> exists|c: UtcInstant, n: Result<Option<UtcInstant>, DomainError>|
                parsed_rfc3339(occurrence.reminder.next_scheduled_for.unwrap()@) == Some((c.secs(), c.nano()))
                && #[trigger] next_occurrence_ok(occurrence.reminder.schedule, c, n) && match n {
                    Err(e) => r == Err::<(String, Option<String>, MemoReminderStatus), DomainError>(e),
                    Ok(o) => r matches Ok((_, next, _)) && opt_text(next) == next_text(o),
                },
{
    let scheduled_for = match &occurrence.reminder.next_scheduled_for {
        Some(t) => t,
        None => return Err(stored_occurrence_error()),
    };
    let current = match parse_rfc3339(scheduled_for.as_str()) {
        Some(t) => t,
        None => return Err(stored_occurrence_error()),
    };
    match &occurrence.reminder.schedule {
        MemoReminderInput::Once { .. } => Ok((scheduled_for.clone(), None, MemoReminderStatus::Completed)),
        MemoReminderInput::Recurring { .. } => {
            let next = next_occurrence(&occurrence.reminder.schedule, current)?;
            match next {
                Some(t) => Ok((scheduled_for.clone(), Some(to_rfc3339(&t)), MemoReminderStatus::Active)),
                None => Ok((scheduled_for.clone(), None, MemoReminderStatus::Completed)),
            }
        },
    }
}

/// The outcome of going through due items one by one: how many were delivered, and the
/// first failure met (later items are still tried).
pub struct DeliveryTally {
    pub delivered: usize,
    pub first_error: Option<DomainError>,
}

impl DeliveryTally {
    pub fn new() -> (t: DeliveryTally)
        ensures
            t.delivered == 0,
            t.first_error is None,
    {
        DeliveryTally { delivered: 0, first_error: None }
    }

    /// One more item delivered.
    pub fn record_success(&mut self)
        requires
            old(self).delivered < usize::MAX,
        ensures
            final(self).delivered == old(self).delivered + 1,
            final(self).first_error == old(self).first_error,
    {
        self.delivered = self.delivered + 1;
    }

    /// One more item failed; only the first failure is kept.
    pub fn record_failure(&mut self, error: DomainError)
        ensures
            final(self).delivered == old(self).delivered,
            old(self).first_error is Some ==> final(self).first_error == old(self).first_error,
            old(self).first_error is None ==> final(self).first_error == Some(error),
    {
        if self.first_error.is_none() {
            self.first_error = Some(error);
        }
    }

    /// The count when every item went through, else the first failure.
    pub fn finish(self) -> (r: Result<usize, DomainError>)
        ensures
            self.first_error matches Some(e) ==> r == Err::<usize, DomainError>(e),
            self.first_error is None ==> r == Ok::<usize, DomainError>(self.delivered),
    {
        match self.first_error {
            Some(e) => Err(e),
            None => Ok(self.delivered),
        }
    }
}

} // verus!
