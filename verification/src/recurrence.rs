//! Recurring task rules and their instances: the dates a rule produces, the UTC time of an
//! instance, and the checks and plans behind completing, skipping, delaying, rescheduling,
//! pausing, ending and changing a rule.
use vstd::prelude::*;
use crate::error::{fails_on, fails_with, DomainError};
use crate::schedule::{next_on_or_after, occurrences_in, RecurrencePattern};
use crate::time::{
    first_existing, local_time_of, parse_clock, parsed_clock, parsed_date, rfc3339_fixed_text, resolve_local,
    to_rfc3339_fixed, utc_now, zone_known, zone_local, FractionDigits, LocalDate, UtcInstant, is_known_zone,
    local_day_is_supported, local_day_supported,
};
use crate::text::opt_text;

verus! {

#[derive(Clone, Copy, Debug, PartialEq, Eq, Structural)]
pub enum RecurrenceStatus {
    Active,
    Paused,
    Ended,
}

#[derive(Clone, Copy, Debug, PartialEq, Eq, Structural)]
pub enum TaskInstanceStatus {
    Pending,
    Completed,
    Skipped,
    Rescheduled,
}

/// A rule that makes a task template recur.
#[derive(Debug)]
pub struct RecurrenceRule {
    pub id: String,
    pub task_template_id: String,
    pub pattern: RecurrencePattern,
    pub local_time: Option<String>,
    pub timezone: String,
    pub starts_on: String,
    pub ends_on: Option<String>,
    pub status: RecurrenceStatus,
    pub version: u32,
}

/// One dated occurrence of a recurring task.
#[derive(Debug)]
pub struct TaskInstanceRecord {
    pub id: String,
    pub recurrence_rule_id: String,
    pub rule_version: u32,
    pub scheduled_date: String,
    pub scheduled_at: Option<String>,
    pub snapshot_title: String,
    pub snapshot_project_id: Option<String>,
    pub status: TaskInstanceStatus,
    pub completed_at: Option<String>,
    pub source_instance_id: Option<String>,
    pub created_at: String,
    pub updated_at: String,
}

/// What started a generation run.
#[derive(Debug, PartialEq, Eq)]
pub enum GenerationTrigger {
    Startup,
    DayBoundary,
    RuleChanged { rule_id: String },
    TimezoneChanged { rule_id: String },
}

/// How many dates a generation run scheduled for a rule, and how many instances it wrote.
#[derive(Debug, PartialEq, Eq)]
pub struct GenerationSummary {
    pub rule_id: String,
    pub scheduled_count: usize,
    pub affected_count: usize,
}

/// The stored name of a rule status.
pub open spec fn status_text(status: RecurrenceStatus) -> Seq<char> {
    match status {
        RecurrenceStatus::Active => "active"@,
        RecurrenceStatus::Paused => "paused"@,
        RecurrenceStatus::Ended => "ended"@,
    }
}

pub fn status_name(status: RecurrenceStatus) -> (r: &'static str)
    ensures
        r@ == status_text(status),
{
    match status {
        RecurrenceStatus::Active => "active",
        RecurrenceStatus::Paused => "paused",
        RecurrenceStatus::Ended => "ended",
    }
}

/// The stored name of an instance status.
pub open spec fn instance_status_text(status: TaskInstanceStatus) -> Seq<char> {
    match status {
        TaskInstanceStatus::Pending => "pending"@,
        TaskInstanceStatus::Completed => "completed"@,
        TaskInstanceStatus::Skipped => "skipped"@,
        TaskInstanceStatus::Rescheduled => "rescheduled"@,
    }
}

pub fn instance_status_name(status: TaskInstanceStatus) -> (r: &'static str)
    ensures
        r@ == instance_status_text(status),
{
    match status {
        TaskInstanceStatus::Pending => "pending",
        TaskInstanceStatus::Completed => "completed",
        TaskInstanceStatus::Skipped => "skipped",
        TaskInstanceStatus::Rescheduled => "rescheduled",
    }
}

/// The instance status a stored name stands for, if any.
pub fn parse_instance_status(name: &str) -> (r: Option<TaskInstanceStatus>)
    ensures
        r matches Some(s) ==> instance_status_text(s) == name@,
        r is None ==> forall|s: TaskInstanceStatus| instance_status_text(s) != name@,
{
    proof {
        reveal_strlit("pending");
        reveal_strlit("completed");
        reveal_strlit("skipped");
        reveal_strlit("rescheduled");
    }
    let pending = String::from_str("pending");
    let given = String::from_str(name);
    if given == pending {
        return Some(TaskInstanceStatus::Pending);
    }
    if given == String::from_str("completed") {
        return Some(TaskInstanceStatus::Completed);
    }
    if given == String::from_str("skipped") {
        return Some(TaskInstanceStatus::Skipped);
    }
    if given == String::from_str("rescheduled") {
        return Some(TaskInstanceStatus::Rescheduled);
    }
    None
}

/// The rule status a stored name stands for, if any.
pub fn parse_rule_status(name: &str) -> (r: Option<RecurrenceStatus>)
    ensures
        r matches Some(s) ==> status_text(s) == name@,
        r is None ==> forall|s: RecurrenceStatus| status_text(s) != name@,
{
    proof {
        reveal_strlit("active");
        reveal_strlit("paused");
        reveal_strlit("ended");
    }
    if crate::text::same_text(name, "active") {
        Some(RecurrenceStatus::Active)
    } else if crate::text::same_text(name, "paused") {
        Some(RecurrenceStatus::Paused)
    } else if crate::text::same_text(name, "ended") {
        Some(RecurrenceStatus::Ended)
    } else {
        None
    }
}

/// Stored recurrence data that cannot be read.
pub fn serialization_error(message: &str) -> (e: DomainError)
    ensures
        e.code@ == "RECURRENCE_DATA_INVALID"@,
        e.message@ == message@,
        e.field is None,
{
    DomainError::new("RECURRENCE_DATA_INVALID", message, None)
}

/// A rule row read back, its pattern already decoded: the status must be a known name.
pub fn rule_from_row(id: String, task_template_id: String, pattern: RecurrencePattern, local_time: Option<String>,
    timezone: String, starts_on: String, ends_on: Option<String>, status: &str, version: u32)
    -> (r: Result<RecurrenceRule, DomainError>)
    ensures
        r is Ok <==> exists|s: RecurrenceStatus| status_text(s) == status@,
        r matches Err(e) ==> e.code@ == "RECURRENCE_DATA_INVALID"@ && e.message@ == "invalid recurrence status"@,
        r matches Ok(rule) ==> {
            &&& status_text(rule.status) == status@
            &&& rule.id == id
            &&& rule.task_template_id == task_template_id
            &&& rule.pattern == pattern
            &&& rule.local_time == local_time
            &&& rule.timezone == timezone
            &&& rule.starts_on == starts_on
            &&& rule.ends_on == ends_on
            &&& rule.version == version
        },
{
    let parsed = match parse_rule_status(status) {
        Some(s) => s,
        None => return Err(serialization_error("invalid recurrence status")),
    };
    Ok(RecurrenceRule { id, task_template_id, pattern, local_time, timezone, starts_on, ends_on, status: parsed, version })
}

/// An error of the recurrence scheduler.
pub fn scheduler_error(code: &str, message: &str, field: Option<&str>) -> (e: DomainError)
    ensures
        e.code@ == code@,
        e.message@ == message@,
        opt_text(e.field) == (match field { Some(f) => Some(f@), None => None }),
{
    DomainError::new(code, message, field)
}

/// The date written `YYYY-MM-DD`, or `RECURRENCE_DATE_INVALID` naming the field.
pub fn parse_local_date(value: &str, field: &str) -> (r: Result<LocalDate, DomainError>)
    ensures
        parsed_date(value@) is Some <==> r is Ok,
        r matches Ok(d) ==> parsed_date(value@) == Some(d.day_number()),
        r matches Err(e) ==> e.code@ == "RECURRENCE_DATE_INVALID"@ && opt_text(e.field) == Some(field@),
{
    match LocalDate::parse(value) {
        Some(d) => Ok(d),
        None => Err(scheduler_error("RECURRENCE_DATE_INVALID", "date must use YYYY-MM-DD", Some(field))),
    }
}

/// The UTC instant, written `YYYY-MM-DDTHH:MM:SSZ`, at which an instance of the rule on `date`
/// is scheduled: the rule's local time in its zone, moved forward to the first minute that
/// exists when it falls in a daylight-saving gap (up to three hours); `None` for a rule
/// without a local time.
pub open spec fn scheduled_at_spec(local_time: Option<Seq<char>>, zone: Seq<char>, date: int) -> Result<Option<Seq<char>>, Seq<char>> {
    match local_time {
        None => Ok(None),
        Some(t) => match parsed_clock(t) {
            None => Err("RECURRENCE_LOCAL_TIME_INVALID"@),
            Some(second) => if !zone_known(zone) {
                Err("RECURRENCE_TIMEZONE_INVALID"@)
            } else {
                match first_existing(zone, date, second, 0, 180, false) {
                    None => Err("RECURRENCE_LOCAL_TIME_INVALID"@),
                    Some(p) => Ok(Some(rfc3339_fixed_text(p.0, p.1, 0))),
                }
            },
        },
    }
}

pub open spec fn result_codes(r: Result<Option<String>, DomainError>) -> Result<Option<Seq<char>>, Seq<char>> {
    match r {
        Ok(v) => Ok(opt_text(v)),
        Err(e) => Err(e.code@),
    }
}

pub fn scheduled_at(local_time: &Option<String>, zone: &str, date: LocalDate) -> (r: Result<Option<String>, DomainError>)
    ensures
        result_codes(r) == scheduled_at_spec(opt_text(*local_time), zone@, date.day_number()),
{
    let text = match local_time {
        None => return Ok(None),
        Some(t) => t,
    };
    let second = match parse_clock(text.as_str()) {
        Some(s) => s,
        None => return Err(scheduler_error("RECURRENCE_LOCAL_TIME_INVALID", "local time must use HH:MM", Some("localTime"))),
    };
    if !is_known_zone(zone) {
        return Err(scheduler_error("RECURRENCE_TIMEZONE_INVALID", "timezone must be a valid IANA identifier", Some("timezone")));
    }
    match resolve_local(zone, date, second, 180, false) {
        Some(t) => Ok(Some(to_rfc3339_fixed(&t, FractionDigits::Zero))),
        None => Err(scheduler_error(
            "RECURRENCE_LOCAL_TIME_INVALID",
            "local time could not be resolved in the configured timezone",
            Some("localTime"),
        )),
    }
}

/// A lowercase hexadecimal digit.
pub open spec fn is_lower_hex(c: char) -> bool {
    ('0' <= c && c <= '9') || ('a' <= c && c <= 'f')
}

/// Text in the hyphenated form of a random (version 4, RFC 4122 variant) UUID:
/// `xxxxxxxx-xxxx-4xxx-yxxx-xxxxxxxxxxxx`, lowercase hexadecimal digits, `y` one of `8 9 a b`.
pub open spec fn is_random_uuid_text(s: Seq<char>) -> bool {
    &&& s.len() == 36
    &&& forall|i: int| 0 <= i < 36 ==> (i == 8 || i == 13 || i == 18 || i == 23) == (#[trigger] s[i] == '-')
    &&& forall|i: int| 0 <= i < 36 && !(i == 8 || i == 13 || i == 18 || i == 23) ==> is_lower_hex(#[trigger] s[i])
    &&& s[14] == '4'
    &&& (s[19] == '8' || s[19] == '9' || s[19] == 'a' || s[19] == 'b')
}

/// A fresh random identifier: `uuid::Uuid::new_v4`, written by its `Display` impl in the
/// lowercase hyphenated form. Which random digits it holds is not stated.
#[verifier::external_body]
pub(crate) fn new_id() -> (r: String)
    ensures
        is_random_uuid_text(r@),
{
    uuid::Uuid::new_v4().to_string()
}

/// The current time as RFC 3339 text with milliseconds and `Z`.
pub fn now_text() -> (r: String)
    ensures
        exists|t: UtcInstant| r@ == crate::time::rfc3339_fixed_text(t.secs(), t.nano(), 3),
{
    let now = utc_now();
    to_rfc3339_fixed(&now, FractionDigits::Three)
}

pub open spec fn opt_string_eq(a: Option<String>, b: Option<String>) -> bool {
    opt_text(a) == opt_text(b)
}

/// The pending instances of the rule for each date: the rule's identity and version, the
/// template's title and project, the scheduled time of each date, no completion and no
/// source, and one shared creation time.
pub fn build_instances(rule: &RecurrenceRule, dates: &Vec<LocalDate>, title: &str, project_id: &Option<String>)
    -> (r: Result<Vec<TaskInstanceRecord>, DomainError>)
    ensures
        r matches Ok(v) ==> v@.len() == dates@.len() && forall|i: int| 0 <= i < v@.len() ==> {
            let x = #[trigger] v@[i];
            &&& x.recurrence_rule_id@ == rule.id@
            &&& x.rule_version == rule.version
            &&& x.scheduled_date@ == crate::time::date_text(dates@[i].day_number())
            &&& result_codes(Ok(x.scheduled_at)) == scheduled_at_spec(opt_text(rule.local_time), rule.timezone@, dates@[i].day_number())
            &&& x.snapshot_title@ == title@
            &&& opt_string_eq(x.snapshot_project_id, *project_id)
            &&& x.status == TaskInstanceStatus::Pending
            &&& x.completed_at is None
            &&& x.source_instance_id is None
            &&& x.created_at@ == x.updated_at@
            &&& x.created_at@ == v@[0].created_at@
        },
        r matches Err(e) ==> exists|i: int| 0 <= i < dates@.len()
            && result_codes(Err(e)) == scheduled_at_spec(opt_text(rule.local_time), rule.timezone@, #[trigger] dates@[i].day_number()),
{
    let now = now_text();
    let mut out: Vec<TaskInstanceRecord> = Vec::new();
    let mut i: usize = 0;
    while i < dates.len()
        invariant
            i <= dates@.len(),
            out@.len() == i,
            forall|j: int| 0 <= j < i ==> {
                let x = #[trigger] out@[j];
                &&& x.recurrence_rule_id@ == rule.id@
                &&& x.rule_version == rule.version
                &&& x.scheduled_date@ == crate::time::date_text(dates@[j].day_number())
                &&& result_codes(Ok(x.scheduled_at)) == scheduled_at_spec(opt_text(rule.local_time), rule.timezone@, dates@[j].day_number())
                &&& x.snapshot_title@ == title@
                &&& opt_string_eq(x.snapshot_project_id, *project_id)
                &&& x.status == TaskInstanceStatus::Pending
                &&& x.completed_at is None
                &&& x.source_instance_id is None
                &&& x.created_at@ == now@
                &&& x.updated_at@ == now@
            },
        decreases dates@.len() - i,
    {
        let date = dates[i];
        let at = match scheduled_at(&rule.local_time, rule.timezone.as_str(), date) {
            Ok(at) => at,
            Err(e) => {
                assert(result_codes(Err(e)) == scheduled_at_spec(opt_text(rule.local_time), rule.timezone@, dates@[i as int].day_number()));
                return Err(e);
            },
        };
        let project = match project_id {
            Some(p) => Some(p.clone()),
            None => None,
        };
        out.push(TaskInstanceRecord {
            id: new_id(),
            recurrence_rule_id: rule.id.clone(),
            rule_version: rule.version,
            scheduled_date: date.format(),
            scheduled_at: at,
            snapshot_title: title.to_string(),
            snapshot_project_id: project,
            status: TaskInstanceStatus::Pending,
            completed_at: None,
            source_instance_id: None,
            created_at: now.clone(),
            updated_at: now.clone(),
        });
        i += 1;
    }
    Ok(out)
}

} // verus!

verus! {

/// The first and (when the rule has one) last day of the rule, read from its text fields.
pub fn rule_bounds(rule: &RecurrenceRule) -> (r: Result<(LocalDate, Option<LocalDate>), DomainError>)
    ensures
        r is Ok <==> parsed_date(rule.starts_on@) is Some && match rule.ends_on {
            Some(e) => parsed_date(e@) is Some,
            None => true,
        },
        r matches Ok((s, e)) ==> parsed_date(rule.starts_on@) == Some(s.day_number()) && match rule.ends_on {
            Some(t) => e matches Some(d) && parsed_date(t@) == Some(d.day_number()),
            None => e is None,
        },
        r matches Err(x) ==> x.code@ == "RECURRENCE_DATE_INVALID"@,
{
    let starts = parse_local_date(rule.starts_on.as_str(), "startsOn")?;
    let ends = match &rule.ends_on {
        Some(t) => Some(parse_local_date(t.as_str(), "endsOn")?),
        None => None,
    };
    Ok((starts, ends))
}

/// The first and last day the rule's date fields read as.
pub open spec fn bounds_read(rule: RecurrenceRule, s: LocalDate, e: Option<LocalDate>) -> bool {
    &&& parsed_date(rule.starts_on@) == Some(s.day_number())
    &&& (rule.ends_on is None ==> e is None)
    &&& (rule.ends_on matches Some(t) ==> e matches Some(x) && parsed_date(t@) == Some(x.day_number()))
}

/// Whether the rule's date fields can be read.
pub open spec fn bounds_readable(rule: RecurrenceRule) -> bool {
    parsed_date(rule.starts_on@) is Some && match rule.ends_on {
        Some(e) => parsed_date(e@) is Some,
        None => true,
    }
}

/// The first date on or after `from` on which the rule falls (see `next_on_or_after`).
pub fn next_scheduled_date(rule: &RecurrenceRule, from: LocalDate) -> (r: Result<Option<LocalDate>, DomainError>)
    ensures
        r matches Ok(Some(d)) ==> exists|s: LocalDate, e: Option<LocalDate>|
            #[trigger] bounds_read(*rule, s, e)
            && crate::schedule::within_end(e, d.day_number())
            && crate::schedule::occurs_on(rule.pattern, s.day_number(), d.day_number())
            && crate::schedule::max_int(from.day_number(), s.day_number()) <= d.day_number()
            && crate::schedule::none_between(rule.pattern, s.day_number(),
                crate::schedule::max_int(from.day_number(), s.day_number()), d.day_number() - 1),
        r matches Ok(None) ==> exists|s: LocalDate, e: Option<LocalDate>|
            #[trigger] bounds_read(*rule, s, e)
            && ({
                let lo = crate::schedule::max_int(from.day_number(), s.day_number());
                crate::schedule::none_between(rule.pattern, s.day_number(), lo, match e {
                    Some(x) if x.day_number() < lo + crate::schedule::search_span(rule.pattern) => x.day_number(),
                    _ => lo + crate::schedule::search_span(rule.pattern),
                })
            }),
        !bounds_readable(*rule) ==> r is Err,
        r matches Err(x) ==> x.code@ == "RECURRENCE_DATE_INVALID"@,
        bounds_readable(*rule) && r is Err ==> exists|s: LocalDate, e: Option<LocalDate>, x: int|
            #![trigger bounds_read(*rule, s, e), crate::schedule::none_between(rule.pattern, s.day_number(),
                crate::schedule::max_int(from.day_number(), s.day_number()), x)]
            bounds_read(*rule, s, e)
            && crate::schedule::max_int(from.day_number(), s.day_number()) <= x
            && !crate::time::date_in_range(x + 1)
            && crate::schedule::none_between(rule.pattern, s.day_number(),
                crate::schedule::max_int(from.day_number(), s.day_number()), x),
{
    let (starts, ends) = rule_bounds(rule)?;
    let r = next_on_or_after(&rule.pattern, starts, ends, from);
    assert(bounds_read(*rule, starts, ends));
    proof {
        if r is Err {
            let lo = crate::schedule::max_int(from.day_number(), starts.day_number());
            let x = choose|x: int| lo <= x && !crate::time::date_in_range(x + 1)
                && crate::schedule::none_between(rule.pattern, starts.day_number(), lo, x);
            assert(crate::schedule::none_between(rule.pattern, starts.day_number(), lo, x));
        }
    }
    r
}

/// Every date from `range_start` to `range_end` on which the rule falls, in order.
pub fn scheduled_dates(rule: &RecurrenceRule, range_start: LocalDate, range_end: LocalDate)
    -> (r: Result<Vec<LocalDate>, DomainError>)
    ensures
        r matches Ok(v) ==> exists|s: LocalDate, e: Option<LocalDate>|
            parsed_date(rule.starts_on@) == Some(s.day_number())
            && (rule.ends_on is None ==> e is None)
            && (rule.ends_on matches Some(t) ==> e matches Some(x) && parsed_date(t@) == Some(x.day_number()))
            && crate::schedule::day_numbers(v@) == crate::schedule::occurrences_between(
                rule.pattern, s.day_number(), e, range_start.day_number(), range_end.day_number()),
        r is Err <==> !(parsed_date(rule.starts_on@) is Some && match rule.ends_on {
            Some(e) => parsed_date(e@) is Some,
            None => true,
        }),
        r matches Err(x) ==> x.code@ == "RECURRENCE_DATE_INVALID"@,
{
    let (starts, ends) = rule_bounds(rule)?;
    Ok(occurrences_in(&rule.pattern, starts, ends, range_start, range_end))
}

/// The checks a new rule passes before its first instances are written: the generation
/// range runs forward and the rule starts at version one.
pub fn check_new_rule(range_start: LocalDate, range_end: LocalDate, version: u32) -> (r: Result<(), DomainError>)
    ensures
        r is Ok <==> range_start.day_number() <= range_end.day_number() && version == 1,
        range_start.day_number() > range_end.day_number() ==> fails_with(r, "RECURRENCE_RANGE_INVALID"@),
        range_start.day_number() <= range_end.day_number() && version != 1 ==> fails_with(r, "RECURRENCE_VERSION_INVALID"@),
{
    check_range(range_start, range_end)?;
    if version != 1 {
        return Err(scheduler_error(
            "RECURRENCE_VERSION_INVALID",
            "a new rule must start at version one",
            Some("version"),
        ));
    }
    Ok(())
}

/// Whether a trigger is one of the automatic ones.
pub open spec fn automatic(trigger: GenerationTrigger) -> bool {
    trigger is Startup || trigger is DayBoundary
}

/// The range an automatic reconciliation at `utc_now` generates for a rule, whose "today" is
/// its own local date at that instant in its zone (see `reconcile_range`): the trigger must
/// be automatic, the zone known and the first day readable.
pub fn rule_reconcile_range(trigger: &GenerationTrigger, rule: &RecurrenceRule, utc_now: UtcInstant)
    -> (r: Result<Option<(LocalDate, LocalDate)>, DomainError>)
    ensures
        !automatic(*trigger) ==> fails_with(r, "RECURRENCE_TRIGGER_INVALID"@),
        automatic(*trigger) && !zone_known(rule.timezone@) ==> fails_with(r, "RECURRENCE_TIMEZONE_INVALID"@),
        automatic(*trigger) && zone_known(rule.timezone@) && !local_day_supported(utc_now.secs())
            ==> fails_with(r, "RECURRENCE_DATE_INVALID"@),
        automatic(*trigger) && zone_known(rule.timezone@) && local_day_supported(utc_now.secs())
            && parsed_date(rule.starts_on@) is None ==> fails_with(r, "RECURRENCE_DATE_INVALID"@),
        automatic(*trigger) && zone_known(rule.timezone@) && local_day_supported(utc_now.secs())
            && parsed_date(rule.starts_on@) is Some ==> r is Ok,
        r matches Ok(o) ==> automatic(*trigger) && zone_known(rule.timezone@) && ({
            let today = zone_local(rule.timezone@, utc_now.secs(), utc_now.nano()).0;
            parsed_date(rule.starts_on@) matches Some(s) && match o {
                None => s > today,
                Some((a, b)) => s <= today && b.day_number() == today
                    && (*trigger is Startup ==> a.day_number() == s)
                    && (*trigger is DayBoundary ==> a.day_number() == today),
            }
        }),
{
    let automatic_trigger = match trigger {
        GenerationTrigger::Startup => true,
        GenerationTrigger::DayBoundary => true,
        _ => false,
    };
    if !automatic_trigger {
        return Err(scheduler_error(
            "RECURRENCE_TRIGGER_INVALID",
            "automatic reconciliation requires a startup or day-boundary trigger",
            None,
        ));
    }
    if !is_known_zone(rule.timezone.as_str()) {
        return Err(scheduler_error(
            "RECURRENCE_TIMEZONE_INVALID",
            "timezone must be a valid IANA identifier",
            Some("timezone"),
        ));
    }
    if !local_day_is_supported(&utc_now) {
        return Err(scheduler_error("RECURRENCE_DATE_INVALID", "the current date exceeds supported values", None));
    }
    let today = match local_time_of(rule.timezone.as_str(), utc_now) {
        Some((d, _)) => d,
        None => {
            return Err(scheduler_error(
                "RECURRENCE_TIMEZONE_INVALID",
                "timezone must be a valid IANA identifier",
                Some("timezone"),
            ));
        },
    };
    let starts_on = parse_local_date(rule.starts_on.as_str(), "startsOn")?;
    reconcile_range(trigger, starts_on, today)
}

/// `RECURRENCE_RANGE_INVALID` when a generation range ends before it starts.
pub fn check_range(range_start: LocalDate, range_end: LocalDate) -> (r: Result<(), DomainError>)
    ensures
        r is Err <==> range_start.day_number() > range_end.day_number(),
        r matches Err(e) ==> e.code@ == "RECURRENCE_RANGE_INVALID"@,
{
    if range_start.day_num() > range_end.day_num() {
        return Err(scheduler_error(
            "RECURRENCE_RANGE_INVALID",
            "generation end date must be on or after start date",
            Some("rangeEnd"),
        ));
    }
    Ok(())
}

/// The range an automatic reconciliation generates for a rule that has started by the local
/// `today`: from its first day on startup (backfill), only `today` at a day boundary. `None`
/// for a rule that starts later; an error for any other trigger.
pub fn reconcile_range(trigger: &GenerationTrigger, starts_on: LocalDate, today: LocalDate)
    -> (r: Result<Option<(LocalDate, LocalDate)>, DomainError>)
    ensures
        (trigger is Startup || trigger is DayBoundary) <==> r is Ok,
        r matches Err(e) ==> e.code@ == "RECURRENCE_TRIGGER_INVALID"@,
        r matches Ok(None) ==> starts_on.day_number() > today.day_number(),
        r matches Ok(Some((a, b))) ==> starts_on.day_number() <= today.day_number()
            && b == today
            && (trigger is Startup ==> a == starts_on)
            && (trigger is DayBoundary ==> a == today),
{
    let backfill = match trigger {
        GenerationTrigger::Startup => true,
        GenerationTrigger::DayBoundary => false,
        _ => {
            return Err(scheduler_error(
                "RECURRENCE_TRIGGER_INVALID",
                "automatic reconciliation requires a startup or day-boundary trigger",
                None,
            ));
        },
    };
    if starts_on.day_num() > today.day_num() {
        return Ok(None);
    }
    Ok(Some((if backfill { starts_on } else { today }, today)))
}

/// The error for an unknown rule.
pub fn recurrence_not_found(rule_id: &str) -> (e: DomainError)
    ensures
        e.code@ == "RECURRENCE_NOT_FOUND"@,
        e.field is None,
{
    let message = String::from_str("recurrence rule ").concat(rule_id).concat(" was not found");
    DomainError { code: String::from_str("RECURRENCE_NOT_FOUND"), message, field: None }
}

/// The error for an unknown instance.
pub fn instance_not_found(instance_id: &str) -> (e: DomainError)
    ensures
        e.code@ == "INSTANCE_NOT_FOUND"@,
        e.field is None,
{
    let message = String::from_str("task instance ").concat(instance_id).concat(" was not found");
    DomainError { code: String::from_str("INSTANCE_NOT_FOUND"), message, field: None }
}

/// The error for an instance that was already processed or started.
pub fn instance_not_actionable(instance_id: &str) -> (e: DomainError)
    ensures
        e.code@ == "INSTANCE_NOT_ACTIONABLE"@,
        e.field is None,
{
    let message = String::from_str("task instance ")
        .concat(instance_id)
        .concat(" has already been processed or started");
    DomainError { code: String::from_str("INSTANCE_NOT_ACTIONABLE"), message, field: None }
}

/// The error for a rule whose task template is gone.
pub fn task_template_not_found(task_id: &str) -> (e: DomainError)
    ensures
        e.code@ == "TASK_TEMPLATE_NOT_FOUND"@,
        e.field is None,
{
    let message = String::from_str("task template ").concat(task_id).concat(" was not found");
    DomainError { code: String::from_str("TASK_TEMPLATE_NOT_FOUND"), message, field: None }
}

/// `INSTANCE_NOT_ACTIONABLE` unless the instance is pending.
pub fn require_pending(instance: &TaskInstanceRecord) -> (r: Result<(), DomainError>)
    ensures
        r is Ok <==> instance.status == TaskInstanceStatus::Pending,
        r matches Err(e) ==> e.code@ == "INSTANCE_NOT_ACTIONABLE"@,
{
    if instance.status != TaskInstanceStatus::Pending {
        return Err(instance_not_actionable(instance.id.as_str()));
    }
    Ok(())
}

/// What completing or skipping an instance does.
#[derive(Debug, PartialEq, Eq, Structural)]
pub enum InstanceAction {
    /// The instance already has the target status: it is returned unchanged.
    AlreadyDone,
    /// The instance is pending and moves to the target status.
    Apply,
}

/// Completing (or skipping) is idempotent: an instance already in the target status stays
/// as it is; a pending one moves to it; any other is not actionable.
pub fn plan_instance_transition(instance: &TaskInstanceRecord, target: TaskInstanceStatus) -> (r: Result<InstanceAction, DomainError>)
    ensures
        instance.status == target ==> r == Ok::<InstanceAction, DomainError>(InstanceAction::AlreadyDone),
        instance.status != target && instance.status == TaskInstanceStatus::Pending
            ==> r == Ok::<InstanceAction, DomainError>(InstanceAction::Apply),
        instance.status != target && instance.status != TaskInstanceStatus::Pending
            ==> fails_with(r, "INSTANCE_NOT_ACTIONABLE"@),
{
    if instance.status == target {
        return Ok(InstanceAction::AlreadyDone);
    }
    require_pending(instance)?;
    Ok(InstanceAction::Apply)
}

} // verus!

verus! {

pub open spec fn parsed_instant(text: Seq<char>) -> Option<(int, int)> {
    crate::time::parsed_rfc3339(text)
}

/// Whether a delay can be applied: the instance is pending, its date reads, `local_time`
/// resolves on that date, and the result is later than the current scheduled time, if any.
pub open spec fn delay_allowed(instance: TaskInstanceRecord, timezone: Seq<char>, local_time: Seq<char>) -> bool {
    instance.status == TaskInstanceStatus::Pending && match parsed_date(instance.scheduled_date@) {
        None => false,
        Some(d) => match scheduled_at_spec(Some(local_time), timezone, d) {
            Ok(Some(t)) => match instance.scheduled_at {
                None => true,
                Some(c) => parsed_instant(c@) is Some && parsed_instant(t) is Some
                    && !crate::time::parts_le(parsed_instant(t)->0, parsed_instant(c@)->0),
            },
            _ => false,
        },
    }
}

/// The new scheduled time of a pending instance delayed to `local_time` on its own date:
/// it must resolve, and must come after the instance's current scheduled time, if any.
pub fn plan_delay(instance: &TaskInstanceRecord, timezone: &str, local_time: &str) -> (r: Result<String, DomainError>)
    ensures
        r is Ok <==> delay_allowed(*instance, timezone@, local_time@),
        instance.status != TaskInstanceStatus::Pending ==> fails_with(r, "INSTANCE_NOT_ACTIONABLE"@),
        parsed_date(instance.scheduled_date@) is None && instance.status == TaskInstanceStatus::Pending
            ==> fails_with(r, "RECURRENCE_DATE_INVALID"@),
        instance.status == TaskInstanceStatus::Pending ==> match parsed_date(instance.scheduled_date@) {
            None => true,
            Some(d) => match scheduled_at_spec(Some(local_time@), timezone@, d) {
                Err(code) => r matches Err(e) && e.code@ == code,
                Ok(None) => true,
                Ok(Some(t)) => match instance.scheduled_at {
                    None => r matches Ok(x) && x@ == t,
                    Some(c) => match (parsed_instant(c@), parsed_instant(t)) {
                        (None, _) => fails_with(r, "INSTANCE_DATA_INVALID"@),
                        (Some(_), None) => fails_with(r, "INSTANCE_TIME_INVALID"@),
                        (Some(cur), Some(tgt)) => if crate::time::parts_le(tgt, cur) {
                            fails_on(r, "INSTANCE_DELAY_INVALID"@, "localTime"@)
                        } else {
                            r matches Ok(x) && x@ == t
                        },
                    },
                },
            },
        },
        r matches Ok(t) ==> instance.status == TaskInstanceStatus::Pending
            && exists|d: int| parsed_date(instance.scheduled_date@) == Some(d)
                && scheduled_at_spec(Some(local_time@), timezone@, d) == Ok::<Option<Seq<char>>, Seq<char>>(Some(t@))
                && (instance.scheduled_at matches Some(c) ==> ({
                    let cur = parsed_instant(c@);
                    let tgt = parsed_instant(t@);
                    cur is Some && tgt is Some && !crate::time::parts_le(tgt->0, cur->0)
                })),
{
    require_pending(instance)?;
    let date = parse_local_date(instance.scheduled_date.as_str(), "scheduledDate")?;
    let local = Some(String::from_str(local_time));
    let target = match scheduled_at(&local, timezone, date)? {
        Some(t) => t,
        None => {
            return Err(scheduler_error("INSTANCE_TIME_INVALID", "a delayed instance requires a local time", Some("localTime")));
        },
    };
    if let Some(current) = &instance.scheduled_at {
        let current_time = match crate::time::parse_rfc3339(current.as_str()) {
            Some(t) => t,
            None => return Err(scheduler_error("INSTANCE_DATA_INVALID", "stored instance time is invalid", None)),
        };
        let target_time = match crate::time::parse_rfc3339(target.as_str()) {
            Some(t) => t,
            None => return Err(scheduler_error("INSTANCE_TIME_INVALID", "delayed time is invalid", None)),
        };
        if !crate::time::is_before(&current_time, &target_time) {
            return Err(scheduler_error(
                "INSTANCE_DELAY_INVALID",
                "delayed time must be later than the current time",
                Some("localTime"),
            ));
        }
    }
    Ok(target)
}

/// Whether a pending instance can move to the next day: its date reads, the next day is a
/// supported date, and the rule's time resolves on it.
pub open spec fn reschedule_possible(source: TaskInstanceRecord, local_time: Option<Seq<char>>, timezone: Seq<char>) -> bool {
    match parsed_date(source.scheduled_date@) {
        None => false,
        Some(d) => crate::time::date_in_range(d + 1) && scheduled_at_spec(local_time, timezone, d + 1) is Ok,
    }
}

/// The instance that takes a pending instance's place on the next day: same rule, version,
/// title and project, the rule's time on that day, pending, and pointing back at its source.
/// `None` when the source was already rescheduled.
pub fn plan_reschedule(source: &TaskInstanceRecord, local_time: &Option<String>, timezone: &str, id: String, now: String)
    -> (r: Result<Option<TaskInstanceRecord>, DomainError>)
    ensures
        source.status == TaskInstanceStatus::Rescheduled ==> r matches Ok(None),
        source.status == TaskInstanceStatus::Pending ==> (r is Ok <==> reschedule_possible(*source, opt_text(*local_time), timezone@)),
        source.status != TaskInstanceStatus::Rescheduled && source.status != TaskInstanceStatus::Pending
            ==> fails_with(r, "INSTANCE_NOT_ACTIONABLE"@),
        r matches Ok(Some(t)) ==> source.status == TaskInstanceStatus::Pending
            && t.id == id
            && t.recurrence_rule_id@ == source.recurrence_rule_id@
            && t.rule_version == source.rule_version
            && (exists|d: int| parsed_date(source.scheduled_date@) == Some(d)
                && t.scheduled_date@ == crate::time::date_text(d + 1)
                && scheduled_at_spec(opt_text(*local_time), timezone@, d + 1) == Ok::<Option<Seq<char>>, Seq<char>>(opt_text(t.scheduled_at)))
            && t.snapshot_title@ == source.snapshot_title@
            && opt_string_eq(t.snapshot_project_id, source.snapshot_project_id)
            && t.status == TaskInstanceStatus::Pending
            && t.completed_at is None
            && opt_text(t.source_instance_id) == Some(source.id@)
            && t.created_at@ == now@ && t.updated_at@ == now@,
{
    if source.status == TaskInstanceStatus::Rescheduled {
        return Ok(None);
    }
    require_pending(source)?;
    let source_date = parse_local_date(source.scheduled_date.as_str(), "scheduledDate")?;
    let target_date = match source_date.add_days(1) {
        Some(d) => d,
        None => {
            return Err(scheduler_error(
                "INSTANCE_DATE_INVALID",
                "tomorrow exceeds the supported date range",
                Some("scheduledDate"),
            ));
        },
    };
    let at = scheduled_at(local_time, timezone, target_date)?;
    let project = match &source.snapshot_project_id {
        Some(p) => Some(p.clone()),
        None => None,
    };
    Ok(Some(TaskInstanceRecord {
        id,
        recurrence_rule_id: source.recurrence_rule_id.clone(),
        rule_version: source.rule_version,
        scheduled_date: target_date.format(),
        scheduled_at: at,
        snapshot_title: source.snapshot_title.clone(),
        snapshot_project_id: project,
        status: TaskInstanceStatus::Pending,
        completed_at: None,
        source_instance_id: Some(source.id.clone()),
        created_at: now.clone(),
        updated_at: now,
    }))
}

/// What pausing or ending a rule does.
#[derive(Debug, PartialEq, Eq, Structural)]
pub enum StatusChange {
    /// The rule already has the target status.
    Unchanged,
    /// The rule moves to the target status at the next version.
    Update { version: u32 },
}

/// Pausing or ending a rule: idempotent for the current status, refused for `Active` as a
/// target and for an ended rule, and bumping the version by one.
pub fn plan_status_change(current: RecurrenceStatus, version: u32, target: RecurrenceStatus) -> (r: Result<StatusChange, DomainError>)
    ensures
        target == RecurrenceStatus::Active ==> fails_with(r, "RECURRENCE_STATUS_INVALID"@),
        target != RecurrenceStatus::Active && current == target ==> r == Ok::<StatusChange, DomainError>(StatusChange::Unchanged),
        target != RecurrenceStatus::Active && current != target && current == RecurrenceStatus::Ended
            ==> fails_with(r, "RECURRENCE_STATUS_INVALID"@),
        target != RecurrenceStatus::Active && current != target && current != RecurrenceStatus::Ended
            ==> (if version < u32::MAX {
                r == Ok::<StatusChange, DomainError>(StatusChange::Update { version: (version + 1) as u32 })
            } else {
                fails_with(r, "RECURRENCE_VERSION_INVALID"@)
            }),
{
    if target == RecurrenceStatus::Active {
        return Err(scheduler_error(
            "RECURRENCE_STATUS_INVALID",
            "this operation only supports pausing or ending a rule",
            Some("status"),
        ));
    }
    if current == target {
        return Ok(StatusChange::Unchanged);
    }
    if current == RecurrenceStatus::Ended {
        return Err(scheduler_error("RECURRENCE_STATUS_INVALID", "an ended rule cannot change status", Some("status")));
    }
    match version.checked_add(1) {
        Some(v) => Ok(StatusChange::Update { version: v }),
        None => Err(scheduler_error(
            "RECURRENCE_VERSION_INVALID",
            "rule version exceeds the supported range",
            Some("version"),
        )),
    }
}

/// Which instances a schedule change applies to.
#[derive(Debug)]
pub enum RecurrenceChangeScope {
    ThisInstance { instance_id: String },
    Future { effective_on: String },
}

/// What a schedule change does once checked.
#[derive(Debug)]
pub enum ChangePlan {
    /// Move one pending instance to this scheduled time.
    OneInstance { scheduled_at: Option<String> },
    /// Replace the rule and regenerate the instances on these dates.
    Future { dates: Vec<LocalDate> },
}

/// Whether a schedule change passes its checks (see `plan_schedule_change`).
pub open spec fn change_allowed(proposed: RecurrenceRule, current: RecurrenceRule, scope: RecurrenceChangeScope,
    instance: Option<&TaskInstanceRecord>, range_end: int) -> bool
{
    proposed.task_template_id@ == current.task_template_id@ && match scope {
        RecurrenceChangeScope::ThisInstance { .. } => instance matches Some(i)
            && i.status == TaskInstanceStatus::Pending
            && i.recurrence_rule_id@ == proposed.id@
            && (parsed_date(i.scheduled_date@) matches Some(d)
                && scheduled_at_spec(opt_text(proposed.local_time), proposed.timezone@, d) is Ok),
        RecurrenceChangeScope::Future { effective_on } => (parsed_date(effective_on@) matches Some(e) && e <= range_end)
            && proposed.version as int == (if current.version < u32::MAX { current.version + 1 } else { current.version as int })
            && proposed.status == current.status
            && bounds_readable(proposed),
    }
}

/// The checks of a schedule change: the template stays; a single-instance change needs a
/// pending instance of the rule; a future change needs an effective date not after the range
/// end, the next version, and an unchanged status.
pub fn plan_schedule_change(
    proposed: &RecurrenceRule,
    current: &RecurrenceRule,
    scope: &RecurrenceChangeScope,
    instance: Option<&TaskInstanceRecord>,
    range_end: LocalDate,
) -> (r: Result<ChangePlan, DomainError>)
    ensures
        r is Ok <==> change_allowed(*proposed, *current, *scope, instance, range_end.day_number()),
        proposed.task_template_id@ != current.task_template_id@ ==> fails_with(r, "RECURRENCE_CHANGE_INVALID"@),
        r matches Ok(ChangePlan::OneInstance { scheduled_at }) ==> (scope is ThisInstance
            && (instance matches Some(i) && i.status == TaskInstanceStatus::Pending
            && i.recurrence_rule_id@ == proposed.id@
            && exists|d: int| parsed_date(i.scheduled_date@) == Some(d)
                && scheduled_at_spec(opt_text(proposed.local_time), proposed.timezone@, d) == Ok::<Option<Seq<char>>, Seq<char>>(opt_text(scheduled_at)))),
        r matches Ok(ChangePlan::Future { dates }) ==> (scope matches RecurrenceChangeScope::Future { effective_on }
            && proposed.status == current.status
            && proposed.version as int == (if current.version < u32::MAX { current.version + 1 } else { current.version as int })
            && exists|e: int, s: LocalDate, end: Option<LocalDate>| parsed_date(effective_on@) == Some(e)
                && e <= range_end.day_number()
                && parsed_date(proposed.starts_on@) == Some(s.day_number())
                && (proposed.ends_on is None ==> end is None)
                && (proposed.ends_on matches Some(t) ==> end matches Some(x) && parsed_date(t@) == Some(x.day_number()))
                && crate::schedule::day_numbers(dates@) == crate::schedule::occurrences_between(
                    proposed.pattern, s.day_number(), end, e, range_end.day_number())),
        scope is ThisInstance && proposed.task_template_id@ == current.task_template_id@ && instance is None
            ==> fails_with(r, "INSTANCE_NOT_FOUND"@),
        proposed.task_template_id@ == current.task_template_id@ ==> match *scope {
            RecurrenceChangeScope::ThisInstance { .. } => match instance {
                None => true,
                Some(i) => if i.status != TaskInstanceStatus::Pending {
                    fails_with(r, "INSTANCE_NOT_ACTIONABLE"@)
                } else if i.recurrence_rule_id@ != proposed.id@ {
                    fails_on(r, "RECURRENCE_CHANGE_INVALID"@, "instanceId"@)
                } else {
                    match parsed_date(i.scheduled_date@) {
                        None => fails_on(r, "RECURRENCE_DATE_INVALID"@, "scheduledDate"@),
                        Some(d) => match scheduled_at_spec(opt_text(proposed.local_time), proposed.timezone@, d) {
                            Err(code) => r matches Err(e) && e.code@ == code,
                            Ok(_) => r is Ok,
                        },
                    }
                },
            },
            RecurrenceChangeScope::Future { effective_on } => match parsed_date(effective_on@) {
                None => fails_on(r, "RECURRENCE_DATE_INVALID"@, "effectiveOn"@),
                Some(e) => if e > range_end.day_number() {
                    fails_on(r, "RECURRENCE_RANGE_INVALID"@, "rangeEnd"@)
                } else if proposed.version as int != (if current.version < u32::MAX { current.version + 1 } else { current.version as int }) {
                    fails_on(r, "RECURRENCE_VERSION_INVALID"@, "version"@)
                } else if proposed.status != current.status {
                    fails_on(r, "RECURRENCE_CHANGE_INVALID"@, "status"@)
                } else if !bounds_readable(*proposed) {
                    fails_with(r, "RECURRENCE_DATE_INVALID"@)
                } else {
                    r is Ok
                },
            },
        },
{
    if proposed.task_template_id != current.task_template_id {
        return Err(scheduler_error(
            "RECURRENCE_CHANGE_INVALID",
            "schedule changes must keep the task template",
            Some("taskTemplateId"),
        ));
    }
    match scope {
        RecurrenceChangeScope::ThisInstance { instance_id } => {
            let instance = match instance {
                Some(i) => i,
                None => return Err(instance_not_found(instance_id.as_str())),
            };
            require_pending(instance)?;
            if instance.recurrence_rule_id != proposed.id {
                return Err(scheduler_error(
                    "RECURRENCE_CHANGE_INVALID",
                    "instance does not belong to the recurrence rule",
                    Some("instanceId"),
                ));
            }
            let date = parse_local_date(instance.scheduled_date.as_str(), "scheduledDate")?;
            let target = scheduled_at(&proposed.local_time, proposed.timezone.as_str(), date)?;
            Ok(ChangePlan::OneInstance { scheduled_at: target })
        },
        RecurrenceChangeScope::Future { effective_on } => {
            let effective = parse_local_date(effective_on.as_str(), "effectiveOn")?;
            if effective.day_num() > range_end.day_num() {
                return Err(scheduler_error(
                    "RECURRENCE_RANGE_INVALID",
                    "generation end date must be on or after the effective date",
                    Some("rangeEnd"),
                ));
            }
            if proposed.version != current.version.saturating_add(1) {
                return Err(scheduler_error(
                    "RECURRENCE_VERSION_INVALID",
                    "future changes must increment the rule version by one",
                    Some("version"),
                ));
            }
            if proposed.status != current.status {
                return Err(scheduler_error(
                    "RECURRENCE_CHANGE_INVALID",
                    "schedule changes must preserve rule status",
                    Some("status"),
                ));
            }
            let dates = scheduled_dates(proposed, effective, range_end)?;
            Ok(ChangePlan::Future { dates })
        },
    }
}

/// The summary of a future schedule change: the rule update counts as one of the rows the
/// store reports, so it is taken off; no row at all means the rule is gone.
pub fn future_change_summary(rule_id: &str, scheduled_count: usize, total_affected: usize) -> (r: Result<GenerationSummary, DomainError>)
    ensures
        total_affected == 0 ==> fails_with(r, "RECURRENCE_NOT_FOUND"@),
        r matches Ok(s) ==> total_affected > 0 && s.rule_id@ == rule_id@
            && s.scheduled_count == scheduled_count && s.affected_count == total_affected - 1,
        total_affected > 0 ==> r is Ok,
{
    if total_affected == 0 {
        return Err(recurrence_not_found(rule_id));
    }
    Ok(GenerationSummary {
        rule_id: rule_id.to_string(),
        scheduled_count,
        affected_count: total_affected - 1,
    })
}

} // verus!
