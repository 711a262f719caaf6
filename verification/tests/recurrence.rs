use daoda_focus::recurrence::{
    build_instances, check_new_rule, check_range, future_change_summary, instance_status_name, next_scheduled_date,
    parse_instance_status, plan_delay, plan_instance_transition, plan_reschedule, plan_schedule_change,
    plan_status_change, reconcile_range, recurrence_not_found, rule_from_row, rule_reconcile_range, scheduled_at, scheduled_dates,
    status_name, task_template_not_found, ChangePlan, GenerationTrigger, InstanceAction,
    RecurrenceChangeScope, RecurrenceRule, RecurrenceStatus, StatusChange, TaskInstanceRecord,
    TaskInstanceStatus,
};
use daoda_focus::schedule::RecurrencePattern;
use daoda_focus::time::{LocalDate, UtcInstant};

fn date(text: &str) -> LocalDate {
    LocalDate::parse(text).unwrap()
}

fn rule(pattern: RecurrencePattern, starts_on: &str) -> RecurrenceRule {
    RecurrenceRule {
        id: "rule-1".into(),
        task_template_id: "task-1".into(),
        pattern,
        local_time: Some("09:30".into()),
        timezone: "Asia/Shanghai".into(),
        starts_on: starts_on.into(),
        ends_on: None,
        status: RecurrenceStatus::Active,
        version: 1,
    }
}

fn texts(dates: &[LocalDate]) -> Vec<String> {
    dates.iter().map(LocalDate::format).collect()
}

#[test]
fn generates_month_end_instances_idempotently() {
    let r = rule(RecurrencePattern::Monthly { interval: 1, day_of_month: 31 }, "2026-01-31");
    let first = scheduled_dates(&r, date("2026-01-01"), date("2026-04-30")).unwrap();
    let second = scheduled_dates(&r, date("2026-01-01"), date("2026-04-30")).unwrap();
    assert_eq!(texts(&first), ["2026-01-31", "2026-02-28", "2026-03-31", "2026-04-30"]);
    assert_eq!(texts(&first), texts(&second));
}

#[test]
fn creates_a_rule_and_its_initial_instances_atomically() {
    let r = rule(RecurrencePattern::Daily { interval: 1 }, "2026-07-20");
    let dates = scheduled_dates(&r, date("2026-07-20"), date("2026-07-22")).unwrap();
    assert_eq!(dates.len(), 3);
}

#[test]
fn normalizes_nonexistent_dst_times_to_the_first_valid_minute() {
    assert_eq!(
        scheduled_at(&Some("02:30".into()), "America/New_York", date("2026-03-08")).unwrap().as_deref(),
        Some("2026-03-08T07:00:00Z")
    );
    assert_eq!(
        scheduled_at(&Some("09:30".into()), "Asia/Shanghai", date("2026-07-20")).unwrap().as_deref(),
        Some("2026-07-20T01:30:00Z")
    );
    assert_eq!(scheduled_at(&None, "Asia/Shanghai", date("2026-07-20")).unwrap(), None);
}

#[test]
fn reports_invalid_ranges_and_unknown_rules() {
    assert_eq!(
        check_range(date("2026-07-21"), date("2026-07-20")).unwrap_err().code,
        "RECURRENCE_RANGE_INVALID"
    );
    assert!(check_range(date("2026-07-20"), date("2026-07-20")).is_ok());
    assert_eq!(recurrence_not_found("missing").code, "RECURRENCE_NOT_FOUND");
}

#[test]
fn automatic_reconciliation_backfills_open_rules_and_uses_each_rule_timezone() {
    let range = reconcile_range(&GenerationTrigger::Startup, date("2026-07-18"), date("2026-07-20")).unwrap();
    let (a, b) = range.unwrap();
    assert_eq!((a.format(), b.format()), ("2026-07-18".to_string(), "2026-07-20".to_string()));
    assert!(reconcile_range(&GenerationTrigger::Startup, date("2026-07-21"), date("2026-07-20")).unwrap().is_none());
}

#[test]
fn day_boundary_reconciliation_only_generates_the_current_local_day() {
    let (a, b) = reconcile_range(&GenerationTrigger::DayBoundary, date("2026-07-01"), date("2026-07-20"))
        .unwrap()
        .unwrap();
    assert_eq!((a.format(), b.format()), ("2026-07-20".to_string(), "2026-07-20".to_string()));
    assert_eq!(
        reconcile_range(&GenerationTrigger::RuleChanged { rule_id: "r".into() }, date("2026-07-01"), date("2026-07-20"))
            .unwrap_err()
            .code,
        "RECURRENCE_TRIGGER_INVALID"
    );
}

fn instance(status: TaskInstanceStatus) -> TaskInstanceRecord {
    TaskInstanceRecord {
        id: "instance-1".into(),
        recurrence_rule_id: "rule-1".into(),
        rule_version: 1,
        scheduled_date: "2026-07-20".into(),
        scheduled_at: Some("2026-07-20T01:30:00Z".into()),
        snapshot_title: "Review".into(),
        snapshot_project_id: None,
        status,
        completed_at: None,
        source_instance_id: None,
        created_at: "2026-07-20T00:00:00Z".into(),
        updated_at: "2026-07-20T00:00:00Z".into(),
    }
}

#[test]
fn completes_and_skips_instances_idempotently() {
    assert_eq!(
        plan_instance_transition(&instance(TaskInstanceStatus::Pending), TaskInstanceStatus::Completed).unwrap(),
        InstanceAction::Apply
    );
    assert_eq!(
        plan_instance_transition(&instance(TaskInstanceStatus::Completed), TaskInstanceStatus::Completed).unwrap(),
        InstanceAction::AlreadyDone
    );
    assert_eq!(
        plan_instance_transition(&instance(TaskInstanceStatus::Skipped), TaskInstanceStatus::Completed)
            .unwrap_err()
            .code,
        "INSTANCE_NOT_ACTIONABLE"
    );
}

#[test]
fn pauses_and_ends_rules_without_changing_existing_instances() {
    assert_eq!(
        plan_status_change(RecurrenceStatus::Active, 1, RecurrenceStatus::Paused).unwrap(),
        StatusChange::Update { version: 2 }
    );
    assert_eq!(
        plan_status_change(RecurrenceStatus::Paused, 2, RecurrenceStatus::Paused).unwrap(),
        StatusChange::Unchanged
    );
    assert_eq!(
        plan_status_change(RecurrenceStatus::Ended, 3, RecurrenceStatus::Paused).unwrap_err().code,
        "RECURRENCE_STATUS_INVALID"
    );
    assert_eq!(
        plan_status_change(RecurrenceStatus::Active, 1, RecurrenceStatus::Active).unwrap_err().code,
        "RECURRENCE_STATUS_INVALID"
    );
}

#[test]
fn delays_today_and_reschedules_to_the_unique_tomorrow_instance() {
    let pending = instance(TaskInstanceStatus::Pending);
    let delayed_at = plan_delay(&pending, "Asia/Shanghai", "10:30").unwrap();
    assert_eq!(delayed_at, "2026-07-20T02:30:00Z");

    let mut delayed = instance(TaskInstanceStatus::Pending);
    delayed.scheduled_at = Some(delayed_at);
    assert_eq!(
        plan_delay(&delayed, "Asia/Shanghai", "09:30").unwrap_err().code,
        "INSTANCE_DELAY_INVALID"
    );

    let tomorrow = plan_reschedule(
        &delayed,
        &Some("09:30".into()),
        "Asia/Shanghai",
        "instance-2".into(),
        "2026-07-20T03:00:00.000Z".into(),
    )
    .unwrap()
    .unwrap();
    assert_eq!(tomorrow.status, TaskInstanceStatus::Pending);
    assert_eq!(tomorrow.scheduled_date, "2026-07-21");
    assert_eq!(tomorrow.scheduled_at.as_deref(), Some("2026-07-21T01:30:00Z"));
    assert_eq!(tomorrow.source_instance_id.as_deref(), Some("instance-1"));
    assert_eq!(tomorrow.rule_version, 1);

    let already = instance(TaskInstanceStatus::Rescheduled);
    assert!(plan_reschedule(&already, &Some("09:30".into()), "Asia/Shanghai", "instance-3".into(), "now".into())
        .unwrap()
        .is_none());
    assert_eq!(
        plan_delay(&instance(TaskInstanceStatus::Completed), "Asia/Shanghai", "10:30").unwrap_err().code,
        "INSTANCE_NOT_ACTIONABLE"
    );
}

#[test]
fn applies_one_instance_or_future_schedule_changes_without_touching_history() {
    let current = rule(RecurrencePattern::Daily { interval: 1 }, "2026-07-20");
    let mut changed = rule(RecurrencePattern::Daily { interval: 1 }, "2026-07-20");
    changed.local_time = Some("11:00".into());
    changed.timezone = "UTC".into();
    changed.version = 2;

    let plan = plan_schedule_change(
        &changed,
        &current,
        &RecurrenceChangeScope::Future { effective_on: "2026-07-20".into() },
        None,
        date("2026-07-22"),
    )
    .unwrap();
    let dates = match plan {
        ChangePlan::Future { dates } => dates,
        ChangePlan::OneInstance { .. } => panic!("expected a future change"),
    };
    assert_eq!(texts(&dates), ["2026-07-20", "2026-07-21", "2026-07-22"]);
    let regenerated = build_instances(&changed, &dates, "Review the roadmap", &None).unwrap();
    assert_eq!(regenerated[2].rule_version, 2);
    assert_eq!(regenerated[2].scheduled_at.as_deref(), Some("2026-07-22T11:00:00Z"));
    let summary = future_change_summary("rule-1", dates.len(), 2).unwrap();
    assert_eq!(summary.affected_count, 1);

    changed.local_time = Some("12:00".into());
    let mut target = instance(TaskInstanceStatus::Pending);
    target.scheduled_date = "2026-07-22".into();
    let plan = plan_schedule_change(
        &changed,
        &current,
        &RecurrenceChangeScope::ThisInstance { instance_id: "instance-1".into() },
        Some(&target),
        date("2026-07-22"),
    )
    .unwrap();
    match plan {
        ChangePlan::OneInstance { scheduled_at } => {
            assert_eq!(scheduled_at.as_deref(), Some("2026-07-22T12:00:00Z"))
        }
        ChangePlan::Future { .. } => panic!("expected a single-instance change"),
    }

    let mut stale = rule(RecurrencePattern::Daily { interval: 1 }, "2026-07-20");
    stale.version = 1;
    assert_eq!(
        plan_schedule_change(
            &stale,
            &current,
            &RecurrenceChangeScope::Future { effective_on: "2026-07-20".into() },
            None,
            date("2026-07-22"),
        )
        .unwrap_err()
        .code,
        "RECURRENCE_VERSION_INVALID"
    );
    let mut other_template = rule(RecurrencePattern::Daily { interval: 1 }, "2026-07-20");
    other_template.task_template_id = "task-2".into();
    assert_eq!(
        plan_schedule_change(
            &other_template,
            &current,
            &RecurrenceChangeScope::ThisInstance { instance_id: "instance-1".into() },
            Some(&target),
            date("2026-07-22"),
        )
        .unwrap_err()
        .code,
        "RECURRENCE_CHANGE_INVALID"
    );
    assert_eq!(future_change_summary("rule-1", 3, 0).unwrap_err().code, "RECURRENCE_NOT_FOUND");
}

#[test]
fn backfills_missing_days_and_refreshes_only_pending_instances() {
    let (a, b) = reconcile_range(&GenerationTrigger::Startup, date("2026-07-20"), date("2026-07-22"))
        .unwrap()
        .unwrap();
    let mut r = rule(RecurrencePattern::Daily { interval: 1 }, "2026-07-20");
    let dates = scheduled_dates(&r, a, b).unwrap();
    assert_eq!(texts(&dates), ["2026-07-20", "2026-07-21", "2026-07-22"]);

    r.version = 2;
    r.timezone = "UTC".into();
    let refreshed = build_instances(&r, &dates[1..].to_vec(), "Review the roadmap", &None).unwrap();
    assert_eq!(refreshed.len(), 2);
    assert!(refreshed.iter().all(|instance| {
        instance.rule_version == 2
            && instance.status == TaskInstanceStatus::Pending
            && instance.scheduled_at.as_deref().unwrap().ends_with("09:30:00Z")
    }));
    assert_eq!(refreshed[0].created_at, refreshed[1].created_at);
    assert_ne!(refreshed[0].id, refreshed[1].id);
}

#[test]
fn next_scheduled_date_finds_the_following_occurrence_or_none_after_the_end() {
    let mut r = rule(RecurrencePattern::Weekly { interval: 1, weekdays: vec![1, 3] }, "2026-07-20");
    assert_eq!(next_scheduled_date(&r, date("2026-07-21")).unwrap().unwrap().format(), "2026-07-22");
    assert_eq!(next_scheduled_date(&r, date("2026-07-01")).unwrap().unwrap().format(), "2026-07-20");
    r.ends_on = Some("2026-07-21".into());
    assert!(next_scheduled_date(&r, date("2026-07-21")).unwrap().is_none());
    r.starts_on = "July 20".into();
    assert_eq!(next_scheduled_date(&r, date("2026-07-21")).unwrap_err().code, "RECURRENCE_DATE_INVALID");
}

#[test]
fn rule_rows_and_status_names_round_trip() {
    for status in [RecurrenceStatus::Active, RecurrenceStatus::Paused, RecurrenceStatus::Ended] {
        let read = rule_from_row(
            "rule-1".into(),
            "task-1".into(),
            RecurrencePattern::Weekdays,
            None,
            "UTC".into(),
            "2026-07-20".into(),
            None,
            status_name(status),
            4,
        )
        .unwrap();
        assert_eq!(read.status, status);
        assert_eq!(read.version, 4);
    }
    assert_eq!(
        rule_from_row("r".into(), "t".into(), RecurrencePattern::Weekdays, None, "UTC".into(), "2026-07-20".into(), None, "archived", 1)
            .unwrap_err()
            .code,
        "RECURRENCE_DATA_INVALID"
    );
    for status in [
        TaskInstanceStatus::Pending,
        TaskInstanceStatus::Completed,
        TaskInstanceStatus::Skipped,
        TaskInstanceStatus::Rescheduled,
    ] {
        assert_eq!(parse_instance_status(instance_status_name(status)), Some(status));
    }
    assert_eq!(instance_status_name(TaskInstanceStatus::Rescheduled), "rescheduled");
    assert_eq!(parse_instance_status("done"), None);
    assert_eq!(task_template_not_found("task-9").code, "TASK_TEMPLATE_NOT_FOUND");
}

#[test]
fn reconciliation_takes_today_in_each_rules_own_zone() {
    let evening_utc = UtcInstant::from_parts(1_784_566_800, 0).unwrap(); // 2026-07-20T17:00:00Z
    let shanghai = rule(RecurrencePattern::Daily { interval: 1 }, "2026-07-18");
    let (a, b) = rule_reconcile_range(&GenerationTrigger::DayBoundary, &shanghai, evening_utc).unwrap().unwrap();
    assert_eq!((a.format(), b.format()), ("2026-07-21".to_string(), "2026-07-21".to_string()));

    let mut utc_rule = rule(RecurrencePattern::Daily { interval: 1 }, "2026-07-18");
    utc_rule.timezone = "UTC".into();
    let (a, b) = rule_reconcile_range(&GenerationTrigger::Startup, &utc_rule, evening_utc).unwrap().unwrap();
    assert_eq!((a.format(), b.format()), ("2026-07-18".to_string(), "2026-07-20".to_string()));

    let mut future = rule(RecurrencePattern::Daily { interval: 1 }, "2026-07-21");
    future.timezone = "UTC".into();
    assert!(rule_reconcile_range(&GenerationTrigger::Startup, &future, evening_utc).unwrap().is_none());

    let mut unknown = rule(RecurrencePattern::Daily { interval: 1 }, "2026-07-18");
    unknown.timezone = "Mars/Olympus".into();
    assert_eq!(
        rule_reconcile_range(&GenerationTrigger::Startup, &unknown, evening_utc).unwrap_err().code,
        "RECURRENCE_TIMEZONE_INVALID"
    );
    assert_eq!(
        rule_reconcile_range(&GenerationTrigger::RuleChanged { rule_id: "rule-1".into() }, &shanghai, evening_utc)
            .unwrap_err()
            .code,
        "RECURRENCE_TRIGGER_INVALID"
    );
}

#[test]
fn new_rules_start_at_version_one_over_a_forward_range() {
    assert!(check_new_rule(date("2026-07-20"), date("2026-07-22"), 1).is_ok());
    assert_eq!(check_new_rule(date("2026-07-20"), date("2026-07-22"), 2).unwrap_err().code, "RECURRENCE_VERSION_INVALID");
    assert_eq!(check_new_rule(date("2026-07-22"), date("2026-07-20"), 1).unwrap_err().code, "RECURRENCE_RANGE_INVALID");
}

#[test]
fn refused_schedule_changes_name_their_error() {
    let current = rule(RecurrencePattern::Daily { interval: 1 }, "2026-07-20");
    let future = |effective: &str| RecurrenceChangeScope::Future { effective_on: effective.into() };
    let code_and_field = |r: Result<ChangePlan, daoda_focus::error::DomainError>| {
        let e = r.unwrap_err();
        (e.code, e.field)
    };

    let mut next = rule(RecurrencePattern::Daily { interval: 1 }, "2026-07-20");
    next.version = 2;
    assert_eq!(
        code_and_field(plan_schedule_change(&next, &current, &future("2026-07-23"), None, date("2026-07-22"))),
        ("RECURRENCE_RANGE_INVALID".to_string(), Some("rangeEnd".to_string()))
    );
    let mut skipped = rule(RecurrencePattern::Daily { interval: 1 }, "2026-07-20");
    skipped.version = 3;
    assert_eq!(
        code_and_field(plan_schedule_change(&skipped, &current, &future("2026-07-20"), None, date("2026-07-22"))),
        ("RECURRENCE_VERSION_INVALID".to_string(), Some("version".to_string()))
    );
    let mut paused = rule(RecurrencePattern::Daily { interval: 1 }, "2026-07-20");
    paused.version = 2;
    paused.status = RecurrenceStatus::Paused;
    assert_eq!(
        code_and_field(plan_schedule_change(&paused, &current, &future("2026-07-20"), None, date("2026-07-22"))),
        ("RECURRENCE_CHANGE_INVALID".to_string(), Some("status".to_string()))
    );

    let one = RecurrenceChangeScope::ThisInstance { instance_id: "instance-1".into() };
    let done = instance(TaskInstanceStatus::Completed);
    assert_eq!(
        plan_schedule_change(&next, &current, &one, Some(&done), date("2026-07-22")).unwrap_err().code,
        "INSTANCE_NOT_ACTIONABLE"
    );
    let mut foreign = instance(TaskInstanceStatus::Pending);
    foreign.recurrence_rule_id = "rule-2".into();
    assert_eq!(
        code_and_field(plan_schedule_change(&next, &current, &one, Some(&foreign), date("2026-07-22"))),
        ("RECURRENCE_CHANGE_INVALID".to_string(), Some("instanceId".to_string()))
    );
}

#[test]
fn reconciliation_refuses_an_instant_whose_local_date_is_unsupported() {
    let last = UtcInstant::from_parts(8_210_266_876_799, 0).unwrap();
    let mut tokyo = rule(RecurrencePattern::Daily { interval: 1 }, "2026-07-18");
    tokyo.timezone = "Asia/Tokyo".into();
    assert_eq!(
        rule_reconcile_range(&GenerationTrigger::Startup, &tokyo, last).unwrap_err().code,
        "RECURRENCE_DATE_INVALID"
    );
}
