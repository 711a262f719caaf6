use daoda_focus::calendar::{
    assemble_period, period_bounds, plan_period, CalendarCompletionKind, CalendarFocusSession,
    CalendarPeriod, CalendarQuery, CalendarSourceKind, CalendarTaskCandidate, CalendarTaskItem,
    CalendarTaskStatus,
};
use daoda_focus::time::LocalDate;

fn query(period: CalendarPeriod, anchor: &str, timezone: &str) -> CalendarQuery {
    CalendarQuery {
        period,
        anchor_date: anchor.into(),
        timezone: timezone.into(),
        category: None,
        project_id: None,
    }
}

fn empty_period(period: CalendarPeriod, anchor: &str, timezone: &str) -> daoda_focus::calendar::CalendarPeriodResult {
    let q = query(period, anchor, timezone);
    let plan = plan_period(&q).unwrap();
    assemble_period(period, &plan, timezone, Vec::new(), Vec::new(), Vec::new(), Vec::new()).unwrap()
}

#[test]
fn week_month_and_leap_year_use_natural_boundaries() {
    let week = empty_period(CalendarPeriod::Week, "2026-07-22", "UTC");
    assert_eq!((week.starts_on.as_str(), week.ends_on.as_str()), ("2026-07-20", "2026-07-26"));
    assert_eq!(week.days.len(), 7);

    let month = empty_period(CalendarPeriod::Month, "2026-02-10", "UTC");
    assert_eq!((month.starts_on.as_str(), month.ends_on.as_str()), ("2026-02-01", "2026-02-28"));
    assert_eq!(month.days.len(), 28);

    let year = empty_period(CalendarPeriod::Year, "2024-08-01", "UTC");
    assert_eq!((year.starts_on.as_str(), year.ends_on.as_str()), ("2024-01-01", "2024-12-31"));
    assert_eq!(year.days.len(), 366);
    assert_eq!(year.days[59].date, "2024-02-29");
}

#[test]
fn empty_period_contains_every_zero_data_day() {
    let result = empty_period(CalendarPeriod::Month, "2026-04-15", "Asia/Shanghai");
    assert_eq!(result.days.len(), 30);
    assert!(result.days.iter().all(|day| day.planned_tasks.is_empty()
        && day.completed_tasks.is_empty()
        && day.focus_sessions.is_empty()));
}

fn session(id: &str, ended_at: &str) -> CalendarFocusSession {
    CalendarFocusSession {
        id: id.into(),
        title: "Independent focus".into(),
        category: "work".into(),
        project: None,
        actual_seconds: 1800,
        completion_kind: CalendarCompletionKind::Early,
        started_at: ended_at.into(),
        ended_at: ended_at.into(),
    }
}

#[test]
fn dst_week_uses_utc_half_open_bounds() {
    let q = query(CalendarPeriod::Week, "2026-03-08", "America/New_York");
    let plan = plan_period(&q).unwrap();
    assert_eq!(plan.utc_start, "2026-03-02T05:00:00+00:00");
    assert_eq!(plan.utc_end, "2026-03-09T04:00:00+00:00");
    let result = assemble_period(
        CalendarPeriod::Week,
        &plan,
        "America/New_York",
        Vec::new(),
        Vec::new(),
        vec![session("inside", "2026-03-08T07:15:00Z")],
        Vec::new(),
    )
    .unwrap();
    assert_eq!((result.starts_on.as_str(), result.ends_on.as_str()), ("2026-03-02", "2026-03-08"));
    assert_eq!(result.days[6].focus_sessions.len(), 1);
    assert_eq!(result.days[6].focus_sessions[0].id, "inside");
}

fn item(id: &str, date: &str, time: Option<&str>, status: CalendarTaskStatus, completed_at: Option<&str>) -> CalendarTaskCandidate {
    CalendarTaskCandidate {
        item: CalendarTaskItem {
            source_kind: CalendarSourceKind::Task,
            source_id: id.into(),
            title: format!("Task {id}"),
            category: "work".into(),
            project: None,
            scheduled_date: Some(date.into()),
            scheduled_time: time.map(str::to_string),
            status,
            completed_at: completed_at.map(str::to_string),
        },
        scheduled_at: None,
        timezone: None,
    }
}

#[test]
fn task_completion_uses_query_timezone_local_date() {
    let q = query(CalendarPeriod::Week, "2026-07-20", "Asia/Shanghai");
    let plan = plan_period(&q).unwrap();
    let result = assemble_period(
        CalendarPeriod::Week,
        &plan,
        "Asia/Shanghai",
        vec![
            item("late", "2026-07-20", Some("18:00"), CalendarTaskStatus::Pending, None),
            item("early", "2026-07-20", Some("08:00"), CalendarTaskStatus::Pending, None),
        ],
        vec![item("done", "2026-07-20", None, CalendarTaskStatus::Completed, Some("2026-07-20T17:00:00Z"))],
        Vec::new(),
        Vec::new(),
    )
    .unwrap();
    let planned: Vec<_> = result.days[0].planned_tasks.iter().map(|t| t.source_id.as_str()).collect();
    assert_eq!(planned, ["early", "late"]);
    assert!(result.days[0].completed_tasks.is_empty());
    assert_eq!(result.days[1].completed_tasks[0].source_id, "done");
}

#[test]
fn invalid_queries_are_rejected() {
    let mut q = query(CalendarPeriod::Week, "2026/07/20", "UTC");
    assert_eq!(plan_period(&q).unwrap_err().code, "CALENDAR_DATE_INVALID");
    q.anchor_date = "2026-07-20".into();
    q.timezone = "Nowhere/Zone".into();
    assert_eq!(plan_period(&q).unwrap_err().code, "CALENDAR_TIMEZONE_INVALID");
    q.timezone = "UTC".into();
    q.project_id = Some(String::new());
    assert_eq!(plan_period(&q).unwrap_err().code, "CALENDAR_PROJECT_INVALID");
}

#[test]
fn weeks_run_monday_to_sunday() {
    let sunday = LocalDate::parse("2026-07-26").unwrap();
    let (start, end) = period_bounds(CalendarPeriod::Week, sunday).unwrap();
    assert_eq!(start.format(), "2026-07-20");
    assert_eq!(end.format(), "2026-07-26");
}

#[test]
fn unreadable_stored_data_fails_the_period() {
    let q = query(CalendarPeriod::Week, "2026-07-20", "Asia/Shanghai");
    let plan = plan_period(&q).unwrap();
    let no_completion_time = assemble_period(
        CalendarPeriod::Week,
        &plan,
        "Asia/Shanghai",
        Vec::new(),
        vec![item("done", "2026-07-20", None, CalendarTaskStatus::Completed, None)],
        Vec::new(),
        Vec::new(),
    );
    assert_eq!(no_completion_time.unwrap_err().code, "CALENDAR_DATA_INVALID");

    let bad_session_end = assemble_period(
        CalendarPeriod::Week,
        &plan,
        "Asia/Shanghai",
        Vec::new(),
        Vec::new(),
        vec![session("broken", "yesterday")],
        Vec::new(),
    );
    assert_eq!(bad_session_end.unwrap_err().code, "CALENDAR_DATA_INVALID");

    let mut instance = item("instance", "2026-07-20", None, CalendarTaskStatus::Pending, None);
    instance.scheduled_at = Some("2026-07-20T01:30:00Z".into());
    let missing_zone = assemble_period(CalendarPeriod::Week, &plan, "Asia/Shanghai", vec![instance], Vec::new(), Vec::new(), Vec::new());
    assert_eq!(missing_zone.unwrap_err().code, "CALENDAR_DATA_INVALID");
}

fn instance(id: &str, date: &str, at: &str, zone: &str, category: &str) -> CalendarTaskCandidate {
    let mut c = item(id, date, None, CalendarTaskStatus::Pending, None);
    c.item.source_kind = CalendarSourceKind::RecurringInstance;
    c.item.category = category.into();
    c.scheduled_at = Some(at.into());
    c.timezone = Some(zone.into());
    c
}

#[test]
fn planned_tasks_exclude_templates_and_include_recurring_instances() {
    let plan = plan_period(&query(CalendarPeriod::Week, "2026-07-20", "UTC")).unwrap();
    let result = assemble_period(
        CalendarPeriod::Week,
        &plan,
        "UTC",
        vec![
            item("ordinary", "2026-07-20", Some("10:00"), CalendarTaskStatus::Pending, None),
            instance("instance", "2026-07-20", "2026-07-20T09:00:00Z", "UTC", "study"),
        ],
        Vec::new(),
        Vec::new(),
        Vec::new(),
    )
    .unwrap();
    let day = &result.days[0];
    assert_eq!(day.planned_tasks.len(), 2);
    assert_eq!(day.planned_tasks[0].source_id, "instance");
    assert_eq!(day.planned_tasks[0].source_kind, CalendarSourceKind::RecurringInstance);
    assert_eq!(day.planned_tasks[0].category, "study");
    assert_eq!(day.planned_tasks[0].scheduled_time.as_deref(), Some("09:00"));
    assert_eq!(day.planned_tasks[1].source_id, "ordinary");
}

#[test]
fn focus_uses_local_end_date_and_excludes_cancelled_sessions() {
    let plan = plan_period(&query(CalendarPeriod::Week, "2026-07-20", "Asia/Shanghai")).unwrap();
    let result = assemble_period(
        CalendarPeriod::Week,
        &plan,
        "Asia/Shanghai",
        Vec::new(),
        Vec::new(),
        vec![session("deadline", "2026-07-19T16:30:00Z")],
        Vec::new(),
    )
    .unwrap();
    assert_eq!(result.days[0].focus_sessions.len(), 1);
    assert_eq!(result.days[0].focus_sessions[0].id, "deadline");
}

#[test]
fn category_and_project_filters_cover_tasks_instances_and_focus() {
    let mut filtered = query(CalendarPeriod::Week, "2026-07-20", "UTC");
    filtered.category = Some("work".into());
    filtered.project_id = Some("p1".into());
    let plan = plan_period(&filtered).unwrap();
    let result = assemble_period(
        CalendarPeriod::Week,
        &plan,
        "UTC",
        vec![
            item("work-p1", "2026-07-20", None, CalendarTaskStatus::Completed, Some("2026-07-20T10:00:00Z")),
            instance("instance-p1", "2026-07-20", "2026-07-20T01:30:00Z", "UTC", "work"),
        ],
        vec![item("work-p1", "2026-07-20", None, CalendarTaskStatus::Completed, Some("2026-07-20T10:00:00Z"))],
        vec![session("focus-p1", "2026-07-20T11:25:00Z")],
        Vec::new(),
    )
    .unwrap();
    let day = &result.days[0];
    let planned: Vec<_> = day.planned_tasks.iter().map(|t| t.source_id.as_str()).collect();
    assert_eq!(planned, ["instance-p1", "work-p1"]);
    assert_eq!(day.completed_tasks[0].source_id, "work-p1");
    assert_eq!(day.focus_sessions[0].id, "focus-p1");
}

#[test]
fn query_errors_name_their_field() {
    let mut q = query(CalendarPeriod::Week, "2026-07-20", "UTC");
    q.project_id = Some(String::new());
    assert_eq!(plan_period(&q).unwrap_err().field.as_deref(), Some("projectId"));
    let q = query(CalendarPeriod::Week, "07/20/2026", "UTC");
    assert_eq!(plan_period(&q).unwrap_err().field.as_deref(), Some("anchorDate"));
    let q = query(CalendarPeriod::Week, "2026-07-20", "Mars/Olympus");
    assert_eq!(plan_period(&q).unwrap_err().field.as_deref(), Some("timezone"));
}

#[test]
fn month_and_year_periods_are_whole() {
    let day = |t: &str| LocalDate::parse(t).unwrap();
    let (s, e) = period_bounds(CalendarPeriod::Month, day("2024-02-14")).unwrap();
    assert_eq!((s.format(), e.format()), ("2024-02-01".to_string(), "2024-02-29".to_string()));
    let (s, e) = period_bounds(CalendarPeriod::Month, day("2026-12-31")).unwrap();
    assert_eq!((s.format(), e.format()), ("2026-12-01".to_string(), "2026-12-31".to_string()));
    let (s, e) = period_bounds(CalendarPeriod::Year, day("2026-01-01")).unwrap();
    assert_eq!((s.format(), e.format()), ("2026-01-01".to_string(), "2026-12-31".to_string()));
}
