use daoda_focus::today::{
    build_digest, candidate_from_row, TodayCandidate, TodayCandidateRow, TodayItemKind,
    TodayItemStatus, TodayProjectSummary, TodaySourceKind,
};

const NOW: &str = "2026-07-20T00:00:00Z";

fn project() -> TodayProjectSummary {
    TodayProjectSummary {
        id: "project-1".into(),
        name: "Launch".into(),
        color: "blue".into(),
        icon: "rocket".into(),
        status: "paused".into(),
    }
}

fn task(
    id: &str,
    with_project: bool,
    priority: i64,
    scheduled_date: &str,
    scheduled_time: Option<&str>,
    status: TodayItemStatus,
) -> TodayCandidate {
    TodayCandidate {
        source_kind: TodaySourceKind::Task,
        source_id: id.into(),
        item_kind: if with_project { TodayItemKind::ProjectTask } else { TodayItemKind::OrdinaryTask },
        recurrence_rule_id: None,
        title: format!("Task {id}"),
        category: "work".into(),
        priority,
        scheduled_date: scheduled_date.into(),
        scheduled_time: scheduled_time.map(str::to_string),
        scheduled_at: None,
        timezone: None,
        status,
        completed_at: (status == TodayItemStatus::Completed).then(|| "2026-07-20T10:00:00Z".into()),
        project: with_project.then(project),
        created_at: NOW.into(),
    }
}

fn instance(
    rule_id: &str,
    id: &str,
    scheduled_date: &str,
    scheduled_at: Option<&str>,
    status: TodayItemStatus,
) -> TodayCandidate {
    TodayCandidate {
        source_kind: TodaySourceKind::RecurringInstance,
        source_id: id.into(),
        item_kind: TodayItemKind::RecurringInstance,
        recurrence_rule_id: Some(rule_id.into()),
        title: format!("Instance {id}"),
        category: "work".into(),
        priority: 2,
        scheduled_date: scheduled_date.into(),
        scheduled_time: None,
        scheduled_at: scheduled_at.map(str::to_string),
        timezone: Some("Asia/Shanghai".into()),
        status,
        completed_at: (status == TodayItemStatus::Completed).then(|| "2026-07-20T11:00:00Z".into()),
        project: None,
        created_at: NOW.into(),
    }
}

fn sources() -> Vec<TodayCandidate> {
    vec![
        task("overdue-task", false, 0, "2026-07-19", None, TodayItemStatus::Pending),
        task("task-b", false, 1, "2026-07-20", Some("09:00"), TodayItemStatus::Pending),
        task("task-a", true, 3, "2026-07-20", Some("09:00"), TodayItemStatus::Pending),
        task("completed-task", false, 0, "2026-07-20", None, TodayItemStatus::Completed),
        instance("rule-1", "overdue-instance", "2026-07-19", Some("2026-07-19T00:00:00Z"), TodayItemStatus::Pending),
        instance("rule-2", "today-instance", "2026-07-20", Some("2026-07-20T10:00:00Z"), TodayItemStatus::Completed),
    ]
}

#[test]
fn aggregates_sources_excludes_templates_and_sorts_stably() {
    let first = build_digest("2026-07-20", sources()).unwrap();
    let second = build_digest("2026-07-20", sources()).unwrap();
    let ids = |d: &daoda_focus::today::TodayDigest| {
        d.items.iter().map(|item| item.source_id.clone()).collect::<Vec<_>>()
    };
    assert_eq!(ids(&first), ids(&second));
    assert_eq!(
        ids(&first),
        [
            "overdue-instance",
            "overdue-task",
            "task-a",
            "task-b",
            "today-instance",
            "completed-task"
        ]
    );
    assert_eq!(first.items[0].scheduled_time.as_deref(), Some("08:00"));
    assert_eq!(first.items[2].item_kind, TodayItemKind::ProjectTask);
    assert_eq!(first.items[2].project.as_ref().unwrap().status, "paused");
    assert_eq!(first.items[4].status, TodayItemStatus::Completed);
    assert!(first.items[0].is_overdue);
    assert!(!first.items[2].is_overdue);
}

#[test]
fn rejects_invalid_dates_and_ignores_processed_instance_sources() {
    assert_eq!(build_digest("2026/07/20", Vec::new()).unwrap_err().code, "TODAY_DATE_INVALID");
    assert!(build_digest("2026-07-20", Vec::new()).unwrap().items.is_empty());
}

#[test]
fn each_source_appears_once() {
    let mut doubled = sources();
    doubled.extend(sources());
    let digest = build_digest("2026-07-20", doubled).unwrap();
    assert_eq!(digest.items.len(), 6);
}

fn row(source_kind: &str, item_kind: &str, status: &str) -> TodayCandidateRow {
    TodayCandidateRow {
        source_kind: source_kind.into(),
        source_id: "id".into(),
        item_kind: item_kind.into(),
        recurrence_rule_id: None,
        title: "Title".into(),
        category: "work".into(),
        priority: 1,
        scheduled_date: "2026-07-20".into(),
        scheduled_time: None,
        scheduled_at: None,
        timezone: None,
        status: status.into(),
        completed_at: None,
        project: None,
        created_at: NOW.into(),
    }
}

#[test]
fn stored_rows_become_candidates_only_with_known_names() {
    let candidate = candidate_from_row(row("task", "projectTask", "completed")).unwrap();
    assert_eq!(candidate.source_kind, TodaySourceKind::Task);
    assert_eq!(candidate.item_kind, TodayItemKind::ProjectTask);
    assert_eq!(candidate.status, TodayItemStatus::Completed);
    assert!(candidate_from_row(row("recurringInstance", "recurringInstance", "pending")).is_some());
    assert!(candidate_from_row(row("note", "ordinaryTask", "pending")).is_none());
    assert!(candidate_from_row(row("task", "ordinaryTask", "skipped")).is_none());
}
