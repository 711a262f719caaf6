use chrono::{TimeZone, Utc};
use daoda_focus::focus::{
    begin, complete_due, deadline_finish, ensure_updated, make_session, plan_finish,
    ActiveFocus, ActiveFocusStatus, FinishPath, FocusCompletionKind, active_status_name,
    completion_kind_name, parse_active_status, parse_completion_kind,
};
use daoda_focus::time::UtcInstant;

fn now() -> UtcInstant {
    let t = Utc.with_ymd_and_hms(2026, 7, 19, 10, 0, 0).unwrap();
    UtcInstant::from_parts(t.timestamp(), 0).unwrap()
}

fn later(seconds: i64) -> UtcInstant {
    UtcInstant::from_parts(now().seconds() + seconds, 0).unwrap()
}

fn focus(minutes: u16) -> ActiveFocus {
    begin(Some("task-1".into()), None, minutes, now()).unwrap()
}

#[test]
fn full_state_machine_persists_an_early_session() {
    let mut f = focus(25);
    f.pause(later(60));
    assert_eq!(f.status, ActiveFocusStatus::Paused);
    assert_eq!(f.remaining_seconds_at(&later(90)), 1_440);
    assert_eq!(f.interruption_count, 1);

    assert!(f.resume(later(120)));
    let session = make_session(f, "session-1".into(), None, FocusCompletionKind::Early, later(180));
    assert_eq!(session.actual_seconds, 120);
    assert_eq!(session.interruption_count, 1);
    assert_eq!(session.completion_kind, FocusCompletionKind::Early);
    assert_eq!(session.ended_at, later(180));
}

#[test]
fn deadline_completion_requires_elapsed_timer() {
    let mut store = Some(focus(1));
    assert!(complete_due(&mut store, now(), "s".into(), None).unwrap().is_none());
    assert_eq!(
        deadline_finish(None, store.is_some()).unwrap_err().code,
        "FOCUS_DEADLINE_NOT_REACHED"
    );
    let session = complete_due(&mut store, later(75), "s".into(), None).unwrap().unwrap();
    assert_eq!(session.actual_seconds, 60);
    assert_eq!(session.ended_at, later(60));
    assert_eq!(session.created_at, later(75));
    assert_eq!(session.completion_kind, FocusCompletionKind::Deadline);
}

#[test]
fn reconcile_calibrates_running_and_preserves_paused_time() {
    let mut f = focus(1);
    assert_eq!(f.remaining_seconds_at(&later(-30)), 60);
    assert_eq!(f.remaining_seconds_at(&later(25)), 35);
    f.pause(later(30));
    assert_eq!(f.remaining_seconds_at(&later(8 * 3600)), 30);
    let mut store = Some(f);
    assert!(complete_due(&mut store, later(8 * 3600), "s".into(), None)
        .unwrap()
        .is_none());
    assert!(store.is_some());
}

#[test]
fn repeated_due_reconciliation_completes_once() {
    let mut store = Some(focus(1));
    let first = complete_due(&mut store, later(600), "first".into(), None).unwrap();
    let second = complete_due(&mut store, later(600), "second".into(), None).unwrap();
    let session = first.unwrap();
    assert_eq!(session.completion_kind, FocusCompletionKind::Deadline);
    assert_eq!(session.actual_seconds, 60);
    assert_eq!(session.ended_at, later(60));
    assert!(second.is_none());
    assert!(store.is_none());
}

#[test]
fn reset_records_a_cancelled_session() {
    let f = focus(15);
    let session = make_session(f, "cancelled".into(), Some("project".into()), FocusCompletionKind::Cancelled, later(30));
    assert_eq!(session.completion_kind, FocusCompletionKind::Cancelled);
    assert_eq!(session.actual_seconds, 30);
    assert_eq!(session.project_id.as_deref(), Some("project"));
}

#[test]
fn finishing_paths_follow_the_completion_kind() {
    assert_eq!(
        plan_finish(FocusCompletionKind::Cancelled).unwrap_err().code,
        "FOCUS_COMPLETION_KIND_INVALID"
    );
    assert_eq!(plan_finish(FocusCompletionKind::Deadline).unwrap(), FinishPath::AtDeadline);
    assert_eq!(plan_finish(FocusCompletionKind::Early).unwrap(), FinishPath::Now);
    assert_eq!(deadline_finish(None, false).unwrap_err().code, "FOCUS_NOT_ACTIVE");
}

#[test]
fn a_missing_update_means_the_focus_is_gone() {
    assert!(ensure_updated(true).is_ok());
    assert_eq!(ensure_updated(false).unwrap_err().code, "FOCUS_NOT_ACTIVE");
}

#[test]
fn stored_names_round_trip() {
    for status in [ActiveFocusStatus::Running, ActiveFocusStatus::Paused] {
        assert_eq!(parse_active_status(active_status_name(status)), Some(status));
    }
    for kind in [
        FocusCompletionKind::Deadline,
        FocusCompletionKind::Early,
        FocusCompletionKind::Cancelled,
    ] {
        assert_eq!(parse_completion_kind(completion_kind_name(kind)), Some(kind));
    }
    assert_eq!(completion_kind_name(FocusCompletionKind::Early), "early");
    assert_eq!(parse_active_status("stopped"), None);
}

#[test]
fn pausing_and_resuming_at_once_keeps_the_countdown() {
    let mut f = focus(10);
    let before = f.remaining_seconds_at(&later(100));
    f.pause(later(100));
    assert!(f.resume(later(100)));
    assert_eq!(f.remaining_seconds_at(&later(100)), before);
    assert_eq!(before, 500);
}

use daoda_focus::focus::{check_instance_target, check_task_target, session_project};
use daoda_focus::project::ProjectRecord;
use daoda_focus::recurrence::{TaskInstanceRecord, TaskInstanceStatus};
use daoda_focus::task::TaskRecord;

fn paused_project() -> ProjectRecord {
    ProjectRecord {
        id: "project-paused".into(),
        name: "Paused project".into(),
        description: String::new(),
        color: "mint".into(),
        icon: "folder".into(),
        status: "paused".into(),
        started_on: "2026-07-01".into(),
        target_on: None,
        created_at: "2026-07-19T10:00:00+00:00".into(),
        updated_at: "2026-07-19T10:00:00+00:00".into(),
    }
}

fn target_task(status: &str) -> TaskRecord {
    TaskRecord {
        id: "task-1".into(),
        project_id: Some("project-paused".into()),
        title: "Write tests".into(),
        category: "work".into(),
        priority: 2,
        scheduled_date: Some("2026-07-19".into()),
        scheduled_time: None,
        status: status.into(),
        completed_at: None,
        created_at: "2026-07-19T10:00:00+00:00".into(),
        updated_at: "2026-07-19T10:00:00+00:00".into(),
    }
}

fn target_instance(status: TaskInstanceStatus) -> TaskInstanceRecord {
    TaskInstanceRecord {
        id: "instance-paused".into(),
        recurrence_rule_id: "rule-paused".into(),
        rule_version: 1,
        scheduled_date: "2026-07-19".into(),
        scheduled_at: None,
        snapshot_title: "Paused instance".into(),
        snapshot_project_id: Some("project-paused".into()),
        status,
        completed_at: None,
        source_instance_id: None,
        created_at: "2026-07-19T10:00:00+00:00".into(),
        updated_at: "2026-07-19T10:00:00+00:00".into(),
    }
}

#[test]
fn paused_project_blocks_task_and_recurring_instance_focus() {
    let project = paused_project();
    assert_eq!(
        check_task_target(Some(&target_task("pending")), Some(&project)).unwrap_err().code,
        "FOCUS_PROJECT_PAUSED"
    );
    assert_eq!(
        check_instance_target(Some(&target_instance(TaskInstanceStatus::Pending)), Some(&project))
            .unwrap_err()
            .code,
        "FOCUS_PROJECT_PAUSED"
    );
    assert!(check_task_target(Some(&target_task("pending")), None).is_ok());
}

#[test]
fn focus_targets_must_exist_and_be_pending() {
    assert_eq!(check_task_target(None, None).unwrap_err().code, "FOCUS_TASK_NOT_FOUND");
    assert_eq!(
        check_task_target(Some(&target_task("completed")), None).unwrap_err().code,
        "FOCUS_TASK_UNAVAILABLE"
    );
    assert_eq!(check_instance_target(None, None).unwrap_err().code, "FOCUS_TASK_INSTANCE_NOT_FOUND");
    assert_eq!(
        check_instance_target(Some(&target_instance(TaskInstanceStatus::Skipped)), None)
            .unwrap_err()
            .code,
        "FOCUS_TASK_INSTANCE_UNAVAILABLE"
    );
}

#[test]
fn sessions_are_recorded_under_the_target_project() {
    let on_task = begin(Some("task-1".into()), None, 5, now()).unwrap();
    assert_eq!(session_project(&on_task, Some(&target_task("pending")), None).as_deref(), Some("project-paused"));
    let on_instance = begin(None, Some("instance-paused".into()), 5, now()).unwrap();
    assert_eq!(
        session_project(&on_instance, None, Some(&target_instance(TaskInstanceStatus::Pending))).as_deref(),
        Some("project-paused")
    );
    let free = begin(None, None, 5, now()).unwrap();
    assert_eq!(session_project(&free, None, None), None);
}

#[test]
fn a_second_focus_cannot_start_while_one_is_under_way() {
    assert!(daoda_focus::focus::ensure_no_active_focus(false).is_ok());
    assert_eq!(daoda_focus::focus::ensure_no_active_focus(true).unwrap_err().code, "FOCUS_ALREADY_ACTIVE");
}
