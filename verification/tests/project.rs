use daoda_focus::project::{
    deadline, plan_removal, project_not_found, project_summary, tasks_of_project, ProjectRecord,
    ProjectRemoval, ProjectRemovalResolution,
};
use daoda_focus::task::TaskRecord;
use daoda_focus::time::LocalDate;

fn project(target_on: Option<&str>) -> ProjectRecord {
    ProjectRecord {
        id: "project-1".into(),
        name: "Arrive Focus".into(),
        description: "Local focus system".into(),
        color: "mint".into(),
        icon: "folder".into(),
        status: "paused".into(),
        started_on: "2026-07-01".into(),
        target_on: target_on.map(str::to_string),
        created_at: "2026-07-01T00:00:00Z".into(),
        updated_at: "2026-07-01T00:00:00Z".into(),
    }
}

fn day(text: &str) -> LocalDate {
    LocalDate::parse(text).unwrap()
}

#[test]
fn lifecycle_and_deadline_are_reported() {
    let summary = project_summary(
        project(Some("2026-07-25")),
        Some(("Next".into(), Some("2026-07-21".into()))),
        &day("2026-07-20"),
    );
    assert_eq!(summary.project.status, "paused");
    assert_eq!(summary.deadline_state, "atRisk");
    assert_eq!(summary.deadline_days, Some(5));
    assert_eq!(summary.next_task_title.as_deref(), Some("Next"));
    assert_eq!(summary.next_task_date.as_deref(), Some("2026-07-21"));
}

#[test]
fn deadline_states_follow_the_days_left() {
    let today = day("2026-07-20");
    assert_eq!(deadline(&None, &today), ("none".to_string(), None));
    assert_eq!(deadline(&Some("not a date".into()), &today), ("none".to_string(), None));
    assert_eq!(deadline(&Some("2026-07-19".into()), &today), ("overdue".to_string(), Some(-1)));
    assert_eq!(deadline(&Some("2026-07-27".into()), &today), ("atRisk".to_string(), Some(7)));
    assert_eq!(deadline(&Some("2026-07-28".into()), &today), ("onTrack".to_string(), Some(8)));
}

#[test]
fn project_with_history_requires_resolution() {
    assert_eq!(
        plan_removal(ProjectRemovalResolution::Delete, true).unwrap_err().code,
        "PROJECT_HAS_HISTORY"
    );
    assert_eq!(
        plan_removal(ProjectRemovalResolution::DetachHistory, true).unwrap(),
        ProjectRemoval::DetachThenDelete
    );
    assert_eq!(plan_removal(ProjectRemovalResolution::Delete, false).unwrap(), ProjectRemoval::Delete);
    assert_eq!(plan_removal(ProjectRemovalResolution::Archive, true).unwrap(), ProjectRemoval::Archive);
    assert_eq!(project_not_found().code, "PROJECT_NOT_FOUND");
}

fn task(id: &str, project_id: Option<&str>) -> TaskRecord {
    TaskRecord {
        id: id.into(),
        project_id: project_id.map(str::to_string),
        title: id.into(),
        category: "work".into(),
        priority: 0,
        scheduled_date: None,
        scheduled_time: None,
        status: "pending".into(),
        completed_at: None,
        created_at: "2026-07-18T00:00:00Z".into(),
        updated_at: "2026-07-18T00:00:00Z".into(),
    }
}

#[test]
fn project_detail_lists_only_its_tasks_in_order() {
    let tasks = vec![
        task("a", Some("project-1")),
        task("b", None),
        task("c", Some("project-2")),
        task("d", Some("project-1")),
    ];
    let mine = tasks_of_project(tasks, "project-1");
    assert_eq!(mine.iter().map(|t| t.id.as_str()).collect::<Vec<_>>(), vec!["a", "d"]);
}

use daoda_focus::project::{edited_project, new_project, ProjectInput};

fn project_input(name: &str) -> ProjectInput {
    ProjectInput {
        name: name.into(),
        description: "Local focus system".into(),
        color: "mint".into(),
        icon: "folder".into(),
        started_on: "2026-07-01".into(),
        target_on: Some("2026-07-25".into()),
    }
}

#[test]
fn projects_are_created_active_and_keep_their_identity_when_edited() {
    let now = "2026-07-01T00:00:00Z".to_string();
    let created = new_project("project-1".into(), project_input("  Arrive Focus "), &now);
    assert_eq!(created.name, "Arrive Focus");
    assert_eq!(created.status, "active");
    let edited = edited_project(created, project_input("Renamed"), &"2026-07-02T00:00:00Z".to_string());
    assert_eq!(edited.id, "project-1");
    assert_eq!(edited.name, "Renamed");
    assert_eq!(edited.status, "active");
    assert_eq!(edited.created_at, "2026-07-01T00:00:00Z");
}
