use daoda_focus::task::{
    check_item_not_found, check_item_order, completion_change, ensure_mutable, make_check_items,
    same_ids, task_not_found, CheckItemInput, TaskRecord,
};

fn task(status: &str) -> TaskRecord {
    TaskRecord {
        id: "task-1".into(),
        project_id: None,
        title: "Define schema".into(),
        category: "work".into(),
        priority: 2,
        scheduled_date: Some("2026-07-18".into()),
        scheduled_time: Some("10:30".into()),
        status: status.into(),
        completed_at: None,
        created_at: "2026-07-18T00:00:00Z".into(),
        updated_at: "2026-07-18T00:00:00Z".into(),
    }
}

fn ids(values: &[&str]) -> Vec<String> {
    values.iter().map(|v| v.to_string()).collect()
}

#[test]
fn removed_tasks_reject_further_state_changes() {
    assert_eq!(ensure_mutable(&task("removed")).unwrap_err().code, "TASK_REMOVED");
    assert!(ensure_mutable(&task("pending")).is_ok());
    assert!(ensure_mutable(&task("completed")).is_ok());
}

#[test]
fn creates_completes_and_restores_a_task() {
    let now = "2026-07-18T02:00:00Z".to_string();
    let (status, completed_at) = completion_change(true, &now);
    assert_eq!(status, "completed");
    assert_eq!(completed_at.as_deref(), Some("2026-07-18T02:00:00Z"));
    let (status, completed_at) = completion_change(false, &now);
    assert_eq!(status, "pending");
    assert!(completed_at.is_none());
}

#[test]
fn completes_and_reorders_check_items() {
    let now = "2026-07-18T00:00:00Z".to_string();
    let items = make_check_items(
        &"task-1".to_string(),
        vec![
            CheckItemInput { id: Some("check-1".into()), title: " Create service ".into(), completed: false },
            CheckItemInput { id: Some("check-2".into()), title: "Register command".into(), completed: true },
            CheckItemInput { id: None, title: "New".into(), completed: false },
        ],
        &now,
    );
    assert_eq!(items.len(), 3);
    assert_eq!(items[0].id, "check-1");
    assert_eq!(items[0].title, "Create service");
    assert_eq!(items[0].position, 0);
    assert_eq!(items[1].completed_at.as_deref(), Some("2026-07-18T00:00:00Z"));
    assert_eq!(items[2].position, 2);
    assert!(!items[2].id.is_empty());
    assert_ne!(items[2].id, "check-1");

    let current = ids(&["check-1", "check-2"]);
    assert!(check_item_order(&current, &ids(&["check-2", "check-1"])).is_ok());
    let error = check_item_order(&current, &ids(&["check-2"])).unwrap_err();
    assert_eq!(error.code, "CHECK_ITEM_ORDER_INVALID");
    assert_eq!(error.field.as_deref(), Some("orderedIds"));
}

#[test]
fn check_item_order_needs_every_item_exactly_once() {
    let current = ids(&["a", "b", "c"]);
    assert!(same_ids(&current, &ids(&["c", "a", "b"])));
    assert!(!same_ids(&current, &ids(&["a", "a", "b"])));
    assert!(!same_ids(&current, &ids(&["a", "b", "c", "c"])));
    assert!(!same_ids(&current, &ids(&["a", "b", "d"])));
    assert!(same_ids(&ids(&[]), &ids(&[])));
}

#[test]
fn missing_tasks_and_items_have_stable_errors() {
    assert_eq!(task_not_found().code, "TASK_NOT_FOUND");
    assert_eq!(check_item_not_found().code, "CHECK_ITEM_NOT_FOUND");
}


use daoda_focus::task::{check_task_project, edited_task, new_task, TaskInput};

fn input(project_id: Option<&str>) -> TaskInput {
    TaskInput {
        project_id: project_id.map(str::to_string),
        title: "  Implement commands ".into(),
        category: "work".into(),
        priority: 3,
        scheduled_date: Some("2026-07-18".into()),
        scheduled_time: Some("14:00".into()),
        check_items: Vec::new(),
    }
}

#[test]
fn rejects_an_unknown_project() {
    let error = check_task_project(&Some("missing".into()), false).unwrap_err();
    assert_eq!(error.code, "TASK_PROJECT_NOT_FOUND");
    assert_eq!(error.field.as_deref(), Some("projectId"));
    assert!(check_task_project(&Some("project-1".into()), true).is_ok());
    assert!(check_task_project(&None, false).is_ok());
}

#[test]
fn associates_and_clears_a_project_during_updates() {
    let now = "2026-07-18T00:00:00Z".to_string();
    let created = new_task("task-1".into(), &input(Some("project-1")), &now);
    assert_eq!(created.project_id.as_deref(), Some("project-1"));
    assert_eq!(created.title, "Implement commands");
    assert_eq!(created.status, "pending");
    let later = "2026-07-18T01:00:00Z".to_string();
    let updated = edited_task(created, &input(None), &later);
    assert!(updated.project_id.is_none());
    assert_eq!(updated.id, "task-1");
    assert_eq!(updated.created_at, "2026-07-18T00:00:00Z");
    assert_eq!(updated.updated_at, "2026-07-18T01:00:00Z");
}

#[test]
fn new_check_items_get_hyphenated_random_ids() {
    let items = make_check_items(
        &"task-1".to_string(),
        vec![CheckItemInput { id: None, title: "New".into(), completed: false }],
        &"2026-07-18T00:00:00Z".to_string(),
    );
    let id: Vec<char> = items[0].id.chars().collect();
    assert_eq!(id.len(), 36);
    for (i, c) in id.iter().enumerate() {
        if [8, 13, 18, 23].contains(&i) {
            assert_eq!(*c, '-');
        } else {
            assert!(c.is_ascii_digit() || ('a'..='f').contains(c));
        }
    }
    assert_eq!(id[14], '4');
    assert!(['8', '9', 'a', 'b'].contains(&id[19]));
}
