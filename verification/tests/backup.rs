use chrono::{TimeZone, Utc};
use daoda_focus::backup::{
    backup_format_version, check_backup_text, check_format_version, checksum, format_timestamp, history_entry,
    needs_empty_memo_collections, snapshot_file_name, validate_backup, BackupActiveFocusRef, BackupCheckItemRef,
    BackupData, BackupInstanceRef, BackupRuleRef, BackupSessionRef, BackupTagLinkRef, BackupTaskRef,
    CURRENT_BACKUP_FORMAT_VERSION,
};
use daoda_focus::time::UtcInstant;

fn at(y: i32, mo: u32, d: u32, h: u32, mi: u32, s: u32) -> UtcInstant {
    let t = Utc.with_ymd_and_hms(y, mo, d, h, mi, s).unwrap();
    UtcInstant::from_parts(t.timestamp(), 0).unwrap()
}

#[test]
fn parser_reports_format_and_version_errors_separately() {
    assert_eq!(backup_format_version("not-json").unwrap_err().code, "BACKUP_FORMAT_INVALID");
    assert_eq!(
        backup_format_version(r#"{"formatVersion":3}"#).unwrap_err().code,
        "BACKUP_VERSION_UNSUPPORTED"
    );
    assert_eq!(
        backup_format_version(r#"{"formatVersion":"1"}"#).unwrap_err().field.as_deref(),
        Some("formatVersion")
    );
    assert_eq!(backup_format_version(r#"{"formatVersion":2,"data":{}}"#).unwrap(), 2);
    assert_eq!(backup_format_version(r#"{"formatVersion":1}"#).unwrap(), 1);
}

#[test]
fn unsupported_versions_are_named_in_the_message() {
    let error = check_format_version(Some(3)).unwrap_err();
    assert_eq!(error.message, "unsupported backup format version: 3");
    assert_eq!(check_format_version(Some(u64::from(u32::MAX) + 1)).unwrap_err().code, "BACKUP_FORMAT_INVALID");
    assert_eq!(check_format_version(None).unwrap_err().code, "BACKUP_FORMAT_INVALID");
}

#[test]
fn parser_converts_version_one_memo_collections_to_empty_sets() {
    assert!(needs_empty_memo_collections(1));
    assert!(!needs_empty_memo_collections(CURRENT_BACKUP_FORMAT_VERSION));
}

#[test]
fn checksums_are_lowercase_sha256_hex() {
    assert_eq!(
        checksum(b""),
        "e3b0c44298fc1c149afbf4c8996fb92427ae41e4649b934ca495991b7852b855"
    );
    assert_eq!(
        checksum(b"abc"),
        "ba7816bf8f01cfea414140de5dae2223b00361a396177a9cb410ff61f20015ad"
    );
}

#[test]
fn exports_to_a_selected_path_and_records_history() {
    let when = at(2026, 7, 21, 9, 0, 0);
    let entry = history_entry("history-1".into(), "manual", "/tmp/backup.json".into(), b"abc", &when);
    assert_eq!(entry.kind, "manual");
    assert_eq!(entry.format_version, 2);
    assert_eq!(entry.created_at, "2026-07-21T09:00:00.000Z");
    assert_eq!(entry.checksum.len(), 64);
    assert_eq!(format_timestamp(&when), "2026-07-21T09:00:00.000Z");
}

#[test]
fn restore_snapshots_are_named_by_time_and_id() {
    let name = snapshot_file_name(&at(2026, 7, 21, 9, 5, 7), "abc");
    assert_eq!(name, "pre-restore-20260721T090507Z-abc.json");
}

/// The data of the source store of the restore tests: one project with a task, and one memo
/// with a tag and a reminder.
fn seeded_data() -> BackupData {
    BackupData {
        project_ids: vec!["incoming-project".into()],
        tasks: vec![BackupTaskRef { id: "incoming-task".into(), project_id: Some("incoming-project".into()) }],
        check_items: vec![],
        recurrence_rules: vec![],
        task_instances: vec![],
        focus_sessions: vec![],
        active_focus: None,
        notes: 0,
        weekly_goals: 0,
        preferences: 0,
        memo_ids: vec!["incoming-memo".into()],
        memo_tag_ids: vec!["incoming-tag".into()],
        memo_tag_links: vec![BackupTagLinkRef { memo_id: "incoming-memo".into(), tag_id: "incoming-tag".into() }],
        memo_reminder_memo_ids: vec!["incoming-memo".into()],
    }
}

#[test]
fn validation_rejects_unknown_versions_and_broken_references() {
    let version_error = check_backup_text(r#"{"formatVersion":99,"data":{}}"#, 1_000_000).unwrap_err();
    assert_eq!(version_error.code, "BACKUP_VERSION_UNSUPPORTED");
    assert_eq!(version_error.field.as_deref(), Some("formatVersion"));

    let mut broken_reference = seeded_data();
    broken_reference.tasks[0].project_id = Some("missing-project".into());
    let reference_error = validate_backup(&broken_reference).unwrap_err();
    assert_eq!(reference_error.code, "BACKUP_REFERENCE_INVALID");
    assert_eq!(reference_error.field.as_deref(), Some("tasks.projectId"));

    let mut broken_memo_reference = seeded_data();
    broken_memo_reference.memo_tag_links[0].tag_id = "missing-tag".into();
    let memo_reference_error = validate_backup(&broken_memo_reference).unwrap_err();
    assert_eq!(memo_reference_error.code, "BACKUP_REFERENCE_INVALID");
    assert_eq!(memo_reference_error.field.as_deref(), Some("memoTagLinks.tagId"));
}

#[test]
fn a_valid_backup_is_counted_by_collection() {
    let summary = validate_backup(&seeded_data()).unwrap();
    assert_eq!(summary.counts.projects, 1);
    assert_eq!(summary.counts.tasks, 1);
    assert_eq!(summary.counts.memos, 1);
    assert_eq!(summary.counts.memo_tags, 1);
    assert_eq!(summary.counts.memo_tag_links, 1);
    assert_eq!(summary.counts.memo_reminders, 1);
    assert_eq!(summary.counts.active_focus, 0);
    assert_eq!(summary.counts.total, 6);
}

#[test]
fn every_collection_counts_toward_the_total() {
    let data = BackupData {
        project_ids: vec!["project-1".into()],
        tasks: vec![BackupTaskRef { id: "task-1".into(), project_id: Some("project-1".into()) }],
        check_items: vec![BackupCheckItemRef { task_id: "task-1".into() }],
        recurrence_rules: vec![BackupRuleRef { id: "rule-1".into(), task_template_id: "task-1".into() }],
        task_instances: vec![BackupInstanceRef {
            id: "instance-1".into(),
            recurrence_rule_id: "rule-1".into(),
            source_instance_id: None,
        }],
        focus_sessions: vec![BackupSessionRef {
            task_id: Some("task-1".into()),
            task_instance_id: None,
            project_id: Some("project-1".into()),
        }],
        active_focus: Some(BackupActiveFocusRef { task_id: Some("task-1".into()), task_instance_id: None }),
        notes: 1,
        weekly_goals: 1,
        preferences: 1,
        memo_ids: vec!["memo-1".into()],
        memo_tag_ids: vec!["memo-tag-1".into()],
        memo_tag_links: vec![BackupTagLinkRef { memo_id: "memo-1".into(), tag_id: "memo-tag-1".into() }],
        memo_reminder_memo_ids: vec!["memo-1".into()],
    };
    let summary = validate_backup(&data).unwrap();
    assert_eq!(summary.counts.active_focus, 1);
    assert_eq!(summary.counts.total, 14);
}

#[test]
fn each_broken_reference_is_named() {
    let mut data = seeded_data();
    data.check_items.push(BackupCheckItemRef { task_id: "missing-task".into() });
    assert_eq!(validate_backup(&data).unwrap_err().field.as_deref(), Some("checkItems.taskId"));

    let mut data = seeded_data();
    data.task_instances.push(BackupInstanceRef {
        id: "instance-1".into(),
        recurrence_rule_id: "missing-rule".into(),
        source_instance_id: None,
    });
    assert_eq!(validate_backup(&data).unwrap_err().field.as_deref(), Some("taskInstances.recurrenceRuleId"));

    let mut data = seeded_data();
    data.active_focus = Some(BackupActiveFocusRef { task_id: None, task_instance_id: Some("missing".into()) });
    assert_eq!(validate_backup(&data).unwrap_err().field.as_deref(), Some("activeFocus.taskInstanceId"));

    let mut data = seeded_data();
    data.memo_reminder_memo_ids.push("missing-memo".into());
    assert_eq!(validate_backup(&data).unwrap_err().field.as_deref(), Some("memoReminders.memoId"));

    let mut data = seeded_data();
    data.tasks[0].project_id = Some("missing".into());
    data.memo_tag_links[0].memo_id = "missing".into();
    assert_eq!(validate_backup(&data).unwrap_err().field.as_deref(), Some("tasks.projectId"));
}

#[test]
fn an_empty_backup_counts_nothing() {
    let data = BackupData {
        project_ids: vec![],
        tasks: vec![],
        check_items: vec![],
        recurrence_rules: vec![],
        task_instances: vec![],
        focus_sessions: vec![],
        active_focus: None,
        notes: 0,
        weekly_goals: 0,
        preferences: 0,
        memo_ids: vec![],
        memo_tag_ids: vec![],
        memo_tag_links: vec![],
        memo_reminder_memo_ids: vec![],
    };
    assert_eq!(validate_backup(&data).unwrap().counts.total, 0);
}

#[test]
fn oversized_backup_text_is_refused_before_it_is_read() {
    let error = check_backup_text(r#"{"formatVersion":2}"#, 5).unwrap_err();
    assert_eq!(error.code, "BACKUP_FILE_TOO_LARGE");
    assert_eq!(check_backup_text(r#"{"formatVersion":2}"#, 19).unwrap(), 2);
    assert_eq!(check_backup_text("not-json", 100).unwrap_err().code, "BACKUP_FORMAT_INVALID");
}
