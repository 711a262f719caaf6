use daoda_focus::memo::MemoCoreRecord;
use daoda_focus::memo_reminder::{MemoReminderFrequency, MemoReminderInput, MemoReminderRule, MemoReminderStatus};
use daoda_focus::memo_store::{
    body_preview, due_reminder, escape_like, memo_delete_error, memo_not_found_error, memo_record,
    memo_save_error, memo_summary, parse_reminder, to_stored, weekdays_json, MemoTag,
};

fn rule(schedule: MemoReminderInput) -> MemoReminderRule {
    MemoReminderRule {
        id: "reminder".into(),
        memo_id: "memo".into(),
        schedule,
        next_scheduled_for: Some("2026-07-24T01:00:00Z".into()),
        status: MemoReminderStatus::Active,
        created_at: "2026-07-23T10:00:00Z".into(),
        updated_at: "2026-07-23T10:00:00Z".into(),
    }
}

#[test]
fn like_patterns_escape_wildcards_literally() {
    assert_eq!(escape_like("100%_done\\"), "100\\%\\_done\\\\");
    assert_eq!(escape_like("plain"), "plain");
}

#[test]
fn previews_keep_the_first_120_trimmed_characters() {
    assert_eq!(body_preview("  short body \n"), "short body");
    let long: String = "界".repeat(130);
    assert_eq!(body_preview(&long).chars().count(), 120);
}

#[test]
fn weekdays_are_stored_as_compact_json() {
    assert_eq!(weekdays_json(&vec![]), "[]");
    assert_eq!(weekdays_json(&vec![1, 3, 5]), "[1,3,5]");
    assert_eq!(weekdays_json(&vec![255]), "[255]");
}

#[test]
fn get_aggregates_a_recurring_reminder() {
    let stored_rule = rule(MemoReminderInput::Recurring {
        frequency: MemoReminderFrequency::Weekly,
        interval: 2,
        weekdays: vec![1, 3],
        monthly_day: None,
        local_time: "09:00".into(),
        starts_on: "2026-07-23".into(),
        ends_on: Some("2026-12-31".into()),
        timezone: "Asia/Shanghai".into(),
    });
    let row = to_stored("memo", &stored_rule).unwrap();
    assert_eq!(row.schedule_kind, "recurring");
    assert_eq!(row.frequency.as_deref(), Some("weekly"));
    assert_eq!(row.weekdays_json.as_deref(), Some("[1,3]"));
    let read = parse_reminder(row).unwrap();
    match read.schedule {
        MemoReminderInput::Recurring { frequency, interval, weekdays, ends_on, .. } => {
            assert_eq!(frequency, MemoReminderFrequency::Weekly);
            assert_eq!(interval, 2);
            assert_eq!(weekdays, vec![1, 3]);
            assert_eq!(ends_on.as_deref(), Some("2026-12-31"));
        }
        MemoReminderInput::Once { .. } => panic!("expected a recurring reminder"),
    }
    assert_eq!(read.next_scheduled_for.as_deref(), Some("2026-07-24T01:00:00Z"));
}

#[test]
fn one_time_reminders_round_trip_through_their_row() {
    let once = rule(MemoReminderInput::Once {
        scheduled_local: "2026-07-25T10:00".into(),
        timezone: "Asia/Shanghai".into(),
    });
    let row = to_stored("memo", &once).unwrap();
    assert_eq!(row.schedule_kind, "once");
    assert_eq!(row.starts_on, "2026-07-25");
    assert_eq!(row.local_time, "10:00");
    let read = parse_reminder(row).unwrap();
    match read.schedule {
        MemoReminderInput::Once { scheduled_local, timezone } => {
            assert_eq!(scheduled_local, "2026-07-25T10:00");
            assert_eq!(timezone, "Asia/Shanghai");
        }
        MemoReminderInput::Recurring { .. } => panic!("expected a one-time reminder"),
    }
    let broken = rule(MemoReminderInput::Once {
        scheduled_local: "2026-07-25 10:00".into(),
        timezone: "UTC".into(),
    });
    assert_eq!(to_stored("memo", &broken).unwrap_err().code, "MEMO_SAVE_FAILED");
}

#[test]
fn corrupt_reminder_rows_are_reported() {
    let once = rule(MemoReminderInput::Once {
        scheduled_local: "2026-07-25T10:00".into(),
        timezone: "UTC".into(),
    });
    let mut row = to_stored("memo", &once).unwrap();
    row.status = "sleeping".into();
    assert_eq!(parse_reminder(row).unwrap_err().code, "MEMO_REMINDER_DATA_INVALID");

    let mut row = to_stored("memo", &once).unwrap();
    row.schedule_kind = "sometimes".into();
    assert_eq!(parse_reminder(row).unwrap_err().code, "MEMO_REMINDER_DATA_INVALID");

    let daily = rule(MemoReminderInput::Recurring {
        frequency: MemoReminderFrequency::Daily,
        interval: 1,
        weekdays: vec![],
        monthly_day: None,
        local_time: "09:00".into(),
        starts_on: "2026-07-23".into(),
        ends_on: None,
        timezone: "UTC".into(),
    });
    let mut row = to_stored("memo", &daily).unwrap();
    row.weekdays_json = Some("not json".into());
    assert_eq!(parse_reminder(row).unwrap_err().code, "MEMO_REMINDER_DATA_INVALID");
    let mut row = to_stored("memo", &daily).unwrap();
    row.interval = None;
    assert_eq!(parse_reminder(row).unwrap_err().code, "MEMO_REMINDER_DATA_INVALID");
    let mut row = to_stored("memo", &daily).unwrap();
    row.weekdays_json = None;
    match parse_reminder(row).unwrap().schedule {
        MemoReminderInput::Recurring { weekdays, .. } => assert!(weekdays.is_empty()),
        MemoReminderInput::Once { .. } => panic!("expected a recurring reminder"),
    }
}

fn stored_core() -> MemoCoreRecord {
    MemoCoreRecord {
        id: "memo".into(),
        title: "".into(),
        body: "\n  Body line  \nsecond".into(),
        pinned_at: None,
        created_at: "2026-07-23T10:00:00Z".into(),
        updated_at: "2026-07-23T11:00:00Z".into(),
    }
}

#[test]
fn create_get_and_update_round_trip_aggregated_detail() {
    let tags = vec![MemoTag { id: "tag".into(), name: "Work".into() }];
    let record = memo_record(stored_core(), tags, None, "Untitled").unwrap();
    assert_eq!(record.display_title, "Body line");
    assert_eq!(record.tags[0].name, "Work");
    assert!(record.reminder.is_none());
    let summary = memo_summary(record);
    assert_eq!(summary.body_preview, "Body line  \nsecond");
    assert_eq!(summary.updated_at, "2026-07-23T11:00:00Z");
}

#[test]
fn due_reminders_carry_their_memo_title() {
    let once = rule(MemoReminderInput::Once {
        scheduled_local: "2026-07-25T10:00".into(),
        timezone: "UTC".into(),
    });
    let due = due_reminder(to_stored("memo", &once).unwrap(), "", "", "Untitled memo").unwrap();
    assert_eq!(due.display_title, "Untitled memo");
    assert_eq!(due.reminder.id, "reminder");
}

#[test]
fn removal_returns_stable_not_found_error() {
    assert_eq!(memo_not_found_error().code, "MEMO_NOT_FOUND");
    assert_eq!(memo_save_error().code, "MEMO_SAVE_FAILED");
    assert_eq!(memo_delete_error().code, "MEMO_DELETE_FAILED");
}
