use chrono::{Duration, TimeZone, Utc};
use daoda_focus::error::DomainError;
use daoda_focus::focus::FocusCompletionKind;
use daoda_focus::notification::{
    combine_cycle, deliver, focus_completed_notification, focus_title, format_duration, kind_name,
    memo_reminder_notification, reservation_outcome, reserve, reserved_record, settle_delivery,
    task_due_notification, DeliveryRecord, DeliveryStatus, NotificationCandidate,
    NotificationKind, NotificationPreferences, NotificationPublisher, NotificationReservation,
    SystemNotification, SystemNotificationActivation, PENDING_LEASE_SECONDS,
};
use daoda_focus::memo_reminder::{
    plan_advance, prepare_rule, DeliveryTally, DueMemoReminder, MemoReminderInput, MemoReminderRule,
    MemoReminderStatus,
};
use daoda_focus::time::UtcInstant;
use std::cell::RefCell;

fn at(t: chrono::DateTime<Utc>) -> UtcInstant {
    UtcInstant::from_parts(t.timestamp(), t.timestamp_subsec_nanos()).unwrap()
}

fn enabled(sound: bool) -> NotificationPreferences {
    NotificationPreferences { notifications_enabled: true, sound_enabled: sound }
}

#[test]
fn durations_are_written_in_minutes_and_seconds() {
    assert_eq!(format_duration(125), "2 分 5 秒");
    assert_eq!(format_duration(120), "2 分钟");
    assert_eq!(format_duration(45), "45 秒");
    assert_eq!(format_duration(0), "0 秒");
    assert_eq!(format_duration(-5), "0 秒");
    assert_eq!(format_duration(3600), "60 分钟");
}

#[test]
fn completed_focus_is_notified_once_with_title_and_duration() {
    let ended = at(Utc.with_ymd_and_hms(2026, 7, 20, 9, 2, 5).unwrap());
    let (candidate, notification) = focus_completed_notification(
        FocusCompletionKind::Early,
        enabled(true),
        "session-1".into(),
        "Write release notes".into(),
        125,
        &ended,
    )
    .unwrap();
    assert_eq!(candidate.kind, NotificationKind::FocusCompleted);
    assert_eq!(candidate.source_id, "session-1");
    assert_eq!(candidate.scheduled_for, "2026-07-20T09:02:05+00:00");
    assert_eq!(notification.title, "专注完成");
    assert_eq!(notification.body, "Write release notes · 已专注 2 分 5 秒");
    assert!(notification.sound_enabled);

    let mut entry = None;
    let publisher = Recorder::working();
    assert_eq!(deliver(&mut entry, &notification, ended, &publisher).unwrap(), true);
    assert_eq!(deliver(&mut entry, &notification, ended, &publisher).unwrap(), false);
    assert_eq!(publisher.published.borrow().len(), 1);
}

#[test]
fn disabled_notifications_create_no_delivery_record() {
    let ended = at(Utc.with_ymd_and_hms(2026, 7, 20, 9, 0, 0).unwrap());
    let off = NotificationPreferences { notifications_enabled: false, sound_enabled: true };
    assert!(focus_completed_notification(
        FocusCompletionKind::Deadline,
        off,
        "s".into(),
        "t".into(),
        60,
        &ended
    )
    .is_none());
    assert!(focus_completed_notification(
        FocusCompletionKind::Cancelled,
        enabled(true),
        "s".into(),
        "t".into(),
        60,
        &ended
    )
    .is_none());
}

#[test]
fn focus_title_prefers_task_then_instance_then_label() {
    assert_eq!(focus_title(Some("Task".into()), Some("Instance".into())), "Task");
    assert_eq!(focus_title(None, Some("Instance".into())), "Instance");
    assert_eq!(focus_title(None, None), "本轮专注");
}

#[test]
fn due_task_reminders_are_deduplicated_and_honor_sound_setting() {
    let candidate = NotificationCandidate {
        kind: NotificationKind::TaskDue,
        source_id: "due".into(),
        title: "Due task".into(),
        scheduled_for: "2026-07-20T10:00:00".into(),
    };
    let notification = task_due_notification(&candidate, enabled(false));
    assert_eq!(notification.title, "任务到时");
    assert_eq!(notification.body, "Due task");
    assert!(!notification.sound_enabled);

    let now = at(Utc.with_ymd_and_hms(2026, 7, 20, 2, 0, 0).unwrap());
    let mut entry = None;
    let publisher = Recorder::working();
    assert!(deliver(&mut entry, &notification, now, &publisher).unwrap());
    assert!(!deliver(&mut entry, &notification, now, &publisher).unwrap());
    assert_eq!(publisher.published.borrow().len(), 1);
}

#[test]
fn memo_reminder_notification_opens_the_memo() {
    let (candidate, notification) = memo_reminder_notification(
        "reminder".into(),
        "memo".into(),
        "Review notes".into(),
        Some("2026-07-23T11:00:00Z".into()),
        enabled(true),
    )
    .unwrap();
    assert_eq!(candidate.kind, NotificationKind::MemoReminder);
    assert_eq!(candidate.scheduled_for, "2026-07-23T11:00:00Z");
    assert_eq!(notification.title, "备忘录提醒");
    assert_eq!(notification.body, "Review notes");
    match notification.activation {
        Some(SystemNotificationActivation::OpenMemo { memo_id }) => assert_eq!(memo_id, "memo"),
        None => panic!("memo reminder must open its memo"),
    }
    let error = memo_reminder_notification(
        "reminder".into(),
        "memo".into(),
        "Review notes".into(),
        None,
        enabled(true),
    )
    .unwrap_err();
    assert_eq!(error.code, "MEMO_REMINDER_DATA_INVALID");
}

#[test]
fn delivery_reservation_is_unique() {
    let now = at(Utc.with_ymd_and_hms(2026, 7, 20, 2, 0, 0).unwrap());
    let mut entry: Option<DeliveryRecord> = None;
    assert_eq!(reserve(&entry, &now), NotificationReservation::Acquired);
    entry = Some(reserved_record(true, now));
    assert_eq!(reserve(&entry, &now), NotificationReservation::InFlight);
}

#[test]
fn failed_delivery_can_be_reserved_for_retry() {
    let now = at(Utc.with_ymd_and_hms(2026, 7, 20, 2, 0, 0).unwrap());
    let mut record = reserved_record(true, now);
    let refused = settle_delivery(
        &mut record,
        Err(DomainError {
            code: "NOTIFICATION_SEND_FAILED".into(),
            message: "refused".into(),
            field: None,
        }),
        now,
    );
    assert_eq!(refused.unwrap_err().code, "NOTIFICATION_SEND_FAILED");
    assert_eq!(record.status, DeliveryStatus::Failed);
    assert_eq!(record.last_error.as_deref(), Some("NOTIFICATION_SEND_FAILED"));
    let entry = Some(record);
    assert_eq!(reserve(&entry, &now), NotificationReservation::Acquired);
    let retried = Some(reserved_record(false, now));
    assert_eq!(reserve(&retried, &now), NotificationReservation::InFlight);
    let pending = retried.unwrap();
    assert_eq!(pending.status, DeliveryStatus::Pending);
    assert_eq!(pending.last_error, None);
    assert!(!pending.sound_enabled);
}

#[test]
fn expired_pending_delivery_can_be_reclaimed() {
    let reserved_at = Utc.with_ymd_and_hms(2026, 7, 20, 2, 0, 0).unwrap();
    let entry = Some(reserved_record(true, at(reserved_at)));
    assert_eq!(
        reserve(&entry, &at(reserved_at + Duration::seconds(PENDING_LEASE_SECONDS - 1))),
        NotificationReservation::InFlight
    );
    assert_eq!(
        reserve(&entry, &at(reserved_at + Duration::seconds(PENDING_LEASE_SECONDS))),
        NotificationReservation::Acquired
    );
    let mut record = reserved_record(true, at(reserved_at + Duration::seconds(PENDING_LEASE_SECONDS)));
    assert!(settle_delivery(&mut record, Ok(()), at(reserved_at + Duration::seconds(61))).unwrap());
    let sent = Some(record);
    assert_eq!(
        reserve(&sent, &at(reserved_at + Duration::minutes(10))),
        NotificationReservation::AlreadySent
    );
}

#[test]
fn in_flight_delivery_keeps_reconciliation_pending() {
    let error = reservation_outcome(NotificationReservation::InFlight).unwrap().unwrap_err();
    assert_eq!(error.code, "NOTIFICATION_DELIVERY_IN_FLIGHT");
    assert_eq!(reservation_outcome(NotificationReservation::AlreadySent).unwrap().unwrap(), false);
    assert!(reservation_outcome(NotificationReservation::Acquired).is_none());

    let now = at(Utc.with_ymd_and_hms(2026, 7, 20, 2, 0, 0).unwrap());
    let mut entry = Some(reserved_record(true, now));
    let publisher = Recorder::working();
    let notification = SystemNotification {
        title: "任务到时".into(),
        body: "Due".into(),
        sound_enabled: true,
        activation: None,
    };
    let error = deliver(&mut entry, &notification, now, &publisher).unwrap_err();
    assert_eq!(error.code, "NOTIFICATION_DELIVERY_IN_FLIGHT");
    assert!(publisher.published.borrow().is_empty());
}

#[test]
fn publisher_failures_are_recorded_and_retried() {
    let now = at(Utc.with_ymd_and_hms(2026, 7, 20, 2, 0, 0).unwrap());
    let notification = SystemNotification {
        title: "任务到时".into(),
        body: "Due".into(),
        sound_enabled: true,
        activation: None,
    };
    let mut entry = None;
    let failing = Recorder::failing("NOTIFICATION_DENIED");
    assert_eq!(
        deliver(&mut entry, &notification, now, &failing).unwrap_err().code,
        "NOTIFICATION_DENIED"
    );
    assert_eq!(entry.as_ref().unwrap().status, DeliveryStatus::Failed);
    let working = Recorder::working();
    assert!(deliver(&mut entry, &notification, now, &working).unwrap());
    assert_eq!(entry.as_ref().unwrap().status, DeliveryStatus::Sent);
    assert_eq!(working.published.borrow().len(), 1);
}

#[test]
fn worker_cycle_combines_both_passes() {
    let err = |code: &str| DomainError { code: code.into(), message: String::new(), field: None };
    assert_eq!(combine_cycle(Ok(2), Ok(3)).unwrap(), 5);
    assert_eq!(combine_cycle(Err(err("TASK")), Err(err("MEMO"))).unwrap_err().code, "TASK");
    assert_eq!(combine_cycle(Ok(1), Err(err("MEMO"))).unwrap_err().code, "MEMO");
}

#[test]
fn kinds_have_stable_stored_names() {
    assert_eq!(kind_name(NotificationKind::TaskDue), "taskDue");
    assert_eq!(kind_name(NotificationKind::MemoReminder), "memoReminder");
}

struct Recorder {
    published: RefCell<Vec<String>>,
    titles: RefCell<Vec<String>>,
    error: Option<String>,
}

impl Recorder {
    fn working() -> Self {
        Recorder { published: RefCell::new(Vec::new()), titles: RefCell::new(Vec::new()), error: None }
    }

    fn failing(code: &str) -> Self {
        Recorder { published: RefCell::new(Vec::new()), titles: RefCell::new(Vec::new()), error: Some(code.into()) }
    }
}

impl NotificationPublisher for Recorder {
    fn publish(&self, notification: &SystemNotification) -> Result<(), DomainError> {
        if let Some(code) = &self.error {
            return Err(DomainError { code: code.clone(), message: "refused".into(), field: None });
        }
        self.published.borrow_mut().push(notification.body.clone());
        self.titles.borrow_mut().push(notification.title.clone());
        Ok(())
    }
}

/// A one-time memo reminder due at `due_at`, prepared five minutes before.
fn memo_reminder(memo_id: &str, due_at: chrono::DateTime<Utc>) -> MemoReminderRule {
    let schedule = MemoReminderInput::Once {
        scheduled_local: due_at.format("%Y-%m-%dT%H:%M").to_string(),
        timezone: "UTC".into(),
    };
    prepare_rule(memo_id, None, Some(&schedule), at(due_at - Duration::minutes(5))).unwrap().unwrap()
}

/// One pass over a memo's reminder at `now`: when it is active and due, its occurrence goes
/// through the delivery ledger and, once delivered (now or before), moves on.
fn memo_pass(
    reminder: &mut MemoReminderRule,
    entry: &mut Option<DeliveryRecord>,
    title: &str,
    now: chrono::DateTime<Utc>,
    publisher: &Recorder,
) -> Result<usize, DomainError> {
    let mut tally = DeliveryTally::new();
    let due = reminder.status == MemoReminderStatus::Active
        && reminder.next_scheduled_for.as_deref().map_or(false, |t| {
            chrono::DateTime::parse_from_rfc3339(t).unwrap().with_timezone(&Utc) <= now
        });
    if due {
        let (_, notification) = memo_reminder_notification(
            reminder.id.clone(),
            reminder.memo_id.clone(),
            title.into(),
            reminder.next_scheduled_for.clone(),
            enabled(true),
        )
        .unwrap();
        match deliver(entry, &notification, at(now), publisher) {
            Ok(_) => {
                let occurrence = DueMemoReminder { reminder: clone_rule(reminder), display_title: title.into() };
                let (_, next, status) = plan_advance(&occurrence).unwrap();
                reminder.next_scheduled_for = next;
                reminder.status = status;
                tally.record_success();
            }
            Err(error) => tally.record_failure(error),
        }
    }
    tally.finish()
}

fn clone_rule(r: &MemoReminderRule) -> MemoReminderRule {
    MemoReminderRule {
        id: r.id.clone(),
        memo_id: r.memo_id.clone(),
        schedule: r.schedule.duplicate(),
        next_scheduled_for: r.next_scheduled_for.clone(),
        status: r.status,
        created_at: r.created_at.clone(),
        updated_at: r.updated_at.clone(),
    }
}

#[test]
fn memo_reminder_is_published_once_and_advanced() {
    let due_at = Utc.with_ymd_and_hms(2026, 7, 23, 10, 5, 0).unwrap();
    let memo_id = "ebbc2524-ae61-4ae7-b62e-5cc8eb6ed112";
    let mut reminder = memo_reminder(memo_id, due_at);
    let mut entry = None;
    let publisher = Recorder::working();

    assert_eq!(memo_pass(&mut reminder, &mut entry, "Review notes", due_at, &publisher).unwrap(), 1);
    assert_eq!(memo_pass(&mut reminder, &mut entry, "Review notes", due_at, &publisher).unwrap(), 0);
    assert_eq!(*publisher.published.borrow(), ["Review notes"]);
    assert_eq!(*publisher.titles.borrow(), ["备忘录提醒"]);
    assert_eq!(reminder.status, MemoReminderStatus::Completed);
    assert_eq!(reminder.next_scheduled_for, None);
}

#[test]
fn failed_memo_delivery_is_recorded_and_retried() {
    let due_at = Utc.with_ymd_and_hms(2026, 7, 23, 10, 5, 0).unwrap();
    let mut reminder = memo_reminder("memo", due_at);
    let mut entry = None;

    let failing = Recorder::failing("NOTIFICATION_SEND_FAILED");
    let error = memo_pass(&mut reminder, &mut entry, "Review notes", due_at, &failing).unwrap_err();
    assert_eq!(error.code, "NOTIFICATION_SEND_FAILED");
    let record = entry.as_ref().unwrap();
    assert_eq!(record.status, DeliveryStatus::Failed);
    assert_eq!(record.last_error.as_deref(), Some("NOTIFICATION_SEND_FAILED"));
    assert_eq!(reminder.status, MemoReminderStatus::Active);

    let working = Recorder::working();
    assert_eq!(memo_pass(&mut reminder, &mut entry, "Review notes", due_at, &working).unwrap(), 1);
    assert_eq!(working.published.borrow().len(), 1);
}

#[test]
fn active_memo_delivery_lease_keeps_reminder_due() {
    let now = Utc.with_ymd_and_hms(2026, 7, 23, 10, 6, 0).unwrap();
    let mut reminder = memo_reminder("memo", now - Duration::minutes(1));
    let scheduled = reminder.next_scheduled_for.clone();
    let mut entry = Some(reserved_record(true, at(now - Duration::seconds(30))));
    let publisher = Recorder::working();

    let error = memo_pass(&mut reminder, &mut entry, "Review notes", now, &publisher).unwrap_err();
    assert_eq!(error.code, "NOTIFICATION_DELIVERY_IN_FLIGHT");
    assert!(publisher.published.borrow().is_empty());
    assert_eq!(reminder.status, MemoReminderStatus::Active);
    assert_eq!(reminder.next_scheduled_for, scheduled);
}

#[test]
fn expired_memo_delivery_lease_is_reclaimed() {
    let now = Utc.with_ymd_and_hms(2026, 7, 23, 10, 7, 0).unwrap();
    let mut reminder = memo_reminder("memo", now - Duration::minutes(2));
    let mut entry = Some(reserved_record(true, at(now - Duration::minutes(2))));
    let publisher = Recorder::working();

    assert_eq!(memo_pass(&mut reminder, &mut entry, "Review notes", now, &publisher).unwrap(), 1);
    assert_eq!(publisher.published.borrow().len(), 1);
    assert_eq!(entry.as_ref().unwrap().status, DeliveryStatus::Sent);
}

#[test]
fn sent_memo_delivery_advances_without_republishing() {
    let due_at = Utc.with_ymd_and_hms(2026, 7, 23, 10, 5, 0).unwrap();
    let mut reminder = memo_reminder("memo", due_at);
    let mut record = reserved_record(true, at(due_at));
    settle_delivery(&mut record, Ok(()), at(due_at)).unwrap();
    let mut entry = Some(record);
    let publisher = Recorder::working();

    assert_eq!(memo_pass(&mut reminder, &mut entry, "Review notes", due_at, &publisher).unwrap(), 1);
    assert!(publisher.published.borrow().is_empty());
    assert_eq!(reminder.status, MemoReminderStatus::Completed);
}

#[test]
fn notifications_and_sound_are_on_until_changed() {
    let defaults = NotificationPreferences::default();
    assert!(defaults.notifications_enabled);
    assert!(defaults.sound_enabled);
}
