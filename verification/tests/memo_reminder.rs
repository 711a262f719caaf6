use chrono::{TimeZone, Utc};
use daoda_focus::memo_reminder::{
    next_occurrence, plan_advance, prepare_rule, DeliveryTally, DueMemoReminder, MemoReminderFrequency,
    MemoReminderInput, MemoReminderRule, MemoReminderStatus,
};
use daoda_focus::error::DomainError;
use daoda_focus::memo::MemoService;
use daoda_focus::time::UtcInstant;

fn utc(y: i32, mo: u32, d: u32, h: u32, mi: u32, s: u32) -> UtcInstant {
    let t = Utc.with_ymd_and_hms(y, mo, d, h, mi, s).unwrap();
    UtcInstant::from_parts(t.timestamp(), 0).unwrap()
}

#[allow(clippy::too_many_arguments)]
fn recurring(
    frequency: MemoReminderFrequency,
    interval: u32,
    weekdays: Vec<u8>,
    monthly_day: Option<u8>,
    local_time: &str,
    starts_on: &str,
    ends_on: Option<&str>,
    timezone: &str,
) -> MemoReminderInput {
    MemoReminderInput::Recurring {
        frequency,
        interval,
        weekdays,
        monthly_day,
        local_time: local_time.into(),
        starts_on: starts_on.into(),
        ends_on: ends_on.map(str::to_string),
        timezone: timezone.into(),
    }
}

#[test]
fn resolves_a_future_one_time_reminder_to_utc() {
    let schedule = MemoReminderInput::Once {
        scheduled_local: "2026-07-25T10:00".into(),
        timezone: "Asia/Shanghai".into(),
    };

    let next = next_occurrence(&schedule, utc(2026, 7, 25, 1, 0, 0)).unwrap();

    assert_eq!(next, Some(utc(2026, 7, 25, 2, 0, 0)));
}

#[test]
fn advances_daily_and_weekday_rules_strictly_after_the_reference_time() {
    let daily = recurring(
        MemoReminderFrequency::Daily,
        2,
        vec![],
        None,
        "09:00",
        "2026-07-23",
        None,
        "Asia/Shanghai",
    );
    let weekday = recurring(
        MemoReminderFrequency::Weekdays,
        1,
        vec![],
        None,
        "09:00",
        "2026-07-20",
        None,
        "Asia/Shanghai",
    );

    assert_eq!(
        next_occurrence(&daily, utc(2026, 7, 23, 1, 0, 0)).unwrap(),
        Some(utc(2026, 7, 25, 1, 0, 0))
    );
    assert_eq!(
        next_occurrence(&weekday, utc(2026, 7, 24, 1, 0, 0)).unwrap(),
        Some(utc(2026, 7, 27, 1, 0, 0))
    );
}

#[test]
fn selects_the_earliest_weekday_in_each_eligible_week() {
    let schedule = recurring(
        MemoReminderFrequency::Weekly,
        2,
        vec![3, 1],
        None,
        "09:00",
        "2026-07-20",
        None,
        "Asia/Shanghai",
    );

    assert_eq!(
        next_occurrence(&schedule, utc(2026, 7, 20, 1, 0, 0)).unwrap(),
        Some(utc(2026, 7, 22, 1, 0, 0))
    );
}

#[test]
fn applies_custom_intervals_across_daily_weekly_and_monthly_rules() {
    let schedules = [
        (
            recurring(
                MemoReminderFrequency::Daily,
                3,
                vec![],
                None,
                "09:00",
                "2026-07-23",
                None,
                "Asia/Shanghai",
            ),
            utc(2026, 7, 23, 1, 0, 0),
            utc(2026, 7, 26, 1, 0, 0),
        ),
        (
            recurring(
                MemoReminderFrequency::Weekly,
                2,
                vec![1, 3],
                None,
                "09:00",
                "2026-07-20",
                None,
                "Asia/Shanghai",
            ),
            utc(2026, 7, 22, 1, 0, 0),
            utc(2026, 8, 3, 1, 0, 0),
        ),
        (
            recurring(
                MemoReminderFrequency::Monthly,
                2,
                vec![],
                Some(31),
                "09:00",
                "2026-01-31",
                None,
                "UTC",
            ),
            utc(2026, 1, 31, 9, 0, 0),
            utc(2026, 3, 31, 9, 0, 0),
        ),
    ];

    for (schedule, after, expected) in schedules {
        assert_eq!(next_occurrence(&schedule, after).unwrap(), Some(expected));
    }
}

#[test]
fn clamps_monthly_reminders_to_the_last_day_of_the_month() {
    let schedule = recurring(
        MemoReminderFrequency::Monthly,
        1,
        vec![],
        Some(31),
        "09:00",
        "2026-01-31",
        None,
        "UTC",
    );

    assert_eq!(
        next_occurrence(&schedule, utc(2026, 1, 31, 9, 0, 0)).unwrap(),
        Some(utc(2026, 2, 28, 9, 0, 0))
    );

    let leap_year = recurring(
        MemoReminderFrequency::Monthly,
        1,
        vec![],
        Some(31),
        "09:00",
        "2028-01-31",
        None,
        "UTC",
    );
    assert_eq!(
        next_occurrence(&leap_year, utc(2028, 1, 31, 9, 0, 0)).unwrap(),
        Some(utc(2028, 2, 29, 9, 0, 0))
    );
}

#[test]
fn returns_none_after_a_recurring_rule_end_date() {
    let schedule = recurring(
        MemoReminderFrequency::Daily,
        1,
        vec![],
        None,
        "09:00",
        "2026-07-20",
        Some("2026-07-24"),
        "UTC",
    );

    assert_eq!(next_occurrence(&schedule, utc(2026, 7, 24, 9, 0, 0)).unwrap(), None);
}

#[test]
fn normalizes_nonexistent_dst_times_and_uses_the_earlier_ambiguous_time() {
    let spring = recurring(
        MemoReminderFrequency::Daily,
        1,
        vec![],
        None,
        "02:30",
        "2026-03-29",
        None,
        "Europe/Berlin",
    );
    let autumn = recurring(
        MemoReminderFrequency::Daily,
        1,
        vec![],
        None,
        "02:30",
        "2026-10-25",
        None,
        "Europe/Berlin",
    );

    assert_eq!(
        next_occurrence(&spring, utc(2026, 3, 28, 12, 0, 0)).unwrap(),
        Some(utc(2026, 3, 29, 1, 0, 0))
    );
    assert_eq!(
        next_occurrence(&autumn, utc(2026, 10, 24, 12, 0, 0)).unwrap(),
        Some(utc(2026, 10, 25, 0, 30, 0))
    );
}

#[test]
fn rejects_custom_intervals_for_weekday_rules() {
    let schedule = recurring(
        MemoReminderFrequency::Weekdays,
        2,
        vec![],
        None,
        "09:00",
        "2026-07-20",
        None,
        "UTC",
    );

    assert_eq!(
        next_occurrence(&schedule, utc(2026, 7, 20, 0, 0, 0)).unwrap_err().code,
        "MEMO_REMINDER_INTERVAL_INVALID"
    );
}

#[test]
fn unknown_timezone_is_rejected() {
    let schedule = recurring(
        MemoReminderFrequency::Daily,
        1,
        vec![],
        None,
        "09:00",
        "2026-07-20",
        None,
        "Mars/Olympus",
    );
    assert!(next_occurrence(&schedule, utc(2026, 7, 20, 0, 0, 0)).is_err());
}

fn rule(schedule: MemoReminderInput, next: Option<&str>) -> MemoReminderRule {
    MemoReminderRule {
        id: "reminder-1".into(),
        memo_id: "memo-1".into(),
        schedule,
        next_scheduled_for: next.map(str::to_string),
        status: MemoReminderStatus::Active,
        created_at: "2026-07-20T00:00:00Z".into(),
        updated_at: "2026-07-20T00:00:00Z".into(),
    }
}

#[test]
fn delivered_once_reminder_completes() {
    let occurrence = DueMemoReminder {
        reminder: rule(
            MemoReminderInput::Once {
                scheduled_local: "2026-07-25T10:00".into(),
                timezone: "Asia/Shanghai".into(),
            },
            Some("2026-07-25T02:00:00+00:00"),
        ),
        display_title: "Review notes".into(),
    };
    let (current, next, status) = plan_advance(&occurrence).unwrap();
    assert_eq!(current, "2026-07-25T02:00:00+00:00");
    assert_eq!(next, None);
    assert_eq!(status, MemoReminderStatus::Completed);
}

#[test]
fn delivered_recurring_reminder_moves_to_its_next_occurrence() {
    let occurrence = DueMemoReminder {
        reminder: rule(
            recurring(
                MemoReminderFrequency::Daily,
                1,
                vec![],
                None,
                "09:00",
                "2026-07-20",
                None,
                "UTC",
            ),
            Some("2026-07-21T09:00:00+00:00"),
        ),
        display_title: "Stand-up".into(),
    };
    let (current, next, status) = plan_advance(&occurrence).unwrap();
    assert_eq!(current, "2026-07-21T09:00:00+00:00");
    assert_eq!(next.as_deref(), Some("2026-07-22T09:00:00+00:00"));
    assert_eq!(status, MemoReminderStatus::Active);
}

fn failure(code: &str) -> DomainError {
    DomainError {
        code: code.into(),
        message: "failed".into(),
        field: None,
    }
}

#[test]
fn delivery_tally_counts_successes_and_keeps_the_first_failure() {
    let mut tally = DeliveryTally::new();
    tally.record_success();
    tally.record_failure(failure("FIRST"));
    tally.record_success();
    tally.record_failure(failure("SECOND"));
    assert_eq!(tally.finish().unwrap_err().code, "FIRST");

    let mut clean = DeliveryTally::new();
    clean.record_success();
    clean.record_success();
    assert_eq!(clean.finish().unwrap(), 2);
}

#[test]
fn prepared_rule_schedules_its_next_occurrence_and_keeps_its_identity() {
    let schedule = recurring(
        MemoReminderFrequency::Daily,
        1,
        vec![],
        None,
        "09:00",
        "2026-07-20",
        None,
        "UTC",
    );
    let now = utc(2026, 7, 21, 10, 0, 0);
    let fresh = prepare_rule("memo-1", None, Some(&schedule), now).unwrap().unwrap();
    assert_eq!(fresh.memo_id, "memo-1");
    assert_eq!(fresh.next_scheduled_for.as_deref(), Some("2026-07-22T09:00:00+00:00"));
    assert_eq!(fresh.status, MemoReminderStatus::Active);
    assert_eq!(fresh.updated_at, "2026-07-21T10:00:00+00:00");
    assert_eq!(fresh.created_at, fresh.updated_at);
    assert!(!fresh.id.is_empty());

    let existing = rule(schedule.duplicate(), Some("2026-07-21T09:00:00+00:00"));
    let kept = prepare_rule("memo-1", Some(&existing), Some(&schedule), now).unwrap().unwrap();
    assert_eq!(kept.id, "reminder-1");
    assert_eq!(kept.created_at, "2026-07-20T00:00:00Z");
    assert_eq!(kept.updated_at, "2026-07-21T10:00:00+00:00");
}

#[test]
fn prepared_rule_completes_a_finished_schedule_and_drops_a_missing_one() {
    let ended = recurring(
        MemoReminderFrequency::Daily,
        1,
        vec![],
        None,
        "09:00",
        "2026-07-20",
        Some("2026-07-21"),
        "UTC",
    );
    let prepared = prepare_rule("memo-1", None, Some(&ended), utc(2026, 7, 22, 0, 0, 0)).unwrap().unwrap();
    assert_eq!(prepared.next_scheduled_for, None);
    assert_eq!(prepared.status, MemoReminderStatus::Completed);

    assert!(prepare_rule("memo-1", None, None, utc(2026, 7, 22, 0, 0, 0)).unwrap().is_none());

    let bad_zone = MemoReminderInput::Once {
        scheduled_local: "2026-07-25T10:00".into(),
        timezone: "Mars/Olympus".into(),
    };
    let error = prepare_rule("memo-1", None, Some(&bad_zone), utc(2026, 7, 22, 0, 0, 0)).unwrap_err();
    assert_eq!(error.code, "MEMO_REMINDER_TIMEZONE_INVALID");
}

/// A memo's reminder prepared at `created_at`, with the title its notifications show.
fn persisted(memo_id: &str, title: &str, body: &str, schedule: MemoReminderInput, created_at: UtcInstant)
    -> (MemoReminderRule, String)
{
    let reminder = prepare_rule(memo_id, None, Some(&schedule), created_at).unwrap().unwrap();
    (reminder, MemoService::display_title(title, body, "Untitled memo"))
}

fn is_due(reminder: &MemoReminderRule, now: &str) -> bool {
    reminder.status == MemoReminderStatus::Active
        && reminder.next_scheduled_for.as_deref().map_or(false, |t| {
            chrono::DateTime::parse_from_rfc3339(t).unwrap() <= chrono::DateTime::parse_from_rfc3339(now).unwrap()
        })
}

/// One pass over the reminders at `now`: each due one is handed to `deliver`; a delivered
/// one moves on, a failed one stays due, and the first failure is reported after the rest.
fn reconcile(
    reminders: &mut [(MemoReminderRule, String)],
    now: &str,
    mut deliver: impl FnMut(&DueMemoReminder) -> Result<(), DomainError>,
) -> Result<usize, DomainError> {
    let mut tally = DeliveryTally::new();
    for (reminder, title) in reminders.iter_mut() {
        if !is_due(reminder, now) {
            continue;
        }
        let occurrence = DueMemoReminder {
            reminder: MemoReminderRule {
                id: reminder.id.clone(),
                memo_id: reminder.memo_id.clone(),
                schedule: reminder.schedule.duplicate(),
                next_scheduled_for: reminder.next_scheduled_for.clone(),
                status: reminder.status,
                created_at: reminder.created_at.clone(),
                updated_at: reminder.updated_at.clone(),
            },
            display_title: title.clone(),
        };
        match deliver(&occurrence) {
            Ok(()) => {
                let (_, next, status) = plan_advance(&occurrence).unwrap();
                reminder.next_scheduled_for = next;
                reminder.status = status;
                tally.record_success();
            }
            Err(error) => tally.record_failure(error),
        }
    }
    tally.finish()
}

#[test]
fn scans_due_reminders_and_advances_once_and_recurring_states() {
    let created_at = utc(2026, 7, 23, 10, 0, 0);
    let mut reminders = vec![
        persisted(
            "once-memo",
            "One-time title",
            "Body",
            MemoReminderInput::Once { scheduled_local: "2026-07-23T10:05".into(), timezone: "UTC".into() },
            created_at,
        ),
        persisted(
            "recurring-memo",
            "",
            "  Recurring body title\nMore",
            recurring(MemoReminderFrequency::Daily, 1, vec![], None, "10:05", "2026-07-23", None, "UTC"),
            created_at,
        ),
    ];

    let mut delivered = Vec::new();
    let count = reconcile(&mut reminders, "2026-07-23T10:05:00Z", |occurrence| {
        delivered.push((occurrence.reminder.memo_id.clone(), occurrence.display_title.clone()));
        Ok(())
    })
    .unwrap();

    assert_eq!(count, 2);
    delivered.sort();
    assert_eq!(
        delivered,
        vec![
            ("once-memo".to_string(), "One-time title".to_string()),
            ("recurring-memo".to_string(), "Recurring body title".to_string()),
        ]
    );
    assert_eq!(reminders[0].0.status, MemoReminderStatus::Completed);
    assert_eq!(reminders[0].0.next_scheduled_for, None);
    assert_eq!(reminders[1].0.status, MemoReminderStatus::Active);
    assert_eq!(reminders[1].0.next_scheduled_for.as_deref(), Some("2026-07-24T10:05:00+00:00"));
}

#[test]
fn keeps_failed_deliveries_due_and_continues_other_reminders() {
    let created_at = utc(2026, 7, 23, 10, 0, 0);
    let mut reminders: Vec<(MemoReminderRule, String)> = ["failed-memo", "successful-memo"]
        .iter()
        .map(|id| {
            persisted(
                id,
                id,
                "Body",
                MemoReminderInput::Once { scheduled_local: "2026-07-23T10:05".into(), timezone: "UTC".into() },
                created_at,
            )
        })
        .collect();

    let error = reconcile(&mut reminders, "2026-07-23T10:05:00Z", |occurrence| {
        if occurrence.reminder.memo_id == "failed-memo" {
            Err(DomainError {
                code: "TEST_DELIVERY_FAILED".into(),
                message: "injected delivery failure".into(),
                field: None,
            })
        } else {
            Ok(())
        }
    })
    .unwrap_err();

    assert_eq!(error.code, "TEST_DELIVERY_FAILED");
    let still_due: Vec<&str> = reminders
        .iter()
        .filter(|(r, _)| is_due(r, "2026-07-23T10:05:00Z"))
        .map(|(r, _)| r.memo_id.as_str())
        .collect();
    assert_eq!(still_due, ["failed-memo"]);
    assert_eq!(reminders[1].0.status, MemoReminderStatus::Completed);
}

#[test]
fn one_time_reminders_also_read_seconds() {
    let schedule = MemoReminderInput::Once {
        scheduled_local: "2026-07-25T10:00:30".into(),
        timezone: "UTC".into(),
    };
    let next = next_occurrence(&schedule, utc(2026, 7, 25, 1, 0, 0)).unwrap().unwrap();
    assert_eq!(next, UtcInstant::from_parts(utc(2026, 7, 25, 10, 0, 0).seconds() + 30, 0).unwrap());
}

#[test]
fn recurring_schedule_errors_have_their_codes() {
    let code = |s: MemoReminderInput| next_occurrence(&s, utc(2026, 7, 20, 0, 0, 0)).unwrap_err().code;
    assert_eq!(
        code(recurring(MemoReminderFrequency::Daily, 0, vec![], None, "09:00", "2026-07-20", None, "UTC")),
        "MEMO_REMINDER_INTERVAL_INVALID"
    );
    assert_eq!(
        code(recurring(MemoReminderFrequency::Monthly, 1, vec![], None, "09:00", "2026-07-20", None, "UTC")),
        "MEMO_REMINDER_DATE_INVALID"
    );
    assert_eq!(
        code(recurring(MemoReminderFrequency::Daily, 1, vec![], None, "09:00", "20 July", None, "UTC")),
        "MEMO_REMINDER_DATE_INVALID"
    );
}

#[test]
fn a_reference_time_at_the_end_of_supported_dates_is_refused_not_a_panic() {
    let last = UtcInstant::from_parts(8_210_266_876_799, 0).unwrap();
    let schedule = recurring(MemoReminderFrequency::Daily, 1, vec![], None, "09:00", "2026-07-20", None, "Asia/Tokyo");
    assert_eq!(next_occurrence(&schedule, last).unwrap_err().code, "MEMO_REMINDER_DATE_INVALID");
}
