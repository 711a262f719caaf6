//! System notifications: what is shown for a due task, a completed focus or a memo
//! reminder, and the delivery ledger that makes each occurrence reach the user once.
use vstd::prelude::*;
use crate::error::DomainError;
use crate::focus::FocusCompletionKind;
use crate::text::{decimal, push_decimal, push_text};
use crate::time::UtcInstant;

verus! {

#[derive(Clone, Copy, Debug, PartialEq, Eq, Structural)]
pub enum NotificationKind {
    TaskDue,
    RecurringTaskDue,
    FocusCompleted,
    MemoReminder,
}

/// The stored name of a notification kind.
pub open spec fn kind_text(k: NotificationKind) -> Seq<char> {
    match k {
        NotificationKind::TaskDue => "taskDue"@,
        NotificationKind::RecurringTaskDue => "recurringTaskDue"@,
        NotificationKind::FocusCompleted => "focusCompleted"@,
        NotificationKind::MemoReminder => "memoReminder"@,
    }
}

pub fn kind_name(k: NotificationKind) -> (r: &'static str)
    ensures
        r@ == kind_text(k),
{
    match k {
        NotificationKind::TaskDue => "taskDue",
        NotificationKind::RecurringTaskDue => "recurringTaskDue",
        NotificationKind::FocusCompleted => "focusCompleted",
        NotificationKind::MemoReminder => "memoReminder",
    }
}

/// One occurrence that may deserve a notification; kind, source and scheduled time
/// identify it in the delivery ledger.
#[derive(Debug)]
pub struct NotificationCandidate {
    pub kind: NotificationKind,
    pub source_id: String,
    pub title: String,
    pub scheduled_for: String,
}

/// What a click on the notification opens.
#[derive(Debug)]
pub enum SystemNotificationActivation {
    OpenMemo { memo_id: String },
}

/// The notification handed to the operating system.
#[derive(Debug)]
pub struct SystemNotification {
    pub title: String,
    pub body: String,
    pub sound_enabled: bool,
    pub activation: Option<SystemNotificationActivation>,
}

/// The user's notification switches.
#[derive(Clone, Copy, Debug, PartialEq, Eq, Structural)]
pub struct NotificationPreferences {
    pub notifications_enabled: bool,
    pub sound_enabled: bool,
}

/// Until the user changes them, notifications and their sound are on.
impl Default for NotificationPreferences {
    fn default() -> (p: Self)
        ensures
            p.notifications_enabled,
            p.sound_enabled,
    {
        NotificationPreferences { notifications_enabled: true, sound_enabled: true }
    }
}

/// The text of a duration: `"S 秒"` under a minute, `"M 分钟"` for whole minutes, else
/// `"M 分 S 秒"`. Negative durations count as zero.
pub open spec fn duration_text(seconds: int) -> Seq<char> {
    let s = if seconds < 0 { 0 } else { seconds };
    let minutes = s / 60;
    let rest = s % 60;
    if minutes == 0 {
        decimal(rest as nat) + " 秒"@
    } else if rest == 0 {
        decimal(minutes as nat) + " 分钟"@
    } else {
        decimal(minutes as nat) + " 分 "@ + decimal(rest as nat) + " 秒"@
    }
}

pub fn format_duration(seconds: i64) -> (r: String)
    ensures
        r@ == duration_text(seconds as int),
{
    let s: i64 = if seconds < 0 { 0 } else { seconds };
    let minutes = s / 60;
    let rest = s % 60;
    let mut out = String::new();
    if minutes == 0 {
        push_decimal(&mut out, rest as u64);
        push_text(&mut out, " 秒");
    } else if rest == 0 {
        push_decimal(&mut out, minutes as u64);
        push_text(&mut out, " 分钟");
    } else {
        push_decimal(&mut out, minutes as u64);
        push_text(&mut out, " 分 ");
        push_decimal(&mut out, rest as u64);
        push_text(&mut out, " 秒");
    }
    assert(out@ =~= duration_text(seconds as int));
    out
}

/// The title shown for a focus: the task's title, else the recurring instance's title,
/// else a generic label.
pub open spec fn focus_title_text(task_title: Option<Seq<char>>, instance_title: Option<Seq<char>>) -> Seq<char> {
    match task_title {
        Some(t) => t,
        None => match instance_title {
            Some(t) => t,
            None => "本轮专注"@,
        },
    }
}

pub fn focus_title(task_title: Option<String>, instance_title: Option<String>) -> (r: String)
    ensures
        r@ == focus_title_text(crate::text::opt_text(task_title), crate::text::opt_text(instance_title)),
{
    match task_title {
        Some(t) => t,
        None => match instance_title {
            Some(t) => t,
            None => String::from_str("本轮专注"),
        },
    }
}

/// The notification for a finished focus. None when the focus was cancelled or the user
/// switched notifications off; otherwise the ledger entry is keyed by the session and
/// its end, and the body gives the title and the time spent.
pub fn focus_completed_notification(
    kind: FocusCompletionKind,
    preferences: NotificationPreferences,
    session_id: String,
    title: String,
    actual_seconds: i64,
    ended_at: &UtcInstant,
) -> (r: Option<(NotificationCandidate, SystemNotification)>)
    ensures
        (kind == FocusCompletionKind::Cancelled || !preferences.notifications_enabled) <==> r is None,
        r matches Some((c, n)) ==> {
            &&& c.kind == NotificationKind::FocusCompleted
            &&& c.source_id@ == session_id@
            &&& c.title@ == title@
            &&& c.scheduled_for@ == crate::time::rfc3339_text(ended_at.secs(), ended_at.nano())
            &&& n.title@ == "专注完成"@
            &&& n.body@ == title@ + " · 已专注 "@ + duration_text(actual_seconds as int)
            &&& n.sound_enabled == preferences.sound_enabled
            &&& n.activation is None
        },
{
    if kind == FocusCompletionKind::Cancelled || !preferences.notifications_enabled {
        return None;
    }
    let mut body = title.clone();
    push_text(&mut body, " · 已专注 ");
    let duration = format_duration(actual_seconds);
    push_text(&mut body, duration.as_str());
    Some((
        NotificationCandidate {
            kind: NotificationKind::FocusCompleted,
            source_id: session_id,
            title,
            scheduled_for: crate::time::to_rfc3339(ended_at),
        },
        SystemNotification {
            title: String::from_str("专注完成"),
            body,
            sound_enabled: preferences.sound_enabled,
            activation: None,
        },
    ))
}

/// The notification for a due task or recurring instance: its title as the body.
pub fn task_due_notification(candidate: &NotificationCandidate, preferences: NotificationPreferences) -> (n: SystemNotification)
    ensures
        n.title@ == "任务到时"@,
        n.body@ == candidate.title@,
        n.sound_enabled == preferences.sound_enabled,
        n.activation is None,
{
    SystemNotification {
        title: String::from_str("任务到时"),
        body: candidate.title.clone(),
        sound_enabled: preferences.sound_enabled,
        activation: None,
    }
}

/// The notification for a due memo reminder, keyed by the reminder and its scheduled
/// occurrence; a click opens the memo. A reminder without an occurrence is corrupt.
pub fn memo_reminder_notification(
    reminder_id: String,
    memo_id: String,
    display_title: String,
    next_scheduled_for: Option<String>,
    preferences: NotificationPreferences,
) -> (r: Result<(NotificationCandidate, SystemNotification), DomainError>)
    ensures
        next_scheduled_for is None <==> r is Err,
        r matches Err(e) ==> e.code@ == "MEMO_REMINDER_DATA_INVALID"@
            && e.message@ == "stored memo reminder occurrence is invalid"@ && e.field is None,
        r matches Ok((c, n)) ==> {
            &&& c.kind == NotificationKind::MemoReminder
            &&& c.source_id@ == reminder_id@
            &&& c.title@ == display_title@
            &&& next_scheduled_for == Some(c.scheduled_for)
            &&& n.title@ == "备忘录提醒"@
            &&& n.body@ == display_title@
            &&& n.sound_enabled == preferences.sound_enabled
            &&& n.activation matches Some(SystemNotificationActivation::OpenMemo { memo_id: m }) && m@ == memo_id@
        },
{
    let scheduled_for = match next_scheduled_for {
        Some(s) => s,
        None => return Err(DomainError::new(
            "MEMO_REMINDER_DATA_INVALID",
            "stored memo reminder occurrence is invalid",
            None,
        )),
    };
    let body = display_title.clone();
    Ok((
        NotificationCandidate {
            kind: NotificationKind::MemoReminder,
            source_id: reminder_id,
            title: display_title,
            scheduled_for,
        },
        SystemNotification {
            title: String::from_str("备忘录提醒"),
            body,
            sound_enabled: preferences.sound_enabled,
            activation: Some(SystemNotificationActivation::OpenMemo { memo_id }),
        },
    ))
}

/// One reminder cycle: the count of both passes when both went through, else the task
/// pass's failure, else the memo pass's.
pub fn combine_cycle(task: Result<usize, DomainError>, memo: Result<usize, DomainError>) -> (r: Result<usize, DomainError>)
    requires
        task matches Ok(a) && memo matches Ok(b) ==> a + b <= usize::MAX,
    ensures
        task matches Ok(a) && memo matches Ok(b) ==> r == Ok::<usize, DomainError>((a + b) as usize),
        task matches Err(e) ==> r == Err::<usize, DomainError>(e),
        task is Ok ==> (memo matches Err(e) ==> r == Err::<usize, DomainError>(e)),
{
    match (task, memo) {
        (Ok(a), Ok(b)) => Ok(a + b),
        (Err(e), _) => Err(e),
        (_, Err(e)) => Err(e),
    }
}

/// The answer of the delivery ledger to a request to deliver one occurrence.
#[derive(Clone, Copy, Debug, PartialEq, Eq, Structural)]
pub enum NotificationReservation {
    /// The caller holds the delivery and must publish it.
    Acquired,
    /// Another delivery of the occurrence is under way.
    InFlight,
    /// The occurrence was delivered before.
    AlreadySent,
}

#[derive(Clone, Copy, Debug, PartialEq, Eq, Structural)]
pub enum DeliveryStatus {
    Pending,
    Sent,
    Failed,
}

/// The stored name of a delivery status.
pub fn delivery_status_name(status: DeliveryStatus) -> (r: &'static str)
    ensures
        status == DeliveryStatus::Pending ==> r@ == "pending"@,
        status == DeliveryStatus::Sent ==> r@ == "sent"@,
        status == DeliveryStatus::Failed ==> r@ == "failed"@,
{
    match status {
        DeliveryStatus::Pending => "pending",
        DeliveryStatus::Sent => "sent",
        DeliveryStatus::Failed => "failed",
    }
}

/// The delivery status a stored name denotes.
pub fn parse_delivery_status(name: &str) -> (r: Option<DeliveryStatus>)
    ensures
        name@ == "pending"@ ==> r == Some(DeliveryStatus::Pending),
        name@ == "sent"@ ==> r == Some(DeliveryStatus::Sent),
        name@ == "failed"@ ==> r == Some(DeliveryStatus::Failed),
        r is None <==> (name@ != "pending"@ && name@ != "sent"@ && name@ != "failed"@),
{
    proof {
        reveal_strlit("pending");
        reveal_strlit("sent");
        reveal_strlit("failed");
        assert("pending"@.len() == 7 && "sent"@.len() == 4 && "failed"@.len() == 6);
    }
    if crate::text::same_text(name, "pending") {
        Some(DeliveryStatus::Pending)
    } else if crate::text::same_text(name, "sent") {
        Some(DeliveryStatus::Sent)
    } else if crate::text::same_text(name, "failed") {
        Some(DeliveryStatus::Failed)
    } else {
        None
    }
}

/// How long a pending delivery holds its occurrence before another may take it over.
pub const PENDING_LEASE_SECONDS: i64 = 60;

/// The ledger entry of one occurrence.
#[derive(Debug)]
pub struct DeliveryRecord {
    pub status: DeliveryStatus,
    pub sound_enabled: bool,
    /// When the current delivery attempt began.
    pub created_at: UtcInstant,
    pub sent_at: Option<UtcInstant>,
    pub last_error: Option<String>,
}

/// A delivery attempt begun at `created` has outlived its lease at `now`.
pub open spec fn lease_expired(created: UtcInstant, now: UtcInstant) -> bool {
    created.secs() + PENDING_LEASE_SECONDS < now.secs()
        || (created.secs() + PENDING_LEASE_SECONDS == now.secs() && created.nano() <= now.nano())
}

/// The ledger's answer at `now`: a new occurrence, a failed one, or one whose pending
/// attempt outlived its lease is taken; a sent one is never taken again; a pending one
/// within its lease is in flight.
pub open spec fn reservation_of(existing: Option<DeliveryRecord>, now: UtcInstant) -> NotificationReservation {
    match existing {
        None => NotificationReservation::Acquired,
        Some(r) => match r.status {
            DeliveryStatus::Failed => NotificationReservation::Acquired,
            DeliveryStatus::Sent => NotificationReservation::AlreadySent,
            DeliveryStatus::Pending => if lease_expired(r.created_at, now) {
                NotificationReservation::Acquired
            } else {
                NotificationReservation::InFlight
            },
        },
    }
}

pub fn reserve(existing: &Option<DeliveryRecord>, now: &UtcInstant) -> (r: NotificationReservation)
    ensures
        r == reservation_of(*existing, *now),
{
    match existing {
        None => NotificationReservation::Acquired,
        Some(record) => match record.status {
            DeliveryStatus::Failed => NotificationReservation::Acquired,
            DeliveryStatus::Sent => NotificationReservation::AlreadySent,
            DeliveryStatus::Pending => {
                let created = record.created_at.seconds() as i128 + PENDING_LEASE_SECONDS as i128;
                let at = now.seconds() as i128;
                if created < at || (created == at && record.created_at.nanos() <= now.nanos()) {
                    NotificationReservation::Acquired
                } else {
                    NotificationReservation::InFlight
                }
            },
        },
    }
}

/// The entry written when a delivery is taken at `now`.
pub fn reserved_record(sound_enabled: bool, now: UtcInstant) -> (r: DeliveryRecord)
    ensures
        r.status == DeliveryStatus::Pending,
        r.sound_enabled == sound_enabled,
        r.created_at == now,
        r.sent_at is None,
        r.last_error is None,
{
    DeliveryRecord {
        status: DeliveryStatus::Pending,
        sound_enabled,
        created_at: now,
        sent_at: None,
        last_error: None,
    }
}

/// What the ledger's answer means before anything is published: `None` when the caller
/// must publish; a delivery made before is no news (`Ok(false)`); one in flight is an error.
pub fn reservation_outcome(r: NotificationReservation) -> (o: Option<Result<bool, DomainError>>)
    ensures
        r == NotificationReservation::Acquired <==> o is None,
        r == NotificationReservation::AlreadySent ==> o == Some(Ok::<bool, DomainError>(false)),
        r == NotificationReservation::InFlight ==> (o matches Some(Err(e))
            && e.code@ == "NOTIFICATION_DELIVERY_IN_FLIGHT"@
            && e.message@ == "notification delivery is still in flight"@ && e.field is None),
{
    match r {
        NotificationReservation::Acquired => None,
        NotificationReservation::AlreadySent => Some(Ok(false)),
        NotificationReservation::InFlight => Some(Err(DomainError::new(
            "NOTIFICATION_DELIVERY_IN_FLIGHT",
            "notification delivery is still in flight",
            None,
        ))),
    }
}

/// Records how publishing went: a published occurrence is sent (`Ok(true)`); a refused
/// one is failed with the refusal's code, and the refusal is passed on.
pub fn settle_delivery(record: &mut DeliveryRecord, published: Result<(), DomainError>, now: UtcInstant)
    -> (r: Result<bool, DomainError>)
    ensures
        published is Ok ==> {
            &&& r == Ok::<bool, DomainError>(true)
            &&& final(record).status == DeliveryStatus::Sent
            &&& final(record).sent_at == Some(now)
            &&& final(record).last_error is None
        },
        published matches Err(e) ==> {
            &&& r == Err::<bool, DomainError>(e)
            &&& final(record).status == DeliveryStatus::Failed
            &&& final(record).sent_at is None
            &&& final(record).last_error matches Some(c) && c@ == e.code@
        },
        final(record).sound_enabled == old(record).sound_enabled,
        final(record).created_at == old(record).created_at,
{
    match published {
        Ok(()) => {
            record.status = DeliveryStatus::Sent;
            record.sent_at = Some(now);
            record.last_error = None;
            Ok(true)
        },
        Err(e) => {
            record.status = DeliveryStatus::Failed;
            record.sent_at = None;
            record.last_error = Some(e.code.clone());
            Err(e)
        },
    }
}

/// Once an occurrence is sent, the ledger never hands it out again, at any later time.
pub proof fn lemma_sent_is_final(record: DeliveryRecord, now: UtcInstant)
    requires
        record.status == DeliveryStatus::Sent,
    ensures
        reservation_of(Some(record), now) == NotificationReservation::AlreadySent,
{
}

/// A delivery just taken holds its occurrence for the whole lease: any request before the
/// lease runs out is told that the delivery is in flight, so at most one publisher runs.
pub proof fn lemma_reservation_excludes_within_lease(taken: UtcInstant, record: DeliveryRecord, later: UtcInstant)
    requires
        record.status == DeliveryStatus::Pending,
        record.created_at == taken,
        !lease_expired(taken, later),
    ensures
        reservation_of(Some(record), later) == NotificationReservation::InFlight,
{
}

/// A failed delivery is retried: the next request takes it, whatever the time.
pub proof fn lemma_failed_is_retried(record: DeliveryRecord, now: UtcInstant)
    requires
        record.status == DeliveryStatus::Failed,
    ensures
        reservation_of(Some(record), now) == NotificationReservation::Acquired,
{
}

/// What shows notifications to the user; the desktop shell provides it.
pub trait NotificationPublisher {
    fn publish(&self, notification: &SystemNotification) -> Result<(), DomainError>;
}

/// Delivers one occurrence through its ledger entry: the ledger decides whether this caller
/// may publish; if so the entry becomes a pending attempt begun at `now`, the publisher is
/// asked, and the entry records whether it went out. Delivered before: `Ok(false)`, nothing
/// published. In flight: an error, nothing published, the entry untouched.
pub fn deliver<P: NotificationPublisher>(entry: &mut Option<DeliveryRecord>, notification: &SystemNotification,
    now: UtcInstant, publisher: &P) -> (r: Result<bool, DomainError>)
    ensures
        reservation_of(*old(entry), now) == NotificationReservation::AlreadySent ==>
            r == Ok::<bool, DomainError>(false) && *final(entry) == *old(entry),
        reservation_of(*old(entry), now) == NotificationReservation::InFlight ==>
            (r matches Err(e) && e.code@ == "NOTIFICATION_DELIVERY_IN_FLIGHT"@) && *final(entry) == *old(entry),
        reservation_of(*old(entry), now) == NotificationReservation::Acquired ==> {
            &&& *final(entry) matches Some(rec)
            &&& rec.created_at == now
            &&& rec.sound_enabled == notification.sound_enabled
            &&& (r == Ok::<bool, DomainError>(true) && rec.status == DeliveryStatus::Sent
                    && rec.sent_at is Some && rec.last_error is None)
                || (r matches Err(e) && rec.status == DeliveryStatus::Failed && rec.sent_at is None
                    && (rec.last_error matches Some(c) && c@ == e.code@))
        },
{
    let reservation = reserve(entry, &now);
    match reservation_outcome(reservation) {
        Some(answer) => return answer,
        None => {},
    }
    let mut record = reserved_record(notification.sound_enabled, now);
    let published = publisher.publish(notification);
    let sent_at = crate::time::utc_now();
    let r = settle_delivery(&mut record, published, sent_at);
    *entry = Some(record);
    r
}

} // verus!
