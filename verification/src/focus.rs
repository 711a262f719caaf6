//! The focus timer: the single active focus, its countdown while it runs, and the
//! session that is recorded when it ends.
use vstd::prelude::*;
use crate::error::DomainError;
use crate::time::{UtcInstant, instant_before};
use crate::project::ProjectRecord;
use crate::recurrence::{TaskInstanceRecord, TaskInstanceStatus};
use crate::task::TaskRecord;
use crate::text::opt_text;

verus! {

#[derive(Clone, Copy, Debug, PartialEq, Eq, Structural)]
pub enum ActiveFocusStatus {
    Running,
    Paused,
}

#[derive(Clone, Copy, Debug, PartialEq, Eq, Structural)]
pub enum FocusCompletionKind {
    /// The countdown reached its deadline.
    Deadline,
    /// The user ended the focus before the deadline.
    Early,
    /// The focus was reset; the session is kept as history.
    Cancelled,
}

/// The stored name of a focus state.
pub fn active_status_name(status: ActiveFocusStatus) -> (r: &'static str)
    ensures
        status == ActiveFocusStatus::Running ==> r@ == "running"@,
        status == ActiveFocusStatus::Paused ==> r@ == "paused"@,
{
    match status {
        ActiveFocusStatus::Running => "running",
        ActiveFocusStatus::Paused => "paused",
    }
}

/// The stored name of a completion kind.
pub fn completion_kind_name(kind: FocusCompletionKind) -> (r: &'static str)
    ensures
        kind == FocusCompletionKind::Deadline ==> r@ == "deadline"@,
        kind == FocusCompletionKind::Early ==> r@ == "early"@,
        kind == FocusCompletionKind::Cancelled ==> r@ == "cancelled"@,
{
    match kind {
        FocusCompletionKind::Deadline => "deadline",
        FocusCompletionKind::Early => "early",
        FocusCompletionKind::Cancelled => "cancelled",
    }
}

/// The focus state a stored name denotes; other names are corrupt rows.
pub fn parse_active_status(name: &str) -> (r: Option<ActiveFocusStatus>)
    ensures
        name@ == "running"@ <==> r == Some(ActiveFocusStatus::Running),
        name@ == "paused"@ <==> r == Some(ActiveFocusStatus::Paused),
        r is None <==> name@ != "running"@ && name@ != "paused"@,
{
    proof {
        reveal_strlit("running");
        reveal_strlit("paused");
        assert("running"@.len() != "paused"@.len());
    }
    if crate::text::same_text(name, "running") {
        Some(ActiveFocusStatus::Running)
    } else if crate::text::same_text(name, "paused") {
        Some(ActiveFocusStatus::Paused)
    } else {
        None
    }
}

/// The completion kind a stored name denotes; other names are corrupt rows.
pub fn parse_completion_kind(name: &str) -> (r: Option<FocusCompletionKind>)
    ensures
        name@ == "deadline"@ <==> r == Some(FocusCompletionKind::Deadline),
        name@ == "early"@ <==> r == Some(FocusCompletionKind::Early),
        name@ == "cancelled"@ <==> r == Some(FocusCompletionKind::Cancelled),
        r is None <==> name@ != "deadline"@ && name@ != "early"@ && name@ != "cancelled"@,
{
    proof {
        reveal_strlit("deadline");
        reveal_strlit("early");
        reveal_strlit("cancelled");
        assert("deadline"@.len() == 8 && "early"@.len() == 5 && "cancelled"@.len() == 9);
    }
    if crate::text::same_text(name, "deadline") {
        Some(FocusCompletionKind::Deadline)
    } else if crate::text::same_text(name, "early") {
        Some(FocusCompletionKind::Early)
    } else if crate::text::same_text(name, "cancelled") {
        Some(FocusCompletionKind::Cancelled)
    } else {
        None
    }
}

/// The one focus that may be under way.
#[derive(Debug)]
pub struct ActiveFocus {
    pub task_id: Option<String>,
    pub task_instance_id: Option<String>,
    pub status: ActiveFocusStatus,
    pub planned_seconds: i64,
    /// Seconds left when the focus was last paused (or its full length before that).
    pub remaining_seconds: i64,
    pub started_at: UtcInstant,
    /// The instant at which a running focus reaches zero.
    pub target_ends_at: Option<UtcInstant>,
    pub paused_at: Option<UtcInstant>,
    pub interruption_count: u32,
    pub updated_at: UtcInstant,
}

/// A finished focus, as recorded in the history.
#[derive(Debug)]
pub struct FocusSession {
    pub id: String,
    pub task_id: Option<String>,
    pub task_instance_id: Option<String>,
    pub project_id: Option<String>,
    pub planned_seconds: i64,
    pub actual_seconds: i64,
    pub interruption_count: u32,
    pub completion_kind: FocusCompletionKind,
    pub started_at: UtcInstant,
    pub ended_at: UtcInstant,
    pub created_at: UtcInstant,
}

/// Whole seconds from `now` until `target`, counted down to zero: `0` once the target is
/// reached, else the full seconds that remain (a part second does not count).
pub open spec fn seconds_until(target: UtcInstant, now: UtcInstant) -> int {
    if !instant_before(now, target) {
        0
    } else if target.nano() >= now.nano() {
        target.secs() - now.secs()
    } else {
        target.secs() - now.secs() - 1
    }
}

/// The seconds left on the countdown at `now`: for a running focus the time until its
/// deadline, never more than was left when it (re)started and never below zero; for a
/// paused focus what was left when it paused.
pub open spec fn remaining_at(f: ActiveFocus, now: UtcInstant) -> int {
    match (f.status, f.target_ends_at) {
        (ActiveFocusStatus::Running, Some(target)) => {
            let left = seconds_until(target, now);
            if left < f.remaining_seconds { left } else { f.remaining_seconds as int }
        },
        _ => f.remaining_seconds as int,
    }
}

/// The seconds actually spent focusing by `now`.
pub open spec fn actual_at(f: ActiveFocus, now: UtcInstant) -> int {
    f.planned_seconds - remaining_at(f, now)
}

/// The focus has run out: it is running and nothing remains.
pub open spec fn focus_due(f: ActiveFocus, now: UtcInstant) -> bool {
    f.status == ActiveFocusStatus::Running && remaining_at(f, now) <= 0
}

/// Sane stored counters: the countdown lies within the planned length.
pub open spec fn counters_valid(f: ActiveFocus) -> bool {
    0 <= f.remaining_seconds <= f.planned_seconds
}

fn whole_seconds_until(target: &UtcInstant, now: &UtcInstant) -> (r: i128)
    ensures
        r == seconds_until(*target, *now),
{
    if !crate::time::is_before(now, target) {
        0
    } else if target.nanos() >= now.nanos() {
        target.seconds() as i128 - now.seconds() as i128
    } else {
        target.seconds() as i128 - now.seconds() as i128 - 1
    }
}

impl ActiveFocus {
    /// The seconds left on the countdown at `now`.
    pub fn remaining_seconds_at(&self, now: &UtcInstant) -> (r: i64)
        ensures
            r == remaining_at(*self, *now),
            r <= self.remaining_seconds,
    {
        match (self.status, &self.target_ends_at) {
            (ActiveFocusStatus::Running, Some(target)) => {
                let left = whole_seconds_until(target, now);
                if left < self.remaining_seconds as i128 {
                    assert(left >= 0);
                    left as i64
                } else {
                    self.remaining_seconds
                }
            },
            _ => self.remaining_seconds,
        }
    }

    /// The seconds actually spent focusing by `now`.
    pub fn actual_seconds_at(&self, now: &UtcInstant) -> (r: i64)
        requires
            counters_valid(*self),
        ensures
            r == actual_at(*self, *now),
            0 <= r <= self.planned_seconds,
    {
        let remaining = self.remaining_seconds_at(now);
        self.planned_seconds - remaining
    }

    /// Whether the running countdown has reached zero.
    pub fn is_due(&self, now: &UtcInstant) -> (r: bool)
        ensures
            r == focus_due(*self, *now),
    {
        self.status == ActiveFocusStatus::Running && self.remaining_seconds_at(now) <= 0
    }
}

/// The error every focus operation reports when no focus is under way.
pub fn focus_not_active() -> (e: DomainError)
    ensures
        e.code@ == "FOCUS_NOT_ACTIVE"@,
        e.message@ == "there is no active focus"@,
        e.field is None,
{
    DomainError::new("FOCUS_NOT_ACTIVE", "there is no active focus", None)
}

/// An update of the stored focus that touched no row means the focus is gone.
pub fn ensure_updated(updated: bool) -> (r: Result<(), DomainError>)
    ensures
        updated <==> r is Ok,
        !updated ==> (r matches Err(e) && e.code@ == "FOCUS_NOT_ACTIVE"@),
{
    if updated {
        Ok(())
    } else {
        Err(focus_not_active())
    }
}

/// The session recorded when `f` ends at `now` with `kind`.
pub open spec fn session_of(f: ActiveFocus, id: Seq<char>, project_id: Option<Seq<char>>,
    kind: FocusCompletionKind, now: UtcInstant, s: FocusSession) -> bool {
    &&& s.id@ == id
    &&& s.task_id == f.task_id
    &&& s.task_instance_id == f.task_instance_id
    &&& crate::text::opt_text(s.project_id) == project_id
    &&& s.planned_seconds == f.planned_seconds
    &&& s.actual_seconds == actual_at(f, now)
    &&& s.interruption_count == f.interruption_count
    &&& s.completion_kind == kind
    &&& s.started_at == f.started_at
    &&& s.ended_at == now
    &&& s.created_at == now
}

/// Ends the focus `f` at `now`: the session records the time actually spent.
pub fn make_session(f: ActiveFocus, id: String, project_id: Option<String>,
    kind: FocusCompletionKind, now: UtcInstant) -> (s: FocusSession)
    requires
        counters_valid(f),
    ensures
        session_of(f, id@, crate::text::opt_text(project_id), kind, now, s),
{
    let actual = f.actual_seconds_at(&now);
    FocusSession {
        id,
        task_id: f.task_id,
        task_instance_id: f.task_instance_id,
        project_id,
        planned_seconds: f.planned_seconds,
        actual_seconds: actual,
        interruption_count: f.interruption_count,
        completion_kind: kind,
        started_at: f.started_at,
        ended_at: now,
        created_at: now,
    }
}

/// The error the store reports for a running focus that has no deadline.
pub open spec fn missing_deadline_error(e: DomainError) -> bool {
    e.code@ == "DATABASE_ERROR"@ && e.message@ == "Query is not read-only"@ && e.field is None
}

/// The session of a focus that ran to its deadline: it lasted the whole planned time and
/// ended at the deadline.
pub open spec fn deadline_session(f: ActiveFocus, id: Seq<char>, project_id: Option<Seq<char>>,
    now: UtcInstant, s: FocusSession) -> bool {
    &&& s.id@ == id
    &&& s.task_id == f.task_id
    &&& s.task_instance_id == f.task_instance_id
    &&& crate::text::opt_text(s.project_id) == project_id
    &&& s.planned_seconds == f.planned_seconds
    &&& s.actual_seconds == f.planned_seconds
    &&& s.interruption_count == f.interruption_count
    &&& s.completion_kind == FocusCompletionKind::Deadline
    &&& s.started_at == f.started_at
    &&& f.target_ends_at == Some(s.ended_at)
    &&& s.created_at == now
}

pub open spec fn has_deadline(f: ActiveFocus) -> bool {
    f.target_ends_at is Some
}

/// The result is the deadline session of `f`.
pub open spec fn completed_at_deadline(r: Result<Option<FocusSession>, DomainError>, f: ActiveFocus,
    id: Seq<char>, project_id: Option<Seq<char>>, now: UtcInstant) -> bool {
    r matches Ok(Some(s)) && deadline_session(f, id, project_id, now, s)
}

/// Completes the stored focus once its deadline has passed. Nothing happens when there is
/// no focus, when it is paused, or when time is left. Otherwise the focus leaves the store
/// and the session is returned: it lasted the whole planned time and ended at the deadline.
pub fn complete_due(store: &mut Option<ActiveFocus>, now: UtcInstant, session_id: String,
    project_id: Option<String>) -> (r: Result<Option<FocusSession>, DomainError>)
    ensures
        *old(store) is None ==> r == Ok::<Option<FocusSession>, DomainError>(None) && *final(store) is None,
        *old(store) matches Some(f) && !focus_due(f, now) ==>
            r == Ok::<Option<FocusSession>, DomainError>(None) && *final(store) == *old(store),
        *old(store) matches Some(f) && focus_due(f, now) && !has_deadline(f) ==>
            (r matches Err(e) && missing_deadline_error(e)) && *final(store) == *old(store),
        *old(store) matches Some(f) ==> (focus_due(f, now) && has_deadline(f) ==>
            completed_at_deadline(r, f, session_id@, crate::text::opt_text(project_id), now)
            && *final(store) is None),
{
    let due = match store {
        Some(f) => f.is_due(&now),
        None => false,
    };
    if !due {
        return Ok(None);
    }
    let f = match store.take() {
        Some(f) => f,
        None => return Ok(None),
    };
    match f.target_ends_at {
        Some(end) => Ok(Some(FocusSession {
            id: session_id,
            task_id: f.task_id,
            task_instance_id: f.task_instance_id,
            project_id,
            planned_seconds: f.planned_seconds,
            actual_seconds: f.planned_seconds,
            interruption_count: f.interruption_count,
            completion_kind: FocusCompletionKind::Deadline,
            started_at: f.started_at,
            ended_at: end,
            created_at: now,
        })),
        None => {
            *store = Some(f);
            Err(DomainError::new("DATABASE_ERROR", "Query is not read-only", None))
        },
    }
}

/// How a request to finish the focus proceeds.
#[derive(Clone, Copy, Debug, PartialEq, Eq, Structural)]
pub enum FinishPath {
    /// Complete the focus only if its deadline has passed.
    AtDeadline,
    /// End the focus now, keeping the time spent so far.
    Now,
}

/// The first step of finishing a focus: cancelling is refused (a reset cancels), a deadline
/// completion waits for the deadline, an early completion ends the focus at once.
pub fn plan_finish(kind: FocusCompletionKind) -> (r: Result<FinishPath, DomainError>)
    ensures
        kind == FocusCompletionKind::Cancelled ==> (r matches Err(e)
            && e.code@ == "FOCUS_COMPLETION_KIND_INVALID"@
            && e.message@ == "use reset to cancel an active focus"@ && e.field is None),
        kind == FocusCompletionKind::Deadline ==> r == Ok::<FinishPath, DomainError>(FinishPath::AtDeadline),
        kind == FocusCompletionKind::Early ==> r == Ok::<FinishPath, DomainError>(FinishPath::Now),
{
    match kind {
        FocusCompletionKind::Cancelled => Err(DomainError::new(
            "FOCUS_COMPLETION_KIND_INVALID",
            "use reset to cancel an active focus",
            None,
        )),
        FocusCompletionKind::Deadline => Ok(FinishPath::AtDeadline),
        FocusCompletionKind::Early => Ok(FinishPath::Now),
    }
}

/// The answer to a deadline completion: the completed session, or why there is none.
pub fn deadline_finish(completed: Option<FocusSession>, still_active: bool) -> (r: Result<FocusSession, DomainError>)
    ensures
        completed matches Some(s) ==> r == Ok::<FocusSession, DomainError>(s),
        completed is None && still_active ==> (r matches Err(e)
            && e.code@ == "FOCUS_DEADLINE_NOT_REACHED"@
            && e.message@ == "focus deadline has not been reached"@ && e.field is None),
        completed is None && !still_active ==> (r matches Err(e) && e.code@ == "FOCUS_NOT_ACTIVE"@),
{
    match completed {
        Some(s) => Ok(s),
        None => {
            if still_active {
                Err(DomainError::new("FOCUS_DEADLINE_NOT_REACHED", "focus deadline has not been reached", None))
            } else {
                Err(focus_not_active())
            }
        },
    }
}

/// A new focus on the given target, running from `now` for `planned_minutes`; `None`
/// when the deadline lies beyond the instants that can be represented.
pub fn begin(task_id: Option<String>, task_instance_id: Option<String>, planned_minutes: u16,
    now: UtcInstant) -> (r: Option<ActiveFocus>)
    ensures
        r is Some <==> now.secs() + planned_minutes * 60 <= i64::MAX
            && crate::time::instant_in_range(now.secs() + planned_minutes * 60, now.nano()),
        r matches Some(f) ==> {
            &&& f.task_id == task_id
            &&& f.task_instance_id == task_instance_id
            &&& f.status == ActiveFocusStatus::Running
            &&& f.planned_seconds == planned_minutes * 60
            &&& f.remaining_seconds == f.planned_seconds
            &&& f.started_at == now
            &&& f.target_ends_at matches Some(end)
            &&& end.secs() == now.secs() + f.planned_seconds && end.nano() == now.nano()
            &&& f.paused_at is None
            &&& f.interruption_count == 0
            &&& f.updated_at == now
            &&& counters_valid(f)
        },
{
    let planned: i64 = planned_minutes as i64 * 60;
    if now.seconds() > i64::MAX - planned {
        return None;
    }
    match UtcInstant::from_parts(now.seconds() + planned, now.nanos()) {
        Some(end) => Some(ActiveFocus {
            task_id,
            task_instance_id,
            status: ActiveFocusStatus::Running,
            planned_seconds: planned,
            remaining_seconds: planned,
            started_at: now,
            target_ends_at: Some(end),
            paused_at: None,
            interruption_count: 0,
            updated_at: now,
        }),
        None => None,
    }
}

impl ActiveFocus {
    /// Pauses a running focus at `now`: the countdown stops with what is left, and one more
    /// interruption is counted.
    pub fn pause(&mut self, now: UtcInstant)
        requires
            old(self).status == ActiveFocusStatus::Running,
            counters_valid(*old(self)),
            old(self).interruption_count < u32::MAX,
        ensures
            final(self).status == ActiveFocusStatus::Paused,
            final(self).remaining_seconds == remaining_at(*old(self), now),
            final(self).target_ends_at is None,
            final(self).paused_at == Some(now),
            final(self).interruption_count == old(self).interruption_count + 1,
            final(self).updated_at == now,
            final(self).planned_seconds == old(self).planned_seconds,
            final(self).started_at == old(self).started_at,
            final(self).task_id == old(self).task_id,
            final(self).task_instance_id == old(self).task_instance_id,
            counters_valid(*final(self)),
    {
        let left = self.remaining_seconds_at(&now);
        self.remaining_seconds = if left < 0 { 0 } else { left };
        self.status = ActiveFocusStatus::Paused;
        self.target_ends_at = None;
        self.paused_at = Some(now);
        self.interruption_count = self.interruption_count + 1;
        self.updated_at = now;
    }

    /// Resumes a paused focus at `now`: the countdown runs again towards a deadline that
    /// lies the remaining seconds ahead. `false`, and no change, when that deadline cannot
    /// be represented.
    pub fn resume(&mut self, now: UtcInstant) -> (r: bool)
        requires
            old(self).status == ActiveFocusStatus::Paused,
            counters_valid(*old(self)),
        ensures
            r <==> now.secs() + old(self).remaining_seconds <= i64::MAX
                && crate::time::instant_in_range(now.secs() + old(self).remaining_seconds, now.nano()),
            r ==> {
                &&& final(self).status == ActiveFocusStatus::Running
                &&& final(self).target_ends_at matches Some(end)
                &&& end.secs() == now.secs() + old(self).remaining_seconds && end.nano() == now.nano()
                &&& final(self).paused_at is None
                &&& final(self).remaining_seconds == old(self).remaining_seconds
                &&& final(self).interruption_count == old(self).interruption_count
                &&& final(self).updated_at == now
                &&& final(self).planned_seconds == old(self).planned_seconds
                &&& final(self).started_at == old(self).started_at
                &&& final(self).task_id == old(self).task_id
                &&& final(self).task_instance_id == old(self).task_instance_id
            },
            !r ==> *final(self) == *old(self),
            counters_valid(*final(self)),
    {
        if now.seconds() > i64::MAX - self.remaining_seconds {
            return false;
        }
        match UtcInstant::from_parts(now.seconds() + self.remaining_seconds, now.nanos()) {
            Some(end) => {
                self.status = ActiveFocusStatus::Running;
                self.target_ends_at = Some(end);
                self.paused_at = None;
                self.updated_at = now;
                true
            },
            None => false,
        }
    }
}

/// While a focus runs, its countdown is the time left until its deadline in whole seconds,
/// rounded down: never more than the time truly left, and short of it by less than one
/// second; zero once the deadline has passed. (Instants within a second: no leap second.)
pub proof fn lemma_countdown_tracks_deadline(f: ActiveFocus, now: UtcInstant, deadline: UtcInstant)
    requires
        f.status == ActiveFocusStatus::Running,
        f.target_ends_at == Some(deadline),
        seconds_until(deadline, now) <= f.remaining_seconds,
        0 <= now.nano() < 1_000_000_000,
        0 <= deadline.nano() < 1_000_000_000,
    ensures
        ({
            let left = (deadline.secs() - now.secs()) * 1_000_000_000 + (deadline.nano() - now.nano());
            &&& left <= 0 ==> remaining_at(f, now) == 0
            &&& left > 0 ==> remaining_at(f, now) * 1_000_000_000 <= left
                && left < (remaining_at(f, now) + 1) * 1_000_000_000
        }),
{
}

/// Pausing and resuming at the same instant leaves the countdown where it was: the
/// remaining time at that instant is unchanged.
pub proof fn lemma_pause_resume_keeps_remaining(f: ActiveFocus, g: ActiveFocus, h: ActiveFocus, now: UtcInstant)
    requires
        f.status == ActiveFocusStatus::Running,
        counters_valid(f),
        g.status == ActiveFocusStatus::Paused,
        g.remaining_seconds == remaining_at(f, now),
        h.status == ActiveFocusStatus::Running,
        h.remaining_seconds == g.remaining_seconds,
        h.target_ends_at matches Some(end) && end.secs() == now.secs() + g.remaining_seconds && end.nano() == now.nano(),
    ensures
        remaining_at(h, now) == remaining_at(f, now),
        remaining_at(g, now) == remaining_at(f, now),
{
}

fn focus_error(code: &str, message: &str) -> (e: DomainError)
    ensures
        e.code@ == code@,
        e.message@ == message@,
        e.field is None,
{
    DomainError::new(code, message, None)
}

/// The target's project is paused.
pub open spec fn project_paused(project: Option<&ProjectRecord>) -> bool {
    project matches Some(p) && p.status@ == "paused"@
}

/// The project of a focus target, if it has one, must not be paused.
pub fn check_project(project: Option<&ProjectRecord>) -> (r: Result<(), DomainError>)
    ensures
        project_paused(project) <==> r is Err,
        r matches Err(e) ==> e.code@ == "FOCUS_PROJECT_PAUSED"@ && e.message@ == "the target project is paused"@,
{
    match project {
        Some(p) => if crate::text::same_text(p.status.as_str(), "paused") {
            Err(focus_error("FOCUS_PROJECT_PAUSED", "the target project is paused"))
        } else {
            Ok(())
        },
        None => Ok(()),
    }
}

/// A task can be focused on when it exists, is pending, and its project (if any) is not
/// paused.
pub fn check_task_target(task: Option<&TaskRecord>, project: Option<&ProjectRecord>) -> (r: Result<(), DomainError>)
    ensures
        task is None ==> (r matches Err(e) && e.code@ == "FOCUS_TASK_NOT_FOUND"@),
        task matches Some(t) && t.status@ != "pending"@ ==> (r matches Err(e) && e.code@ == "FOCUS_TASK_UNAVAILABLE"@),
        task matches Some(t) && t.status@ == "pending"@ ==> (r is Err <==> project_paused(project))
            && (r matches Err(e) ==> e.code@ == "FOCUS_PROJECT_PAUSED"@),
{
    let t = match task {
        Some(t) => t,
        None => return Err(focus_error("FOCUS_TASK_NOT_FOUND", "task was not found")),
    };
    if !crate::text::same_text(t.status.as_str(), "pending") {
        return Err(focus_error("FOCUS_TASK_UNAVAILABLE", "task is not pending"));
    }
    check_project(project)
}

/// A recurring instance can be focused on when it exists, is pending, and its project (if
/// any) is not paused.
pub fn check_instance_target(instance: Option<&TaskInstanceRecord>, project: Option<&ProjectRecord>) -> (r: Result<(), DomainError>)
    ensures
        instance is None ==> (r matches Err(e) && e.code@ == "FOCUS_TASK_INSTANCE_NOT_FOUND"@),
        instance matches Some(i) && i.status != TaskInstanceStatus::Pending
            ==> (r matches Err(e) && e.code@ == "FOCUS_TASK_INSTANCE_UNAVAILABLE"@),
        instance matches Some(i) && i.status == TaskInstanceStatus::Pending ==> (r is Err <==> project_paused(project))
            && (r matches Err(e) ==> e.code@ == "FOCUS_PROJECT_PAUSED"@),
{
    let i = match instance {
        Some(i) => i,
        None => return Err(focus_error("FOCUS_TASK_INSTANCE_NOT_FOUND", "task instance was not found")),
    };
    if i.status != TaskInstanceStatus::Pending {
        return Err(focus_error("FOCUS_TASK_INSTANCE_UNAVAILABLE", "task instance is not pending"));
    }
    check_project(project)
}

/// A focus can start only while none is under way.
pub fn ensure_no_active_focus(active: bool) -> (r: Result<(), DomainError>)
    ensures
        r is Err <==> active,
        r matches Err(e) ==> e.code@ == "FOCUS_ALREADY_ACTIVE"@ && e.message@ == "an active focus already exists"@,
{
    if active {
        Err(focus_error("FOCUS_ALREADY_ACTIVE", "an active focus already exists"))
    } else {
        Ok(())
    }
}

/// The project a finished focus is recorded under: the task's project for a task, the
/// instance's project snapshot for a recurring instance, none for a free focus.
pub fn session_project(f: &ActiveFocus, task: Option<&TaskRecord>, instance: Option<&TaskInstanceRecord>) -> (r: Option<String>)
    ensures
        f.task_id is Some ==> opt_text(r) == (match task { Some(t) => opt_text(t.project_id), None => None }),
        f.task_id is None && f.task_instance_id is Some
            ==> opt_text(r) == (match instance { Some(i) => opt_text(i.snapshot_project_id), None => None }),
        f.task_id is None && f.task_instance_id is None ==> r is None,
{
    if f.task_id.is_some() {
        return match task {
            Some(t) => match &t.project_id {
                Some(p) => Some(p.clone()),
                None => None,
            },
            None => None,
        };
    }
    if f.task_instance_id.is_some() {
        return match instance {
            Some(i) => match &i.snapshot_project_id {
                Some(p) => Some(p.clone()),
                None => None,
            },
            None => None,
        };
    }
    None
}

} // verus!
