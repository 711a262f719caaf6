//! Long-running projects: records, how close their target date is, and what removing one
//! does to its history.
use vstd::prelude::*;
use crate::error::DomainError;
use crate::task::TaskRecord;
use crate::text::opt_text;
use crate::time::{LocalDate, parsed_date};

verus! {

#[derive(Debug)]
pub struct ProjectRecord {
    pub id: String,
    pub name: String,
    pub description: String,
    pub color: String,
    pub icon: String,
    pub status: String,
    pub started_on: String,
    pub target_on: Option<String>,
    pub created_at: String,
    pub updated_at: String,
}

/// A project with what the overview shows about it.
#[derive(Debug)]
pub struct ProjectSummary {
    pub project: ProjectRecord,
    pub next_task_title: Option<String>,
    pub next_task_date: Option<String>,
    pub deadline_state: String,
    pub deadline_days: Option<i64>,
}

#[derive(Debug)]
pub struct ProjectDetail {
    pub summary: ProjectSummary,
    pub tasks: Vec<TaskRecord>,
}

pub fn project_not_found() -> (e: DomainError)
    ensures
        e.code@ == "PROJECT_NOT_FOUND"@,
        e.message@ == "project was not found"@,
        e.field is None,
{
    DomainError::new("PROJECT_NOT_FOUND", "project was not found", None)
}

/// How the days left until a target date are reported.
pub open spec fn deadline_state_text(days: int) -> Seq<char> {
    if days < 0 {
        "overdue"@
    } else if days <= 7 {
        "atRisk"@
    } else {
        "onTrack"@
    }
}

/// The deadline of a project on the day `today`: `("none", None)` without a readable
/// target date, else the state and the days from today to the target (negative once it
/// is past).
pub open spec fn deadline_of(target_on: Option<Seq<char>>, today: int) -> (Seq<char>, Option<int>) {
    match target_on {
        Some(t) => match parsed_date(t) {
            Some(target) => (deadline_state_text(target - today), Some(target - today)),
            None => ("none"@, None),
        },
        None => ("none"@, None),
    }
}

pub open spec fn days_view(d: Option<i64>) -> Option<int> {
    match d {
        Some(x) => Some(x as int),
        None => None,
    }
}

pub fn deadline(target_on: &Option<String>, today: &LocalDate) -> (r: (String, Option<i64>))
    ensures
        r.0@ == deadline_of(opt_text(*target_on), today.day_number()).0,
        days_view(r.1) == deadline_of(opt_text(*target_on), today.day_number()).1,
{
    let target = match target_on {
        Some(t) => LocalDate::parse(t.as_str()),
        None => None,
    };
    match target {
        Some(target) => {
            let days: i64 = target.day_num() as i64 - today.day_num() as i64;
            let state = if days < 0 {
                "overdue"
            } else if days <= 7 {
                "atRisk"
            } else {
                "onTrack"
            };
            (String::from_str(state), Some(days))
        },
        None => (String::from_str("none"), None),
    }
}

/// The summary of a project on `today`, given its next pending task (title and date).
pub fn project_summary(project: ProjectRecord, next_task: Option<(String, Option<String>)>, today: &LocalDate)
    -> (s: ProjectSummary)
    ensures
        s.project == project,
        s.deadline_state@ == deadline_of(opt_text(project.target_on), today.day_number()).0,
        days_view(s.deadline_days) == deadline_of(opt_text(project.target_on), today.day_number()).1,
        match next_task {
            Some((title, date)) => s.next_task_title == Some(title) && s.next_task_date == date,
            None => s.next_task_title is None && s.next_task_date is None,
        },
{
    let (deadline_state, deadline_days) = deadline(&project.target_on, today);
    let (next_task_title, next_task_date) = match next_task {
        Some((title, date)) => (Some(title), date),
        None => (None, None),
    };
    ProjectSummary { project, next_task_title, next_task_date, deadline_state, deadline_days }
}

/// What the user chose to do with a project's history when removing it.
#[derive(Clone, Copy, Debug, PartialEq, Eq, Structural)]
pub enum ProjectRemovalResolution {
    /// Keep the project, archived.
    Archive,
    /// Delete the project; refused while it has history.
    Delete,
    /// Detach its tasks and sessions, then delete it.
    DetachHistory,
}

/// The change a removal makes to the store.
#[derive(Clone, Copy, Debug, PartialEq, Eq, Structural)]
pub enum ProjectRemoval {
    Archive,
    Delete,
    DetachThenDelete,
}

/// Decides a removal: archiving always proceeds; a project without history is deleted;
/// one with history is detached first when the user asked for that, and otherwise kept.
pub fn plan_removal(resolution: ProjectRemovalResolution, has_history: bool) -> (r: Result<ProjectRemoval, DomainError>)
    ensures
        resolution == ProjectRemovalResolution::Archive ==> r == Ok::<ProjectRemoval, DomainError>(ProjectRemoval::Archive),
        resolution != ProjectRemovalResolution::Archive && !has_history ==> r == Ok::<ProjectRemoval, DomainError>(ProjectRemoval::Delete),
        resolution == ProjectRemovalResolution::DetachHistory && has_history ==> r == Ok::<ProjectRemoval, DomainError>(ProjectRemoval::DetachThenDelete),
        resolution == ProjectRemovalResolution::Delete && has_history ==> (r matches Err(e)
            && e.code@ == "PROJECT_HAS_HISTORY"@
            && e.message@ == "project history must be archived or detached before removal"@
            && e.field is None),
{
    match resolution {
        ProjectRemovalResolution::Archive => Ok(ProjectRemoval::Archive),
        ProjectRemovalResolution::Delete => {
            if has_history {
                Err(DomainError::new(
                    "PROJECT_HAS_HISTORY",
                    "project history must be archived or detached before removal",
                    None,
                ))
            } else {
                Ok(ProjectRemoval::Delete)
            }
        },
        ProjectRemovalResolution::DetachHistory => {
            if has_history {
                Ok(ProjectRemoval::DetachThenDelete)
            } else {
                Ok(ProjectRemoval::Delete)
            }
        },
    }
}

/// The task belongs to project `id`.
pub open spec fn in_project(t: TaskRecord, id: Seq<char>) -> bool {
    opt_text(t.project_id) == Some(id)
}

pub open spec fn belongs_to(id: Seq<char>) -> spec_fn(TaskRecord) -> bool {
    |t: TaskRecord| in_project(t, id)
}

/// The tasks of `tasks` that belong to project `id`, in their order.
pub fn tasks_of_project(tasks: Vec<TaskRecord>, id: &str) -> (r: Vec<TaskRecord>)
    ensures
        r@ == tasks@.filter(belongs_to(id@)),
{
    let ghost all = tasks@;
    let mut rest = tasks;
    let mut out: Vec<TaskRecord> = Vec::new();
    let ghost mut i: int = 0;
    while rest.len() > 0
        invariant
            0 <= i <= all.len(),
            rest@ == all.subrange(i, all.len() as int),
            out@ == all.take(i).filter(belongs_to(id@)),
        decreases rest@.len(),
    {
        let t = rest.remove(0);
        proof {
            assert(all.take(i + 1).drop_last() =~= all.take(i));
            assert(all.take(i + 1).last() == t);
            reveal(Seq::filter);
        }
        let belongs = match &t.project_id {
            Some(p) => crate::text::same_text(p.as_str(), id),
            None => false,
        };
        if belongs {
            out.push(t);
        }
        proof {
            i = i + 1;
            assert(rest@ =~= all.subrange(i, all.len() as int));
        }
    }
    assert(all.take(i) =~= all);
    out
}

/// What the user submits to create or edit a project.
#[derive(Debug)]
pub struct ProjectInput {
    pub name: String,
    pub description: String,
    pub color: String,
    pub icon: String,
    pub started_on: String,
    pub target_on: Option<String>,
}

/// A new project from the input: the given id, the trimmed name, active, created and
/// updated at `now`.
pub fn new_project(id: String, input: ProjectInput, now: &String) -> (p: ProjectRecord)
    ensures
        p.id == id,
        p.name@ == crate::text::trim(input.name@),
        p.description == input.description,
        p.color == input.color,
        p.icon == input.icon,
        p.status@ == "active"@,
        p.started_on == input.started_on,
        p.target_on == input.target_on,
        p.created_at@ == now@,
        p.updated_at@ == now@,
{
    ProjectRecord {
        id,
        name: crate::text::trimmed(input.name.as_str()),
        description: input.description,
        color: input.color,
        icon: input.icon,
        status: String::from_str("active"),
        started_on: input.started_on,
        target_on: input.target_on,
        created_at: now.clone(),
        updated_at: now.clone(),
    }
}

/// An edited project: the input's fields with the name trimmed; identity, status and
/// creation time kept; updated at `now`.
pub fn edited_project(current: ProjectRecord, input: ProjectInput, now: &String) -> (p: ProjectRecord)
    ensures
        p.id == current.id,
        p.name@ == crate::text::trim(input.name@),
        p.description == input.description,
        p.color == input.color,
        p.icon == input.icon,
        p.status == current.status,
        p.started_on == input.started_on,
        p.target_on == input.target_on,
        p.created_at == current.created_at,
        p.updated_at@ == now@,
{
    ProjectRecord {
        id: current.id,
        name: crate::text::trimmed(input.name.as_str()),
        description: input.description,
        color: input.color,
        icon: input.icon,
        status: current.status,
        started_on: input.started_on,
        target_on: input.target_on,
        created_at: current.created_at,
        updated_at: now.clone(),
    }
}

} // verus!
