//! Weekly goals and daily notes: how a goal's progress follows the week's statistics, and
//! what a saved goal or note looks like.
use vstd::prelude::*;
use crate::text::{trim, trimmed};

verus! {

#[derive(Clone, Copy, Debug, PartialEq, Eq, Structural)]
pub enum WeeklyGoalCategory {
    CompletedTasks,
    FocusMinutes,
    ActiveDays,
}

/// The figures of a period that goals are measured against.
#[derive(Debug)]
pub struct StatisticsSummary {
    pub planned_task_count: u32,
    pub completed_task_count: u32,
    pub completion_percent: u32,
    pub focus_seconds: u64,
    pub focus_minutes: u64,
    pub effective_session_count: u32,
    pub active_day_count: u32,
}

#[derive(Debug)]
pub struct WeeklyGoal {
    pub id: String,
    pub week_starts_on: String,
    pub title: String,
    pub category: WeeklyGoalCategory,
    pub target_count: u32,
    pub completed_count: u32,
    pub position: u32,
    pub created_at: String,
    pub updated_at: String,
}

#[derive(Debug)]
pub struct WeeklyGoalInput {
    pub id: Option<String>,
    pub week_starts_on: String,
    pub title: String,
    pub category: WeeklyGoalCategory,
    pub target_count: u32,
}

#[derive(Debug)]
pub struct DailyNote {
    pub id: String,
    pub body: String,
    pub note_date: String,
    pub created_at: String,
    pub updated_at: String,
}

#[derive(Debug)]
pub struct DailyNoteInput {
    pub body: String,
    pub note_date: String,
}

/// The stored name of a goal category.
pub open spec fn category_text(c: WeeklyGoalCategory) -> Seq<char> {
    match c {
        WeeklyGoalCategory::CompletedTasks => "completed_tasks"@,
        WeeklyGoalCategory::FocusMinutes => "focus_minutes"@,
        WeeklyGoalCategory::ActiveDays => "active_days"@,
    }
}

pub fn category_name(c: WeeklyGoalCategory) -> (r: &'static str)
    ensures
        r@ == category_text(c),
{
    match c {
        WeeklyGoalCategory::CompletedTasks => "completed_tasks",
        WeeklyGoalCategory::FocusMinutes => "focus_minutes",
        WeeklyGoalCategory::ActiveDays => "active_days",
    }
}

/// The goal category a stored name stands for, if any.
pub fn parse_category(name: &str) -> (r: Option<WeeklyGoalCategory>)
    ensures
        r matches Some(c) ==> category_text(c) == name@,
        r is None ==> forall|c: WeeklyGoalCategory| category_text(c) != name@,
{
    proof {
        reveal_strlit("completed_tasks");
        reveal_strlit("focus_minutes");
        reveal_strlit("active_days");
    }
    if crate::text::same_text(name, "completed_tasks") {
        Some(WeeklyGoalCategory::CompletedTasks)
    } else if crate::text::same_text(name, "focus_minutes") {
        Some(WeeklyGoalCategory::FocusMinutes)
    } else if crate::text::same_text(name, "active_days") {
        Some(WeeklyGoalCategory::ActiveDays)
    } else {
        None
    }
}

/// The statistic a goal of the category counts.
pub open spec fn progress_of(category: WeeklyGoalCategory, s: StatisticsSummary) -> int {
    match category {
        WeeklyGoalCategory::CompletedTasks => s.completed_task_count as int,
        WeeklyGoalCategory::FocusMinutes => s.focus_minutes as int,
        WeeklyGoalCategory::ActiveDays => s.active_day_count as int,
    }
}

pub fn progress_for_category(category: WeeklyGoalCategory, summary: &StatisticsSummary) -> (r: u64)
    ensures
        r == progress_of(category, *summary),
{
    match category {
        WeeklyGoalCategory::CompletedTasks => summary.completed_task_count as u64,
        WeeklyGoalCategory::FocusMinutes => summary.focus_minutes,
        WeeklyGoalCategory::ActiveDays => summary.active_day_count as u64,
    }
}

/// A goal's progress: the matching statistic, capped at the goal's target.
pub open spec fn goal_progress(category: WeeklyGoalCategory, s: StatisticsSummary, target: u32) -> int {
    let p = progress_of(category, s);
    if p < target { p } else { target as int }
}

/// Brings every goal's progress up to date with the period's statistics and stamps it.
pub fn refresh_goals(goals: &mut Vec<WeeklyGoal>, summary: &StatisticsSummary, updated_at: &String)
    ensures
        final(goals)@.len() == old(goals)@.len(),
        forall|k: int| 0 <= k < old(goals)@.len() ==> {
            let before = #[trigger] old(goals)@[k];
            let after = final(goals)@[k];
            &&& after.completed_count == goal_progress(before.category, *summary, before.target_count)
            &&& after.updated_at@ == updated_at@
            &&& after.id == before.id
            &&& after.week_starts_on == before.week_starts_on
            &&& after.title == before.title
            &&& after.category == before.category
            &&& after.target_count == before.target_count
            &&& after.position == before.position
            &&& after.created_at == before.created_at
        },
{
    let ghost initial = goals@;
    let mut refreshed: Vec<WeeklyGoal> = Vec::new();
    let mut rest: Vec<WeeklyGoal> = Vec::new();
    std::mem::swap(&mut rest, goals);
    let ghost mut i: int = 0;
    while rest.len() > 0
        invariant
            0 <= i <= initial.len(),
            rest@ == initial.subrange(i, initial.len() as int),
            refreshed@.len() == i,
            forall|k: int| 0 <= k < i ==> {
                let before = #[trigger] initial[k];
                let after = refreshed@[k];
                &&& after.completed_count == goal_progress(before.category, *summary, before.target_count)
                &&& after.updated_at@ == updated_at@
                &&& after.id == before.id
                &&& after.week_starts_on == before.week_starts_on
                &&& after.title == before.title
                &&& after.category == before.category
                &&& after.target_count == before.target_count
                &&& after.position == before.position
                &&& after.created_at == before.created_at
            },
        decreases rest@.len(),
    {
        let goal = rest.remove(0);
        let progress = progress_for_category(goal.category, summary);
        let completed: u32 = if progress < goal.target_count as u64 { progress as u32 } else { goal.target_count };
        refreshed.push(WeeklyGoal {
            id: goal.id,
            week_starts_on: goal.week_starts_on,
            title: goal.title,
            category: goal.category,
            target_count: goal.target_count,
            completed_count: completed,
            position: goal.position,
            created_at: goal.created_at,
            updated_at: updated_at.clone(),
        });
        proof {
            i = i + 1;
            assert(rest@ =~= initial.subrange(i, initial.len() as int));
        }
    }
    *goals = refreshed;
}

/// The position of a new goal in its week: after every goal there, or first in an empty
/// week; `None` when the positions are exhausted.
pub fn next_goal_position(positions: &Vec<u32>) -> (r: Option<u32>)
    ensures
        positions@.len() == 0 ==> r == Some(0u32),
        positions@.len() > 0 ==> match r {
            Some(p) => (exists|k: int| 0 <= k < positions@.len() && p == positions@[k] + 1)
                && forall|k: int| 0 <= k < positions@.len() ==> positions@[k] < p,
            None => exists|k: int| 0 <= k < positions@.len() && positions@[k] == u32::MAX,
        },
{
    if positions.len() == 0 {
        return Some(0);
    }
    let mut best: u32 = positions[0];
    let mut at: usize = 0;
    let mut i: usize = 1;
    while i < positions.len()
        invariant
            1 <= i <= positions@.len(),
            at < i,
            best == positions@[at as int],
            forall|k: int| 0 <= k < i ==> positions@[k] <= best,
        decreases positions@.len() - i,
    {
        if positions[i] > best {
            best = positions[i];
            at = i;
        }
        i += 1;
    }
    if best == u32::MAX {
        None
    } else {
        Some(best + 1)
    }
}

/// The goal as saved: an existing goal keeps its id, position and creation time; a new one
/// takes the given id and the next position of its week. The title is trimmed and the
/// progress starts at zero until the next refresh.
pub fn saved_goal(input: WeeklyGoalInput, existing: Option<(u32, String)>, next_position: u32,
    fresh_id: String, now: &String) -> (g: WeeklyGoal)
    ensures
        match input.id { Some(id) => g.id == id, None => g.id == fresh_id },
        g.week_starts_on == input.week_starts_on,
        g.title@ == trim(input.title@),
        g.category == input.category,
        g.target_count == input.target_count,
        g.completed_count == 0,
        match existing {
            Some((p, c)) => g.position == p && g.created_at == c,
            None => g.position == next_position && g.created_at@ == now@,
        },
        g.updated_at@ == now@,
{
    let (position, created_at) = match existing {
        Some((p, c)) => (p, c),
        None => (next_position, now.clone()),
    };
    let id = match input.id {
        Some(id) => id,
        None => fresh_id,
    };
    WeeklyGoal {
        id,
        week_starts_on: input.week_starts_on,
        title: trimmed(input.title.as_str()),
        category: input.category,
        target_count: input.target_count,
        completed_count: 0,
        position,
        created_at,
        updated_at: now.clone(),
    }
}

/// The note as saved: the latest note of the day is updated in place (same id and creation
/// time); without one a new note is created.
pub fn saved_note(input: DailyNoteInput, existing: Option<(String, String)>, fresh_id: String, now: &String)
    -> (n: DailyNote)
    ensures
        match existing {
            Some((id, c)) => n.id == id && n.created_at == c,
            None => n.id == fresh_id && n.created_at@ == now@,
        },
        n.body == input.body,
        n.note_date == input.note_date,
        n.updated_at@ == now@,
{
    let (id, created_at) = match existing {
        Some((id, c)) => (id, c),
        None => (fresh_id, now.clone()),
    };
    DailyNote { id, body: input.body, note_date: input.note_date, created_at, updated_at: now.clone() }
}

} // verus!
