//! One-off tasks and their check items: records, the rules that guard changes, and the
//! validation of a new check-item order.
use vstd::prelude::*;
use crate::error::DomainError;
use crate::memo::string_views;
use crate::text::{opt_text, trim, trimmed};

verus! {

#[derive(Debug)]
pub struct TaskRecord {
    pub id: String,
    pub project_id: Option<String>,
    pub title: String,
    pub category: String,
    pub priority: i64,
    pub scheduled_date: Option<String>,
    pub scheduled_time: Option<String>,
    /// `pending`, `completed` or `removed`.
    pub status: String,
    pub completed_at: Option<String>,
    pub created_at: String,
    pub updated_at: String,
}

#[derive(Debug)]
pub struct CheckItemRecord {
    pub id: String,
    pub task_id: String,
    pub title: String,
    pub position: i64,
    pub completed_at: Option<String>,
    pub created_at: String,
    pub updated_at: String,
}

/// The project shown beside a task in lists.
#[derive(Debug)]
pub struct TaskProjectSummary {
    pub id: String,
    pub name: String,
    pub color: String,
    pub icon: String,
    pub status: String,
}

#[derive(Debug)]
pub struct TaskListItem {
    pub task: TaskRecord,
    pub project: Option<TaskProjectSummary>,
}

#[derive(Debug)]
pub struct TaskDetail {
    pub task: TaskRecord,
    pub check_items: Vec<CheckItemRecord>,
}

/// A check item as the user edits it; items without an id are new.
#[derive(Debug)]
pub struct CheckItemInput {
    pub id: Option<String>,
    pub title: String,
    pub completed: bool,
}

fn task_error(code: &str, message: &str, field: Option<&str>) -> (e: DomainError)
    ensures
        e.code@ == code@,
        e.message@ == message@,
        field is None ==> e.field is None,
        field matches Some(f) ==> e.field matches Some(g) && g@ == f@,
{
    DomainError::new(code, message, field)
}

pub fn task_not_found() -> (e: DomainError)
    ensures
        e.code@ == "TASK_NOT_FOUND"@,
        e.message@ == "task was not found"@,
        e.field is None,
{
    task_error("TASK_NOT_FOUND", "task was not found", None)
}

pub fn check_item_not_found() -> (e: DomainError)
    ensures
        e.code@ == "CHECK_ITEM_NOT_FOUND"@,
        e.message@ == "check item was not found"@,
        e.field is None,
{
    task_error("CHECK_ITEM_NOT_FOUND", "check item was not found", None)
}

pub fn check_item_order_invalid() -> (e: DomainError)
    ensures
        e.code@ == "CHECK_ITEM_ORDER_INVALID"@,
        e.message@ == "check item order must contain every item exactly once"@,
        e.field matches Some(f) && f@ == "orderedIds"@,
{
    task_error("CHECK_ITEM_ORDER_INVALID", "check item order must contain every item exactly once", Some("orderedIds"))
}

/// A removed task is history: it cannot change any more.
pub fn ensure_mutable(task: &TaskRecord) -> (r: Result<(), DomainError>)
    ensures
        (task.status@ == "removed"@) <==> r is Err,
        r matches Err(e) ==> e.code@ == "TASK_REMOVED"@
            && e.message@ == "removed task cannot be changed"@ && e.field is None,
{
    if crate::text::same_text(task.status.as_str(), "removed") {
        Err(task_error("TASK_REMOVED", "removed task cannot be changed", None))
    } else {
        Ok(())
    }
}

/// The status and completion time a task takes when it is marked done or not done at `now`.
pub fn completion_change(completed: bool, now: &String) -> (r: (&'static str, Option<String>))
    ensures
        completed ==> r.0@ == "completed"@ && (r.1 matches Some(t) && t@ == now@),
        !completed ==> r.0@ == "pending"@ && r.1 is None,
{
    if completed {
        ("completed", Some(now.clone()))
    } else {
        ("pending", None)
    }
}

/// The stored check items for `inputs`, in their order: positions count from zero, titles
/// are trimmed, items keep their id (new ones get a fresh random one), and a completed item is
/// completed at `now`.
pub open spec fn check_items_of(task_id: Seq<char>, inputs: Seq<CheckItemInput>,
    now: Seq<char>, items: Seq<CheckItemRecord>) -> bool {
    &&& items.len() == inputs.len()
    &&& forall|k: int| 0 <= k < inputs.len() ==> {
        let i = #[trigger] inputs[k];
        let c = items[k];
        &&& (i.id matches Some(id) ==> c.id@ == id@)
        &&& (i.id is None ==> crate::recurrence::is_random_uuid_text(c.id@))
        &&& c.task_id@ == task_id
        &&& c.title@ == trim(i.title@)
        &&& c.position == k
        &&& opt_text(c.completed_at) == (if i.completed { Some(now) } else { None })
        &&& c.created_at@ == now
        &&& c.updated_at@ == now
    }
}

/// Builds the check items of a task from the user's input; new items get a fresh id.
pub fn make_check_items(task_id: &String, inputs: Vec<CheckItemInput>, now: &String)
    -> (r: Vec<CheckItemRecord>)
    requires
        inputs@.len() <= i64::MAX,
    ensures
        check_items_of(task_id@, inputs@, now@, r@),
{
    let ghost all = inputs@;
    let mut rest = inputs;
    let mut items: Vec<CheckItemRecord> = Vec::new();
    let mut position: usize = 0;
    let total: usize = rest.len();
    while rest.len() > 0
        invariant
            position == items@.len(),
            position <= all.len(),
            position + rest@.len() == all.len(),
            all.len() == total,
            all == inputs@,
            rest@ == all.subrange(position as int, all.len() as int),
            all.len() <= i64::MAX,
            forall|k: int| 0 <= k < position ==> {
                let i = #[trigger] all[k];
                let c = items@[k];
                &&& (i.id matches Some(id) ==> c.id@ == id@)
                &&& (i.id is None ==> crate::recurrence::is_random_uuid_text(c.id@))
                &&& c.task_id@ == task_id@
                &&& c.title@ == trim(i.title@)
                &&& c.position == k
                &&& opt_text(c.completed_at) == (if i.completed { Some(now@) } else { None })
                &&& c.created_at@ == now@
                &&& c.updated_at@ == now@
            },
        decreases rest@.len(),
    {
        let ghost before = rest@;
        let input = rest.remove(0);
        assert(before.len() > 0);
        assert(position < all.len());
        assert(input == all[position as int]);
        let id = match input.id {
            Some(id) => id,
            None => crate::recurrence::new_id(),
        };
        let completed_at = if input.completed { Some(now.clone()) } else { None };
        items.push(CheckItemRecord {
            id,
            task_id: task_id.clone(),
            title: trimmed(input.title.as_str()),
            position: position as i64,
            completed_at,
            created_at: now.clone(),
            updated_at: now.clone(),
        });
        position = position + 1;
        assert(rest@ =~= all.subrange(position as int, all.len() as int));
    }
    items
}

/// The texts of `current` at the given positions.
pub open spec fn picked(current: Seq<Seq<char>>, pool: Seq<usize>) -> Seq<Seq<char>> {
    pool.map_values(|k: usize| current[k as int])
}

proof fn lemma_picked_remove(current: Seq<Seq<char>>, pool: Seq<usize>, k: int)
    requires
        0 <= k < pool.len(),
    ensures
        picked(current, pool.remove(k)) == picked(current, pool).remove(k),
{
    assert(picked(current, pool.remove(k)) =~= picked(current, pool).remove(k));
}

proof fn lemma_count_prefix(s: Seq<Seq<char>>, i: int, x: Seq<char>)
    requires
        0 <= i <= s.len(),
    ensures
        s.take(i).to_multiset().count(x) <= s.to_multiset().count(x),
{
    broadcast use vstd::multiset::group_multiset_axioms;
    vstd::seq_lib::lemma_multiset_commutative(s.take(i), s.skip(i));
    assert(s.take(i) + s.skip(i) =~= s);
}

/// Whether `requested` names exactly the items of `current`, each as often: the same
/// identifiers with the same multiplicities, in any order.
pub fn same_ids(current: &Vec<String>, requested: &Vec<String>) -> (r: bool)
    ensures
        r == (string_views(current@).to_multiset() == string_views(requested@).to_multiset()),
{
    broadcast use vstd::seq_lib::group_to_multiset_ensures;
    broadcast use vstd::multiset::group_multiset_axioms;
    let ghost cur = string_views(current@);
    let ghost req = string_views(requested@);
    if current.len() != requested.len() {
        proof {
            vstd::seq_lib::to_multiset_len(cur);
            vstd::seq_lib::to_multiset_len(req);
        }
        return false;
    }
    let n = current.len();
    let mut pool: Vec<usize> = Vec::new();
    let mut k: usize = 0;
    while k < n
        invariant
            k <= n == current@.len(),
            pool@.len() == k,
            forall|j: int| 0 <= j < k ==> pool@[j] == j,
        decreases n - k,
    {
        pool.push(k);
        k += 1;
    }
    assert(picked(cur, pool@) =~= cur);
    let mut i: usize = 0;
    while i < n
        invariant
            i <= n == current@.len() == requested@.len(),
            cur == string_views(current@),
            req == string_views(requested@),
            pool@.len() + i == n,
            forall|j: int| 0 <= j < pool@.len() ==> pool@[j] < n,
            cur.to_multiset() == picked(cur, pool@).to_multiset().add(req.take(i as int).to_multiset()),
        decreases n - i,
    {
        let mut p: usize = 0;
        while p < pool.len() && !(current[pool[p]] == requested[i])
            invariant
                p <= pool@.len(),
                i < n == current@.len() == requested@.len(),
                forall|j: int| 0 <= j < pool@.len() ==> pool@[j] < n,
                cur == string_views(current@),
                req == string_views(requested@),
                forall|j: int| 0 <= j < p ==> cur[pool@[j] as int] != req[i as int],
            decreases pool@.len() - p,
        {
            p += 1;
        }
        if p == pool.len() {
            proof {
                let x = req[i as int];
                let rest = picked(cur, pool@);
                assert(!rest.contains(x)) by {
                    if rest.contains(x) {
                        let j = choose|j: int| 0 <= j < rest.len() && rest[j] == x;
                        assert(cur[pool@[j] as int] == x);
                    }
                }
                vstd::seq_lib::to_multiset_contains(rest, x);
                assert(req.take(i as int + 1) =~= req.take(i as int).push(x));
                vstd::seq_lib::to_multiset_build(req.take(i as int), x);
                lemma_count_prefix(req, i as int + 1, x);
                assert(cur.to_multiset().count(x) == req.take(i as int).to_multiset().count(x));
                assert(req.to_multiset().count(x) > cur.to_multiset().count(x));
            }
            return false;
        }
        proof {
            let x = req[i as int];
            let rest = picked(cur, pool@);
            assert(rest[p as int] == x);
            lemma_picked_remove(cur, pool@, p as int);
            vstd::seq_lib::to_multiset_remove(rest, p as int);
            assert(req.take(i as int + 1) =~= req.take(i as int).push(x));
            vstd::seq_lib::to_multiset_build(req.take(i as int), x);
            vstd::seq_lib::to_multiset_contains(rest, x);
            assert(rest.to_multiset() =~= rest.remove(p as int).to_multiset().insert(x));
            assert(cur.to_multiset() =~= rest.remove(p as int).to_multiset().add(req.take(i as int + 1).to_multiset()));
        }
        pool.remove(p);
        i += 1;
    }
    proof {
        assert(pool@.len() == 0);
        assert(picked(cur, pool@) =~= Seq::<Seq<char>>::empty());
        assert(req.take(n as int) =~= req);
        assert(cur.to_multiset() =~= req.to_multiset());
    }
    true
}

/// A new order of check items is accepted only when it names every item exactly once.
pub fn check_item_order(current: &Vec<String>, requested: &Vec<String>) -> (r: Result<(), DomainError>)
    ensures
        r is Ok <==> string_views(current@).to_multiset() == string_views(requested@).to_multiset(),
        r matches Err(e) ==> e.code@ == "CHECK_ITEM_ORDER_INVALID"@,
{
    if same_ids(current, requested) {
        Ok(())
    } else {
        Err(check_item_order_invalid())
    }
}

/// What the user submits to create or edit a task.
#[derive(Debug)]
pub struct TaskInput {
    pub project_id: Option<String>,
    pub title: String,
    pub category: String,
    pub priority: i64,
    pub scheduled_date: Option<String>,
    pub scheduled_time: Option<String>,
    pub check_items: Vec<CheckItemInput>,
}

/// A task may name a project only if that project exists.
pub fn check_task_project(project_id: &Option<String>, project_exists: bool) -> (r: Result<(), DomainError>)
    ensures
        (project_id is Some && !project_exists) <==> r is Err,
        r matches Err(e) ==> e.code@ == "TASK_PROJECT_NOT_FOUND"@
            && e.message@ == "selected project was not found"@
            && (e.field matches Some(f) && f@ == "projectId"@),
{
    if project_id.is_some() && !project_exists {
        Err(task_error("TASK_PROJECT_NOT_FOUND", "selected project was not found", Some("projectId")))
    } else {
        Ok(())
    }
}

/// A new task from the input: the given id, the trimmed title, pending, created and updated
/// at `now`.
pub fn new_task(id: String, input: &TaskInput, now: &String) -> (t: TaskRecord)
    ensures
        t.id == id,
        opt_text(t.project_id) == opt_text(input.project_id),
        t.title@ == trim(input.title@),
        t.category@ == input.category@,
        t.priority == input.priority,
        opt_text(t.scheduled_date) == opt_text(input.scheduled_date),
        opt_text(t.scheduled_time) == opt_text(input.scheduled_time),
        t.status@ == "pending"@,
        t.completed_at is None,
        t.created_at@ == now@,
        t.updated_at@ == now@,
{
    TaskRecord {
        id,
        project_id: copy_opt(&input.project_id),
        title: trimmed(input.title.as_str()),
        category: input.category.clone(),
        priority: input.priority,
        scheduled_date: copy_opt(&input.scheduled_date),
        scheduled_time: copy_opt(&input.scheduled_time),
        status: String::from_str("pending"),
        completed_at: None,
        created_at: now.clone(),
        updated_at: now.clone(),
    }
}

/// An edited task: the input's fields with the title trimmed; identity, status, completion
/// and creation time kept; updated at `now`.
pub fn edited_task(current: TaskRecord, input: &TaskInput, now: &String) -> (t: TaskRecord)
    ensures
        t.id == current.id,
        opt_text(t.project_id) == opt_text(input.project_id),
        t.title@ == trim(input.title@),
        t.category@ == input.category@,
        t.priority == input.priority,
        opt_text(t.scheduled_date) == opt_text(input.scheduled_date),
        opt_text(t.scheduled_time) == opt_text(input.scheduled_time),
        t.status == current.status,
        t.completed_at == current.completed_at,
        t.created_at == current.created_at,
        t.updated_at@ == now@,
{
    TaskRecord {
        id: current.id,
        project_id: copy_opt(&input.project_id),
        title: trimmed(input.title.as_str()),
        category: input.category.clone(),
        priority: input.priority,
        scheduled_date: copy_opt(&input.scheduled_date),
        scheduled_time: copy_opt(&input.scheduled_time),
        status: current.status,
        completed_at: current.completed_at,
        created_at: current.created_at,
        updated_at: now.clone(),
    }
}

fn copy_opt(o: &Option<String>) -> (r: Option<String>)
    ensures
        opt_text(r) == opt_text(*o),
{
    match o {
        Some(s) => Some(s.clone()),
        None => None,
    }
}

} // verus!
