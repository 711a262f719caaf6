//! The task list: which tasks a filter keeps, and the order in which they are listed.
use vstd::prelude::*;
use crate::order::{
    compare_i64, compare_optional_time, compare_text, consistent, int_order, lemma_int_order,
    lemma_opt_text_order, lemma_text_order, lemma_then_consistent, lemma_then_reverse,
    opt_text_order, reverse, sort_by_order, sorted_by, text_order, then, then_order, Order, OrderOn,
};
use crate::task::TaskListItem;
use crate::text::{chars_of, opt_text, trim};

verus! {

#[derive(Clone, Copy, Debug, PartialEq, Eq, Structural)]
pub enum TaskCompletionFilter {
    Pending,
    Completed,
}

/// The status a completion filter keeps.
pub open spec fn completion_status(f: TaskCompletionFilter) -> Seq<char> {
    match f {
        TaskCompletionFilter::Pending => "pending"@,
        TaskCompletionFilter::Completed => "completed"@,
    }
}

pub fn completion_status_name(f: TaskCompletionFilter) -> (r: &'static str)
    ensures
        r@ == completion_status(f),
{
    match f {
        TaskCompletionFilter::Pending => "pending",
        TaskCompletionFilter::Completed => "completed",
    }
}

/// What the task list is narrowed to; every part is optional.
#[derive(Debug)]
pub struct TaskListFilter {
    pub starts_on: Option<String>,
    pub ends_on: Option<String>,
    pub project_id: Option<String>,
    pub category: Option<String>,
    pub completion: Option<TaskCompletionFilter>,
    pub search: Option<String>,
}

/// ASCII letters lowered, other characters kept (SQLite's `lower`).
pub open spec fn ascii_lower(c: char) -> char {
    if 'A' <= c && c <= 'Z' { ((c as u32) + 32) as char } else { c }
}

pub open spec fn lower_text(s: Seq<char>) -> Seq<char> {
    s.map_values(|c: char| ascii_lower(c))
}

/// `needle` occurs in `hay` at position `i`.
pub open spec fn occurs_at(hay: Seq<char>, needle: Seq<char>, i: int) -> bool {
    0 <= i && i + needle.len() <= hay.len() && hay.subrange(i, i + needle.len()) == needle
}

pub open spec fn occurs_in(hay: Seq<char>, needle: Seq<char>) -> bool {
    exists|i: int| occurs_at(hay, needle, i)
}

/// Text order as `<=`: `a` comes no later than `b`.
pub open spec fn text_le(a: Seq<char>, b: Seq<char>) -> bool {
    text_order(a, b) != Order::Greater
}

/// The task is listed under the filter: it is not removed; it is scheduled within the date
/// bounds given; it has the project, category and completion asked for; and its title
/// contains the trimmed search text, ignoring the case of ASCII letters.
pub open spec fn matches_filter(item: TaskListItem, f: TaskListFilter) -> bool {
    let t = item.task;
    &&& t.status@ != "removed"@
    &&& (f.starts_on matches Some(s) ==> (t.scheduled_date matches Some(d) && text_le(s@, d@)))
    &&& (f.ends_on matches Some(e) ==> (t.scheduled_date matches Some(d) && text_le(d@, e@)))
    &&& (f.project_id matches Some(p) ==> opt_text(t.project_id) == Some(p@))
    &&& (f.category matches Some(c) ==> t.category@ == c@)
    &&& (f.completion matches Some(k) ==> t.status@ == completion_status(k))
    &&& (f.search matches Some(q) ==> (trim(q@).len() > 0 ==> occurs_in(lower_text(t.title@), lower_text(trim(q@)))))
}

fn lowered(s: &str) -> (r: Vec<char>)
    ensures
        r@ == lower_text(s@),
{
    let v = chars_of(s);
    let mut out: Vec<char> = Vec::new();
    let mut i: usize = 0;
    while i < v.len()
        invariant
            i <= v@.len(),
            v@ == s@,
            out@ == lower_text(v@.take(i as int)),
        decreases v@.len() - i,
    {
        let c = v[i];
        let l = if 'A' <= c && c <= 'Z' { ((c as u32) + 32) as u8 as char } else { c };
        assert(l == ascii_lower(c)) by {
            if 'A' <= c && c <= 'Z' {
                assert((c as u32) + 32 < 128);
            }
        }
        out.push(l);
        assert(out@ =~= lower_text(v@.take(i + 1)));
        i += 1;
    }
    assert(v@.take(i as int) =~= v@);
    out
}

fn find_in(hay: &Vec<char>, needle: &Vec<char>) -> (r: bool)
    ensures
        r == occurs_in(hay@, needle@),
{
    if needle.len() > hay.len() {
        assert(!occurs_in(hay@, needle@));
        return false;
    }
    if needle.len() == 0 {
        assert(hay@.subrange(0, 0) =~= needle@);
        assert(occurs_at(hay@, needle@, 0));
        return true;
    }
    let n = hay.len();
    let last = n - needle.len();
    let mut i: usize = 0;
    while i <= last
        invariant
            n == hay@.len(),
            last == hay@.len() - needle@.len(),
            0 < needle@.len() <= hay@.len(),
            i <= last + 1,
            forall|k: int| 0 <= k < i ==> !occurs_at(hay@, needle@, k),
        decreases last + 1 - i,
    {
        let mut j: usize = 0;
        while j < needle.len() && hay[i + j] == needle[j]
            invariant
                i <= last,
                n == hay@.len(),
                last == hay@.len() - needle@.len(),
                0 < needle@.len() <= hay@.len(),
                j <= needle@.len(),
                forall|m: int| 0 <= m < j ==> hay@[i + m] == needle@[m],
            decreases needle@.len() - j,
        {
            j += 1;
        }
        if j == needle.len() {
            assert(hay@.subrange(i as int, i + needle@.len()) =~= needle@);
            assert(occurs_at(hay@, needle@, i as int));
            return true;
        }
        assert(!occurs_at(hay@, needle@, i as int)) by {
            if occurs_at(hay@, needle@, i as int) {
                assert(hay@.subrange(i as int, i + needle@.len())[j as int] == needle@[j as int]);
            }
        }
        i += 1;
    }
    assert forall|k: int| !occurs_at(hay@, needle@, k) by {
        if occurs_at(hay@, needle@, k) {
            assert(0 <= k <= last);
        }
    }
    false
}

fn text_le_exec(a: &str, b: &str) -> (r: bool)
    ensures
        r == text_le(a@, b@),
{
    compare_text(a, b) != Order::Greater
}

/// Whether the task is listed under the filter.
pub fn task_matches(item: &TaskListItem, f: &TaskListFilter) -> (r: bool)
    ensures
        r == matches_filter(*item, *f),
{
    let t = &item.task;
    if crate::text::same_text(t.status.as_str(), "removed") {
        return false;
    }
    if let Some(s) = &f.starts_on {
        match &t.scheduled_date {
            Some(d) => if !text_le_exec(s.as_str(), d.as_str()) { return false; },
            None => return false,
        }
    }
    if let Some(e) = &f.ends_on {
        match &t.scheduled_date {
            Some(d) => if !text_le_exec(d.as_str(), e.as_str()) { return false; },
            None => return false,
        }
    }
    if let Some(p) = &f.project_id {
        match &t.project_id {
            Some(q) => if !crate::text::same_text(q.as_str(), p.as_str()) { return false; },
            None => return false,
        }
    }
    if let Some(c) = &f.category {
        if !crate::text::same_text(t.category.as_str(), c.as_str()) {
            return false;
        }
    }
    if let Some(k) = f.completion {
        if !crate::text::same_text(t.status.as_str(), completion_status_name(k)) {
            return false;
        }
    }
    if let Some(q) = &f.search {
        let term = crate::text::trimmed(q.as_str());
        if chars_of(term.as_str()).len() > 0 {
            let hay = lowered(t.title.as_str());
            let needle = lowered(term.as_str());
            if !find_in(&hay, &needle) {
                return false;
            }
        }
    }
    true
}

/// The list order: scheduled tasks first by date, then timed ones by time, higher priority
/// first, then by creation time and id.
pub open spec fn list_order(a: TaskListItem, b: TaskListItem) -> Order {
    then(opt_text_order(opt_text(a.task.scheduled_date), opt_text(b.task.scheduled_date)),
    then(opt_text_order(opt_text(a.task.scheduled_time), opt_text(b.task.scheduled_time)),
    then(int_order(b.task.priority as int, a.task.priority as int),
    then(text_order(a.task.created_at@, b.task.created_at@), text_order(a.task.id@, b.task.id@)))))
}

pub fn compare_list_items(a: &TaskListItem, b: &TaskListItem) -> (r: Order)
    ensures
        r == list_order(*a, *b),
{
    then_order(compare_optional_time(&a.task.scheduled_date, &b.task.scheduled_date),
    then_order(compare_optional_time(&a.task.scheduled_time, &b.task.scheduled_time),
    then_order(compare_i64(b.task.priority, a.task.priority),
    then_order(compare_text(a.task.created_at.as_str(), b.task.created_at.as_str()),
        compare_text(a.task.id.as_str(), b.task.id.as_str())))))
}

pub proof fn lemma_list_order(x: TaskListItem, y: TaskListItem, z: TaskListItem)
    ensures
        consistent(list_order(x, y), list_order(y, z), list_order(x, z)),
        list_order(y, x) == reverse(list_order(x, y)),
{
    let (a, b, c) = (x.task, y.task, z.task);
    lemma_opt_text_order(opt_text(a.scheduled_date), opt_text(b.scheduled_date), opt_text(c.scheduled_date));
    lemma_opt_text_order(opt_text(a.scheduled_time), opt_text(b.scheduled_time), opt_text(c.scheduled_time));
    lemma_int_order(c.priority as int, b.priority as int, a.priority as int);
    lemma_text_order(a.created_at@, b.created_at@, c.created_at@);
    lemma_text_order(a.id@, b.id@, c.id@);
    let t4 = |p: TaskListItem, q: TaskListItem| then(text_order(p.task.created_at@, q.task.created_at@), text_order(p.task.id@, q.task.id@));
    lemma_then_consistent(text_order(a.created_at@, b.created_at@), text_order(b.created_at@, c.created_at@), text_order(a.created_at@, c.created_at@),
        text_order(a.id@, b.id@), text_order(b.id@, c.id@), text_order(a.id@, c.id@));
    let t3 = |p: TaskListItem, q: TaskListItem| then(int_order(q.task.priority as int, p.task.priority as int), t4(p, q));
    lemma_then_consistent(int_order(b.priority as int, a.priority as int), int_order(c.priority as int, b.priority as int),
        int_order(c.priority as int, a.priority as int), t4(x, y), t4(y, z), t4(x, z));
    let t2 = |p: TaskListItem, q: TaskListItem| then(opt_text_order(opt_text(p.task.scheduled_time), opt_text(q.task.scheduled_time)), t3(p, q));
    lemma_then_consistent(
        opt_text_order(opt_text(a.scheduled_time), opt_text(b.scheduled_time)),
        opt_text_order(opt_text(b.scheduled_time), opt_text(c.scheduled_time)),
        opt_text_order(opt_text(a.scheduled_time), opt_text(c.scheduled_time)),
        t3(x, y), t3(y, z), t3(x, z));
    lemma_then_consistent(
        opt_text_order(opt_text(a.scheduled_date), opt_text(b.scheduled_date)),
        opt_text_order(opt_text(b.scheduled_date), opt_text(c.scheduled_date)),
        opt_text_order(opt_text(a.scheduled_date), opt_text(c.scheduled_date)),
        t2(x, y), t2(y, z), t2(x, z));
    lemma_then_reverse(text_order(a.created_at@, b.created_at@), text_order(a.id@, b.id@));
    lemma_then_reverse(int_order(b.priority as int, a.priority as int), t4(x, y));
    lemma_then_reverse(opt_text_order(opt_text(a.scheduled_time), opt_text(b.scheduled_time)), t3(x, y));
    lemma_then_reverse(opt_text_order(opt_text(a.scheduled_date), opt_text(b.scheduled_date)), t2(x, y));
}

pub struct ListOrder;

impl OrderOn<TaskListItem> for ListOrder {
    open spec fn precedes(a: TaskListItem, b: TaskListItem) -> bool {
        list_order(a, b) != Order::Greater
    }

    proof fn lemma_total(a: TaskListItem, b: TaskListItem) {
        lemma_list_order(a, b, b);
    }

    proof fn lemma_transitive(a: TaskListItem, b: TaskListItem, c: TaskListItem) {
        lemma_list_order(a, b, c);
    }

    fn precedes_exec(a: &TaskListItem, b: &TaskListItem) -> (r: bool) {
        compare_list_items(a, b) != Order::Greater
    }
}

pub open spec fn keeps(f: TaskListFilter) -> spec_fn(TaskListItem) -> bool {
    |t: TaskListItem| matches_filter(t, f)
}

/// The task list under the filter: exactly the tasks it keeps, in list order.
pub fn list_filtered(items: Vec<TaskListItem>, filter: &TaskListFilter) -> (r: Vec<TaskListItem>)
    ensures
        r@.to_multiset() == items@.filter(keeps(*filter)).to_multiset(),
        sorted_by::<TaskListItem, ListOrder>(r@),
{
    let ghost all = items@;
    let mut rest = items;
    let mut kept: Vec<TaskListItem> = Vec::new();
    let ghost mut i: int = 0;
    while rest.len() > 0
        invariant
            0 <= i <= all.len(),
            rest@ == all.subrange(i, all.len() as int),
            kept@ == all.take(i).filter(keeps(*filter)),
        decreases rest@.len(),
    {
        let t = rest.remove(0);
        proof {
            assert(all.take(i + 1).drop_last() =~= all.take(i));
            assert(all.take(i + 1).last() == t);
            reveal(Seq::filter);
        }
        if task_matches(&t, filter) {
            kept.push(t);
        }
        proof {
            i = i + 1;
            assert(rest@ =~= all.subrange(i, all.len() as int));
        }
    }
    assert(all.take(i) =~= all);
    sort_by_order::<TaskListItem, ListOrder>(kept)
}

} // verus!

verus! {

/// The task is scheduled on a day whose `YYYY-MM-DD` text is `s` or comes after it.
pub open spec fn scheduled_from(t: crate::task::TaskRecord, s: Seq<char>) -> bool {
    match t.scheduled_date {
        Some(d) => crate::order::lex_no_later(s, d@),
        None => false,
    }
}

/// The task is scheduled on a day whose `YYYY-MM-DD` text is `e` or comes before it.
pub open spec fn scheduled_until(t: crate::task::TaskRecord, e: Seq<char>) -> bool {
    match t.scheduled_date {
        Some(d) => crate::order::lex_no_later(d@, e),
        None => false,
    }
}

/// Every task in a filtered list (as `list_filtered` returns it) is not removed, is
/// scheduled on or after the filter's start date, and on or before its end date.
pub proof fn law_listed_tasks_lie_within_dates(items: Seq<TaskListItem>, f: TaskListFilter, r: Seq<TaskListItem>, i: int)
    requires
        r.to_multiset() == items.filter(keeps(f)).to_multiset(),
        0 <= i < r.len(),
    ensures
        r[i].task.status@ != "removed"@,
        f.starts_on matches Some(s) ==> scheduled_from(r[i].task, s@),
        f.ends_on matches Some(e) ==> scheduled_until(r[i].task, e@),
        f.project_id matches Some(p) ==> (r[i].task.project_id matches Some(q) && q@ == p@),
        f.category matches Some(c) ==> r[i].task.category@ == c@,
        f.completion == Some(TaskCompletionFilter::Pending) ==> r[i].task.status@ == "pending"@,
        f.completion == Some(TaskCompletionFilter::Completed) ==> r[i].task.status@ == "completed"@,
{
    broadcast use vstd::seq_lib::group_filter_ensures;
    let x = r[i];
    vstd::seq_lib::to_multiset_contains(r, x);
    vstd::seq_lib::to_multiset_contains(items.filter(keeps(f)), x);
    assert(r.contains(x));
    assert(items.filter(keeps(f)).contains(x));
    let k = choose|k: int| 0 <= k < items.filter(keeps(f)).len() && items.filter(keeps(f))[k] == x;
    assert(keeps(f)(items.filter(keeps(f))[k]));
    assert(matches_filter(x, f));
    if let Some(s) = f.starts_on {
        let d = x.task.scheduled_date->0;
        crate::order::lemma_text_order_is_lexicographic(s@, d@);
    }
    if let Some(e) = f.ends_on {
        let d = x.task.scheduled_date->0;
        crate::order::lemma_text_order_is_lexicographic(d@, e@);
    }
}

/// Under a filter that gives only a start date, every task of the input that is not
/// removed and is scheduled on or after that date is listed.
pub proof fn law_start_date_keeps_later_tasks(items: Seq<TaskListItem>, f: TaskListFilter, r: Seq<TaskListItem>, i: int)
    requires
        r.to_multiset() == items.filter(keeps(f)).to_multiset(),
        0 <= i < items.len(),
        f.starts_on is Some,
        f.ends_on is None,
        f.project_id is None,
        f.category is None,
        f.completion is None,
        f.search is None,
        items[i].task.status@ != "removed"@,
        scheduled_from(items[i].task, f.starts_on->0@),
    ensures
        r.contains(items[i]),
{
    broadcast use vstd::seq_lib::group_filter_ensures;
    let s = f.starts_on->0;
    let d = items[i].task.scheduled_date->0;
    crate::order::lemma_text_order_is_lexicographic(s@, d@);
    assert(keeps(f)(items[i]));
    assert(items.filter(keeps(f)).contains(items[i]));
    vstd::seq_lib::to_multiset_contains(r, items[i]);
    vstd::seq_lib::to_multiset_contains(items.filter(keeps(f)), items[i]);
}

/// In a task list in list order (as `list_filtered` returns it), an earlier task never belongs
/// after a later one: scheduled tasks come before unscheduled ones and earlier dates first;
/// on the same date timed tasks come before untimed ones and earlier times first; then higher
/// priority first; then the one created earlier; then the smaller id.
pub proof fn law_task_list_order(r: Seq<TaskListItem>, i: int, j: int)
    requires
        sorted_by::<TaskListItem, ListOrder>(r),
        0 <= i < j < r.len(),
    ensures
        r[i].task.scheduled_date is Some || r[j].task.scheduled_date is None,
        r[i].task.scheduled_date is Some && r[j].task.scheduled_date is Some
            ==> crate::order::lex_no_later(r[i].task.scheduled_date->0@, r[j].task.scheduled_date->0@),
        opt_text(r[i].task.scheduled_date) == opt_text(r[j].task.scheduled_date)
            ==> (r[i].task.scheduled_time is Some || r[j].task.scheduled_time is None),
        opt_text(r[i].task.scheduled_date) == opt_text(r[j].task.scheduled_date)
            && r[i].task.scheduled_time is Some && r[j].task.scheduled_time is Some
            ==> crate::order::lex_no_later(r[i].task.scheduled_time->0@, r[j].task.scheduled_time->0@),
        opt_text(r[i].task.scheduled_date) == opt_text(r[j].task.scheduled_date)
            && opt_text(r[i].task.scheduled_time) == opt_text(r[j].task.scheduled_time)
            ==> r[i].task.priority >= r[j].task.priority,
        opt_text(r[i].task.scheduled_date) == opt_text(r[j].task.scheduled_date)
            && opt_text(r[i].task.scheduled_time) == opt_text(r[j].task.scheduled_time)
            && r[i].task.priority == r[j].task.priority
            ==> crate::order::lex_no_later(r[i].task.created_at@, r[j].task.created_at@),
        opt_text(r[i].task.scheduled_date) == opt_text(r[j].task.scheduled_date)
            && opt_text(r[i].task.scheduled_time) == opt_text(r[j].task.scheduled_time)
            && r[i].task.priority == r[j].task.priority && r[i].task.created_at@ == r[j].task.created_at@
            ==> crate::order::lex_no_later(r[i].task.id@, r[j].task.id@),
{
    let a = r[i].task;
    let b = r[j].task;
    assert(ListOrder::precedes(r[i], r[j]));
    crate::order::lemma_text_order_antisymmetric(a.created_at@, b.created_at@);
    crate::order::lemma_text_order_is_lexicographic(a.created_at@, b.created_at@);
    crate::order::lemma_text_order_is_lexicographic(a.id@, b.id@);
    match (a.scheduled_date, b.scheduled_date) {
        (Some(x), Some(y)) => {
            crate::order::lemma_text_order_antisymmetric(x@, y@);
            crate::order::lemma_text_order_is_lexicographic(x@, y@);
        },
        _ => {},
    }
    match (a.scheduled_time, b.scheduled_time) {
        (Some(x), Some(y)) => {
            crate::order::lemma_text_order_antisymmetric(x@, y@);
            crate::order::lemma_text_order_is_lexicographic(x@, y@);
        },
        _ => {},
    }
}

} // verus!
