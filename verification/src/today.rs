//! The Today digest: the day's tasks and recurring instances (and pending ones left from
//! earlier days), each source once, overdue items first.
use vstd::prelude::*;
use crate::error::{fails_with, DomainError};
use crate::order::{
    compare_i64, compare_optional_time, compare_text, consistent, int_order, lemma_int_order,
    lemma_opt_text_order, lemma_text_order, lemma_then_consistent, lemma_then_reverse,
    opt_text_order, reverse, sort_by_order, sorted_by, text_order, then, then_order, Order, OrderOn,
};
use crate::text::opt_text;
use crate::time::{clock_text, format_clock, local_time_of, parse_rfc3339, parsed_date, parsed_rfc3339, zone_known, zone_local, LocalDate};

verus! {

#[derive(Clone, Copy, Debug, PartialEq, Eq, Structural)]
pub enum TodaySourceKind {
    Task,
    RecurringInstance,
}

#[derive(Clone, Copy, Debug, PartialEq, Eq, Structural)]
pub enum TodayItemKind {
    OrdinaryTask,
    ProjectTask,
    RecurringInstance,
}

#[derive(Clone, Copy, Debug, PartialEq, Eq, Structural)]
pub enum TodayItemStatus {
    Pending,
    Completed,
}

/// The project an item belongs to, as the digest shows it.
#[derive(Debug)]
pub struct TodayProjectSummary {
    pub id: String,
    pub name: String,
    pub color: String,
    pub icon: String,
    pub status: String,
}

/// A task or recurring instance read for the digest.
#[derive(Debug)]
pub struct TodayCandidate {
    pub source_kind: TodaySourceKind,
    pub source_id: String,
    pub item_kind: TodayItemKind,
    pub recurrence_rule_id: Option<String>,
    pub title: String,
    pub category: String,
    pub priority: i64,
    pub scheduled_date: String,
    pub scheduled_time: Option<String>,
    pub scheduled_at: Option<String>,
    pub timezone: Option<String>,
    pub status: TodayItemStatus,
    pub completed_at: Option<String>,
    pub project: Option<TodayProjectSummary>,
    pub created_at: String,
}

/// One line of the digest.
#[derive(Debug)]
pub struct TodayDigestItem {
    pub source_kind: TodaySourceKind,
    pub source_id: String,
    pub item_kind: TodayItemKind,
    pub recurrence_rule_id: Option<String>,
    pub title: String,
    pub category: String,
    pub priority: i64,
    pub scheduled_date: String,
    pub scheduled_time: Option<String>,
    pub status: TodayItemStatus,
    pub completed_at: Option<String>,
    pub project: Option<TodayProjectSummary>,
    pub is_overdue: bool,
    pub created_at: String,
}

/// The digest of a day.
#[derive(Debug)]
pub struct TodayDigest {
    pub date: String,
    pub items: Vec<TodayDigestItem>,
}

/// An error of the digest.
pub fn today_error(code: &str, message: &str, field: Option<&str>) -> (e: DomainError)
    ensures
        e.code@ == code@,
        e.message@ == message@,
        opt_text(e.field) == (match field { Some(f) => Some(f@), None => None }),
{
    DomainError::new(code, message, field)
}

/// Tasks come before recurring instances when all else ties.
pub open spec fn rank(s: TodaySourceKind) -> int {
    match s {
        TodaySourceKind::Task => 0,
        TodaySourceKind::RecurringInstance => 1,
    }
}

pub fn source_rank(s: TodaySourceKind) -> (r: u8)
    ensures
        r as int == rank(s),
{
    match s {
        TodaySourceKind::Task => 0,
        TodaySourceKind::RecurringInstance => 1,
    }
}

pub open spec fn flag(b: bool) -> int {
    if b { 1 } else { 0 }
}

/// The digest order: overdue first, then by time (timed before untimed), higher priority
/// first, older first, tasks before instances, and by source id.
pub open spec fn item_order(a: TodayDigestItem, b: TodayDigestItem) -> Order {
    then(int_order(flag(b.is_overdue), flag(a.is_overdue)),
    then(opt_text_order(opt_text(a.scheduled_time), opt_text(b.scheduled_time)),
    then(int_order(b.priority as int, a.priority as int),
    then(text_order(a.created_at@, b.created_at@),
    then(int_order(rank(a.source_kind), rank(b.source_kind)),
    text_order(a.source_id@, b.source_id@))))))
}

pub fn compare_items(left: &TodayDigestItem, right: &TodayDigestItem) -> (r: Order)
    ensures
        r == item_order(*left, *right),
{
    let overdue = compare_i64(if right.is_overdue { 1 } else { 0 }, if left.is_overdue { 1 } else { 0 });
    let time = compare_optional_time(&left.scheduled_time, &right.scheduled_time);
    let priority = compare_i64(right.priority, left.priority);
    let created = compare_text(left.created_at.as_str(), right.created_at.as_str());
    let ranked = compare_i64(source_rank(left.source_kind) as i64, source_rank(right.source_kind) as i64);
    let id = compare_text(left.source_id.as_str(), right.source_id.as_str());
    then_order(overdue, then_order(time, then_order(priority, then_order(created, then_order(ranked, id)))))
}

pub proof fn lemma_item_order(x: TodayDigestItem, y: TodayDigestItem, z: TodayDigestItem)
    ensures
        consistent(item_order(x, y), item_order(y, z), item_order(x, z)),
        item_order(y, x) == reverse(item_order(x, y)),
{
    lemma_int_order(flag(z.is_overdue), flag(y.is_overdue), flag(x.is_overdue));
    lemma_int_order(flag(y.is_overdue), flag(x.is_overdue), flag(x.is_overdue));
    lemma_opt_text_order(opt_text(x.scheduled_time), opt_text(y.scheduled_time), opt_text(z.scheduled_time));
    lemma_int_order(z.priority as int, y.priority as int, x.priority as int);
    lemma_int_order(y.priority as int, x.priority as int, x.priority as int);
    lemma_text_order(x.created_at@, y.created_at@, z.created_at@);
    lemma_int_order(rank(x.source_kind), rank(y.source_kind), rank(z.source_kind));
    lemma_text_order(x.source_id@, y.source_id@, z.source_id@);
    let o1 = |p: TodayDigestItem, q: TodayDigestItem| int_order(flag(q.is_overdue), flag(p.is_overdue));
    assert(consistent(o1(x, y), o1(y, z), o1(x, z)));
    let o3 = |p: TodayDigestItem, q: TodayDigestItem| int_order(q.priority as int, p.priority as int);
    assert(consistent(o3(x, y), o3(y, z), o3(x, z)));
    let t5 = |p: TodayDigestItem, q: TodayDigestItem| then(int_order(rank(p.source_kind), rank(q.source_kind)), text_order(p.source_id@, q.source_id@));
    lemma_then_consistent(
        int_order(rank(x.source_kind), rank(y.source_kind)), int_order(rank(y.source_kind), rank(z.source_kind)), int_order(rank(x.source_kind), rank(z.source_kind)),
        text_order(x.source_id@, y.source_id@), text_order(y.source_id@, z.source_id@), text_order(x.source_id@, z.source_id@));
    let t4 = |p: TodayDigestItem, q: TodayDigestItem| then(text_order(p.created_at@, q.created_at@), t5(p, q));
    lemma_then_consistent(
        text_order(x.created_at@, y.created_at@), text_order(y.created_at@, z.created_at@), text_order(x.created_at@, z.created_at@),
        t5(x, y), t5(y, z), t5(x, z));
    let t3 = |p: TodayDigestItem, q: TodayDigestItem| then(o3(p, q), t4(p, q));
    lemma_then_consistent(o3(x, y), o3(y, z), o3(x, z), t4(x, y), t4(y, z), t4(x, z));
    let t2 = |p: TodayDigestItem, q: TodayDigestItem| then(opt_text_order(opt_text(p.scheduled_time), opt_text(q.scheduled_time)), t3(p, q));
    lemma_then_consistent(
        opt_text_order(opt_text(x.scheduled_time), opt_text(y.scheduled_time)),
        opt_text_order(opt_text(y.scheduled_time), opt_text(z.scheduled_time)),
        opt_text_order(opt_text(x.scheduled_time), opt_text(z.scheduled_time)),
        t3(x, y), t3(y, z), t3(x, z));
    lemma_then_consistent(o1(x, y), o1(y, z), o1(x, z), t2(x, y), t2(y, z), t2(x, z));
    assert(item_order(x, y) == then(o1(x, y), t2(x, y)));
    assert(item_order(y, z) == then(o1(y, z), t2(y, z)));
    assert(item_order(x, z) == then(o1(x, z), t2(x, z)));
    lemma_then_reverse(int_order(rank(x.source_kind), rank(y.source_kind)), text_order(x.source_id@, y.source_id@));
    lemma_then_reverse(text_order(x.created_at@, y.created_at@), t5(x, y));
    lemma_then_reverse(o3(x, y), t4(x, y));
    lemma_then_reverse(opt_text_order(opt_text(x.scheduled_time), opt_text(y.scheduled_time)), t3(x, y));
    lemma_then_reverse(o1(x, y), t2(x, y));
    assert(item_order(y, x) == then(o1(y, x), t2(y, x)));
}

/// The digest order as a total preorder.
pub struct DigestOrder;

impl OrderOn<TodayDigestItem> for DigestOrder {
    open spec fn precedes(a: TodayDigestItem, b: TodayDigestItem) -> bool {
        item_order(a, b) != Order::Greater
    }

    proof fn lemma_total(a: TodayDigestItem, b: TodayDigestItem) {
        lemma_item_order(a, b, b);
    }

    proof fn lemma_transitive(a: TodayDigestItem, b: TodayDigestItem, c: TodayDigestItem) {
        lemma_item_order(a, b, c);
    }

    fn precedes_exec(a: &TodayDigestItem, b: &TodayDigestItem) -> (r: bool) {
        compare_items(a, b) != Order::Greater
    }
}

} // verus!

verus! {

/// `HH:MM` in the zone of the instant written as RFC 3339 text, when both can be read.
pub open spec fn local_clock(timestamp: Seq<char>, zone: Option<Seq<char>>) -> Option<Seq<char>> {
    match (parsed_rfc3339(timestamp), zone) {
        (Some(p), Some(z)) => if zone_known(z) && crate::time::local_day_supported(p.0) {
            Some(clock_text(zone_local(z, p.0, p.1).1))
        } else {
            None
        },
        _ => None,
    }
}

/// The local `HH:MM` of a stored instance time in its rule's zone.
pub fn instance_local_time(timestamp: &str, timezone: Option<&str>) -> (r: Result<String, DomainError>)
    ensures
        match local_clock(timestamp@, match timezone { Some(z) => Some(z@), None => None }) {
            Some(t) => r matches Ok(s) && s@ == t,
            None => fails_with(r, "TODAY_DATA_INVALID"@),
        },
{
    let t = match parse_rfc3339(timestamp) {
        Some(t) => t,
        None => return Err(today_error("TODAY_DATA_INVALID", "stored instance timestamp is invalid", None)),
    };
    let zone = match timezone {
        Some(z) => z,
        None => return Err(today_error("TODAY_DATA_INVALID", "instance timezone is missing", None)),
    };
    if !crate::time::local_day_is_supported(&t) {
        return Err(today_error("TODAY_DATA_INVALID", "stored instance timestamp exceeds supported dates", None));
    }
    match local_time_of(zone, t) {
        Some((_, second)) => Ok(format_clock(second)),
        None => Err(today_error("TODAY_DATA_INVALID", "stored instance timezone is invalid", None)),
    }
}

/// The time shown for a candidate: its own time, else the local time of its scheduled instant.
pub open spec fn shown_time(c: TodayCandidate) -> Option<Option<Seq<char>>> {
    match (c.scheduled_time, c.scheduled_at) {
        (Some(t), _) => Some(Some(t@)),
        (None, Some(at)) => match local_clock(at@, opt_text(c.timezone)) {
            Some(t) => Some(Some(t)),
            None => None,
        },
        (None, None) => Some(None),
    }
}

/// `item` is the digest line of candidate `c` on the day `day`: the candidate's fields, its
/// shown time, and overdue when scheduled before that day.
pub open spec fn digest_of(c: TodayCandidate, day: int, item: TodayDigestItem) -> bool {
    &&& item.source_kind == c.source_kind
    &&& item.source_id == c.source_id
    &&& item.item_kind == c.item_kind
    &&& item.recurrence_rule_id == c.recurrence_rule_id
    &&& item.title == c.title
    &&& item.category == c.category
    &&& item.priority == c.priority
    &&& item.scheduled_date == c.scheduled_date
    &&& shown_time(c) == Some(opt_text(item.scheduled_time))
    &&& item.status == c.status
    &&& item.completed_at == c.completed_at
    &&& item.project == c.project
    &&& item.created_at == c.created_at
    &&& parsed_date(c.scheduled_date@) matches Some(d) && item.is_overdue == (d < day)
}

/// The digest line of a candidate; `TODAY_DATA_INVALID` when its stored date, time or zone
/// cannot be read.
pub fn to_digest_item(candidate: TodayCandidate, digest_date: LocalDate) -> (r: Result<TodayDigestItem, DomainError>)
    ensures
        r matches Ok(item) ==> digest_of(candidate, digest_date.day_number(), item),
        r is Err <==> (parsed_date(candidate.scheduled_date@) is None || shown_time(candidate) is None),
        r is Err ==> fails_with(r, "TODAY_DATA_INVALID"@),
{
    let scheduled = match LocalDate::parse(candidate.scheduled_date.as_str()) {
        Some(d) => d,
        None => return Err(today_error("TODAY_DATA_INVALID", "stored scheduled date is invalid", None)),
    };
    let ghost c = candidate;
    let TodayCandidate {
        source_kind, source_id, item_kind, recurrence_rule_id, title, category, priority,
        scheduled_date, scheduled_time, scheduled_at, timezone, status, completed_at, project, created_at,
    } = candidate;
    let shown = match scheduled_time {
        Some(t) => Some(t),
        None => match &scheduled_at {
            Some(at) => {
                let zone = match &timezone {
                    Some(z) => Some(z.as_str()),
                    None => None,
                };
                Some(instance_local_time(at.as_str(), zone)?)
            },
            None => None,
        },
    };
    Ok(TodayDigestItem {
        source_kind,
        source_id,
        item_kind,
        recurrence_rule_id,
        title,
        category,
        priority,
        scheduled_date,
        scheduled_time: shown,
        status,
        completed_at,
        project,
        is_overdue: scheduled.day_num() < digest_date.day_num(),
        created_at,
    })
}

/// Two candidates stand for the same source.
pub open spec fn same_source(a: TodayCandidate, b: TodayCandidate) -> bool {
    a.source_kind == b.source_kind && a.source_id@ == b.source_id@
}

/// The candidates in order, each source only at its first appearance.
pub open spec fn first_of_each_source(s: Seq<TodayCandidate>) -> Seq<TodayCandidate>
    decreases s.len(),
{
    if s.len() == 0 {
        Seq::empty()
    } else {
        let prev = first_of_each_source(s.drop_last());
        if exists|k: int| 0 <= k < prev.len() && same_source(#[trigger] prev[k], s.last()) {
            prev
        } else {
            prev.push(s.last())
        }
    }
}

/// Deduplicating keeps every source exactly once: no two kept candidates share a source,
/// every candidate's source is kept, and what is kept came from the candidates.
pub proof fn lemma_each_source_once(s: Seq<TodayCandidate>)
    ensures
        forall|i: int, j: int| 0 <= i < j < first_of_each_source(s).len()
            ==> !same_source(first_of_each_source(s)[i], first_of_each_source(s)[j]),
        forall|k: int| #![trigger s[k]] 0 <= k < s.len() ==> exists|i: int| 0 <= i < first_of_each_source(s).len()
            && same_source(#[trigger] first_of_each_source(s)[i], s[k]),
        forall|i: int| 0 <= i < first_of_each_source(s).len() ==> s.contains(#[trigger] first_of_each_source(s)[i]),
    decreases s.len(),
{
    if s.len() > 0 {
        let prev_in = s.drop_last();
        lemma_each_source_once(prev_in);
        let prev = first_of_each_source(prev_in);
        let r = first_of_each_source(s);
        assert forall|k: int| #![trigger s[k]] 0 <= k < s.len() implies exists|i: int| 0 <= i < r.len()
            && same_source(#[trigger] r[i], s[k]) by {
            if k < s.len() - 1 {
                assert(s[k] == prev_in[k]);
                let i = choose|i: int| 0 <= i < prev.len() && same_source(#[trigger] prev[i], prev_in[k]);
                assert(r[i] == prev[i]);
            } else if exists|m: int| 0 <= m < prev.len() && same_source(#[trigger] prev[m], s.last()) {
                let m = choose|m: int| 0 <= m < prev.len() && same_source(#[trigger] prev[m], s.last());
                assert(r[m] == prev[m]);
            } else {
                assert(r[prev.len() as int] == s.last());
            }
        }
        assert forall|i: int| 0 <= i < r.len() implies s.contains(#[trigger] r[i]) by {
            if i < prev.len() {
                assert(r[i] == prev[i]);
                assert(prev_in.contains(prev[i]));
                let w = choose|w: int| 0 <= w < prev_in.len() && prev_in[w] == prev[i];
                assert(s[w] == prev_in[w]);
            } else {
                assert(r[i] == s.last());
                assert(s[s.len() - 1] == s.last());
            }
        }
    }
}

/// Keeps the first candidate of each source.
pub fn dedupe_candidates(candidates: Vec<TodayCandidate>) -> (r: Vec<TodayCandidate>)
    ensures
        r@ == first_of_each_source(candidates@),
{
    let ghost initial = candidates@;
    let mut input = candidates;
    let mut out: Vec<TodayCandidate> = Vec::new();
    let ghost mut i: int = 0;
    assert(input@ =~= initial.subrange(0, initial.len() as int));
    while input.len() > 0
        invariant
            0 <= i <= initial.len(),
            input@ =~= initial.subrange(i, initial.len() as int),
            out@ == first_of_each_source(initial.take(i)),
        decreases input@.len(),
    {
        let c = input.remove(0);
        assert(c == initial[i]);
        let mut seen = false;
        let mut k: usize = 0;
        while k < out.len()
            invariant
                k <= out@.len(),
                seen <==> exists|j: int| 0 <= j < k && same_source(#[trigger] out@[j], c),
            decreases out@.len() - k,
        {
            if out[k].source_kind == c.source_kind && out[k].source_id == c.source_id {
                seen = true;
            }
            k += 1;
        }
        assert(initial.take(i + 1).drop_last() =~= initial.take(i));
        assert(initial.take(i + 1).last() == c);
        if !seen {
            out.push(c);
        }
        proof { i = i + 1; }
        assert(input@ =~= initial.subrange(i, initial.len() as int));
    }
    assert(initial.take(initial.len() as int) =~= initial);
    out
}

} // verus!

verus! {

pub open spec fn readable(c: TodayCandidate) -> bool {
    parsed_date(c.scheduled_date@) is Some && shown_time(c) is Some
}

/// The digest of `date` from the candidates read for it: each source once (its first
/// candidate), each turned into its digest line, in digest order.
pub fn build_digest(date: &str, candidates: Vec<TodayCandidate>) -> (r: Result<TodayDigest, DomainError>)
    ensures
        parsed_date(date@) is None ==> fails_with(r, "TODAY_DATE_INVALID"@),
        parsed_date(date@) is Some ==> (r is Ok <==> forall|i: int| 0 <= i < first_of_each_source(candidates@).len()
            ==> readable(#[trigger] first_of_each_source(candidates@)[i])),
        parsed_date(date@) is Some && r is Err ==> fails_with(r, "TODAY_DATA_INVALID"@),
        r matches Ok(d) ==> d.date@ == date@ && sorted_by::<TodayDigestItem, DigestOrder>(d.items@)
            && exists|m: Seq<TodayDigestItem>| m.len() == first_of_each_source(candidates@).len()
                && (forall|i: int| 0 <= i < m.len() ==> digest_of(#[trigger] first_of_each_source(candidates@)[i], parsed_date(date@)->0, m[i]))
                && d.items@.to_multiset() == #[trigger] m.to_multiset(),
{
    let day = match LocalDate::parse(date) {
        Some(d) => d,
        None => return Err(today_error("TODAY_DATE_INVALID", "digest date must use YYYY-MM-DD", Some("date"))),
    };
    let unique = dedupe_candidates(candidates);
    let ghost u = unique@;
    let mut input = unique;
    let mut items: Vec<TodayDigestItem> = Vec::new();
    let ghost mut i: int = 0;
    assert(input@ =~= u.subrange(0, u.len() as int));
    while input.len() > 0
        invariant
            0 <= i <= u.len(),
            input@ =~= u.subrange(i, u.len() as int),
            items@.len() == i,
            forall|k: int| 0 <= k < i ==> readable(#[trigger] u[k]),
            forall|k: int| 0 <= k < i ==> digest_of(#[trigger] u[k], day.day_number(), items@[k]),
            parsed_date(date@) == Some(day.day_number()),
            u == first_of_each_source(candidates@),
        decreases input@.len(),
    {
        let c = input.remove(0);
        assert(c == u[i]);
        let item = match to_digest_item(c, day) {
            Ok(item) => item,
            Err(e) => {
                assert(!readable(u[i]));
                assert(u == first_of_each_source(candidates@));
                assert(!readable(first_of_each_source(candidates@)[i]));
                assert(fails_with(Err::<TodayDigestItem, DomainError>(e), "TODAY_DATA_INVALID"@));
                return Err(e);
            },
        };
        items.push(item);
        proof { i = i + 1; }
        assert(input@ =~= u.subrange(i, u.len() as int));
    }
    let ghost m = items@;
    let sorted_items = sort_by_order::<TodayDigestItem, DigestOrder>(items);
    Ok(TodayDigest { date: date.to_string(), items: sorted_items })
}

/// The stored names of the digest's kinds and statuses.
pub open spec fn source_kind_text(k: TodaySourceKind) -> Seq<char> {
    match k {
        TodaySourceKind::Task => "task"@,
        TodaySourceKind::RecurringInstance => "recurringInstance"@,
    }
}

pub open spec fn item_kind_text(k: TodayItemKind) -> Seq<char> {
    match k {
        TodayItemKind::OrdinaryTask => "ordinaryTask"@,
        TodayItemKind::ProjectTask => "projectTask"@,
        TodayItemKind::RecurringInstance => "recurringInstance"@,
    }
}

pub open spec fn item_status_text(s: TodayItemStatus) -> Seq<char> {
    match s {
        TodayItemStatus::Pending => "pending"@,
        TodayItemStatus::Completed => "completed"@,
    }
}

pub fn parse_source_kind(name: &str) -> (r: Option<TodaySourceKind>)
    ensures
        forall|k: TodaySourceKind| r == Some(k) <==> source_kind_text(k) == name@,
{
    proof {
        reveal_strlit("task");
        reveal_strlit("recurringInstance");
        assert("task"@.len() != "recurringInstance"@.len());
    }
    if crate::text::same_text(name, "task") {
        Some(TodaySourceKind::Task)
    } else if crate::text::same_text(name, "recurringInstance") {
        Some(TodaySourceKind::RecurringInstance)
    } else {
        None
    }
}

pub fn parse_item_kind(name: &str) -> (r: Option<TodayItemKind>)
    ensures
        forall|k: TodayItemKind| r == Some(k) <==> item_kind_text(k) == name@,
{
    proof {
        reveal_strlit("ordinaryTask");
        reveal_strlit("projectTask");
        reveal_strlit("recurringInstance");
        assert("ordinaryTask"@.len() == 12 && "projectTask"@.len() == 11 && "recurringInstance"@.len() == 17);
    }
    if crate::text::same_text(name, "ordinaryTask") {
        Some(TodayItemKind::OrdinaryTask)
    } else if crate::text::same_text(name, "projectTask") {
        Some(TodayItemKind::ProjectTask)
    } else if crate::text::same_text(name, "recurringInstance") {
        Some(TodayItemKind::RecurringInstance)
    } else {
        None
    }
}

pub fn parse_item_status(name: &str) -> (r: Option<TodayItemStatus>)
    ensures
        forall|k: TodayItemStatus| r == Some(k) <==> item_status_text(k) == name@,
{
    proof {
        reveal_strlit("pending");
        reveal_strlit("completed");
        assert("pending"@.len() != "completed"@.len());
    }
    if crate::text::same_text(name, "pending") {
        Some(TodayItemStatus::Pending)
    } else if crate::text::same_text(name, "completed") {
        Some(TodayItemStatus::Completed)
    } else {
        None
    }
}

/// A digest source as the store lists it, with its kinds and status still as text.
#[derive(Debug)]
pub struct TodayCandidateRow {
    pub source_kind: String,
    pub source_id: String,
    pub item_kind: String,
    pub recurrence_rule_id: Option<String>,
    pub title: String,
    pub category: String,
    pub priority: i64,
    pub scheduled_date: String,
    pub scheduled_time: Option<String>,
    pub scheduled_at: Option<String>,
    pub timezone: Option<String>,
    pub status: String,
    pub completed_at: Option<String>,
    pub project: Option<TodayProjectSummary>,
    pub created_at: String,
}

/// The candidate a row denotes; `None` when its kinds or status are not known names.
pub fn candidate_from_row(row: TodayCandidateRow) -> (r: Option<TodayCandidate>)
    ensures
        r is Some <==> (exists|k: TodaySourceKind| source_kind_text(k) == row.source_kind@)
            && (exists|k: TodayItemKind| item_kind_text(k) == row.item_kind@)
            && (exists|s: TodayItemStatus| item_status_text(s) == row.status@),
        r matches Some(c) ==> {
            &&& source_kind_text(c.source_kind) == row.source_kind@
            &&& item_kind_text(c.item_kind) == row.item_kind@
            &&& item_status_text(c.status) == row.status@
            &&& c.source_id == row.source_id
            &&& c.recurrence_rule_id == row.recurrence_rule_id
            &&& c.title == row.title
            &&& c.category == row.category
            &&& c.priority == row.priority
            &&& c.scheduled_date == row.scheduled_date
            &&& c.scheduled_time == row.scheduled_time
            &&& c.scheduled_at == row.scheduled_at
            &&& c.timezone == row.timezone
            &&& c.completed_at == row.completed_at
            &&& c.project == row.project
            &&& c.created_at == row.created_at
        },
{
    let source_kind = match parse_source_kind(row.source_kind.as_str()) {
        Some(k) => k,
        None => {
            assert(forall|k: TodaySourceKind| #[trigger] source_kind_text(k) != row.source_kind@);
            return None;
        },
    };
    assert(source_kind_text(source_kind) == row.source_kind@);
    let item_kind = match parse_item_kind(row.item_kind.as_str()) {
        Some(k) => k,
        None => {
            assert(forall|k: TodayItemKind| #[trigger] item_kind_text(k) != row.item_kind@);
            return None;
        },
    };
    assert(item_kind_text(item_kind) == row.item_kind@);
    let status = match parse_item_status(row.status.as_str()) {
        Some(s) => s,
        None => {
            assert(forall|k: TodayItemStatus| #[trigger] item_status_text(k) != row.status@);
            return None;
        },
    };
    assert(item_status_text(status) == row.status@);
    Some(TodayCandidate {
        source_kind,
        source_id: row.source_id,
        item_kind,
        recurrence_rule_id: row.recurrence_rule_id,
        title: row.title,
        category: row.category,
        priority: row.priority,
        scheduled_date: row.scheduled_date,
        scheduled_time: row.scheduled_time,
        scheduled_at: row.scheduled_at,
        timezone: row.timezone,
        status,
        completed_at: row.completed_at,
        project: row.project,
        created_at: row.created_at,
    })
}

} // verus!

verus! {

/// In a list of digest items in digest order (as `build_digest` returns them), an earlier
/// item never belongs after a later one: overdue items come before the others; among items
/// alike in that, timed ones come before untimed ones and earlier times first; then higher
/// priority first; then the one created earlier (its creation timestamp no later); then
/// tasks before recurring instances; then the smaller source id.
pub proof fn law_digest_item_order(items: Seq<TodayDigestItem>, i: int, j: int)
    requires
        sorted_by::<TodayDigestItem, DigestOrder>(items),
        0 <= i < j < items.len(),
    ensures
        items[i].is_overdue || !items[j].is_overdue,
        items[i].is_overdue == items[j].is_overdue ==> (items[i].scheduled_time is Some || items[j].scheduled_time is None),
        items[i].is_overdue == items[j].is_overdue && items[i].scheduled_time is Some && items[j].scheduled_time is Some
            ==> crate::order::lex_no_later(items[i].scheduled_time->0@, items[j].scheduled_time->0@),
        items[i].is_overdue == items[j].is_overdue && opt_text(items[i].scheduled_time) == opt_text(items[j].scheduled_time)
            ==> items[i].priority >= items[j].priority,
        items[i].is_overdue == items[j].is_overdue && opt_text(items[i].scheduled_time) == opt_text(items[j].scheduled_time)
            && items[i].priority == items[j].priority
            ==> crate::order::lex_no_later(items[i].created_at@, items[j].created_at@),
        items[i].is_overdue == items[j].is_overdue && opt_text(items[i].scheduled_time) == opt_text(items[j].scheduled_time)
            && items[i].priority == items[j].priority && items[i].created_at@ == items[j].created_at@
            ==> (items[i].source_kind == TodaySourceKind::Task || items[j].source_kind == TodaySourceKind::RecurringInstance),
        items[i].is_overdue == items[j].is_overdue && opt_text(items[i].scheduled_time) == opt_text(items[j].scheduled_time)
            && items[i].priority == items[j].priority && items[i].created_at@ == items[j].created_at@
            && items[i].source_kind == items[j].source_kind
            ==> crate::order::lex_no_later(items[i].source_id@, items[j].source_id@),
{
    let a = items[i];
    let b = items[j];
    assert(DigestOrder::precedes(a, b));
    assert(item_order(a, b) != Order::Greater);
    crate::order::lemma_text_order_antisymmetric(a.created_at@, b.created_at@);
    crate::order::lemma_text_order_is_lexicographic(a.created_at@, b.created_at@);
    crate::order::lemma_text_order_is_lexicographic(a.source_id@, b.source_id@);
    match (a.scheduled_time, b.scheduled_time) {
        (Some(x), Some(y)) => {
            crate::order::lemma_text_order_antisymmetric(x@, y@);
            crate::order::lemma_text_order_is_lexicographic(x@, y@);
        },
        _ => {},
    }
}

} // verus!
