//! The rules of the local store: which schema migrations still have to run, and when the
//! store refuses writes.
use vstd::prelude::*;
use crate::error::DomainError;

verus! {

/// Whether the store accepts writes. A store whose migrations failed is kept readable but
/// protected from writes, with the reason.
#[derive(Debug)]
pub enum DatabaseState {
    Ready,
    ReadOnlyProtection { reason: String },
}

/// One step of the schema, applied at most once, in the order of the list.
#[derive(Debug)]
pub struct Migration {
    pub version: i64,
    pub name: String,
    pub sql: String,
}

/// The state a store opens in: ready when its migrations ran, else protected with the
/// failure's text.
pub fn state_after_migrations(result: Result<(), String>) -> (s: DatabaseState)
    ensures
        result is Ok <==> s is Ready,
        result matches Err(m) ==> (s matches DatabaseState::ReadOnlyProtection { reason } && reason@ == m@),
{
    match result {
        Ok(()) => DatabaseState::Ready,
        Err(reason) => DatabaseState::ReadOnlyProtection { reason },
    }
}

/// A write is allowed only on a ready store; a protected one answers with its reason.
pub fn check_writable(state: &DatabaseState) -> (r: Result<(), DomainError>)
    ensures
        state is Ready <==> r is Ok,
        state matches DatabaseState::ReadOnlyProtection { reason } ==> (r matches Err(e)
            && e.code@ == "DATABASE_READ_ONLY"@ && e.message@ == reason@ && e.field is None),
{
    match state {
        DatabaseState::Ready => Ok(()),
        DatabaseState::ReadOnlyProtection { reason } => Err(DomainError {
            code: String::from_str("DATABASE_READ_ONLY"),
            message: reason.clone(),
            field: None,
        }),
    }
}

pub fn lock_error() -> (e: DomainError)
    ensures
        e.code@ == "DATABASE_LOCK_FAILED"@,
        e.message@ == "database connection lock is unavailable"@,
        e.field is None,
{
    DomainError::new("DATABASE_LOCK_FAILED", "database connection lock is unavailable", None)
}

/// A failure of the store, with its text.
pub fn database_error(message: String) -> (e: DomainError)
    ensures
        e.code@ == "DATABASE_ERROR"@,
        e.message@ == message@,
        e.field is None,
{
    DomainError { code: String::from_str("DATABASE_ERROR"), message, field: None }
}

pub open spec fn versions(m: Seq<Migration>) -> Seq<i64> {
    m.map_values(|x: Migration| x.version)
}

/// The positions of the migrations of `m` whose version is not among `applied`, in order.
pub open spec fn pending_positions(m: Seq<Migration>, applied: Seq<i64>) -> Seq<int>
    decreases m.len(),
{
    if m.len() == 0 {
        Seq::empty()
    } else {
        let rest = pending_positions(m.drop_last(), applied);
        if applied.contains(m.last().version) {
            rest
        } else {
            rest.push(m.len() - 1)
        }
    }
}

/// The positions of the migrations still to run, in list order: those whose version has
/// not been applied yet.
pub fn pending_migrations(migrations: &Vec<Migration>, applied: &Vec<i64>) -> (r: Vec<usize>)
    ensures
        r@.map_values(|k: usize| k as int) == pending_positions(migrations@, applied@),
{
    let mut out: Vec<usize> = Vec::new();
    let mut i: usize = 0;
    while i < migrations.len()
        invariant
            i <= migrations@.len(),
            out@.map_values(|k: usize| k as int) == pending_positions(migrations@.take(i as int), applied@),
        decreases migrations@.len() - i,
    {
        let version = migrations[i].version;
        let mut j: usize = 0;
        let mut seen = false;
        while j < applied.len()
            invariant
                j <= applied@.len(),
                seen <==> applied@.take(j as int).contains(version),
            decreases applied@.len() - j,
        {
            let ghost before = applied@.take(j as int);
            let ghost next = applied@.take(j + 1);
            proof {
                assert(next =~= before.push(applied@[j as int]));
                if before.contains(version) {
                    let x = choose|x: int| 0 <= x < before.len() && before[x] == version;
                    assert(next[x] == version);
                }
                if applied@[j as int] == version {
                    assert(next[j as int] == version);
                }
                if next.contains(version) {
                    let x = choose|x: int| 0 <= x < next.len() && next[x] == version;
                    if x < j {
                        assert(before[x] == version);
                    }
                }
            }
            if applied[j] == version {
                seen = true;
            }
            j += 1;
        }
        assert(applied@.take(j as int) =~= applied@);
        proof {
            assert(migrations@.take(i + 1).drop_last() =~= migrations@.take(i as int));
        }
        if !seen {
            out.push(i);
        }
        assert(out@.map_values(|k: usize| k as int) =~= pending_positions(migrations@.take(i + 1), applied@));
        i += 1;
    }
    assert(migrations@.take(i as int) =~= migrations@);
    out
}

/// Running the pending migrations and recording their versions leaves nothing pending:
/// opening a store twice applies every migration once.
pub proof fn lemma_migrations_idempotent(m: Seq<Migration>, applied: Seq<i64>, after: Seq<i64>)
    requires
        forall|v: i64| applied.contains(v) ==> after.contains(v),
        forall|k: int| pending_positions(m, applied).contains(k) ==> after.contains(m[k].version),
    ensures
        pending_positions(m, after).len() == 0,
    decreases m.len(),
{
    if m.len() > 0 {
        let last = m.len() - 1;
        assert(m.drop_last().len() == last);
        assert forall|k: int| pending_positions(m.drop_last(), applied).contains(k)
            implies after.contains(m.drop_last()[k].version) by {
            lemma_pending_in_range(m.drop_last(), applied, k);
            let rest = pending_positions(m.drop_last(), applied);
            if !applied.contains(m.last().version) {
                assert(pending_positions(m, applied) == rest.push(last));
                let idx = choose|x: int| 0 <= x < rest.len() && rest[x] == k;
                assert(pending_positions(m, applied)[idx] == k);
            }
            assert(pending_positions(m, applied).contains(k));
        }
        lemma_migrations_idempotent(m.drop_last(), applied, after);
        if !applied.contains(m.last().version) {
            let p = pending_positions(m, applied);
            assert(p[p.len() - 1] == last);
            assert(p.contains(last));
        }
    }
}

proof fn lemma_pending_in_range(m: Seq<Migration>, applied: Seq<i64>, k: int)
    requires
        pending_positions(m, applied).contains(k),
    ensures
        0 <= k < m.len(),
    decreases m.len(),
{
    if m.len() > 0 {
        let rest = pending_positions(m.drop_last(), applied);
        if rest.contains(k) {
            lemma_pending_in_range(m.drop_last(), applied, k);
        }
    }
}

/// A store of entities that can be looked up by id.
pub trait Repository {
    type Entity;

    fn get(&self, id: &str) -> Result<Option<Self::Entity>, DomainError>;
}

} // verus!
