use daoda_focus::database::{
    check_writable, database_error, lock_error, pending_migrations, state_after_migrations,
    DatabaseState, Migration,
};

fn migration(version: i64, name: &str) -> Migration {
    Migration { version, name: name.into(), sql: String::new() }
}

#[test]
fn migrations_are_idempotent() {
    let all = vec![migration(1, "initial"), migration(2, "notification_deliveries"), migration(3, "weekly_goal_category")];
    let first = pending_migrations(&all, &vec![]);
    assert_eq!(first, vec![0, 1, 2]);
    let applied: Vec<i64> = first.iter().map(|&k| all[k].version).collect();
    assert!(pending_migrations(&all, &applied).is_empty());
}

#[test]
fn only_unapplied_versions_are_pending() {
    let all = vec![migration(1, "a"), migration(2, "b"), migration(4, "c")];
    assert_eq!(pending_migrations(&all, &vec![2]), vec![0, 2]);
}

#[test]
fn failed_migrations_protect_the_store_from_writes() {
    let ready = state_after_migrations(Ok(()));
    assert!(matches!(ready, DatabaseState::Ready));
    assert!(check_writable(&ready).is_ok());
    let protected = state_after_migrations(Err("near \"TABL\": syntax error".into()));
    let error = check_writable(&protected).unwrap_err();
    assert_eq!(error.code, "DATABASE_READ_ONLY");
    assert_eq!(error.message, "near \"TABL\": syntax error");
}

#[test]
fn store_errors_have_stable_codes() {
    assert_eq!(lock_error().code, "DATABASE_LOCK_FAILED");
    let error = database_error("disk I/O error".into());
    assert_eq!(error.code, "DATABASE_ERROR");
    assert_eq!(error.message, "disk I/O error");
}
