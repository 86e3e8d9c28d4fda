use scanhub::migrations::{
    backup_path, migration_sql, plan, start_index, MigrationError, MigrationStep, MIGRATION_COUNT,
};

fn final_index(start: usize, steps: &[MigrationStep]) -> usize {
    steps.iter().fold(start, |acc, s| match s {
        MigrationStep::SetNextIndex(k) => *k,
        _ => acc,
    })
}

fn applied(steps: &[MigrationStep]) -> usize {
    steps.iter().filter(|s| matches!(s, MigrationStep::Apply(_))).count()
}

#[test]
fn start_index_reads_stored_value() {
    assert_eq!(start_index(None), Ok((0, true)));
    assert_eq!(start_index(Some(4)), Ok((4, false)));
    assert_eq!(start_index(Some(-1)), Ok((0, true)));
    assert_eq!(start_index(Some(18)), Ok((18, false)));
    assert_eq!(start_index(Some(19)), Err(MigrationError::StoreAhead));
}

#[test]
fn plan_backs_up_before_each_migration() {
    let p = plan(16);
    assert_eq!(
        p,
        vec![
            MigrationStep::Backup(16),
            MigrationStep::Apply(16),
            MigrationStep::SetNextIndex(17),
            MigrationStep::Backup(17),
            MigrationStep::Apply(17),
            MigrationStep::SetNextIndex(18),
        ]
    );
}

#[test]
fn full_run_applies_every_migration_once() {
    let p = plan(0);
    assert_eq!(p.len(), 3 * MIGRATION_COUNT);
    assert_eq!(applied(&p), MIGRATION_COUNT);
    assert_eq!(final_index(0, &p), MIGRATION_COUNT);
}

#[test]
fn second_run_applies_nothing() {
    let first = plan(0);
    let idx = final_index(0, &first);
    let second = plan(idx);
    assert_eq!(applied(&second), 0);
    assert_eq!(final_index(idx, &second), idx);
    assert!(plan(MIGRATION_COUNT + 5).is_empty());
    let (restart, create) = start_index(Some(idx as i64)).unwrap();
    assert!(!create);
    assert!(plan(restart).is_empty());
}

#[test]
fn migration_statements_exist_for_each_index() {
    assert_eq!(MIGRATION_COUNT, 18);
    for i in 0..MIGRATION_COUNT {
        assert!(migration_sql(i).is_some());
    }
    assert!(migration_sql(MIGRATION_COUNT).is_none());
    assert_eq!(migration_sql(0), Some("CREATE SEQUENCE seq_scans_id START 1;"));
    assert_eq!(
        migration_sql(16),
        Some("UPDATE scans SET original_path = path WHERE original_path IS NULL;")
    );
}

#[test]
fn backup_path_is_tagged_with_index() {
    assert_eq!(backup_path("./db.duckdb", 3), "./db.duckdb.pre-3-backup");
    assert_eq!(backup_path("x", 17), "x.pre-17-backup");
}
