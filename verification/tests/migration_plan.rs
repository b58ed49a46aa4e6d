//! Filename discipline, version ordering, and the reconciliation plan.

use lantern::migrations::{
    migration_file_name, parse_migration_filename, plan_migrations, sort_versions, MigrationAction,
};
use lantern::user_db::{DbMigration, UserDb};

#[test]
fn filename_discipline() {
    assert_eq!(parse_migration_filename("abc.sql").unwrap(), None);
    assert_eq!(parse_migration_filename("12a.sql").unwrap(), None);
    assert_eq!(
        parse_migration_filename("20240101000000.sql").unwrap(),
        Some(20240101000000)
    );
    assert_eq!(parse_migration_filename("5.sql").unwrap(), Some(5));
    assert_eq!(parse_migration_filename(".sql").unwrap(), None);
    assert_eq!(parse_migration_filename("5.SQL").unwrap(), None);
    assert_eq!(parse_migration_filename("5.sqlite").unwrap(), None);
    assert_eq!(parse_migration_filename("").unwrap(), None);
    // a digits-only name whose value overflows an i64 fails startup
    assert!(parse_migration_filename("99999999999999999999.sql").is_err());
}

#[test]
fn filenames_round_trip() {
    assert_eq!(migration_file_name(5), "5.sql");
    assert_eq!(migration_file_name(20240101000000), "20240101000000.sql");
    assert_eq!(
        parse_migration_filename(&migration_file_name(987654321)).unwrap(),
        Some(987654321)
    );
}

#[test]
fn versions_sort_ascending() {
    let sorted = sort_versions(vec![6, 3, 4, 3]);
    assert_eq!(sorted, vec![3, 3, 4, 6]);
    assert_eq!(sort_versions(vec![]), Vec::<i64>::new());
}

#[test]
fn plan_skips_records_and_applies() {
    // a fresh database restored from a snapshot whose high-water mark is 5
    let applied = vec![5];
    let plan = plan_migrations(true, &applied, &vec![3, 4, 5, 6]);
    assert_eq!(
        plan,
        vec![
            (3, MigrationAction::RecordOnly),
            (4, MigrationAction::RecordOnly),
            (5, MigrationAction::Skip),
            (6, MigrationAction::Apply),
        ]
    );
    // on an existing database nothing is recorded silently
    let plan2 = plan_migrations(false, &applied, &vec![3, 4, 5, 6]);
    assert_eq!(
        plan2,
        vec![
            (3, MigrationAction::Apply),
            (4, MigrationAction::Apply),
            (5, MigrationAction::Skip),
            (6, MigrationAction::Apply),
        ]
    );
}

#[test]
fn snapshot_reconciliation_end_to_end() {
    // first run: one migration recorded as version 5, then a snapshot
    let first = UserDb::open(":memory:").unwrap();
    first.ensure_initialized().unwrap();
    first
        .run_migration(&DbMigration {
            id: String::from("5"),
            query: String::from("CREATE TABLE x(a INT);"),
        })
        .unwrap();
    let snapshot = first.dump_schema().unwrap();

    // second run: a brand-new database bootstrapped from that snapshot
    let second = UserDb::open(":memory:").unwrap();
    assert!(second.is_new_db().unwrap());
    second.load_schema(&snapshot).unwrap();
    let applied = second.applied_migrations().unwrap();
    assert_eq!(applied, vec![5]);

    // on-disk files 3, 4 and 6: 3 and 4 are recorded without executing,
    // 6 is applied
    let files = sort_versions(vec![6, 3, 4]);
    let plan = plan_migrations(true, &applied, &files);
    for (version, action) in plan {
        match action {
            MigrationAction::Skip => {}
            MigrationAction::RecordOnly => {
                second.track_migration(version).unwrap();
            }
            MigrationAction::Apply => {
                assert_eq!(version, 6);
                second
                    .run_migration(&DbMigration {
                        id: String::from("6"),
                        query: String::from("CREATE TABLE y(b INT);"),
                    })
                    .unwrap();
            }
        }
    }
    assert_eq!(second.applied_migrations().unwrap(), vec![3, 4, 5, 6]);
    // 3 and 4 were never executed: only x and y exist
    let dump = second.dump_schema().unwrap();
    assert!(dump.contains("CREATE TABLE x(a INT)"));
    assert!(dump.contains("CREATE TABLE y(b INT)"));
    assert!(dump.ends_with("INSERT INTO schema_migrations (version) VALUES (6);\n\n"));
}
