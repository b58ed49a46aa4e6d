//! The database engine against a real in-memory SQLite database.

use lantern::json::{json_to_string, JsonValue};
use lantern::user_db::{DbMigration, LiveQueries, ReaderQuery, UserDb, WriterQuery};

fn fresh_db() -> UserDb {
    let db = UserDb::open(":memory:").unwrap();
    db.ensure_initialized().unwrap();
    db
}

fn reader(sql: &str, args: Vec<(&str, Option<&str>)>) -> ReaderQuery {
    ReaderQuery {
        query: String::from(sql),
        arguments: args
            .into_iter()
            .map(|(n, v)| (String::from(n), v.map(String::from)))
            .collect(),
    }
}

fn writer(sql: &str, args: Vec<(&str, Option<&str>)>) -> WriterQuery {
    WriterQuery {
        query: String::from(sql),
        arguments: args
            .into_iter()
            .map(|(n, v)| (String::from(n), v.map(String::from)))
            .collect(),
    }
}

#[test]
fn reader_before_writer_returns_empty_array() {
    let db = fresh_db();
    let m = DbMigration {
        id: String::from("1"),
        query: String::from("CREATE TABLE t(x INT);"),
    };
    assert_eq!(db.run_migration(&m).unwrap(), true);
    let rows = db.run_reader_query(&reader("SELECT x FROM t", vec![])).unwrap();
    assert_eq!(rows, JsonValue::Arr(vec![]));
}

#[test]
fn row_cells_follow_the_encoding_rules() {
    let db = fresh_db();
    let m = DbMigration {
        id: String::from("1"),
        query: String::from("CREATE TABLE t(i INT, r REAL, s TEXT, b BLOB, n INT);"),
    };
    db.run_migration(&m).unwrap();
    let w = writer(
        "INSERT INTO t(i, r, s, b, n) VALUES (7, 1.5, 'hey', X'686921', NULL)",
        vec![],
    );
    let res = db.run_writer_query(&w).unwrap();
    assert_eq!(res.changed_rows, 1);
    assert_eq!(res.last_insert_rowid, 1);
    let rows = db
        .run_reader_query(&reader("SELECT i, r, s, b, n FROM t", vec![]))
        .unwrap();
    let expected = JsonValue::Arr(vec![JsonValue::Obj(vec![
        (String::from("i"), JsonValue::Int(7)),
        (String::from("r"), JsonValue::Num(String::from("1.5"))),
        (String::from("s"), JsonValue::Str(String::from("hey"))),
        (String::from("b"), JsonValue::Str(String::from("hi!"))),
        (String::from("n"), JsonValue::Null),
    ])]);
    assert_eq!(rows, expected);
    assert_eq!(
        json_to_string(&rows),
        "[{\"i\":7,\"r\":1.5,\"s\":\"hey\",\"b\":\"hi!\",\"n\":null}]"
    );
}

#[test]
fn named_arguments_bind_missing_null_extra_ignored() {
    let db = fresh_db();
    db.run_migration(&DbMigration {
        id: String::from("1"),
        query: String::from("CREATE TABLE t(a TEXT, b TEXT);"),
    })
    .unwrap();
    // :b is not supplied: it binds NULL. :zz is not in the statement: ignored.
    let w = writer(
        "INSERT INTO t(a, b) VALUES (:a, :b)",
        vec![(":a", Some("one")), (":zz", Some("junk"))],
    );
    assert_eq!(db.run_writer_query(&w).unwrap().changed_rows, 1);
    let rows = db
        .run_reader_query(&reader("SELECT a, b FROM t", vec![]))
        .unwrap();
    assert_eq!(
        rows,
        JsonValue::Arr(vec![JsonValue::Obj(vec![
            (String::from("a"), JsonValue::Str(String::from("one"))),
            (String::from("b"), JsonValue::Null),
        ])])
    );
    // a NULL argument binds NULL explicitly
    let w2 = writer(
        "INSERT INTO t(a, b) VALUES (:a, :b)",
        vec![(":a", None), (":b", Some("two"))],
    );
    assert_eq!(db.run_writer_query(&w2).unwrap().changed_rows, 1);
}

#[test]
fn writer_rejects_multi_statement_input() {
    let db = fresh_db();
    db.run_migration(&DbMigration {
        id: String::from("1"),
        query: String::from("CREATE TABLE t(x INT);"),
    })
    .unwrap();
    let w = writer("INSERT INTO t VALUES (1); INSERT INTO t VALUES (2);", vec![]);
    assert!(db.run_writer_query(&w).is_err());
    let rows = db
        .run_reader_query(&reader("SELECT COUNT(*) AS c FROM t", vec![]))
        .unwrap();
    assert_eq!(
        rows,
        JsonValue::Arr(vec![JsonValue::Obj(vec![(String::from("c"), JsonValue::Int(0))])])
    );
}

#[test]
fn migration_is_atomic() {
    let db = fresh_db();
    // the second statement fails: the first must roll back with it
    let bad = DbMigration {
        id: String::from("9"),
        query: String::from("CREATE TABLE good(x INT); CREATE TABLE good(x INT);"),
    };
    assert!(db.run_migration(&bad).is_err());
    assert_eq!(db.applied_migrations().unwrap(), Vec::<i64>::new());
    let rows = db.run_reader_query(&reader(
        "SELECT name FROM sqlite_master WHERE name='good'",
        vec![],
    ));
    assert_eq!(rows.unwrap(), JsonValue::Arr(vec![]));
    // a duplicate version fails and leaves the schema unchanged
    db.run_migration(&DbMigration {
        id: String::from("1"),
        query: String::from("CREATE TABLE t(x INT);"),
    })
    .unwrap();
    let dup = DbMigration {
        id: String::from("1"),
        query: String::from("CREATE TABLE u(y INT);"),
    };
    assert!(db.run_migration(&dup).is_err());
    assert_eq!(db.applied_migrations().unwrap(), vec![1]);
    let u = db.run_reader_query(&reader(
        "SELECT name FROM sqlite_master WHERE name='u'",
        vec![],
    ));
    assert_eq!(u.unwrap(), JsonValue::Arr(vec![]));
}

#[test]
fn live_queries_run_in_order_and_abort_on_failure() {
    let db = fresh_db();
    db.run_migration(&DbMigration {
        id: String::from("1"),
        query: String::from("CREATE TABLE t(x INT);"),
    })
    .unwrap();
    let lq = LiveQueries(vec![
        (
            String::from("all"),
            reader("SELECT COUNT(*) AS c FROM t", vec![]),
        ),
        (String::from("one"), reader("SELECT 1 AS one", vec![])),
    ]);
    let results = db.run_live_queries(&lq).unwrap();
    assert_eq!(results.0.len(), 2);
    assert_eq!(results.0[0].0, "all");
    assert_eq!(
        results.0[0].1,
        JsonValue::Arr(vec![JsonValue::Obj(vec![(String::from("c"), JsonValue::Int(0))])])
    );
    assert_eq!(results.0[1].0, "one");
    let failing = LiveQueries(vec![(
        String::from("bad"),
        reader("SELECT nope FROM nowhere", vec![]),
    )]);
    assert!(db.run_live_queries(&failing).is_err());
}

#[test]
fn schema_dump_shape() {
    let db = fresh_db();
    db.run_migration(&DbMigration {
        id: String::from("4"),
        query: String::from("CREATE TABLE t(x INT);"),
    })
    .unwrap();
    let dump = db.dump_schema().unwrap();
    assert!(dump.contains("CREATE TABLE t(x INT)"));
    assert!(dump.ends_with("INSERT INTO schema_migrations (version) VALUES (4);\n\n"));
    // every object's DDL is terminated by ;\n\n before the trailing insert
    assert!(dump.contains("CREATE TABLE t(x INT);\n\n"));
}

#[test]
fn track_and_applied_migrations() {
    let db = fresh_db();
    db.track_migration(5).unwrap();
    db.track_migration(3).unwrap();
    assert_eq!(db.applied_migrations().unwrap(), vec![3, 5]);
    assert!(!db.is_new_db().unwrap());
    let fresh = UserDb::open(":memory:").unwrap();
    assert!(fresh.is_new_db().unwrap());
}

#[test]
fn unrepresentable_cells_are_internal_errors() {
    let db = fresh_db();
    // an infinite REAL has no JSON number
    let inf = db.run_reader_query(&reader("SELECT 1e999 AS x", vec![]));
    match inf {
        Err(e) => assert_eq!(e.message, "internal error: unrepresentable cell value"),
        Ok(v) => panic!("expected an error, got {:?}", v),
    }
    // a blob that is not UTF-8 cannot become a string
    let bad = db.run_reader_query(&reader("SELECT X'FF' AS b", vec![]));
    match bad {
        Err(e) => assert_eq!(e.message, "internal error: unrepresentable cell value"),
        Ok(v) => panic!("expected an error, got {:?}", v),
    }
    // a well-formed UTF-8 blob is fine
    let ok = db
        .run_reader_query(&reader("SELECT X'6869' AS b", vec![]))
        .unwrap();
    assert_eq!(
        ok,
        JsonValue::Arr(vec![JsonValue::Obj(vec![(
            String::from("b"),
            JsonValue::Str(String::from("hi")),
        )])])
    );
}
