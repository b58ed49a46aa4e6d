//! The connection state machine, driven end to end against a real
//! in-memory database.

use lantern::connection::{
    on_frame, on_live_result, on_migration_db_result, on_migration_files_result, on_open, on_ping,
    on_reader_result, on_refresh, on_writer_result, ConnState, Effect,
};
use lantern::protocol::{encode_response, response_is_fatal};
use lantern::user_db::{DbMigration, UserDb};

fn fresh_db() -> UserDb {
    let db = UserDb::open(":memory:").unwrap();
    db.ensure_initialized().unwrap();
    db
}

#[test]
fn unauthenticated_open_is_fatal_and_frames_are_dropped() {
    let mut st = ConnState::start(false);
    let effs = on_open(&st);
    assert_eq!(effs.len(), 2);
    match &effs[0] {
        Effect::Send(r) => {
            assert!(response_is_fatal(r));
            assert_eq!(
                encode_response(r),
                "{\"type\":\"FatalError\",\"id\":\"server_authentication_required\",\"error\":\"authentication_required\",\"message\":\"Authentication required\"}"
            );
        }
        other => panic!("wrong effect: {:?}", effect_name(other)),
    }
    assert!(matches!(effs[1], Effect::Stop));
    // whatever arrives afterwards is discarded silently
    assert!(on_frame(&mut st, "{\"type\":\"Nop\",\"id\":\"x\"}").is_empty());
    assert!(on_ping(&st, vec![1, 2]).is_empty());
}

#[test]
fn authenticated_open_says_hello_and_answers_ping() {
    let st = ConnState::start(true);
    let effs = on_open(&st);
    assert_eq!(effs.len(), 1);
    match &effs[0] {
        Effect::Send(r) => {
            assert_eq!(encode_response(r), "{\"type\":\"Hello\",\"id\":\"server_hello\"}");
        }
        other => panic!("wrong effect: {:?}", effect_name(other)),
    }
    let pongs = on_ping(&st, vec![9, 9]);
    assert_eq!(pongs.len(), 1);
    assert!(matches!(&pongs[0], Effect::Pong(p) if p == &vec![9u8, 9u8]));
}

fn effect_name(e: &Effect) -> &'static str {
    match e {
        Effect::Send(_) => "Send",
        Effect::Pong(_) => "Pong",
        Effect::Stop => "Stop",
        Effect::ReadQuery { .. } => "ReadQuery",
        Effect::WriteQuery { .. } => "WriteQuery",
        Effect::RunLive { .. } => "RunLive",
        Effect::ApplyMigration { .. } => "ApplyMigration",
        Effect::CallHttp { .. } => "CallHttp",
        Effect::Refresh => "Refresh",
        Effect::PersistMigration { .. } => "PersistMigration",
    }
}

#[test]
fn echo_round_trip() {
    let mut st = ConnState::start(true);
    let effs = on_frame(&mut st, "{\"type\":\"Echo\",\"id\":\"a\",\"text\":\"hi\"}");
    assert_eq!(effs.len(), 1);
    match &effs[0] {
        Effect::Send(r) => {
            assert_eq!(encode_response(r), "{\"type\":\"Echo\",\"id\":\"a\",\"text\":\"hi\"}");
        }
        other => panic!("wrong effect: {:?}", effect_name(other)),
    }
    let nops = on_frame(&mut st, "{\"type\":\"Nop\",\"id\":\"n\"}");
    match &nops[0] {
        Effect::Send(r) => {
            assert_eq!(encode_response(r), "{\"type\":\"Nop\",\"id\":\"n\"}");
        }
        other => panic!("wrong effect: {:?}", effect_name(other)),
    }
}

#[test]
fn unparsable_frames_answer_channel_error() {
    let mut st = ConnState::start(true);
    for bad in ["{oops", "[1,2]", "{\"type\":\"Echo\",\"id\":\"a\"}", "{\"type\":\"Nope\",\"id\":\"a\"}"] {
        let effs = on_frame(&mut st, bad);
        assert_eq!(effs.len(), 1);
        match &effs[0] {
            Effect::Send(r) => {
                assert_eq!(
                    encode_response(r),
                    "{\"type\":\"ChannelError\",\"message\":\"Failed to parse request.\"}"
                );
            }
            other => panic!("wrong effect: {:?}", effect_name(other)),
        }
    }
}

#[test]
fn writer_triggers_exactly_one_live_refresh() {
    // the literal subscribe-write-refresh scenario
    let db = fresh_db();
    db.run_migration(&DbMigration {
        id: String::from("1"),
        query: String::from("CREATE TABLE t(x INT);"),
    })
    .unwrap();
    let mut st = ConnState::start(true);

    // subscribe
    let effs = on_frame(
        &mut st,
        "{\"type\":\"LiveQuery\",\"id\":\"lq1\",\"queries\":{\"all\":{\"query\":\"SELECT COUNT(*) AS c FROM t\",\"arguments\":{}}}}",
    );
    assert_eq!(effs.len(), 1);
    let (id, queries) = match effs.into_iter().next().unwrap() {
        Effect::RunLive { id, queries } => (id, queries),
        other => panic!("wrong effect: {:?}", effect_name(&other)),
    };
    assert_eq!(id, "lq1");
    let first = db.run_live_queries(&queries).unwrap();
    let reply = on_live_result(id, Ok(first));
    match &reply[0] {
        Effect::Send(r) => {
            assert_eq!(
                encode_response(r),
                "{\"type\":\"LiveQuery\",\"id\":\"lq1\",\"results\":{\"all\":[{\"c\":0}]}}"
            );
        }
        other => panic!("wrong effect: {:?}", effect_name(other)),
    }

    // write
    let effs = on_frame(
        &mut st,
        "{\"type\":\"WriterQuery\",\"id\":\"w1\",\"query\":{\"query\":\"INSERT INTO t(x) VALUES (:v)\",\"arguments\":{\":v\":\"1\"}}}",
    );
    assert_eq!(effs.len(), 1);
    let (wid, wq) = match effs.into_iter().next().unwrap() {
        Effect::WriteQuery { id, query } => (id, query),
        other => panic!("wrong effect: {:?}", effect_name(&other)),
    };
    let wres = db.run_writer_query(&wq);
    let effs = on_writer_result(wid, wres);
    assert_eq!(effs.len(), 2);
    match &effs[0] {
        Effect::Send(r) => {
            assert_eq!(
                encode_response(r),
                "{\"type\":\"WriterQuery\",\"id\":\"w1\",\"results\":{\"changed_rows\":1,\"last_insert_rowid\":1}}"
            );
        }
        other => panic!("wrong effect: {:?}", effect_name(other)),
    }
    assert!(matches!(effs[1], Effect::Refresh));

    // the refresh re-runs the remembered subscription under its id
    let refresh = on_refresh(&st);
    let (rid, rqueries) = match refresh {
        Effect::RunLive { id, queries } => (id, queries),
        other => panic!("wrong effect: {:?}", effect_name(&other)),
    };
    assert_eq!(rid, "lq1");
    let second = db.run_live_queries(&rqueries).unwrap();
    let reply = on_live_result(rid, Ok(second));
    assert_eq!(reply.len(), 1);
    match &reply[0] {
        Effect::Send(r) => {
            assert_eq!(
                encode_response(r),
                "{\"type\":\"LiveQuery\",\"id\":\"lq1\",\"results\":{\"all\":[{\"c\":1}]}}"
            );
        }
        other => panic!("wrong effect: {:?}", effect_name(other)),
    }
}

#[test]
fn refresh_without_subscription_uses_empty_id_and_queries() {
    let db = fresh_db();
    let st = ConnState::start(true);
    let (id, queries) = match on_refresh(&st) {
        Effect::RunLive { id, queries } => (id, queries),
        other => panic!("wrong effect: {:?}", effect_name(&other)),
    };
    assert_eq!(id, "");
    assert!(queries.0.is_empty());
    let results = db.run_live_queries(&queries).unwrap();
    let reply = on_live_result(id, Ok(results));
    match &reply[0] {
        Effect::Send(r) => {
            assert_eq!(
                encode_response(r),
                "{\"type\":\"LiveQuery\",\"id\":\"\",\"results\":{}}"
            );
        }
        other => panic!("wrong effect: {:?}", effect_name(other)),
    }
}

#[test]
fn migration_flow_writes_files_after_refresh() {
    let db = fresh_db();
    let mut st = ConnState::start(true);
    let effs = on_frame(
        &mut st,
        "{\"type\":\"Migration\",\"id\":\"x\",\"ddl\":\"CREATE TABLE u(a TEXT);\"}",
    );
    assert_eq!(effs.len(), 1);
    let (id, migration) = match effs.into_iter().next().unwrap() {
        Effect::ApplyMigration { id, migration } => (id, migration),
        other => panic!("wrong effect: {:?}", effect_name(&other)),
    };
    assert_eq!(id, "x");
    assert_eq!(migration.query, "CREATE TABLE u(a TEXT);");
    assert_eq!(migration.id.len(), 14);
    assert!(migration.id.chars().all(|c| c.is_ascii_digit()));

    let dbres = db.run_migration(&migration);
    let effs = on_migration_db_result(id, migration, dbres);
    assert_eq!(effs.len(), 2);
    assert!(matches!(effs[0], Effect::Refresh));
    let (pid, pm) = match effs.into_iter().nth(1).unwrap() {
        Effect::PersistMigration { id, migration } => (id, migration),
        other => panic!("wrong effect: {:?}", effect_name(&other)),
    };
    assert_eq!(pm.query, "CREATE TABLE u(a TEXT);");

    // the runtime wrote the file and the snapshot: the client gets its reply
    let done = on_migration_files_result(pid, Ok(()));
    match &done[0] {
        Effect::Send(r) => {
            assert_eq!(encode_response(r), "{\"type\":\"Migration\",\"id\":\"x\"}");
        }
        other => panic!("wrong effect: {:?}", effect_name(other)),
    }

    // the table exists and the migration is recorded
    let rows = db
        .run_reader_query(&lantern::user_db::ReaderQuery {
            query: String::from("SELECT a FROM u"),
            arguments: vec![],
        })
        .unwrap();
    assert_eq!(rows, lantern::json::JsonValue::Arr(vec![]));
    assert_eq!(db.applied_migrations().unwrap().len(), 1);

    // a failed write comes back as an Error under the request id
    let failed = on_migration_files_result(String::from("x"), Err(String::from("disk full")));
    match &failed[0] {
        Effect::Send(r) => {
            assert_eq!(
                encode_response(r),
                "{\"type\":\"Error\",\"id\":\"x\",\"text\":\"disk full\"}"
            );
        }
        other => panic!("wrong effect: {:?}", effect_name(other)),
    }
}

#[test]
fn reader_flow_and_errors() {
    let db = fresh_db();
    db.run_migration(&DbMigration {
        id: String::from("1"),
        query: String::from("CREATE TABLE t(x INT);"),
    })
    .unwrap();
    let mut st = ConnState::start(true);
    let effs = on_frame(
        &mut st,
        "{\"type\":\"ReaderQuery\",\"id\":\"r1\",\"query\":{\"query\":\"SELECT x FROM t\",\"arguments\":{}}}",
    );
    let (id, query) = match effs.into_iter().next().unwrap() {
        Effect::ReadQuery { id, query } => (id, query),
        other => panic!("wrong effect: {:?}", effect_name(&other)),
    };
    let reply = on_reader_result(id, db.run_reader_query(&query));
    match &reply[0] {
        Effect::Send(r) => {
            assert_eq!(
                encode_response(r),
                "{\"type\":\"ReaderQuery\",\"id\":\"r1\",\"results\":[]}"
            );
        }
        other => panic!("wrong effect: {:?}", effect_name(other)),
    }
    // a failing query surfaces as Error under the same id
    let bad = lantern::user_db::ReaderQuery {
        query: String::from("SELECT nope FROM nowhere"),
        arguments: vec![],
    };
    let reply = on_reader_result(String::from("r2"), db.run_reader_query(&bad));
    match &reply[0] {
        Effect::Send(r) => {
            let text = encode_response(r);
            assert!(text.starts_with("{\"type\":\"Error\",\"id\":\"r2\",\"text\":\""));
        }
        other => panic!("wrong effect: {:?}", effect_name(other)),
    }
}

#[test]
fn a_new_subscription_replaces_the_old_one() {
    let mut st = ConnState::start(true);
    let effs = on_frame(
        &mut st,
        "{\"type\":\"LiveQuery\",\"id\":\"lq1\",\"queries\":{\"a\":{\"query\":\"SELECT 1 AS one\",\"arguments\":{}}}}",
    );
    assert!(matches!(&effs[0], Effect::RunLive { .. }));
    let effs = on_frame(
        &mut st,
        "{\"type\":\"LiveQuery\",\"id\":\"lq2\",\"queries\":{\"b\":{\"query\":\"SELECT 2 AS two\",\"arguments\":{}}}}",
    );
    assert!(matches!(&effs[0], Effect::RunLive { .. }));
    // the refresh now runs only the latest subscription, under its id
    let (id, queries) = match on_refresh(&st) {
        Effect::RunLive { id, queries } => (id, queries),
        other => panic!("wrong effect: {:?}", effect_name(&other)),
    };
    assert_eq!(id, "lq2");
    assert_eq!(queries.0.len(), 1);
    assert_eq!(queries.0[0].0, "b");
    assert_eq!(queries.0[0].1.query, "SELECT 2 AS two");
}
