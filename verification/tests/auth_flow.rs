//! Passwords, tokens, session creation and the session gate.

use lantern::auth::{
    begin_session, hash_password, is_valid_password, random_token, resolve_session, AuthConfig,
    SessionError,
};
use lantern::err::DbErr;
use lantern::lantern_db::{CreateSession, LanternDb, LookupActiveSession, Session};

#[test]
fn password_hash_round_trip() {
    let salt = String::from("pepper01");
    let hash = hash_password("sesame", &salt).unwrap();
    assert!(is_valid_password("sesame", &salt, &hash));
    assert!(!is_valid_password("SESAME", &salt, &hash));
    assert!(!is_valid_password("sesame", "othersalt", &hash));
    assert!(!is_valid_password("sesame", &salt, "not a phc hash"));
}

#[test]
fn tokens_are_long_and_alphanumeric() {
    let t = random_token(128);
    assert_eq!(t.chars().count(), 128);
    assert!(t.chars().all(|c| c.is_ascii_alphanumeric()));
    assert_ne!(random_token(128), random_token(128));
    assert_eq!(random_token(0), "");
}

#[test]
fn begin_session_decides_by_password_or_bypass() {
    let salt = String::from("pepper01");
    let hash = hash_password("right", &salt).unwrap();
    let cfg = AuthConfig {
        skip_auth: false,
        password_salt: salt.clone(),
        password_hash: hash.clone(),
    };
    let now = 1000000;
    let session = begin_session(&cfg, "right", now).unwrap();
    assert_eq!(session.started_at, now);
    assert_eq!(session.expires_at, now + 31536000);
    assert_eq!(session.session_token.len(), 128);
    assert!(begin_session(&cfg, "wrong", now).is_none());

    let bypass = AuthConfig {
        skip_auth: true,
        password_salt: salt,
        password_hash: hash,
    };
    assert!(begin_session(&bypass, "anything", now).is_some());
}

#[test]
fn gate_resolution() {
    // bypass: the synthetic one-day session
    let s = resolve_session(true, 500, Err(DbErr { message: String::from("down") })).unwrap();
    assert_eq!(s.id, 42);
    assert_eq!(s.session_token, "magic");
    assert_eq!(s.started_at, 500);
    assert_eq!(s.expires_at, 500 + 86400);

    // an absent session demands authentication
    match resolve_session(false, 500, Ok(None)) {
        Err(SessionError::AuthenticationError(m)) => assert_eq!(m, "Authentication required"),
        other => panic!("wrong outcome: {:?}", other),
    }

    // a lookup failure is internal
    match resolve_session(false, 500, Err(DbErr { message: String::from("down") })) {
        Err(SessionError::InternalError(m)) => {
            assert_eq!(m, "Query execution error: down")
        }
        other => panic!("wrong outcome: {:?}", other),
    }

    // a present session comes back as is
    let live = Session {
        id: 7,
        session_token: String::from("tok"),
        started_at: 1,
        expires_at: 2,
    };
    let got = resolve_session(false, 500, Ok(Some(live))).unwrap();
    assert_eq!(got.id, 7);
    assert_eq!(got.session_token, "tok");
}

#[test]
fn sessions_expire_in_the_database() {
    let db = LanternDb::open(":memory:").unwrap();
    db.ensure_schema().unwrap();
    db.ensure_schema().unwrap();  // idempotent
    db.create_session(&CreateSession {
        session_token: String::from("tok"),
        started_at: 100,
        expires_at: 200,
    })
    .unwrap();

    let hit = db
        .lookup_active_session(&LookupActiveSession {
            session_token: String::from("tok"),
            now: 150,
        })
        .unwrap();
    let s = hit.unwrap();
    assert_eq!(s.session_token, "tok");
    assert_eq!(s.started_at, 100);
    assert_eq!(s.expires_at, 200);

    // expired at its boundary and after it
    assert!(db
        .lookup_active_session(&LookupActiveSession {
            session_token: String::from("tok"),
            now: 200,
        })
        .unwrap()
        .is_none());
    // unknown token
    assert!(db
        .lookup_active_session(&LookupActiveSession {
            session_token: String::from("other"),
            now: 150,
        })
        .unwrap()
        .is_none());
}
