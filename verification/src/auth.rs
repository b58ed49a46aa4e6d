//! Authentication: password checking, token generation, session creation
//! and session resolution.

use vstd::prelude::*;
use vstd::string::*;

use crate::err::DbErr;
use crate::lantern_db::{CreateSession, Session};
use crate::util::str_concat;

verus! {

/// Why a request carries no session.
#[derive(Debug)]
pub enum SessionError {
    InternalError(String),
    AuthenticationError(String),
}

/// Process-wide authentication state: the bypass flag, and the salt and
/// scrypt hash of the master password.
pub struct AuthConfig {
    pub skip_auth: bool,
    pub password_salt: String,
    pub password_hash: String,
}

/// What scrypt's verifier accepts: a function of the secret and the PHC
/// hash string alone.
pub uninterp spec fn scrypt_accepts(secret: Seq<char>, hash: Seq<char>) -> bool;

/// Relies on scrypt's password-hash verification (Scrypt as a
/// PasswordVerifier): acceptance is decided by the secret and the PHC hash
/// string alone, and an unparsable hash accepts nothing.
#[verifier::external_body]
fn scrypt_verify(secret: &str, hash: &str) -> (r: bool)
    ensures
        r == scrypt_accepts(secret@, hash@),
{
    match scrypt::password_hash::PasswordHash::new(hash) {
        Ok(parsed) => scrypt::password_hash::PasswordVerifier::verify_password(
            &scrypt::Scrypt,
            secret.as_bytes(),
            &parsed,
        ).is_ok(),
        Err(_) => false,
    }
}

/// Relies on scrypt's PasswordHasher: a hash it produces verifies against
/// the same secret.
#[verifier::external_body]
fn scrypt_hash(secret: &str, salt_b64: &str, log_n: u8, r_cost: u32, par: u32) -> (h: Option<
    String,
>)
    ensures
        h matches Some(s) ==> scrypt_accepts(secret@, s@),
{
    let params = scrypt::Params::new(log_n, r_cost, par, 32).ok()?;
    let salt = scrypt::password_hash::SaltString::from_b64(salt_b64).ok()?;
    let hashed = scrypt::password_hash::PasswordHasher::hash_password_customized(
        &scrypt::Scrypt, secret.as_bytes(), None, None, params, &salt,
    ).ok()?;
    Some(hashed.to_string())
}

/// An ASCII digit or letter.
pub open spec fn is_alnum(c: char) -> bool {
    (48 <= c as int && c as int <= 57) || (65 <= c as int && c as int <= 90) || (97 <= c as int
        && c as int <= 122)
}

/// Relies on rand's Alphanumeric distribution over thread_rng: every
/// sampled byte is an ASCII digit or letter.
#[verifier::external_body]
fn random_alnum_byte() -> (b: u8)
    ensures
        is_alnum(b as char),
{
    rand::Rng::sample(&mut rand::thread_rng(), rand::distributions::Alphanumeric)
}

/// A fresh random token: `length` ASCII digits and letters.
pub fn random_token(length: usize) -> (s: String)
    ensures
        s@.len() == length,
        forall|i: int| 0 <= i < s@.len() ==> is_alnum(#[trigger] s@[i]),
{
    let mut out: Vec<char> = Vec::new();
    let mut i: usize = 0;
    while i < length
        invariant
            0 <= i <= length,
            out@.len() == i,
            forall|j: int| 0 <= j < i ==> is_alnum(#[trigger] out@[j]),
        decreases length - i,
    {
        let b = random_alnum_byte();
        out.push(b as char);
        i = i + 1;
    }
    crate::json::chars_to_string(&out)
}

/// The scrypt cost parameters of the password scheme: N = 2^10, r = 8, p = 1.
pub const SCRYPT_LOG_N: u8 = 10;

pub const SCRYPT_R: u32 = 8;

pub const SCRYPT_P: u32 = 1;

/// Hashes `salt || password` under the password scheme, with a fresh
/// random PHC salt. `None` only if the hasher refuses its inputs.
pub fn hash_password(password: &str, salt: &str) -> (h: Option<String>)
    ensures
        h matches Some(s) ==> scrypt_accepts(salt@ + password@, s@),
{
    let secret = str_concat(salt, password);
    let phc_salt = random_token(24);
    scrypt_hash(secret.as_str(), phc_salt.as_str(), SCRYPT_LOG_N, SCRYPT_R, SCRYPT_P)
}

/// Whether `salt || password` verifies against the stored hash.
pub fn is_valid_password(password: &str, salt: &str, password_hash: &str) -> (r: bool)
    ensures
        r == scrypt_accepts(salt@ + password@, password_hash@),
{
    let secret = str_concat(salt, password);
    scrypt_verify(secret.as_str(), password_hash)
}

/// Seconds in 365 days: the lifetime of a session.
pub const SESSION_LIFETIME_SECS: i64 = 31536000;

/// Seconds in one day: the lifetime of the synthetic bypass session.
pub const BYPASS_LIFETIME_SECS: i64 = 86400;

/// The auth endpoint's decision: with the bypass on, or with the right
/// password, a fresh 128-character session starting now and expiring 365
/// days later; otherwise nothing (the caller answers 422).
pub fn begin_session(cfg: &AuthConfig, password: &str, now: i64) -> (r: Option<CreateSession>)
    requires
        now + SESSION_LIFETIME_SECS <= i64::MAX,
    ensures
        r is Some <==> (cfg.skip_auth || scrypt_accepts(
            cfg.password_salt@ + password@,
            cfg.password_hash@,
        )),
        r matches Some(cs) ==> {
            &&& cs.started_at == now
            &&& cs.expires_at == now + SESSION_LIFETIME_SECS
            &&& cs.session_token@.len() == 128
            &&& forall|i: int|
                0 <= i < cs.session_token@.len() ==> is_alnum(#[trigger] cs.session_token@[i])
        },
{
    if cfg.skip_auth || is_valid_password(
        password,
        cfg.password_salt.as_str(),
        cfg.password_hash.as_str(),
    ) {
        let session_token = random_token(128);
        Some(CreateSession { session_token, started_at: now, expires_at: now + SESSION_LIFETIME_SECS })
    } else {
        None
    }
}

/// The session gate's decision, given what the auth database answered.
/// With the bypass on, a synthetic one-day session; otherwise a lookup
/// failure is internal, an absent session demands authentication, and a
/// present one is returned as is.
pub fn resolve_session(skip_auth: bool, now: i64, lookup: Result<Option<Session>, DbErr>) -> (r:
    Result<Session, SessionError>)
    requires
        skip_auth ==> now + BYPASS_LIFETIME_SECS <= i64::MAX,
    ensures
        skip_auth ==> (r matches Ok(s) && s.id == 42 && s.session_token@ == "magic"@
            && s.started_at == now && s.expires_at == now + BYPASS_LIFETIME_SECS),
        !skip_auth ==> match lookup {
            Ok(Some(s)) => r == Ok::<Session, SessionError>(s),
            Ok(None) => (r matches Err(e) && e matches SessionError::AuthenticationError(m)
                && m@ == "Authentication required"@),
            Err(db) => (r matches Err(e) && e matches SessionError::InternalError(m) && m@
                == "Query execution error: "@ + db.message@),
        },
{
    if skip_auth {
        return Ok(
            Session {
                id: 42,
                session_token: String::from_str("magic"),
                started_at: now,
                expires_at: now + BYPASS_LIFETIME_SECS,
            },
        );
    }
    match lookup {
        Ok(Some(s)) => Ok(s),
        Ok(None) => Err(
            SessionError::AuthenticationError(String::from_str("Authentication required")),
        ),
        Err(db) => Err(
            SessionError::InternalError(
                str_concat("Query execution error: ", db.message.as_str()),
            ),
        ),
    }
}

} // verus!
