//! Lantern: a verified core for a single-user SQL-over-WebSocket backend.
//!
//! The library holds the query/live-subscription engine and the schema
//! migration manager: JSON text encoding, the tagged wire protocol, the
//! row-to-JSON projection, the per-connection state machine, session
//! resolution, and startup reconciliation of on-disk migrations. SQLite,
//! JSON parsing, password hashing and randomness are reached through a
//! small set of trusted declarations; everything around them is verified.

pub mod auth;
pub mod clock;
pub mod connection;
pub mod err;
pub mod json;
pub mod lantern_db;
pub mod migrations;
pub mod num;
pub mod protocol;
pub mod rows;
pub mod sqlite;
pub mod user_db;
pub mod util;
