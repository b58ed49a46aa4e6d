//! The per-connection state machine.
//!
//! A connection owns its authentication flag, its current live-query
//! subscription and the id of the latest `LiveQuery` request. Every
//! transition takes the state plus one event (an opened socket, an inbound
//! frame, a completed database or HTTP call) and returns the effects the
//! runtime must perform, in order. The runtime performs them and feeds
//! completions back in; it decides nothing itself.

use vstd::prelude::*;
use vstd::string::*;

use crate::clock::timestamp_shaped;
use crate::err::DbErr;
use crate::json::{json_parse_of, parse_json, JsonValue};
use crate::protocol::{
    decode_ws_request, ws_request_of, Request, Response, WsRequest, WsRequestView, WsResponse,
};
use crate::user_db::{
    DbMigration, LiveQueries, LiveResults, ReaderQuery, WriterQuery, WriterQueryResult,
};

verus! {

/// A connection's state.
pub struct ConnState {
    pub authenticated: bool,
    pub live_queries: LiveQueries,
    pub live_query_response_id: String,
}

impl ConnState {
    /// The state at socket open: no subscription, the empty response id.
    pub fn start(authenticated: bool) -> (s: ConnState)
        ensures
            s.authenticated == authenticated,
            s.live_queries@.len() == 0,
            s.live_query_response_id@.len() == 0,
    {
        ConnState {
            authenticated,
            live_queries: LiveQueries(Vec::new()),
            live_query_response_id: String::new(),
        }
    }
}

/// One thing the runtime must do, in order.
pub enum Effect {
    /// Encode the response and send it to the client.
    Send(WsResponse),
    /// Answer a ping with the same payload.
    Pong(Vec<u8>),
    /// Close the connection.
    Stop,
    /// Run a reader query; feed the outcome to `on_reader_result`.
    ReadQuery { id: String, query: ReaderQuery },
    /// Run a writer query; feed the outcome to `on_writer_result`.
    WriteQuery { id: String, query: WriterQuery },
    /// Run the named queries; feed the outcome to `on_live_result`.
    RunLive { id: String, queries: LiveQueries },
    /// Apply a migration; feed the outcome to `on_migration_db_result`.
    ApplyMigration { id: String, migration: DbMigration },
    /// Perform the outbound HTTP request; feed the outcome to `on_http_result`.
    CallHttp { id: String, request: Request },
    /// Enqueue a live-query refresh: call `on_refresh` when dequeued.
    Refresh,
    /// Write the migration file and the fresh schema snapshot; feed the
    /// outcome to `on_migration_files_result`.
    PersistMigration { id: String, migration: DbMigration },
}

/// Exactly one sent `Error{id, text}`.
pub open spec fn error_send_step(id: Seq<char>, text: Seq<char>, effs: Seq<Effect>) -> bool {
    &&& effs.len() == 1
    &&& (effs[0] matches Effect::Send(r) && r matches WsResponse::Error { id: i, text: t } && i@
        == id && t@ == text)
}

/// What opening a socket emits: unauthenticated connections get one
/// `FatalError` and stop; authenticated ones get `Hello`.
pub open spec fn open_step(authenticated: bool, effs: Seq<Effect>) -> bool {
    if authenticated {
        &&& effs.len() == 1
        &&& (effs[0] matches Effect::Send(r) && r matches WsResponse::Hello { id } && id@
            == "server_hello"@)
    } else {
        &&& effs.len() == 2
        &&& (effs[0] matches Effect::Send(r) && r matches WsResponse::FatalError {
            id,
            error,
            message,
        } && id@ == "server_authentication_required"@ && error@ == "authentication_required"@
            && message@ == "Authentication required"@)
        &&& effs[1] == Effect::Stop
    }
}

/// The open transition.
pub fn on_open(st: &ConnState) -> (effs: Vec<Effect>)
    ensures
        open_step(st.authenticated, effs@),
{
    let mut effs: Vec<Effect> = Vec::new();
    if st.authenticated {
        effs.push(
            Effect::Send(WsResponse::Hello { id: String::from_str("server_hello") }),
        );
    } else {
        effs.push(
            Effect::Send(
                WsResponse::FatalError {
                    id: String::from_str("server_authentication_required"),
                    error: String::from_str("authentication_required"),
                    message: String::from_str("Authentication required"),
                },
            ),
        );
        effs.push(Effect::Stop);
    }
    effs
}

/// The ping transition: answered only when authenticated, dropped otherwise.
pub fn on_ping(st: &ConnState, payload: Vec<u8>) -> (effs: Vec<Effect>)
    ensures
        st.authenticated ==> (effs@.len() == 1 && (effs@[0] matches Effect::Pong(p) && p@
            == payload@)),
        !st.authenticated ==> effs@.len() == 0,
{
    let mut effs: Vec<Effect> = Vec::new();
    if st.authenticated {
        effs.push(Effect::Pong(payload));
    }
    effs
}

/// Exactly one sent `ChannelError` carrying the decode-failure message.
pub open spec fn channel_error_step(effs: Seq<Effect>) -> bool {
    &&& effs.len() == 1
    &&& (effs[0] matches Effect::Send(r) && r matches WsResponse::ChannelError { message } &&
        message@ == "Failed to parse request."@)
}

/// What one inbound text frame does, as a relation between the state
/// before, the state after, the parse of the frame, and the effects.
/// Unauthenticated frames are dropped silently; an unparsable or
/// undecodable frame answers `ChannelError`; a `LiveQuery` replaces the
/// subscription; a `Migration` synthesizes a timestamp-identified
/// migration; everything else leaves the state alone.
pub open spec fn frame_step(
    pre: ConnState,
    post: ConnState,
    parsed: Option<JsonValue>,
    effs: Seq<Effect>,
) -> bool {
    if !pre.authenticated {
        post == pre && effs.len() == 0
    } else {
        match parsed {
            Option::None => post == pre && channel_error_step(effs),
            Option::Some(v) => match ws_request_of(v) {
                Option::None => post == pre && channel_error_step(effs),
                Option::Some(req) => frame_request_step(pre, post, req, effs),
            },
        }
    }
}

/// The per-request part of `frame_step`.
pub open spec fn frame_request_step(
    pre: ConnState,
    post: ConnState,
    req: WsRequestView,
    effs: Seq<Effect>,
) -> bool {
    match req {
        WsRequestView::Nop { id } => post == pre && effs.len() == 1 && (effs[0] matches
            Effect::Send(r) && r matches WsResponse::Nop { id: i } && i@ == id),
        WsRequestView::Echo { id, text } => post == pre && effs.len() == 1 && (effs[0] matches
            Effect::Send(r) && r matches WsResponse::Echo { id: i, text: t } && i@ == id && t@
            == text),
        WsRequestView::ReaderQuery { id, query } => post == pre && effs.len() == 1 && (effs[0]
            matches Effect::ReadQuery { id: i, query: q } && i@ == id && q@ == query),
        WsRequestView::WriterQuery { id, query } => post == pre && effs.len() == 1 && (effs[0]
            matches Effect::WriteQuery { id: i, query: q } && i@ == id && q@ == query),
        WsRequestView::LiveQuery { id, queries } => {
            &&& post.authenticated == pre.authenticated
            &&& post.live_query_response_id@ == id
            &&& post.live_queries@ == queries
            &&& effs.len() == 1
            &&& (effs[0] matches Effect::RunLive { id: i, queries: q } && i@ == id && q@
                == queries)
        },
        WsRequestView::HttpRequest { id, request } => post == pre && effs.len() == 1 && (effs[0]
            matches Effect::CallHttp { id: i, request: r } && i@ == id && r@ == request),
        WsRequestView::Migration { id, ddl } => post == pre && effs.len() == 1 && (effs[0] matches
            Effect::ApplyMigration { id: i, migration: m } && i@ == id && m.query@ == ddl
            && timestamp_shaped(m.id@)),
    }
}

/// The text-frame transition: parse, decode, dispatch.
pub fn on_frame(st: &mut ConnState, text: &str) -> (effs: Vec<Effect>)
    ensures
        frame_step(*old(st), *final(st), json_parse_of(text@), effs@),
{
    if !st.authenticated {
        return Vec::new();
    }
    let v = match parse_json(text) {
        Some(v) => v,
        None => {
            return channel_error_effects();
        },
    };
    let req = match decode_ws_request(&v) {
        Some(r) => r,
        None => {
            return channel_error_effects();
        },
    };
    let mut effs: Vec<Effect> = Vec::new();
    match req {
        WsRequest::Nop { id } => {
            effs.push(Effect::Send(WsResponse::Nop { id }));
        },
        WsRequest::Echo { id, text } => {
            effs.push(Effect::Send(WsResponse::Echo { id, text }));
        },
        WsRequest::ReaderQuery { id, query } => {
            effs.push(Effect::ReadQuery { id, query });
        },
        WsRequest::WriterQuery { id, query } => {
            effs.push(Effect::WriteQuery { id, query });
        },
        WsRequest::LiveQuery { id, queries } => {
            st.live_queries = queries.duplicate();
            st.live_query_response_id = id.clone();
            effs.push(Effect::RunLive { id, queries });
        },
        WsRequest::HttpRequest { id, request } => {
            effs.push(Effect::CallHttp { id, request });
        },
        WsRequest::Migration { id, ddl } => {
            let migration = DbMigration::new(ddl);
            effs.push(Effect::ApplyMigration { id, migration });
        },
    }
    effs
}

fn channel_error_effects() -> (effs: Vec<Effect>)
    ensures
        channel_error_step(effs@),
{
    let mut effs: Vec<Effect> = Vec::new();
    effs.push(
        Effect::Send(
            WsResponse::ChannelError { message: String::from_str("Failed to parse request.") },
        ),
    );
    effs
}

/// Exactly one sent `ReaderQuery` reply carrying the given results.
pub open spec fn reader_ok_step(id: Seq<char>, v: JsonValue, effs: Seq<Effect>) -> bool {
    &&& effs.len() == 1
    &&& (effs[0] matches Effect::Send(r) && r matches WsResponse::ReaderQuery {
        id: i,
        results,
    } && i@ == id && results == v)
}

/// A completed reader query: the reply, or the error, under the request id.
pub fn on_reader_result(id: String, result: Result<JsonValue, DbErr>) -> (effs: Vec<Effect>)
    ensures
        match result {
            Ok(v) => reader_ok_step(id@, v, effs@),
            Err(e) => error_send_step(id@, e.message@, effs@),
        },
{
    let mut effs: Vec<Effect> = Vec::new();
    match result {
        Ok(results) => {
            effs.push(Effect::Send(WsResponse::ReaderQuery { id, results }));
        },
        Err(e) => {
            effs.push(Effect::Send(WsResponse::Error { id, text: e.message }));
        },
    }
    effs
}

/// A successful writer sends its reply and then exactly one refresh.
pub open spec fn writer_ok_step(id: Seq<char>, wr: WriterQueryResult, effs: Seq<Effect>) -> bool {
    &&& effs.len() == 2
    &&& (effs[0] matches Effect::Send(r) && r matches WsResponse::WriterQuery {
        id: i,
        results,
    } && i@ == id && results == wr)
    &&& effs[1] == Effect::Refresh
}

/// A completed writer query: on success the reply then a refresh, on
/// failure only the error.
pub fn on_writer_result(id: String, result: Result<WriterQueryResult, DbErr>) -> (effs: Vec<
    Effect,
>)
    ensures
        match result {
            Ok(wr) => writer_ok_step(id@, wr, effs@),
            Err(e) => error_send_step(id@, e.message@, effs@),
        },
{
    let mut effs: Vec<Effect> = Vec::new();
    match result {
        Ok(results) => {
            effs.push(Effect::Send(WsResponse::WriterQuery { id, results }));
            effs.push(Effect::Refresh);
        },
        Err(e) => {
            effs.push(Effect::Send(WsResponse::Error { id, text: e.message }));
        },
    }
    effs
}

/// Exactly one sent `LiveQuery` reply with the given id and results.
pub open spec fn live_ok_step(
    id: Seq<char>,
    lr: Seq<(Seq<char>, JsonValue)>,
    effs: Seq<Effect>,
) -> bool {
    &&& effs.len() == 1
    &&& (effs[0] matches Effect::Send(r) && r matches WsResponse::LiveQuery {
        id: i,
        results,
    } && i@ == id && results@ == lr)
}

/// A completed live-query batch (a direct subscription or a refresh):
/// the results, or the error, under the given id.
pub fn on_live_result(id: String, result: Result<LiveResults, DbErr>) -> (effs: Vec<Effect>)
    ensures
        match result {
            Ok(lr) => live_ok_step(id@, lr@, effs@),
            Err(e) => error_send_step(id@, e.message@, effs@),
        },
{
    let mut effs: Vec<Effect> = Vec::new();
    match result {
        Ok(results) => {
            effs.push(Effect::Send(WsResponse::LiveQuery { id, results }));
        },
        Err(e) => {
            effs.push(Effect::Send(WsResponse::Error { id, text: e.message }));
        },
    }
    effs
}

/// A successful migration commit enqueues exactly one refresh and then the
/// file writes; the client reply waits for the files.
pub open spec fn migration_ok_step(id: Seq<char>, m: DbMigration, effs: Seq<Effect>) -> bool {
    &&& effs.len() == 2
    &&& effs[0] == Effect::Refresh
    &&& (effs[1] matches Effect::PersistMigration { id: i, migration: m2 } && i@ == id && m2 == m)
}

/// A completed migration transaction: on success a refresh and then the
/// migration-file and snapshot writes; on failure only the error.
pub fn on_migration_db_result(id: String, migration: DbMigration, result: Result<bool, DbErr>) -> (
    effs: Vec<Effect>)
    ensures
        match result {
            Ok(b) => migration_ok_step(id@, migration, effs@),
            Err(e) => error_send_step(id@, e.message@, effs@),
        },
{
    let mut effs: Vec<Effect> = Vec::new();
    match result {
        Ok(_applied) => {
            effs.push(Effect::Refresh);
            effs.push(Effect::PersistMigration { id, migration });
        },
        Err(e) => {
            effs.push(Effect::Send(WsResponse::Error { id, text: e.message }));
        },
    }
    effs
}

/// Completed migration-file and snapshot writes: the `Migration` reply, or
/// the error, under the request id.
pub fn on_migration_files_result(id: String, result: Result<(), String>) -> (effs: Vec<Effect>)
    ensures
        match result {
            Ok(u) => (effs@.len() == 1 && (effs@[0] matches Effect::Send(r) && r matches
                WsResponse::Migration { id: i } && i@ == id@)),
            Err(msg) => error_send_step(id@, msg@, effs@),
        },
{
    let mut effs: Vec<Effect> = Vec::new();
    match result {
        Ok(()) => {
            effs.push(Effect::Send(WsResponse::Migration { id }));
        },
        Err(text) => {
            effs.push(Effect::Send(WsResponse::Error { id, text }));
        },
    }
    effs
}

/// A completed outbound HTTP request: the response, or the error, under
/// the request id.
pub fn on_http_result(id: String, result: Result<Response, String>) -> (effs: Vec<Effect>)
    ensures
        match result {
            Ok(resp) => (effs@.len() == 1 && (effs@[0] matches Effect::Send(r) && r matches
                WsResponse::HttpRequest { id: i, response } && i@ == id@ && response == resp)),
            Err(msg) => error_send_step(id@, msg@, effs@),
        },
{
    let mut effs: Vec<Effect> = Vec::new();
    match result {
        Ok(response) => {
            effs.push(Effect::Send(WsResponse::HttpRequest { id, response }));
        },
        Err(text) => {
            effs.push(Effect::Send(WsResponse::Error { id, text }));
        },
    }
    effs
}

/// A dequeued refresh re-runs the remembered subscription under the id of
/// the most recent `LiveQuery` request.
pub open spec fn refresh_step(st: ConnState, eff: Effect) -> bool {
    eff matches Effect::RunLive { id, queries } && id@ == st.live_query_response_id@ && queries@
        == st.live_queries@
}

/// The refresh transition: a fresh run of the remembered queries. With no
/// subscription yet, this runs the empty batch under the empty id.
pub fn on_refresh(st: &ConnState) -> (eff: Effect)
    ensures
        refresh_step(*st, eff),
{
    Effect::RunLive {
        id: st.live_query_response_id.clone(),
        queries: st.live_queries.duplicate(),
    }
}

/// How many refreshes an effect list enqueues.
pub open spec fn refresh_count(effs: Seq<Effect>) -> int
    decreases effs.len(),
{
    if effs.len() == 0 {
        0
    } else {
        refresh_count(effs.drop_last()) + if effs.last() is Refresh {
            1int
        } else {
            0int
        }
    }
}

/// How many `LiveQuery` responses with the given id an effect list sends.
pub open spec fn live_send_count(effs: Seq<Effect>, id: Seq<char>) -> int
    decreases effs.len(),
{
    if effs.len() == 0 {
        0
    } else {
        live_send_count(effs.drop_last(), id) + if effs.last() matches Effect::Send(r)
            && r matches WsResponse::LiveQuery { id: i, .. } && i@ == id {
            1int
        } else {
            0int
        }
    }
}

/// Live-query liveness: a successful writer (or migration commit) enqueues
/// exactly one refresh, a failed one enqueues none; the refresh re-runs the
/// remembered subscription under the id of the most recent `LiveQuery`
/// request; and its success sends exactly one `LiveQuery` response with
/// that id. So every successful write produces exactly one additional
/// `LiveQuery` response, correctly addressed.
pub proof fn lemma_live_query_liveness(
    st: ConnState,
    id: Seq<char>,
    wr: WriterQueryResult,
    m: DbMigration,
    err: Seq<char>,
    w_effs: Seq<Effect>,
    m_effs: Seq<Effect>,
    e_effs: Seq<Effect>,
    refresh_eff: Effect,
    lr: Seq<(Seq<char>, JsonValue)>,
    r_effs: Seq<Effect>,
)
    requires
        writer_ok_step(id, wr, w_effs),
        migration_ok_step(id, m, m_effs),
        error_send_step(id, err, e_effs),
        refresh_step(st, refresh_eff),
        live_ok_step(st.live_query_response_id@, lr, r_effs),
    ensures
        refresh_count(w_effs) == 1,
        refresh_count(m_effs) == 1,
        refresh_count(e_effs) == 0,
        (refresh_eff matches Effect::RunLive { id: i, queries } && i@
            == st.live_query_response_id@ && queries@ == st.live_queries@),
        live_send_count(r_effs, st.live_query_response_id@) == 1,
{
    reveal_with_fuel(refresh_count, 3);
    reveal_with_fuel(live_send_count, 3);
    assert(w_effs.drop_last().last() == w_effs[0]);
    assert(w_effs.drop_last().drop_last().len() == 0);
    assert(refresh_count(w_effs.drop_last()) == 0);
    assert(m_effs.drop_last().last() == m_effs[0]);
    assert(m_effs.drop_last().drop_last().len() == 0);
    assert(refresh_count(m_effs.drop_last()) == 1);
    assert(e_effs.drop_last().len() == 0);
    assert(refresh_count(e_effs.drop_last()) == 0);
    assert(r_effs.drop_last().len() == 0);
    assert(live_send_count(r_effs.drop_last(), st.live_query_response_id@) == 0);
}


/// Auth gate, socket side: a connection opened without a resolved session
/// receives exactly one response, a fatal one, and is then stopped; an
/// authenticated open sends nothing fatal.
pub proof fn lemma_auth_gate(effs: Seq<Effect>, effs2: Seq<Effect>)
    requires
        open_step(false, effs),
        open_step(true, effs2),
    ensures
        effs.len() == 2,
        (effs[0] matches Effect::Send(r) && crate::protocol::is_fatal(r)),
        effs[1] == Effect::Stop,
        effs2.len() == 1,
        (effs2[0] matches Effect::Send(r) && !crate::protocol::is_fatal(r)),
{
}

} // verus!
