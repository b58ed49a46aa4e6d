//! The tagged WebSocket wire protocol: decoding client requests from
//! parsed JSON, and encoding server responses as exact JSON text.

use vstd::prelude::*;

use crate::json::{
    fields_text, json_text, string_text, JsonValue, push_json, push_json_string, push_str_chars,
};
use crate::num::{dec_digits, int_text, push_i64, push_u64};
use crate::user_db::{
    args_view, LiveQueries, LiveResults, QueryView, ReaderQuery, WriterQuery, WriterQueryResult,
};
use crate::util::str_eq;

verus! {

/// An outbound HTTP request, as carried by the wire protocol.
#[derive(Debug)]
pub struct Request {
    pub body: Option<String>,
    pub headers: Vec<(String, String)>,
    pub url: String,
    pub method: String,
}

/// An outbound HTTP response, as reported back over the wire.
#[derive(Debug)]
pub struct Response {
    pub status: u16,
    pub body: Option<String>,
    pub headers: Vec<(String, String)>,
}

/// The mathematical shape of an outbound HTTP request.
#[verifier::ext_equal]
pub struct RequestView {
    pub body: Option<Seq<char>>,
    pub headers: Seq<(Seq<char>, Seq<char>)>,
    pub url: Seq<char>,
    pub method: Seq<char>,
}

/// The view of a header list.
pub open spec fn headers_view(s: Seq<(String, String)>) -> Seq<(Seq<char>, Seq<char>)> {
    s.map_values(|p: (String, String)| (p.0@, p.1@))
}

impl View for Request {
    type V = RequestView;

    open spec fn view(&self) -> RequestView {
        RequestView {
            body: match self.body {
                Option::Some(b) => Option::Some(b@),
                Option::None => Option::None,
            },
            headers: headers_view(self.headers@),
            url: self.url@,
            method: self.method@,
        }
    }
}

/// A client request, one variant per wire tag.
#[derive(Debug)]
pub enum WsRequest {
    Nop { id: String },
    Echo { id: String, text: String },
    ReaderQuery { id: String, query: ReaderQuery },
    WriterQuery { id: String, query: WriterQuery },
    LiveQuery { id: String, queries: LiveQueries },
    HttpRequest { id: String, request: Request },
    Migration { id: String, ddl: String },
}

/// The mathematical shape of a client request.
#[verifier::ext_equal]
pub enum WsRequestView {
    Nop { id: Seq<char> },
    Echo { id: Seq<char>, text: Seq<char> },
    ReaderQuery { id: Seq<char>, query: QueryView },
    WriterQuery { id: Seq<char>, query: QueryView },
    LiveQuery { id: Seq<char>, queries: Seq<(Seq<char>, QueryView)> },
    HttpRequest { id: Seq<char>, request: RequestView },
    Migration { id: Seq<char>, ddl: Seq<char> },
}

impl View for WsRequest {
    type V = WsRequestView;

    open spec fn view(&self) -> WsRequestView {
        match self {
            WsRequest::Nop { id } => WsRequestView::Nop { id: id@ },
            WsRequest::Echo { id, text } => WsRequestView::Echo { id: id@, text: text@ },
            WsRequest::ReaderQuery { id, query } => WsRequestView::ReaderQuery {
                id: id@,
                query: query@,
            },
            WsRequest::WriterQuery { id, query } => WsRequestView::WriterQuery {
                id: id@,
                query: query@,
            },
            WsRequest::LiveQuery { id, queries } => WsRequestView::LiveQuery {
                id: id@,
                queries: queries@,
            },
            WsRequest::HttpRequest { id, request } => WsRequestView::HttpRequest {
                id: id@,
                request: request@,
            },
            WsRequest::Migration { id, ddl } => WsRequestView::Migration { id: id@, ddl: ddl@ },
        }
    }
}

/// A server response, one variant per wire tag.
#[derive(Debug)]
pub enum WsResponse {
    Nop { id: String },
    Hello { id: String },
    FatalError { id: String, error: String, message: String },
    Echo { id: String, text: String },
    ReaderQuery { id: String, results: JsonValue },
    WriterQuery { id: String, results: WriterQueryResult },
    LiveQuery { id: String, results: LiveResults },
    HttpRequest { id: String, response: Response },
    Migration { id: String },
    Error { id: String, text: String },
    ChannelError { message: String },
}

// ---------------------------------------------------------------------
// Decoding
// ---------------------------------------------------------------------

/// The first value under `key` in an object's members.
pub open spec fn lookup_field(fields: Seq<(String, JsonValue)>, key: Seq<char>) -> Option<
    JsonValue,
>
    decreases fields.len(),
{
    if fields.len() == 0 {
        Option::None
    } else if fields.first().0@ == key {
        Option::Some(fields.first().1)
    } else {
        lookup_field(fields.drop_first(), key)
    }
}

/// The text under `key`, when it is there and is a string.
pub open spec fn lookup_string(fields: Seq<(String, JsonValue)>, key: Seq<char>) -> Option<
    Seq<char>,
> {
    match lookup_field(fields, key) {
        Option::Some(JsonValue::Str(s)) => Option::Some(s@),
        _ => Option::None,
    }
}

/// Whether every member of an arguments object is a string or null.
pub open spec fn args_fields_ok(fields: Seq<(String, JsonValue)>) -> bool {
    forall|i: int|
        0 <= i < fields.len() ==> ((#[trigger] fields[i]).1 is Str || fields[i].1 is Null)
}

/// The argument list an arguments object decodes to.
pub open spec fn args_fields_view(fields: Seq<(String, JsonValue)>) -> Seq<
    (Seq<char>, Option<Seq<char>>),
> {
    fields.map_values(
        |p: (String, JsonValue)|
            (
                p.0@,
                match p.1 {
                    JsonValue::Str(s) => Option::Some(s@),
                    _ => Option::None,
                },
            ),
    )
}

/// What a `{query, arguments}` object decodes to.
pub open spec fn query_of(v: JsonValue) -> Option<QueryView> {
    match v {
        JsonValue::Obj(fields) => match (
            lookup_field(fields@, "query"@),
            lookup_field(fields@, "arguments"@),
        ) {
            (Option::Some(JsonValue::Str(q)), Option::Some(JsonValue::Obj(af))) => if args_fields_ok(
                af@,
            ) {
                Option::Some(QueryView { query: q@, arguments: args_fields_view(af@) })
            } else {
                Option::None
            },
            _ => Option::None,
        },
        _ => Option::None,
    }
}

/// Whether every member of a live-queries object decodes as a query.
pub open spec fn live_fields_ok(fields: Seq<(String, JsonValue)>) -> bool {
    forall|i: int| 0 <= i < fields.len() ==> query_of((#[trigger] fields[i]).1) is Some
}

/// The subscriptions a live-queries object decodes to.
pub open spec fn live_fields_view(fields: Seq<(String, JsonValue)>) -> Seq<
    (Seq<char>, QueryView),
> {
    fields.map_values(|p: (String, JsonValue)| (p.0@, query_of(p.1).unwrap()))
}

/// What a `{name: query, ...}` object decodes to.
pub open spec fn live_queries_of(v: JsonValue) -> Option<Seq<(Seq<char>, QueryView)>> {
    match v {
        JsonValue::Obj(fields) => if live_fields_ok(fields@) {
            Option::Some(live_fields_view(fields@))
        } else {
            Option::None
        },
        _ => Option::None,
    }
}

/// Whether a header entry is a two-element array of strings.
pub open spec fn header_entry_ok(v: JsonValue) -> bool {
    match v {
        JsonValue::Arr(pair) => pair@.len() == 2 && pair@[0] is Str && pair@[1] is Str,
        _ => false,
    }
}

/// The name and value of a well-formed header entry.
pub open spec fn header_entry_view(v: JsonValue) -> (Seq<char>, Seq<char>) {
    match v {
        JsonValue::Arr(pair) => (
            match pair@[0] {
                JsonValue::Str(s) => s@,
                _ => Seq::empty(),
            },
            match pair@[1] {
                JsonValue::Str(s) => s@,
                _ => Seq::empty(),
            },
        ),
        _ => (Seq::empty(), Seq::empty()),
    }
}

/// Whether every entry of a headers array is well-formed.
pub open spec fn header_entries_ok(elems: Seq<JsonValue>) -> bool {
    forall|i: int| 0 <= i < elems.len() ==> header_entry_ok(#[trigger] elems[i])
}

/// What a headers array decodes to.
pub open spec fn headers_of(v: JsonValue) -> Option<Seq<(Seq<char>, Seq<char>)>> {
    match v {
        JsonValue::Arr(elems) => if header_entries_ok(elems@) {
            Option::Some(elems@.map_values(|e: JsonValue| header_entry_view(e)))
        } else {
            Option::None
        },
        _ => Option::None,
    }
}

/// What the optional `body` member decodes to: absent or null is no body,
/// a string is a body, anything else refuses the request.
pub open spec fn body_of(fields: Seq<(String, JsonValue)>) -> Option<Option<Seq<char>>> {
    match lookup_field(fields, "body"@) {
        Option::None => Option::Some(Option::None),
        Option::Some(JsonValue::Null) => Option::Some(Option::None),
        Option::Some(JsonValue::Str(s)) => Option::Some(Option::Some(s@)),
        _ => Option::None,
    }
}

/// What a `{method, url, headers, body?}` object decodes to.
pub open spec fn http_request_of(v: JsonValue) -> Option<RequestView> {
    match v {
        JsonValue::Obj(fields) => {
            match (
                lookup_string(fields@, "method"@),
                lookup_string(fields@, "url"@),
                lookup_field(fields@, "headers"@),
                body_of(fields@),
            ) {
                (
                    Option::Some(method),
                    Option::Some(url),
                    Option::Some(hv),
                    Option::Some(body),
                ) => match headers_of(hv) {
                    Option::Some(headers) => Option::Some(
                        RequestView { body, headers, url, method },
                    ),
                    Option::None => Option::None,
                },
                _ => Option::None,
            }
        },
        _ => Option::None,
    }
}

/// What a whole request text's JSON decodes to, by its `type` tag.
pub open spec fn ws_request_of(v: JsonValue) -> Option<WsRequestView> {
    match v {
        JsonValue::Obj(fields) => match lookup_string(fields@, "type"@) {
            Option::Some(tag) => ws_request_of_tagged(fields@, tag),
            Option::None => Option::None,
        },
        _ => Option::None,
    }
}

/// The per-tag decoding of a request object's members.
pub open spec fn ws_request_of_tagged(fields: Seq<(String, JsonValue)>, tag: Seq<char>) -> Option<
    WsRequestView,
> {
    match lookup_string(fields, "id"@) {
        Option::Some(id) => {
            if tag == "Nop"@ {
                Option::Some(WsRequestView::Nop { id })
            } else if tag == "Echo"@ {
                match lookup_string(fields, "text"@) {
                    Option::Some(text) => Option::Some(WsRequestView::Echo { id, text }),
                    Option::None => Option::None,
                }
            } else if tag == "ReaderQuery"@ {
                match lookup_field(fields, "query"@) {
                    Option::Some(qv) => match query_of(qv) {
                        Option::Some(query) => Option::Some(
                            WsRequestView::ReaderQuery { id, query },
                        ),
                        Option::None => Option::None,
                    },
                    Option::None => Option::None,
                }
            } else if tag == "WriterQuery"@ {
                match lookup_field(fields, "query"@) {
                    Option::Some(qv) => match query_of(qv) {
                        Option::Some(query) => Option::Some(
                            WsRequestView::WriterQuery { id, query },
                        ),
                        Option::None => Option::None,
                    },
                    Option::None => Option::None,
                }
            } else if tag == "LiveQuery"@ {
                match lookup_field(fields, "queries"@) {
                    Option::Some(qv) => match live_queries_of(qv) {
                        Option::Some(queries) => Option::Some(
                            WsRequestView::LiveQuery { id, queries },
                        ),
                        Option::None => Option::None,
                    },
                    Option::None => Option::None,
                }
            } else if tag == "HttpRequest"@ {
                match lookup_field(fields, "request"@) {
                    Option::Some(rv) => match http_request_of(rv) {
                        Option::Some(request) => Option::Some(
                            WsRequestView::HttpRequest { id, request },
                        ),
                        Option::None => Option::None,
                    },
                    Option::None => Option::None,
                }
            } else if tag == "Migration"@ {
                match lookup_string(fields, "ddl"@) {
                    Option::Some(ddl) => Option::Some(WsRequestView::Migration { id, ddl }),
                    Option::None => Option::None,
                }
            } else {
                Option::None
            }
        },
        Option::None => Option::None,
    }
}

fn lookup_field_exec<'a>(fields: &'a Vec<(String, JsonValue)>, key: &str) -> (r: Option<
    &'a JsonValue,
>)
    ensures
        match r {
            Option::Some(v) => lookup_field(fields@, key@) == Option::Some(*v),
            Option::None => lookup_field(fields@, key@) is None,
        },
{
    let mut i: usize = 0;
    assert(fields@.skip(0) =~= fields@);
    while i < fields.len()
        invariant
            0 <= i <= fields@.len(),
            lookup_field(fields@, key@) == lookup_field(fields@.skip(i as int), key@),
        decreases fields@.len() - i,
    {
        proof {
            assert(fields@.skip(i as int).first() == fields@[i as int]);
            assert(fields@.skip(i as int).drop_first() =~= fields@.skip(i as int + 1));
        }
        if str_eq(fields[i].0.as_str(), key) {
            return Some(&fields[i].1);
        }
        i = i + 1;
    }
    assert(fields@.skip(fields@.len() as int).len() == 0);
    None
}

fn lookup_string_exec(fields: &Vec<(String, JsonValue)>, key: &str) -> (r: Option<String>)
    ensures
        match r {
            Option::Some(s) => lookup_string(fields@, key@) == Option::Some(s@),
            Option::None => lookup_string(fields@, key@) is None,
        },
{
    match lookup_field_exec(fields, key) {
        Some(JsonValue::Str(s)) => Some(s.clone()),
        _ => None,
    }
}

fn decode_arguments(fields: &Vec<(String, JsonValue)>) -> (r: Option<
    Vec<(String, Option<String>)>,
>)
    ensures
        match r {
            Option::Some(args) => args_fields_ok(fields@) && args_view(args@) == args_fields_view(
                fields@,
            ),
            Option::None => !args_fields_ok(fields@),
        },
{
    let mut out: Vec<(String, Option<String>)> = Vec::new();
    let mut i: usize = 0;
    while i < fields.len()
        invariant
            0 <= i <= fields@.len(),
            out@.len() == i,
            forall|j: int|
                0 <= j < i ==> ((#[trigger] fields@[j]).1 is Str || fields@[j].1 is Null),
            forall|j: int| 0 <= j < i ==> (#[trigger] out@[j]).0@ == fields@[j].0@,
            forall|j: int| 0 <= j < i ==> arg_value_matches((#[trigger] out@[j]).1, fields@[j].1),
        decreases fields@.len() - i,
    {
        let entry = match &fields[i].1 {
            JsonValue::Str(s) => (fields[i].0.clone(), Some(s.clone())),
            JsonValue::Null => (fields[i].0.clone(), None),
            _ => {
                assert(!args_fields_ok(fields@));
                return None;
            },
        };
        out.push(entry);
        i = i + 1;
    }
    proof {
        assert forall|j: int| 0 <= j < out@.len() implies args_view(out@)[j] == args_fields_view(
            fields@,
        )[j] by {
            assert(arg_value_matches(out@[j].1, fields@[j].1));
        }
        assert(args_view(out@) =~= args_fields_view(fields@));
    }
    Some(out)
}

/// Whether a decoded argument value reflects its JSON member.
pub open spec fn arg_value_matches(o: Option<String>, v: JsonValue) -> bool {
    match v {
        JsonValue::Str(s) => (o matches Option::Some(x) && x@ == s@),
        _ => o is None,
    }
}

fn decode_query(v: &JsonValue) -> (r: Option<ReaderQuery>)
    ensures
        match r {
            Option::Some(q) => query_of(*v) == Option::Some(q@),
            Option::None => query_of(*v) is None,
        },
{
    let fields = match v {
        JsonValue::Obj(fields) => fields,
        _ => {
            return None;
        },
    };
    let query = match lookup_string_exec(fields, "query") {
        Some(q) => q,
        None => {
            // `query` may be missing, or present and not a string
            proof {
                match lookup_field(fields@, "query"@) {
                    Option::Some(qv) => {
                        assert(!(qv is Str));
                    },
                    Option::None => {},
                }
            }
            return None;
        },
    };
    let af = match lookup_field_exec(fields, "arguments") {
        Some(JsonValue::Obj(af)) => af,
        Some(_) => {
            return None;
        },
        None => {
            return None;
        },
    };
    let arguments = match decode_arguments(af) {
        Some(args) => args,
        None => {
            return None;
        },
    };
    let q = ReaderQuery { query, arguments };
    proof {
        assert(q@ =~~= query_of(*v).unwrap());
    }
    Some(q)
}

fn decode_live_queries(fields: &Vec<(String, JsonValue)>) -> (r: Option<LiveQueries>)
    ensures
        match r {
            Option::Some(lq) => live_fields_ok(fields@) && lq@ == live_fields_view(fields@),
            Option::None => !live_fields_ok(fields@),
        },
{
    let mut out: Vec<(String, ReaderQuery)> = Vec::new();
    let mut i: usize = 0;
    while i < fields.len()
        invariant
            0 <= i <= fields@.len(),
            out@.len() == i,
            forall|j: int| 0 <= j < i ==> query_of((#[trigger] fields@[j]).1) is Some,
            forall|j: int| 0 <= j < i ==> (#[trigger] out@[j]).0@ == fields@[j].0@,
            forall|j: int|
                0 <= j < i ==> Option::Some((#[trigger] out@[j]).1@) == query_of(fields@[j].1),
        decreases fields@.len() - i,
    {
        let q = match decode_query(&fields[i].1) {
            Some(q) => q,
            None => {
                assert(!live_fields_ok(fields@));
                return None;
            },
        };
        let name = fields[i].0.clone();
        out.push((name, q));
        i = i + 1;
    }
    let r = LiveQueries(out);
    proof {
        assert forall|j: int| 0 <= j < r@.len() implies r@[j] == live_fields_view(fields@)[j] by {
            assert(Option::Some(r.0@[j].1@) == query_of(fields@[j].1));
        }
        assert(r@ =~~= live_fields_view(fields@));
    }
    Some(r)
}

fn decode_headers(v: &JsonValue) -> (r: Option<Vec<(String, String)>>)
    ensures
        match r {
            Option::Some(hs) => headers_of(*v) == Option::Some(headers_view(hs@)),
            Option::None => headers_of(*v) is None,
        },
{
    let elems = match v {
        JsonValue::Arr(elems) => elems,
        _ => {
            return None;
        },
    };
    let mut out: Vec<(String, String)> = Vec::new();
    let mut i: usize = 0;
    while i < elems.len()
        invariant
            *v == JsonValue::Arr(*elems),
            0 <= i <= elems@.len(),
            out@.len() == i,
            forall|j: int| 0 <= j < i ==> header_entry_ok(#[trigger] elems@[j]),
            forall|j: int|
                0 <= j < i ==> ((#[trigger] out@[j]).0@, out@[j].1@) == header_entry_view(
                    elems@[j],
                ),
        decreases elems@.len() - i,
    {
        let pair = match &elems[i] {
            JsonValue::Arr(pair) => pair,
            _ => {
                assert(!header_entries_ok(elems@));
                return None;
            },
        };
        if pair.len() != 2 {
            assert(!header_entries_ok(elems@));
            return None;
        }
        let name = match &pair[0] {
            JsonValue::Str(s) => s.clone(),
            _ => {
                assert(!header_entries_ok(elems@));
                return None;
            },
        };
        let value = match &pair[1] {
            JsonValue::Str(s) => s.clone(),
            _ => {
                assert(!header_entries_ok(elems@));
                return None;
            },
        };
        out.push((name, value));
        i = i + 1;
    }
    proof {
        assert forall|j: int| 0 <= j < out@.len() implies headers_view(out@)[j]
            == elems@.map_values(|e: JsonValue| header_entry_view(e))[j] by {
            assert((out@[j].0@, out@[j].1@) == header_entry_view(elems@[j]));
        }
        assert(headers_view(out@) =~= elems@.map_values(|e: JsonValue| header_entry_view(e)));
    }
    Some(out)
}

fn decode_http_request(v: &JsonValue) -> (r: Option<Request>)
    ensures
        match r {
            Option::Some(req) => http_request_of(*v) == Option::Some(req@),
            Option::None => http_request_of(*v) is None,
        },
{
    let fields = match v {
        JsonValue::Obj(fields) => fields,
        _ => {
            return None;
        },
    };
    let method = match lookup_string_exec(fields, "method") {
        Some(m) => m,
        None => {
            return None;
        },
    };
    let url = match lookup_string_exec(fields, "url") {
        Some(u) => u,
        None => {
            return None;
        },
    };
    let headers = match lookup_field_exec(fields, "headers") {
        Some(hv) => match decode_headers(hv) {
            Some(hs) => hs,
            None => {
                return None;
            },
        },
        None => {
            return None;
        },
    };
    let body = match lookup_field_exec(fields, "body") {
        None => None,
        Some(JsonValue::Null) => None,
        Some(JsonValue::Str(s)) => Some(s.clone()),
        Some(_) => {
            return None;
        },
    };
    let req = Request { body, headers, url, method };
    proof {
        assert(req@ =~~= http_request_of(*v).unwrap());
    }
    Some(req)
}

/// Decodes a parsed request by its `type` tag. `None` exactly when the
/// value does not decode.
pub fn decode_ws_request(v: &JsonValue) -> (r: Option<WsRequest>)
    ensures
        match r {
            Option::Some(req) => ws_request_of(*v) == Option::Some(req@),
            Option::None => ws_request_of(*v) is None,
        },
{
    let fields = match v {
        JsonValue::Obj(fields) => fields,
        _ => {
            return None;
        },
    };
    let tag = match lookup_string_exec(fields, "type") {
        Some(t) => t,
        None => {
            return None;
        },
    };
    let id = match lookup_string_exec(fields, "id") {
        Some(i) => i,
        None => {
            return None;
        },
    };
    if str_eq(tag.as_str(), "Nop") {
        Some(WsRequest::Nop { id })
    } else if str_eq(tag.as_str(), "Echo") {
        match lookup_string_exec(fields, "text") {
            Some(text) => Some(WsRequest::Echo { id, text }),
            None => None,
        }
    } else if str_eq(tag.as_str(), "ReaderQuery") {
        match lookup_field_exec(fields, "query") {
            Some(qv) => match decode_query(qv) {
                Some(query) => Some(WsRequest::ReaderQuery { id, query }),
                None => None,
            },
            None => None,
        }
    } else if str_eq(tag.as_str(), "WriterQuery") {
        match lookup_field_exec(fields, "query") {
            Some(qv) => match decode_query(qv) {
                Some(query) => {
                    let wq = WriterQuery { query: query.query, arguments: query.arguments };
                    Some(WsRequest::WriterQuery { id, query: wq })
                },
                None => None,
            },
            None => None,
        }
    } else if str_eq(tag.as_str(), "LiveQuery") {
        match lookup_field_exec(fields, "queries") {
            Some(qv) => {
                let lfields = match qv {
                    JsonValue::Obj(lf) => lf,
                    _ => {
                        return None;
                    },
                };
                match decode_live_queries(lfields) {
                    Some(queries) => Some(WsRequest::LiveQuery { id, queries }),
                    None => None,
                }
            },
            None => None,
        }
    } else if str_eq(tag.as_str(), "HttpRequest") {
        match lookup_field_exec(fields, "request") {
            Some(rv) => match decode_http_request(rv) {
                Some(request) => Some(WsRequest::HttpRequest { id, request }),
                None => None,
            },
            None => None,
        }
    } else if str_eq(tag.as_str(), "Migration") {
        match lookup_string_exec(fields, "ddl") {
            Some(ddl) => Some(WsRequest::Migration { id, ddl }),
            None => None,
        }
    } else {
        None
    }
}


// ---------------------------------------------------------------------
// Encoding
// ---------------------------------------------------------------------

/// The JSON text of an optional body: null when absent.
pub open spec fn opt_body_text(b: Option<String>) -> Seq<char> {
    match b {
        Option::None => seq!['n', 'u', 'l', 'l'],
        Option::Some(s) => string_text(s@),
    }
}

/// The comma-separated `["name","value"]` entries of a header list,
/// brackets of the outer array not included.
pub open spec fn header_pairs_text(hs: Seq<(String, String)>) -> Seq<char>
    decreases hs.len(),
{
    if hs.len() == 0 {
        Seq::empty()
    } else if hs.len() == 1 {
        header_pair_text(hs.last())
    } else {
        header_pairs_text(hs.drop_last()) + seq![','] + header_pair_text(hs.last())
    }
}

/// One `["name","value"]` entry.
pub open spec fn header_pair_text(h: (String, String)) -> Seq<char> {
    seq!['['] + string_text(h.0@) + seq![','] + string_text(h.1@) + seq![']']
}

/// The exact wire text of a server response: a JSON object whose first
/// member is the `type` tag, the remaining members in declaration order.
pub open spec fn response_text(r: WsResponse) -> Seq<char> {
    match r {
        WsResponse::Nop { id } => "{\"type\":\"Nop\",\"id\":"@ + string_text(id@) + "}"@,
        WsResponse::Hello { id } => "{\"type\":\"Hello\",\"id\":"@ + string_text(id@) + "}"@,
        WsResponse::FatalError { id, error, message } => "{\"type\":\"FatalError\",\"id\":"@
            + string_text(id@) + ",\"error\":"@ + string_text(error@) + ",\"message\":"@
            + string_text(message@) + "}"@,
        WsResponse::Echo { id, text } => "{\"type\":\"Echo\",\"id\":"@ + string_text(id@)
            + ",\"text\":"@ + string_text(text@) + "}"@,
        WsResponse::ReaderQuery { id, results } => "{\"type\":\"ReaderQuery\",\"id\":"@
            + string_text(id@) + ",\"results\":"@ + json_text(results) + "}"@,
        WsResponse::WriterQuery { id, results } => "{\"type\":\"WriterQuery\",\"id\":"@
            + string_text(id@) + ",\"results\":{\"changed_rows\":"@ + dec_digits(
            results.changed_rows as int,
        ) + ",\"last_insert_rowid\":"@ + int_text(results.last_insert_rowid as int) + "}}"@,
        WsResponse::LiveQuery { id, results } => "{\"type\":\"LiveQuery\",\"id\":"@ + string_text(
            id@,
        ) + ",\"results\":{"@ + fields_text(results.0@) + "}}"@,
        WsResponse::HttpRequest { id, response } => "{\"type\":\"HttpRequest\",\"id\":"@
            + string_text(id@) + ",\"response\":{\"status\":"@ + dec_digits(response.status as int)
            + ",\"body\":"@ + opt_body_text(response.body) + ",\"headers\":["@ + header_pairs_text(
            response.headers@,
        ) + "]}}"@,
        WsResponse::Migration { id } => "{\"type\":\"Migration\",\"id\":"@ + string_text(id@)
            + "}"@,
        WsResponse::Error { id, text } => "{\"type\":\"Error\",\"id\":"@ + string_text(id@)
            + ",\"text\":"@ + string_text(text@) + "}"@,
        WsResponse::ChannelError { message } => "{\"type\":\"ChannelError\",\"message\":"@
            + string_text(message@) + "}"@,
    }
}

/// Whether a response terminates the connection once sent.
pub open spec fn is_fatal(r: WsResponse) -> bool {
    r is FatalError
}

/// Whether a response terminates the connection once sent.
pub fn response_is_fatal(r: &WsResponse) -> (b: bool)
    ensures
        b == is_fatal(*r),
{
    match r {
        WsResponse::FatalError { .. } => true,
        _ => false,
    }
}

fn push_headers(hs: &Vec<(String, String)>, out: &mut Vec<char>)
    ensures
        final(out)@ == old(out)@ + header_pairs_text(hs@),
{
    let mut i: usize = 0;
    while i < hs.len()
        invariant
            0 <= i <= hs@.len(),
            out@ == old(out)@ + header_pairs_text(hs@.subrange(0, i as int)),
        decreases hs@.len() - i,
    {
        if i > 0 {
            out.push(',');
        }
        out.push('[');
        push_json_string(hs[i].0.as_str(), out);
        out.push(',');
        push_json_string(hs[i].1.as_str(), out);
        out.push(']');
        proof {
            let cur = hs@.subrange(0, i as int + 1);
            assert(cur.drop_last() =~= hs@.subrange(0, i as int));
            assert(cur.last() == hs@[i as int]);
            assert(out@ =~= old(out)@ + header_pairs_text(cur));
        }
        i = i + 1;
    }
    assert(hs@.subrange(0, hs@.len() as int) =~= hs@);
}

/// Encodes a response as its exact wire text.
pub fn encode_response(r: &WsResponse) -> (s: String)
    ensures
        s@ == response_text(*r),
{
    let mut out: Vec<char> = Vec::new();
    match r {
        WsResponse::Nop { id } => {
            push_str_chars("{\"type\":\"Nop\",\"id\":", &mut out);
            push_json_string(id.as_str(), &mut out);
            push_str_chars("}", &mut out);
        },
        WsResponse::Hello { id } => {
            push_str_chars("{\"type\":\"Hello\",\"id\":", &mut out);
            push_json_string(id.as_str(), &mut out);
            push_str_chars("}", &mut out);
        },
        WsResponse::FatalError { id, error, message } => {
            push_str_chars("{\"type\":\"FatalError\",\"id\":", &mut out);
            push_json_string(id.as_str(), &mut out);
            push_str_chars(",\"error\":", &mut out);
            push_json_string(error.as_str(), &mut out);
            push_str_chars(",\"message\":", &mut out);
            push_json_string(message.as_str(), &mut out);
            push_str_chars("}", &mut out);
        },
        WsResponse::Echo { id, text } => {
            push_str_chars("{\"type\":\"Echo\",\"id\":", &mut out);
            push_json_string(id.as_str(), &mut out);
            push_str_chars(",\"text\":", &mut out);
            push_json_string(text.as_str(), &mut out);
            push_str_chars("}", &mut out);
        },
        WsResponse::ReaderQuery { id, results } => {
            push_str_chars("{\"type\":\"ReaderQuery\",\"id\":", &mut out);
            push_json_string(id.as_str(), &mut out);
            push_str_chars(",\"results\":", &mut out);
            push_json(results, &mut out);
            push_str_chars("}", &mut out);
        },
        WsResponse::WriterQuery { id, results } => {
            push_str_chars("{\"type\":\"WriterQuery\",\"id\":", &mut out);
            push_json_string(id.as_str(), &mut out);
            push_str_chars(",\"results\":{\"changed_rows\":", &mut out);
            push_u64(results.changed_rows as u64, &mut out);
            push_str_chars(",\"last_insert_rowid\":", &mut out);
            push_i64(results.last_insert_rowid, &mut out);
            push_str_chars("}}", &mut out);
        },
        WsResponse::LiveQuery { id, results } => {
            push_str_chars("{\"type\":\"LiveQuery\",\"id\":", &mut out);
            push_json_string(id.as_str(), &mut out);
            push_str_chars(",\"results\":{", &mut out);
            crate::json::push_object_members(&results.0, &mut out);
            push_str_chars("}}", &mut out);
        },
        WsResponse::HttpRequest { id, response } => {
            push_str_chars("{\"type\":\"HttpRequest\",\"id\":", &mut out);
            push_json_string(id.as_str(), &mut out);
            push_str_chars(",\"response\":{\"status\":", &mut out);
            push_u64(response.status as u64, &mut out);
            push_str_chars(",\"body\":", &mut out);
            match &response.body {
                Some(b) => push_json_string(b.as_str(), &mut out),
                None => push_str_chars("null", &mut out),
            }
            push_str_chars(",\"headers\":[", &mut out);
            push_headers(&response.headers, &mut out);
            push_str_chars("]}}", &mut out);
        },
        WsResponse::Migration { id } => {
            push_str_chars("{\"type\":\"Migration\",\"id\":", &mut out);
            push_json_string(id.as_str(), &mut out);
            push_str_chars("}", &mut out);
        },
        WsResponse::Error { id, text } => {
            push_str_chars("{\"type\":\"Error\",\"id\":", &mut out);
            push_json_string(id.as_str(), &mut out);
            push_str_chars(",\"text\":", &mut out);
            push_json_string(text.as_str(), &mut out);
            push_str_chars("}", &mut out);
        },
        WsResponse::ChannelError { message } => {
            push_str_chars("{\"type\":\"ChannelError\",\"message\":", &mut out);
            push_json_string(message.as_str(), &mut out);
            push_str_chars("}", &mut out);
        },
    }
    proof {
        reveal_strlit("null");
        assert(out@ =~= response_text(*r));
    }
    crate::json::chars_to_string(&out)
}


/// What the auth endpoint's JSON body decodes to: the `password` member's
/// text, when the body is an object that has one.
pub open spec fn auth_password_of(v: JsonValue) -> Option<Seq<char>> {
    match v {
        JsonValue::Obj(fields) => lookup_string(fields@, "password"@),
        _ => Option::None,
    }
}

/// Decodes an auth request body. `None` exactly when the text does not
/// parse, or parses to something without a string `password` member.
pub fn decode_auth_request(text: &str) -> (r: Option<String>)
    ensures
        match crate::json::json_parse_of(text@) {
            Option::None => r is None,
            Option::Some(v) => match auth_password_of(v) {
                Option::Some(p) => (r matches Option::Some(s) && s@ == p),
                Option::None => r is None,
            },
        },
{
    let v = match crate::json::parse_json(text) {
        Some(v) => v,
        None => {
            return None;
        },
    };
    let fields = match &v {
        JsonValue::Obj(fields) => fields,
        _ => {
            return None;
        },
    };
    lookup_string_exec(fields, "password")
}

} // verus!
