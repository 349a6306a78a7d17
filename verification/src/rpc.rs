//! JSON-RPC envelopes: requests, responses, and protocol errors.
//!
//! A request with an `id` member demands exactly one response; a request
//! without one is a notification and is never answered.  A response carries
//! exactly one of a result and an error, which the `JsonRpcResponse` shape
//! guarantees by construction.

use vstd::prelude::*;

use crate::json::{JVal, JsonValue};

verus! {

broadcast use crate::json::group_json_model;

/// A decoded request envelope.  `id` is an opaque value echoed back to the
/// caller; `None` marks a notification.
pub struct JsonRpcRequest {
    pub jsonrpc: String,
    pub method: String,
    pub params: Option<JsonValue>,
    pub id: Option<JsonValue>,
}

/// A protocol-level error: a well-known code, a message, and optional data.
pub struct JsonRpcError {
    pub code: i32,
    pub message: String,
    pub data: Option<JsonValue>,
}

/// A response envelope: a result or an error, never both, never neither.
pub enum JsonRpcResponse {
    Success { id: Option<JsonValue>, result: JsonValue },
    Failure { id: Option<JsonValue>, error: JsonRpcError },
}

impl JsonRpcError {
    /// The error sent for input that is not a well-formed request envelope.
    pub fn parse_error() -> (r: Self)
        ensures
            r.code == -32700,
            r.message@ == "Parse error"@,
            r.data is None,
    {
        JsonRpcError { code: -32700, message: "Parse error".to_owned(), data: None }
    }

    /// The error sent for a request method outside the protocol.
    pub fn method_not_found(method: &str) -> (r: Self)
        ensures
            r.code == -32601,
            r.message@ == "Method not found: "@ + method@,
            r.data is None,
    {
        let mut message = "Method not found: ".to_owned();
        message.append(method);
        JsonRpcError { code: -32601, message, data: None }
    }

    /// The error sent for a request whose parameters cannot be used.
    pub fn invalid_params(msg: &str) -> (r: Self)
        ensures
            r.code == -32602,
            r.message@ == msg@,
            r.data is None,
    {
        JsonRpcError { code: -32602, message: msg.to_owned(), data: None }
    }

    /// The error sent when the server itself fails to build a response.
    pub fn internal_error(msg: &str) -> (r: Self)
        ensures
            r.code == -32603,
            r.message@ == msg@,
            r.data is None,
    {
        JsonRpcError { code: -32603, message: msg.to_owned(), data: None }
    }
}

impl JsonRpcResponse {
    /// Wraps a result payload with the echoed request id.
    pub fn success(id: Option<JsonValue>, result: JsonValue) -> (r: Self)
        ensures
            r == (JsonRpcResponse::Success { id, result }),
    {
        JsonRpcResponse::Success { id, result }
    }

    /// Wraps a protocol error with the echoed request id.
    pub fn error(id: Option<JsonValue>, error: JsonRpcError) -> (r: Self)
        ensures
            r == (JsonRpcResponse::Failure { id, error }),
    {
        JsonRpcResponse::Failure { id, error }
    }

    /// The echoed request id of a response.
    pub open spec fn spec_id(self) -> Option<JsonValue> {
        match self {
            JsonRpcResponse::Success { id, .. } => id,
            JsonRpcResponse::Failure { id, .. } => id,
        }
    }
}

/// Whether `v` has the shape of a request envelope: an object whose
/// `jsonrpc` and `method` members are strings.
pub open spec fn envelope_shaped(v: JVal) -> bool {
    &&& v.get("jsonrpc"@) matches Some(j) && j is Str
    &&& v.get("method"@) matches Some(m) && m is Str
}

/// Whether a decoded envelope `req` faithfully reads the document `v`.
pub open spec fn decodes_envelope(v: JVal, req: JsonRpcRequest) -> bool {
    &&& v.get("jsonrpc"@) == Some(JVal::Str(req.jsonrpc@))
    &&& v.get("method"@) == Some(JVal::Str(req.method@))
    &&& match req.params {
        Some(p) => v.get("params"@) == Some(p.deep_view()) && p.deep_view() != JVal::Null,
        None => v.get("params"@) is None || v.get("params"@) == Some(JVal::Null),
    }
    &&& match req.id {
        Some(i) => v.get("id"@) == Some(i.deep_view()) && i.deep_view() != JVal::Null,
        None => v.get("id"@) is None || v.get("id"@) == Some(JVal::Null),
    }
}

/// Decodes a parsed document into a request envelope.  A document without
/// the required members is rejected, exactly as input that does not parse.
/// An `id` member holding `null` counts as an absent id: such a message is
/// a notification.
pub fn decode_envelope(v: &JsonValue) -> (r: Option<JsonRpcRequest>)
    ensures
        match r {
            Some(req) => decodes_envelope(v.deep_view(), req),
            None => !envelope_shaped(v.deep_view()),
        },
{
    let jsonrpc = match v.get_str_member("jsonrpc") {
        Some(s) => s.clone(),
        None => {
            return None;
        },
    };
    let method = match v.get_str_member("method") {
        Some(s) => s.clone(),
        None => {
            return None;
        },
    };
    let params = match v.get_member("params") {
        Some(JsonValue::Null) => None,
        Some(p) => Some(p.duplicate()),
        None => None,
    };
    let id = match v.get_member("id") {
        Some(JsonValue::Null) => None,
        Some(other) => Some(other.duplicate()),
        None => None,
    };
    Some(JsonRpcRequest { jsonrpc, method, params, id })
}

/// The id member of a response document: the echoed value, or `null` when
/// the request id was unreadable.
pub open spec fn spec_id_json(id: Option<JsonValue>) -> JVal {
    match id {
        Some(v) => v.deep_view(),
        None => JVal::Null,
    }
}

/// The document shape of a protocol error value.
pub open spec fn error_doc(code: int, message: Seq<char>, data: Option<JVal>) -> JVal {
    match data {
        Some(d) => JVal::Obj(
            seq![("code"@, JVal::Int(code)), ("message"@, JVal::Str(message)), ("data"@, d)],
        ),
        None => JVal::Obj(seq![("code"@, JVal::Int(code)), ("message"@, JVal::Str(message))]),
    }
}

/// The document shape of a success response: the protocol version, the
/// result, and the echoed id, in that order.
pub open spec fn success_doc(id: JVal, result: JVal) -> JVal {
    JVal::Obj(
        seq![("jsonrpc"@, JVal::Str("2.0"@)), ("result"@, result), ("id"@, id)],
    )
}

/// The document shape of a failure response: the protocol version, the
/// error, and the echoed id, in that order.
pub open spec fn failure_doc(id: JVal, code: int, message: Seq<char>, data: Option<JVal>) -> JVal {
    JVal::Obj(
        seq![
            ("jsonrpc"@, JVal::Str("2.0"@)),
            ("error"@, error_doc(code, message, data)),
            ("id"@, id),
        ],
    )
}

/// The document shape of a protocol error.
pub open spec fn spec_error_json(e: JsonRpcError) -> JVal {
    error_doc(
        e.code as int,
        e.message@,
        match e.data {
            Some(d) => Some(d.deep_view()),
            None => None,
        },
    )
}

/// The document shape of a response envelope.
pub open spec fn spec_response_json(resp: JsonRpcResponse) -> JVal {
    match resp {
        JsonRpcResponse::Success { id, result } => success_doc(
            spec_id_json(id),
            result.deep_view(),
        ),
        JsonRpcResponse::Failure { id, error } => failure_doc(
            spec_id_json(id),
            error.code as int,
            error.message@,
            match error.data {
                Some(d) => Some(d.deep_view()),
                None => None,
            },
        ),
    }
}

/// Builds the document for a response envelope.
pub fn response_to_json(resp: JsonRpcResponse) -> (r: JsonValue)
    ensures
        r.deep_view() == spec_response_json(resp),
{
    match resp {
        JsonRpcResponse::Success { id, result } => {
            let ghost gresp = JsonRpcResponse::Success { id, result };
            let mut members: Vec<(String, JsonValue)> = Vec::new();
            members.push(("jsonrpc".to_owned(), JsonValue::Str("2.0".to_owned())));
            members.push(("result".to_owned(), result));
            members.push(("id".to_owned(), id_to_json(id)));
            let r = JsonValue::Obj(members);
            proof {
                assert(r.deep_view()->Obj_0 =~= spec_response_json(gresp)->Obj_0);
            }
            r
        },
        JsonRpcResponse::Failure { id, error } => {
            let ghost gresp = JsonRpcResponse::Failure { id, error };
            let ghost gerror = error;
            let error_json = error_to_json(error);
            let mut members: Vec<(String, JsonValue)> = Vec::new();
            members.push(("jsonrpc".to_owned(), JsonValue::Str("2.0".to_owned())));
            members.push(("error".to_owned(), error_json));
            members.push(("id".to_owned(), id_to_json(id)));
            let r = JsonValue::Obj(members);
            proof {
                assert(r.deep_view()->Obj_0 =~= spec_response_json(gresp)->Obj_0);
            }
            r
        },
    }
}

/// Builds the id member of a response document.
fn id_to_json(id: Option<JsonValue>) -> (r: JsonValue)
    ensures
        r.deep_view() == spec_id_json(id),
{
    match id {
        Some(v) => v,
        None => JsonValue::Null,
    }
}

/// Builds the document for a protocol error.
fn error_to_json(e: JsonRpcError) -> (r: JsonValue)
    ensures
        r.deep_view() == spec_error_json(e),
{
    let ghost ge = e;
    let JsonRpcError { code, message, data } = e;
    let mut members: Vec<(String, JsonValue)> = Vec::new();
    members.push(("code".to_owned(), JsonValue::Num(crate::json::JsonNumber::Int(code as i64))));
    members.push(("message".to_owned(), JsonValue::Str(message)));
    match data {
        Some(d) => {
            members.push(("data".to_owned(), d));
            let r = JsonValue::Obj(members);
            proof {
                assert(r.deep_view()->Obj_0 =~= spec_error_json(ge)->Obj_0);
            }
            r
        },
        None => {
            let r = JsonValue::Obj(members);
            proof {
                assert(r.deep_view()->Obj_0 =~= spec_error_json(ge)->Obj_0);
            }
            r
        },
    }
}

/// A response document holds exactly one of a `result` and an `error`
/// member, and always echoes the request id.
pub proof fn lemma_response_exclusive(resp: JsonRpcResponse)
    ensures
        (spec_response_json(resp).get("result"@) is Some) != (spec_response_json(resp).get(
            "error"@,
        ) is Some),
        spec_response_json(resp).get("id"@) == Some(spec_id_json(resp.spec_id())),
        spec_response_json(resp).get("jsonrpc"@) == Some(JVal::Str("2.0"@)),
{
    reveal_strlit("jsonrpc");
    reveal_strlit("result");
    reveal_strlit("error");
    reveal_strlit("id");
    assert("jsonrpc"@.len() == 7);
    assert("result"@.len() == 6);
    assert("error"@.len() == 5);
    assert("id"@.len() == 2);
    reveal_with_fuel(crate::json::lookup, 5);
    let m = spec_response_json(resp)->Obj_0;
    assert(m.drop_first() =~= seq![m[1], m[2]]);
    assert(m.drop_first().drop_first() =~= seq![m[2]]);
    assert(m.drop_first().drop_first().drop_first() =~= Seq::empty());
    match resp {
        JsonRpcResponse::Success { id, result } => {
            assert(crate::json::lookup(m, "result"@) == Some(m[1].1));
            assert(crate::json::lookup(m, "error"@) is None);
        },
        JsonRpcResponse::Failure { id, error } => {
            assert(crate::json::lookup(m, "error"@) == Some(m[1].1));
            assert(crate::json::lookup(m, "result"@) is None);
        },
    }
}

} // verus!
