//! The message loop's decisions: what one input line leads to.
//!
//! The caller reads a line, parses it, and hands the parsed document (or
//! nothing, when parsing failed) to `begin_line`.  The returned step says
//! what to do: write a response line, or perform a request and hand its
//! reply to `resume_login` or `resume_tool`, which again end in a step.
//! Every request envelope leads to exactly one response line echoing its
//! id and holding exactly one of a result and an error; a notification
//! never produces a line; unparsable input is answered with the parse
//! error under a null id.

use vstd::prelude::*;

use crate::gateway::{is_2xx, PlankaError, RemoteRequest};
use crate::json::{JVal, JsonValue};
use crate::mcp::{
    initialize_to_json, is_error_result, spec_tool_result_json,
    spec_tools_list_json, tool_result_to_json, tools_list_to_json, InitializeResult,
    ServerCapabilities, ServerInfo, Tool, ToolCallParams, ToolCallResult, ToolsCapability,
    ToolsListResult,
};
use crate::render::{render_to_string, spec_render};
use crate::rpc::{
    decode_envelope, envelope_shaped, failure_doc, response_to_json, spec_id_json,
    spec_response_json, success_doc, JsonRpcError, JsonRpcResponse,
};
use crate::token::{login_body_has_token, login_body_token, TokenManager, TokenStep};
use crate::tools::{
    finish_call, finishes, invalid_body_text, list_tools, op_prefix, op_prefix_str, plan_call,
    plan_spec, programmatic_tool, status_text, ToolOp, ToolPlan,
};

verus! {

broadcast use crate::json::group_json_model;

/// A tool call waiting for its remote reply: the planned request, the
/// request id to echo, and how to read the reply.
pub struct PendingTool {
    pub request: RemoteRequest,
    pub id: Option<JsonValue>,
    pub op: ToolOp,
}

/// What the loop must do next for the current line.
pub enum Step {
    /// Write the line, if one is given, and read the next input line.
    Done(Option<String>),
    /// Perform the login request, then hand its reply to `resume_login`.
    Login { request: RemoteRequest, pending: PendingTool },
    /// Perform the tool's request with the bearer token, then hand the
    /// reply to `resume_tool`.
    CallTool { request: RemoteRequest, token: String, id: Option<JsonValue>, op: ToolOp },
}

/// The version the server reports about itself.
pub fn server_version() -> (r: &'static str)
    ensures
        r@ == "0.1.0"@,
{
    "0.1.0"
}

/// Whether `d` is a response document for the request id `id`: it carries
/// the protocol version, echoes the id, and holds exactly one of a result
/// and an error.
pub open spec fn response_doc_for(d: JVal, id: JVal) -> bool {
    &&& d.get("jsonrpc"@) == Some(JVal::Str("2.0"@))
    &&& d.get("id"@) == Some(id)
    &&& (d.get("result"@) is Some) != (d.get("error"@) is Some)
}

/// Whether `line` renders a response document for the request id `id`.
pub open spec fn is_response_line_for(line: Seq<char>, id: JVal) -> bool {
    exists|d: JVal| #[trigger] spec_render(d) == line && response_doc_for(d, id)
}

/// Whether the step writes exactly the given line.
pub open spec fn step_is_line(r: Step, line: Seq<char>) -> bool {
    r matches Step::Done(o) && o matches Some(l) && l@ == line
}

/// Whether the step keeps answering the request id `id`: a written line
/// responds to it, and a pending request still carries it.
pub open spec fn step_for_id(r: Step, id: JVal) -> bool {
    match r {
        Step::Done(o) => o matches Some(line) && is_response_line_for(line@, id),
        Step::Login { request, pending } => spec_id_json(pending.id) == id,
        Step::CallTool { request, token, id: sid, op } => spec_id_json(sid) == id,
    }
}

/// The id member of a request document.
pub open spec fn req_id(v: JVal) -> JVal {
    match v.get("id"@) {
        Some(x) => x,
        None => JVal::Null,
    }
}

/// The method name of a request document.
pub open spec fn method_of(v: JVal) -> Seq<char> {
    match v.get("method"@) {
        Some(JVal::Str(m)) => m,
        _ => Seq::empty(),
    }
}

/// Whether a well-shaped envelope is a notification: its id is absent or
/// `null`.
pub open spec fn is_notification(v: JVal) -> bool {
    envelope_shaped(v) && (v.get("id"@) is None || v.get("id"@) == Some(JVal::Null))
}

/// Whether a well-shaped envelope is a request: its id is present and not
/// `null`.
pub open spec fn is_request(v: JVal) -> bool {
    envelope_shaped(v) && (v.get("id"@) matches Some(x) && x != JVal::Null)
}

/// The line answering unparsable or unenvelope-shaped input.
pub open spec fn parse_error_line() -> Seq<char> {
    spec_render(failure_doc(JVal::Null, -32700, "Parse error"@, None))
}

/// The document answering an `initialize` request.
pub open spec fn initialize_doc() -> JVal {
    JVal::Obj(
        seq![
            ("protocolVersion"@, JVal::Str("2024-11-05"@)),
            (
                "capabilities"@,
                JVal::Obj(
                    seq![("tools"@, JVal::Obj(seq![("listChanged"@, JVal::Bool(false))]))],
                ),
            ),
            (
                "serverInfo"@,
                JVal::Obj(
                    seq![("name"@, JVal::Str("planka-mcp"@)), ("version"@, JVal::Str("0.1.0"@))],
                ),
            ),
        ],
    )
}

/// The shape of the advertised catalog: eleven tools under their fixed
/// names, the delete tools without annotations, the rest marked for
/// programmatic calling.
pub open spec fn catalog_shaped(ts: Seq<Tool>) -> bool {
    &&& ts.len() == 11
    &&& ts[0].name@ == "list_projects"@ && programmatic_tool(ts[0])
    &&& ts[1].name@ == "list_boards"@ && programmatic_tool(ts[1])
    &&& ts[2].name@ == "list_lists"@ && programmatic_tool(ts[2])
    &&& ts[3].name@ == "list_cards"@ && programmatic_tool(ts[3])
    &&& ts[4].name@ == "create_board"@ && programmatic_tool(ts[4])
    &&& ts[5].name@ == "create_list"@ && programmatic_tool(ts[5])
    &&& ts[6].name@ == "create_card"@ && programmatic_tool(ts[6])
    &&& ts[7].name@ == "update_card"@ && programmatic_tool(ts[7])
    &&& ts[8].name@ == "move_card"@ && programmatic_tool(ts[8])
    &&& ts[9].name@ == "delete_card"@ && ts[9].annotations is None
    &&& ts[10].name@ == "delete_list"@ && ts[10].annotations is None
}

/// The `params` member of a request document.
pub open spec fn params_of(v: JVal) -> JVal {
    match v.get("params"@) {
        Some(p) => p,
        None => JVal::Null,
    }
}

/// Whether the request carries usable `params` for a tool call.
pub open spec fn has_params(v: JVal) -> bool {
    v.get("params"@) matches Some(p) && p != JVal::Null
}

/// The tool name inside the call parameters.
pub open spec fn call_name(p: JVal) -> Seq<char> {
    match p.get("name"@) {
        Some(JVal::Str(s)) => s,
        _ => Seq::empty(),
    }
}

/// Whether the call parameters name their tool with a string.
pub open spec fn has_call_name(p: JVal) -> bool {
    p.get("name"@) matches Some(x) && x is Str
}

/// Whether the optional argument value `args` reads the `arguments`
/// member of the call parameters `p`; `null` counts as absent.
pub open spec fn args_read(p: JVal, args: Option<JsonValue>) -> bool {
    match args {
        Some(a) => p.get("arguments"@) == Some(a.deep_view()) && a.deep_view() != JVal::Null,
        None => p.get("arguments"@) is None || p.get("arguments"@) == Some(JVal::Null),
    }
}

/// The token at hand without any request: the static token, or the cache.
pub open spec fn avail_token(mgr: TokenManager) -> Option<Seq<char>> {
    match mgr.auth {
        crate::token::PlankaAuth::Token(t) => Some(t@),
        crate::token::PlankaAuth::Credentials { email, password } => match mgr.cached_token {
            Some(t) => Some(t@),
            None => None,
        },
    }
}

/// How a tool plan becomes a step: an immediate result is answered at
/// once; a remote operation runs with the token at hand, or waits behind
/// the login call.
pub open spec fn plan_step(mgr: TokenManager, id: JVal, plan: ToolPlan, r: Step) -> bool {
    match plan {
        ToolPlan::Done(res) => step_is_line(
            r,
            spec_render(success_doc(id, spec_tool_result_json(res))),
        ),
        ToolPlan::Remote { request, op } => match avail_token(mgr) {
            Some(t) => r matches Step::CallTool { request: rq, token, id: sid, op: o } && rq
                == request && o == op && spec_id_json(sid) == id && token@ == t,
            None => r matches Step::Login { request: lr, pending } && lr.method is Post
                && lr.path@ == "/api/access-tokens"@ && pending.request == request && pending.op
                == op && spec_id_json(pending.id) == id,
        },
    }
}

/// How a `tools/call` request becomes a step.
pub open spec fn call_step(mgr: TokenManager, v: JVal, r: Step) -> bool {
    if !has_params(v) {
        step_is_line(
            r,
            spec_render(failure_doc(req_id(v), -32602, "Missing params"@, None)),
        )
    } else if !has_call_name(params_of(v)) {
        step_is_line(
            r,
            spec_render(failure_doc(req_id(v), -32602, "Invalid params"@, None)),
        )
    } else {
        exists|plan: ToolPlan, args: Option<JsonValue>|
            #![auto]
            args_read(params_of(v), args) && plan_spec(call_name(params_of(v)), args, plan)
                && plan_step(mgr, req_id(v), plan, r)
    }
}

/// How a request envelope becomes a step: the immediate methods are
/// answered exactly, an unknown method is refused by name, and a tool
/// call proceeds by its plan — and whatever the method, the step keeps
/// answering the request's id.
pub open spec fn request_step(mgr: TokenManager, v: JVal, r: Step) -> bool {
    let id = req_id(v);
    let m = method_of(v);
    &&& step_for_id(r, id)
    &&& m == "initialize"@ ==> step_is_line(r, spec_render(success_doc(id, initialize_doc())))
    &&& m == "tools/list"@ ==> (exists|ts: Seq<Tool>|
        #![auto]
        catalog_shaped(ts) && step_is_line(r, spec_render(success_doc(id, spec_tools_list_json(ts)))))
    &&& m == "ping"@ ==> step_is_line(r, spec_render(success_doc(id, JVal::Obj(Seq::empty()))))
    &&& m == "tools/call"@ ==> call_step(mgr, v, r)
    &&& !(m == "initialize"@ || m == "tools/list"@ || m == "tools/call"@ || m == "ping"@)
        ==> step_is_line(r, spec_render(failure_doc(id, -32601, "Method not found: "@ + m, None)))
}

/// Renders a response envelope as its one output line.
fn respond_with(resp: JsonRpcResponse) -> (r: Step)
    ensures
        step_is_line(r, spec_render(spec_response_json(resp))),
        is_response_line_for(spec_render(spec_response_json(resp)), spec_id_json(resp.spec_id())),
{
    let ghost gresp = resp;
    let line = render_to_string(&response_to_json(resp));
    proof {
        crate::rpc::lemma_response_exclusive(gresp);
        assert(spec_render(spec_response_json(gresp)) == line@);
    }
    Step::Done(Some(line))
}

/// Decodes the parameters of a `tools/call` request: a tool name, and an
/// optional argument value, where `null` arguments count as absent.
fn decode_call_params(p: &JsonValue) -> (r: Option<ToolCallParams>)
    ensures
        r is Some <==> has_call_name(p.deep_view()),
        match r {
            Some(cp) => cp.name@ == call_name(p.deep_view()) && args_read(
                p.deep_view(),
                cp.arguments,
            ),
            None => true,
        },
{
    let name = match p.get_str_member("name") {
        Some(s) => s.clone(),
        None => {
            return None;
        },
    };
    let arguments = match p.get_member("arguments") {
        None => None,
        Some(JsonValue::Null) => None,
        Some(a) => Some(a.duplicate()),
    };
    Some(ToolCallParams { name, arguments })
}

/// Takes one parsed input line (or a parse failure) and decides what the
/// loop does: unparsable or ill-shaped input is answered with the parse
/// error under a null id; a notification is never answered; a request is
/// answered exactly once, immediately or after its remote call.
pub fn begin_line(mgr: &TokenManager, parsed: Option<JsonValue>) -> (r: Step)
    ensures
        parsed is None ==> step_is_line(r, parse_error_line()),
        parsed matches Some(v) ==> {
            let gv = v.deep_view();
            &&& !envelope_shaped(gv) ==> step_is_line(r, parse_error_line())
            &&& is_notification(gv) ==> r == Step::Done(None::<String>)
            &&& is_request(gv) ==> request_step(*mgr, gv, r)
        },
{
    let v = match parsed {
        Some(v) => v,
        None => {
            return respond_with(JsonRpcResponse::error(None, JsonRpcError::parse_error()));
        },
    };
    let req = match decode_envelope(&v) {
        Some(req) => req,
        None => {
            return respond_with(JsonRpcResponse::error(None, JsonRpcError::parse_error()));
        },
    };
    let id = match req.id {
        Some(i) => i,
        None => {
            return Step::Done(None);
        },
    };
    let ghost gv = v.deep_view();
    proof {
        reveal_strlit("initialize");
        reveal_strlit("tools/list");
        reveal_strlit("tools/call");
        reveal_strlit("ping");
        assert("initialize"@.len() == 10);
        assert("tools/list"@.len() == 10);
        assert("tools/call"@.len() == 10);
        assert("ping"@.len() == 4);
        assert("initialize"@[0] == 'i');
        assert("tools/list"@[0] == 't');
        assert("tools/list"@[6] == 'l');
        assert("tools/call"@[6] == 'c');
    }
    if crate::json::str_eq(req.method.as_str(), "initialize") {
        let result = initialize_to_json(
            InitializeResult {
                protocol_version: "2024-11-05".to_owned(),
                capabilities: ServerCapabilities { tools: ToolsCapability { list_changed: false } },
                server_info: ServerInfo {
                    name: "planka-mcp".to_owned(),
                    version: server_version().to_owned(),
                },
            },
        );
        proof {
            assert(result.deep_view()->Obj_0 =~~= initialize_doc()->Obj_0);
        }
        respond_with(JsonRpcResponse::success(Some(id), result))
    } else if crate::json::str_eq(req.method.as_str(), "tools/list") {
        let tools = list_tools();
        let ghost gtools = tools@;
        let result = tools_list_to_json(ToolsListResult { tools });
        let out = respond_with(JsonRpcResponse::success(Some(id), result));
        proof {
            assert(catalog_shaped(gtools) && step_is_line(
                out,
                spec_render(success_doc(req_id(gv), spec_tools_list_json(gtools))),
            ));
        }
        out
    } else if crate::json::str_eq(req.method.as_str(), "tools/call") {
        let params = match req.params {
            Some(p) => p,
            None => {
                return respond_with(
                    JsonRpcResponse::error(Some(id), JsonRpcError::invalid_params("Missing params")),
                );
            },
        };
        let cp = match decode_call_params(&params) {
            Some(cp) => cp,
            None => {
                return respond_with(
                    JsonRpcResponse::error(Some(id), JsonRpcError::invalid_params("Invalid params")),
                );
            },
        };
        let ghost gargs = cp.arguments;
        let plan = plan_call(cp.name.as_str(), cp.arguments);
        let ghost gplan = plan;
        match plan {
            ToolPlan::Done(res) => {
                let ghost gres = res;
                let out = respond_with(
                    JsonRpcResponse::success(Some(id), tool_result_to_json(res)),
                );
                proof {
                    assert(args_read(params_of(gv), gargs) && plan_spec(
                        call_name(params_of(gv)),
                        gargs,
                        gplan,
                    ) && plan_step(*mgr, req_id(gv), gplan, out));
                }
                out
            },
            ToolPlan::Remote { request, op } => {
                let out = match mgr.resolve_step() {
                    TokenStep::Ready(token) => Step::CallTool { request, token, id: Some(id), op },
                    TokenStep::NeedsLogin(lreq) => Step::Login {
                        request: lreq,
                        pending: PendingTool { request, id: Some(id), op },
                    },
                };
                proof {
                    assert(args_read(params_of(gv), gargs) && plan_spec(
                        call_name(params_of(gv)),
                        gargs,
                        gplan,
                    ) && plan_step(*mgr, req_id(gv), gplan, out));
                }
                out
            },
        }
    } else if crate::json::str_eq(req.method.as_str(), "ping") {
        let empty: Vec<(String, JsonValue)> = Vec::new();
        let result = JsonValue::Obj(empty);
        proof {
            assert(result.deep_view()->Obj_0 =~= Seq::<(Seq<char>, JVal)>::empty());
        }
        respond_with(JsonRpcResponse::success(Some(id), result))
    } else {
        respond_with(
            JsonRpcResponse::error(Some(id), JsonRpcError::method_not_found(req.method.as_str())),
        )
    }
}

/// Takes the login reply in and either carries the pending tool call
/// forward with the fresh token, or answers at once with an error-flagged
/// result.  A failed login caches nothing, so the next call tries again.
pub fn resume_login(
    mgr: &mut TokenManager,
    pending: PendingTool,
    status: u16,
    body: String,
    json: Option<JsonValue>,
) -> (r: Step)
    ensures
        final(mgr).auth == old(mgr).auth,
        step_for_id(r, spec_id_json(pending.id)),
        !is_2xx(status) ==> (final(mgr).cached_token == old(mgr).cached_token && (exists|
            res: ToolCallResult,
        |
            #![auto]
            is_error_result(res, op_prefix(pending.op) + status_text(status, body@))
                && step_is_line(
                r,
                spec_render(success_doc(spec_id_json(pending.id), spec_tool_result_json(res))),
            ))),
        is_2xx(status) ==> match json {
            Some(v) => {
                if login_body_has_token(v.deep_view()) {
                    &&& r matches Step::CallTool { request, token, id, op } && request
                        == pending.request && op == pending.op && spec_id_json(id) == spec_id_json(
                        pending.id,
                    ) && token@ == login_body_token(v.deep_view())
                    &&& final(mgr).cached_token matches Some(c) && c@ == login_body_token(
                        v.deep_view(),
                    )
                } else {
                    final(mgr).cached_token == old(mgr).cached_token && (exists|
                        res: ToolCallResult,
                    |
                        #![auto]
                        is_error_result(
                            res,
                            op_prefix(pending.op) + ("Configuration error: "@
                                + "No token in login response"@),
                        ) && step_is_line(
                            r,
                            spec_render(
                                success_doc(spec_id_json(pending.id), spec_tool_result_json(res)),
                            ),
                        ))
                }
            },
            None => final(mgr).cached_token == old(mgr).cached_token && (exists|
                res: ToolCallResult,
            |
                #![auto]
                is_error_result(res, op_prefix(pending.op) + invalid_body_text()) && step_is_line(
                    r,
                    spec_render(success_doc(spec_id_json(pending.id), spec_tool_result_json(res))),
                )),
        },
{
    let ghost gbody = body@;
    let ghost gjson = json;
    let PendingTool { request, id, op } = pending;
    let ghost gop = op;
    let ghost gid = id;
    match mgr.absorb_login(status, body, json) {
        Ok(token) => Step::CallTool { request, token, id, op },
        Err(e) => {
            let res = ToolCallResult::error(crate::tools::fail_text(op_prefix_str(&op), &e));
            let ghost gres = res;
            let out = respond_with(JsonRpcResponse::success(id, tool_result_to_json(res)));
            proof {
                let expected = spec_render(
                    success_doc(spec_id_json(gid), spec_tool_result_json(gres)),
                );
                if !is_2xx(status) {
                    assert(is_error_result(gres, op_prefix(gop) + status_text(status, gbody))
                        && step_is_line(out, expected));
                } else {
                    match gjson {
                        Some(v) => {
                            if !login_body_has_token(v.deep_view()) {
                                assert(is_error_result(
                                    gres,
                                    op_prefix(gop) + ("Configuration error: "@
                                        + "No token in login response"@),
                                ) && step_is_line(out, expected));
                            }
                        },
                        None => {
                            assert(is_error_result(gres, op_prefix(gop) + invalid_body_text())
                                && step_is_line(out, expected));
                        },
                    }
                }
            }
            out
        },
    }
}

/// Answers a pending call whose transport failed before any status was
/// received: the request still gets its one response line, carrying an
/// error-flagged result with the transport's message.
pub fn resume_transport_failure(id: Option<JsonValue>, op: ToolOp, message: String) -> (r: Step)
    ensures
        step_for_id(r, spec_id_json(id)),
        exists|res: ToolCallResult|
            #![auto]
            is_error_result(res, op_prefix(op) + ("HTTP error: "@ + message@)) && step_is_line(
                r,
                spec_render(success_doc(spec_id_json(id), spec_tool_result_json(res))),
            ),
{
    let ghost gid = id;
    let ghost gop = op;
    let ghost gmsg = message@;
    let e = PlankaError::Http(message);
    let res = ToolCallResult::error(crate::tools::fail_text(op_prefix_str(&op), &e));
    let ghost gres = res;
    let out = respond_with(JsonRpcResponse::success(id, tool_result_to_json(res)));
    proof {
        assert(is_error_result(gres, op_prefix(gop) + ("HTTP error: "@ + gmsg)) && step_is_line(
            out,
            spec_render(success_doc(spec_id_json(gid), spec_tool_result_json(gres))),
        ));
    }
    out
}

/// Takes the tool's reply in and answers the request: always exactly one
/// response line, echoing the request id, carrying the result the reply
/// was read into.
pub fn resume_tool(
    id: Option<JsonValue>,
    op: ToolOp,
    status: u16,
    body: String,
    json: Option<JsonValue>,
) -> (r: Step)
    ensures
        step_for_id(r, spec_id_json(id)),
        exists|res: ToolCallResult|
            #![auto]
            finishes(op, status, body@, json, res) && step_is_line(
                r,
                spec_render(success_doc(spec_id_json(id), spec_tool_result_json(res))),
            ),
{
    let ghost gbody = body@;
    let ghost gjson = json;
    let ghost gid = id;
    let ghost gop = op;
    let res = finish_call(op, status, body, json);
    let ghost gres = res;
    let out = respond_with(JsonRpcResponse::success(id, tool_result_to_json(res)));
    proof {
        assert(finishes(gop, status, gbody, gjson, gres) && step_is_line(
            out,
            spec_render(success_doc(spec_id_json(gid), spec_tool_result_json(gres))),
        ));
    }
    out
}

} // verus!
