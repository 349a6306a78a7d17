//! Protocol result types: server metadata, the tool catalog entries, and
//! tool-call results, with their document shapes.
//!
//! Member names follow the wire format of the protocol (camel case), and a
//! member holding nothing is left out rather than set to `null`.

use vstd::prelude::*;

use crate::json::{JVal, JsonValue};

verus! {

broadcast use crate::json::group_json_model;

/// Whether the tool catalog can change while the server runs.
pub struct ToolsCapability {
    pub list_changed: bool,
}

/// What the server offers a client.
pub struct ServerCapabilities {
    pub tools: ToolsCapability,
}

/// The server's name and version.
pub struct ServerInfo {
    pub name: String,
    pub version: String,
}

/// The payload answering an `initialize` request.
pub struct InitializeResult {
    pub protocol_version: String,
    pub capabilities: ServerCapabilities,
    pub server_info: ServerInfo,
}

/// Capability marks on a tool, such as which callers may invoke it
/// programmatically.
pub struct ToolAnnotations {
    pub allowed_callers: Option<Vec<String>>,
}

/// One entry of the tool catalog.
pub struct Tool {
    pub name: String,
    pub description: String,
    pub input_schema: JsonValue,
    pub annotations: Option<ToolAnnotations>,
}

/// The payload answering a `tools/list` request.
pub struct ToolsListResult {
    pub tools: Vec<Tool>,
}

/// The decoded parameters of a `tools/call` request.
pub struct ToolCallParams {
    pub name: String,
    pub arguments: Option<JsonValue>,
}

/// One piece of tool-result content.
pub enum ToolContent {
    Text { text: String },
}

/// The uniform envelope of a tool outcome: displayable text, flagged when
/// the call failed.
pub struct ToolCallResult {
    pub content: Vec<ToolContent>,
    pub is_error: Option<bool>,
}

impl ToolCallResult {
    /// A successful tool outcome carrying `text`.
    pub fn text(text: String) -> (r: Self)
        ensures
            r.content@ == seq![ToolContent::Text { text }],
            r.is_error is None,
    {
        let mut content: Vec<ToolContent> = Vec::new();
        content.push(ToolContent::Text { text });
        ToolCallResult { content, is_error: None }
    }

    /// A failed tool outcome carrying `text`.
    pub fn error(text: String) -> (r: Self)
        ensures
            r.content@ == seq![ToolContent::Text { text }],
            r.is_error == Some(true),
    {
        let mut content: Vec<ToolContent> = Vec::new();
        content.push(ToolContent::Text { text });
        ToolCallResult { content, is_error: Some(true) }
    }
}

/// Whether `r` is a successful tool outcome carrying exactly the text `t`.
pub open spec fn is_text_result(r: ToolCallResult, t: Seq<char>) -> bool {
    &&& r.content@.len() == 1
    &&& r.content@[0] matches ToolContent::Text { text } && text@ == t
    &&& r.is_error is None
}

/// Whether `r` is a failed tool outcome carrying exactly the text `t`.
pub open spec fn is_error_result(r: ToolCallResult, t: Seq<char>) -> bool {
    &&& r.content@.len() == 1
    &&& r.content@[0] matches ToolContent::Text { text } && text@ == t
    &&& r.is_error == Some(true)
}

/// The document shape of tool annotations; an absent caller list is left
/// out entirely.
pub open spec fn spec_annotations_json(a: ToolAnnotations) -> JVal {
    match a.allowed_callers {
        Some(callers) => JVal::Obj(
            seq![
                (
                    "allowedCallers"@,
                    JVal::Arr(Seq::new(callers@.len(), |i: int| JVal::Str(callers@[i]@))),
                ),
            ],
        ),
        None => JVal::Obj(Seq::empty()),
    }
}

/// Builds the document for tool annotations.
pub fn annotations_to_json(a: ToolAnnotations) -> (r: JsonValue)
    ensures
        r.deep_view() == spec_annotations_json(a),
{
    let ghost ga = a;
    match a.allowed_callers {
        Some(callers) => {
            let n = callers.len();
            let mut items: Vec<JsonValue> = Vec::new();
            let mut i: usize = 0;
            #[verifier::loop_isolation(false)]
            while i < n
                invariant
                    0 <= i <= n,
                    items@.len() == i,
                    forall|k: int| 0 <= k < i ==> items@[k] == JsonValue::Str(callers@[k]),
                decreases n - i,
            {
                items.push(JsonValue::Str(callers[i].clone()));
                i += 1;
            }
            let arr = JsonValue::Arr(items);
            proof {
                assert(arr.deep_view()->Arr_0 =~= spec_annotations_json(ga)->Obj_0[0].1->Arr_0);
            }
            let mut members: Vec<(String, JsonValue)> = Vec::new();
            members.push(("allowedCallers".to_owned(), arr));
            let r = JsonValue::Obj(members);
            proof {
                assert(r.deep_view()->Obj_0 =~= spec_annotations_json(ga)->Obj_0);
            }
            r
        },
        None => {
            let members: Vec<(String, JsonValue)> = Vec::new();
            let r = JsonValue::Obj(members);
            proof {
                assert(r.deep_view()->Obj_0 =~= spec_annotations_json(ga)->Obj_0);
            }
            r
        },
    }
}

/// The document shape of a catalog entry; a tool without annotations has
/// no `annotations` member at all.
pub open spec fn spec_tool_json(t: Tool) -> JVal {
    match t.annotations {
        Some(a) => JVal::Obj(
            seq![
                ("name"@, JVal::Str(t.name@)),
                ("description"@, JVal::Str(t.description@)),
                ("inputSchema"@, t.input_schema.deep_view()),
                ("annotations"@, spec_annotations_json(a)),
            ],
        ),
        None => JVal::Obj(
            seq![
                ("name"@, JVal::Str(t.name@)),
                ("description"@, JVal::Str(t.description@)),
                ("inputSchema"@, t.input_schema.deep_view()),
            ],
        ),
    }
}

/// Builds the document for a catalog entry.
pub fn tool_to_json(t: Tool) -> (r: JsonValue)
    ensures
        r.deep_view() == spec_tool_json(t),
{
    let ghost gt = t;
    let Tool { name, description, input_schema, annotations } = t;
    let mut members: Vec<(String, JsonValue)> = Vec::new();
    members.push(("name".to_owned(), JsonValue::Str(name)));
    members.push(("description".to_owned(), JsonValue::Str(description)));
    members.push(("inputSchema".to_owned(), input_schema));
    match annotations {
        Some(a) => {
            members.push(("annotations".to_owned(), annotations_to_json(a)));
            let r = JsonValue::Obj(members);
            proof {
                assert(r.deep_view()->Obj_0 =~= spec_tool_json(gt)->Obj_0);
            }
            r
        },
        None => {
            let r = JsonValue::Obj(members);
            proof {
                assert(r.deep_view()->Obj_0 =~= spec_tool_json(gt)->Obj_0);
            }
            r
        },
    }
}

/// The document shape of the `tools/list` payload.
pub open spec fn spec_tools_list_json(tools: Seq<Tool>) -> JVal {
    JVal::Obj(
        seq![("tools"@, JVal::Arr(Seq::new(tools.len(), |i: int| spec_tool_json(tools[i]))))],
    )
}

/// Builds the document for the `tools/list` payload.
pub fn tools_list_to_json(r: ToolsListResult) -> (out: JsonValue)
    ensures
        out.deep_view() == spec_tools_list_json(r.tools@),
{
    let ghost gtools = r.tools@;
    let mut tools = r.tools;
    let n = tools.len();
    let mut items: Vec<JsonValue> = Vec::new();
    let mut i: usize = 0;
    #[verifier::loop_isolation(false)]
    while i < n
        invariant
            0 <= i <= n,
            items@.len() == i,
            tools@ == gtools,
            forall|k: int| 0 <= k < i ==> items@[k].deep_view() == spec_tool_json(gtools[k]),
        decreases n - i,
    {
        let ghost gtool = tools@[i as int];
        let tool = copy_tool(&tools[i]);
        proof {
            assert(spec_tool_json(tool) == spec_tool_json(gtool));
        }
        items.push(tool_to_json(tool));
        i += 1;
    }
    let arr = JsonValue::Arr(items);
    proof {
        assert(arr.deep_view()->Arr_0 =~= spec_tools_list_json(gtools)->Obj_0[0].1->Arr_0);
    }
    let mut members: Vec<(String, JsonValue)> = Vec::new();
    members.push(("tools".to_owned(), arr));
    let out = JsonValue::Obj(members);
    proof {
        assert(out.deep_view()->Obj_0 =~= spec_tools_list_json(gtools)->Obj_0);
    }
    out
}

/// Copies a catalog entry, keeping its document shape.
fn copy_tool(t: &Tool) -> (r: Tool)
    ensures
        spec_tool_json(r) == spec_tool_json(*t),
        r.name@ == t.name@,
{
    let annotations = match &t.annotations {
        Some(a) => Some(
            ToolAnnotations {
                allowed_callers: match &a.allowed_callers {
                    Some(c) => {
                        let ghost gc = c@;
                        let n = c.len();
                        let mut out: Vec<String> = Vec::new();
                        let mut i: usize = 0;
                        #[verifier::loop_isolation(false)]
                        while i < n
                            invariant
                                0 <= i <= n,
                                out@.len() == i,
                                forall|k: int| 0 <= k < i ==> out@[k]@ == gc[k]@,
                            decreases n - i,
                        {
                            out.push(c[i].clone());
                            i += 1;
                        }
                        Some(out)
                    },
                    None => None,
                },
            },
        ),
        None => None,
    };
    let r = Tool {
        name: t.name.clone(),
        description: t.description.clone(),
        input_schema: t.input_schema.duplicate(),
        annotations,
    };
    proof {
        lemma_tool_json_congruent(r, *t);
    }
    r
}

/// Two catalog entries that agree member by member share one document.
proof fn lemma_tool_json_congruent(a: Tool, b: Tool)
    requires
        a.name@ == b.name@,
        a.description@ == b.description@,
        a.input_schema.deep_view() == b.input_schema.deep_view(),
        match (a.annotations, b.annotations) {
            (Some(x), Some(y)) => match (x.allowed_callers, y.allowed_callers) {
                (Some(cx), Some(cy)) => cx@.len() == cy@.len() && forall|k: int|
                    0 <= k < cx@.len() ==> cx@[k]@ == cy@[k]@,
                (None, None) => true,
                _ => false,
            },
            (None, None) => true,
            _ => false,
        },
    ensures
        spec_tool_json(a) == spec_tool_json(b),
{
    match (a.annotations, b.annotations) {
        (Some(x), Some(y)) => {
            match (x.allowed_callers, y.allowed_callers) {
                (Some(cx), Some(cy)) => {
                    assert(spec_annotations_json(x)->Obj_0[0].1->Arr_0
                        =~= spec_annotations_json(y)->Obj_0[0].1->Arr_0);
                    assert(spec_annotations_json(x)->Obj_0 =~= spec_annotations_json(y)->Obj_0);
                },
                _ => {},
            }
            assert(spec_tool_json(a)->Obj_0 =~= spec_tool_json(b)->Obj_0);
        },
        _ => {
            assert(spec_tool_json(a)->Obj_0 =~= spec_tool_json(b)->Obj_0);
        },
    }
}

/// The document shape of the `initialize` payload.
pub open spec fn spec_initialize_json(r: InitializeResult) -> JVal {
    JVal::Obj(
        seq![
            ("protocolVersion"@, JVal::Str(r.protocol_version@)),
            (
                "capabilities"@,
                JVal::Obj(
                    seq![
                        (
                            "tools"@,
                            JVal::Obj(
                                seq![
                                    (
                                        "listChanged"@,
                                        JVal::Bool(r.capabilities.tools.list_changed),
                                    ),
                                ],
                            ),
                        ),
                    ],
                ),
            ),
            (
                "serverInfo"@,
                JVal::Obj(
                    seq![
                        ("name"@, JVal::Str(r.server_info.name@)),
                        ("version"@, JVal::Str(r.server_info.version@)),
                    ],
                ),
            ),
        ],
    )
}

/// Builds the document for the `initialize` payload.
pub fn initialize_to_json(r: InitializeResult) -> (out: JsonValue)
    ensures
        out.deep_view() == spec_initialize_json(r),
{
    let ghost gr = r;
    let InitializeResult { protocol_version, capabilities, server_info } = r;

    let mut tools_members: Vec<(String, JsonValue)> = Vec::new();
    tools_members.push(
        ("listChanged".to_owned(), JsonValue::Bool(capabilities.tools.list_changed)),
    );
    let tools_obj = JsonValue::Obj(tools_members);
    proof {
        assert(tools_obj.deep_view()->Obj_0 =~= spec_initialize_json(
            gr,
        )->Obj_0[1].1->Obj_0[0].1->Obj_0);
    }

    let mut cap_members: Vec<(String, JsonValue)> = Vec::new();
    cap_members.push(("tools".to_owned(), tools_obj));
    let cap_obj = JsonValue::Obj(cap_members);
    proof {
        assert(cap_obj.deep_view()->Obj_0 =~= spec_initialize_json(gr)->Obj_0[1].1->Obj_0);
    }

    let mut info_members: Vec<(String, JsonValue)> = Vec::new();
    info_members.push(("name".to_owned(), JsonValue::Str(server_info.name)));
    info_members.push(("version".to_owned(), JsonValue::Str(server_info.version)));
    let info_obj = JsonValue::Obj(info_members);
    proof {
        assert(info_obj.deep_view()->Obj_0 =~= spec_initialize_json(gr)->Obj_0[2].1->Obj_0);
    }

    let mut members: Vec<(String, JsonValue)> = Vec::new();
    members.push(("protocolVersion".to_owned(), JsonValue::Str(protocol_version)));
    members.push(("capabilities".to_owned(), cap_obj));
    members.push(("serverInfo".to_owned(), info_obj));
    let out = JsonValue::Obj(members);
    proof {
        assert(out.deep_view()->Obj_0 =~= spec_initialize_json(gr)->Obj_0);
    }
    out
}

/// The document shape of a tool outcome: its content pieces, and the error
/// flag only when one is set.
pub open spec fn spec_content_json(c: ToolContent) -> JVal {
    match c {
        ToolContent::Text { text } => JVal::Obj(
            seq![("type"@, JVal::Str("text"@)), ("text"@, JVal::Str(text@))],
        ),
    }
}

/// The document shape of a tool-call result.
pub open spec fn spec_tool_result_json(r: ToolCallResult) -> JVal {
    let content = (
        "content"@,
        JVal::Arr(Seq::new(r.content@.len(), |i: int| spec_content_json(r.content@[i]))),
    );
    match r.is_error {
        Some(b) => JVal::Obj(seq![content, ("isError"@, JVal::Bool(b))]),
        None => JVal::Obj(seq![content]),
    }
}

/// Builds the document for a tool-call result.
pub fn tool_result_to_json(r: ToolCallResult) -> (out: JsonValue)
    ensures
        out.deep_view() == spec_tool_result_json(r),
{
    let ghost gr = r;
    let ToolCallResult { content, is_error } = r;
    let n = content.len();
    let mut items: Vec<JsonValue> = Vec::new();
    let mut i: usize = 0;
    #[verifier::loop_isolation(false)]
    while i < n
        invariant
            0 <= i <= n,
            items@.len() == i,
            forall|k: int| 0 <= k < i ==> items@[k].deep_view() == spec_content_json(gr.content@[k]),
        decreases n - i,
    {
        let ToolContent::Text { text } = &content[i];
        let mut piece: Vec<(String, JsonValue)> = Vec::new();
        piece.push(("type".to_owned(), JsonValue::Str("text".to_owned())));
        piece.push(("text".to_owned(), JsonValue::Str(text.clone())));
        let piece_obj = JsonValue::Obj(piece);
        proof {
            assert(piece_obj.deep_view()->Obj_0 =~= spec_content_json(gr.content@[i as int])->Obj_0);
        }
        items.push(piece_obj);
        i += 1;
    }
    let arr = JsonValue::Arr(items);
    proof {
        assert(arr.deep_view()->Arr_0 =~= Seq::new(
            gr.content@.len(),
            |k: int| spec_content_json(gr.content@[k]),
        ));
    }
    let mut members: Vec<(String, JsonValue)> = Vec::new();
    members.push(("content".to_owned(), arr));
    match is_error {
        Some(b) => {
            members.push(("isError".to_owned(), JsonValue::Bool(b)));
            let out = JsonValue::Obj(members);
            proof {
                assert(out.deep_view()->Obj_0 =~= spec_tool_result_json(gr)->Obj_0);
            }
            out
        },
        None => {
            let out = JsonValue::Obj(members);
            proof {
                assert(out.deep_view()->Obj_0 =~= spec_tool_result_json(gr)->Obj_0);
            }
            out
        },
    }
}

} // verus!
