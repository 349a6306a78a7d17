//! The remote gateway's request side: the relative path, HTTP method and
//! JSON body of every operation against the kanban service, and the error
//! type its replies are classified into.
//!
//! The functions here only describe requests; performing them is the
//! caller's business.  Partial updates put exactly the supplied fields in
//! the body: an omitted field always means "leave unchanged".

use vstd::prelude::*;

use crate::json::{JVal, JsonNumber, JsonValue};
use crate::records::{CardType, CreateCardOptions, Stopwatch, UpdateCardOptions};
use crate::render::{push_dec_u64, spec_dec_u};

verus! {

broadcast use crate::json::group_json_model;

/// The position given to a newly created board, list or card, placing it
/// at the end of its parent's ordered sequence.
pub const DEFAULT_POSITION: i64 = 65535;

/// How a remote call failed.
pub enum PlankaError {
    /// The transport failed before any status was received.
    Http(String),
    /// The service answered with a status outside the 2xx range; the raw
    /// body is kept verbatim.
    Status(u16, String),
    /// The configuration or the login reply is unusable.
    Config(String),
    /// A 2xx reply body did not hold the expected document.
    Serde(String),
}

/// The display text of a remote-call error.
pub open spec fn spec_error_text(e: PlankaError) -> Seq<char> {
    match e {
        PlankaError::Http(m) => "HTTP error: "@ + m@,
        PlankaError::Status(status, body) => "HTTP status "@ + spec_dec_u(status as nat) + ": "@
            + body@,
        PlankaError::Config(m) => "Configuration error: "@ + m@,
        PlankaError::Serde(m) => "JSON error: "@ + m@,
    }
}

impl PlankaError {
    /// Renders the error for display, keeping a status error's literal
    /// status code and raw body.
    pub fn to_text(&self) -> (r: String)
        ensures
            r@ == spec_error_text(*self),
    {
        match self {
            PlankaError::Http(m) => {
                let mut out = "HTTP error: ".to_owned();
                out.append(m.as_str());
                out
            },
            PlankaError::Status(status, body) => {
                let mut out = "HTTP status ".to_owned();
                push_dec_u64(*status as u64, &mut out);
                out.append(": ");
                out.append(body.as_str());
                out
            },
            PlankaError::Config(m) => {
                let mut out = "Configuration error: ".to_owned();
                out.append(m.as_str());
                out
            },
            PlankaError::Serde(m) => {
                let mut out = "JSON error: ".to_owned();
                out.append(m.as_str());
                out
            },
        }
    }
}

/// Whether a status code reports success.
pub open spec fn is_2xx(status: u16) -> bool {
    200 <= status < 300
}

/// Tests a status code for success.
pub fn status_ok(status: u16) -> (r: bool)
    ensures
        r == is_2xx(status),
{
    200 <= status && status < 300
}

/// The HTTP method of a planned request.
pub enum HttpMethod {
    Get,
    Post,
    Patch,
    Delete,
}

/// One planned request: what to send, where, with what body.  The path is
/// relative to the configured base address, and every request carries the
/// bearer token in its authorization header.
pub struct RemoteRequest {
    pub method: HttpMethod,
    pub path: String,
    pub body: Option<JsonValue>,
}

/// The authorization header value for a bearer token.
pub fn bearer_header(token: &str) -> (r: String)
    ensures
        r@ == "Bearer "@ + token@,
{
    let mut out = "Bearer ".to_owned();
    out.append(token);
    out
}

/// Joins a fixed path prefix and an identifier.
fn path2(prefix: &str, id: &str) -> (r: String)
    ensures
        r@ == prefix@ + id@,
{
    let mut out = prefix.to_owned();
    out.append(id);
    out
}

/// Joins a fixed path prefix, an identifier, and a fixed suffix.
fn path3(prefix: &str, id: &str, suffix: &str) -> (r: String)
    ensures
        r@ == prefix@ + id@ + suffix@,
{
    let mut out = prefix.to_owned();
    out.append(id);
    out.append(suffix);
    out
}

/// Appends a member to an object under construction when `present` holds.
pub open spec fn with_member(
    members: Seq<(Seq<char>, JVal)>,
    key: Seq<char>,
    val: JVal,
    present: bool,
) -> Seq<(Seq<char>, JVal)> {
    if present {
        members.push((key, val))
    } else {
        members
    }
}

/// The request that lists all projects.
pub fn list_projects_request() -> (r: RemoteRequest)
    ensures
        r.method is Get,
        r.path@ == "/api/projects"@,
        r.body is None,
{
    RemoteRequest { method: HttpMethod::Get, path: "/api/projects".to_owned(), body: None }
}

/// The request that fetches a project, whose reply includes its boards.
pub fn list_boards_request(project_id: &str) -> (r: RemoteRequest)
    ensures
        r.method is Get,
        r.path@ == "/api/projects/"@ + project_id@,
        r.body is None,
{
    RemoteRequest { method: HttpMethod::Get, path: path2("/api/projects/", project_id), body: None }
}

/// The request that fetches a board, whose reply includes its lists.
pub fn list_lists_request(board_id: &str) -> (r: RemoteRequest)
    ensures
        r.method is Get,
        r.path@ == "/api/boards/"@ + board_id@,
        r.body is None,
{
    RemoteRequest { method: HttpMethod::Get, path: path2("/api/boards/", board_id), body: None }
}

/// The request that fetches a board, whose reply includes its cards.
pub fn list_cards_request(board_id: &str) -> (r: RemoteRequest)
    ensures
        r.method is Get,
        r.path@ == "/api/boards/"@ + board_id@,
        r.body is None,
{
    RemoteRequest { method: HttpMethod::Get, path: path2("/api/boards/", board_id), body: None }
}

/// The body posted to create a board: its name, placed at the end.
pub open spec fn spec_create_board_body(name: Seq<char>) -> JVal {
    JVal::Obj(
        seq![("name"@, JVal::Str(name)), ("position"@, JVal::Int(DEFAULT_POSITION as int))],
    )
}

/// The request that creates a board under a project.
pub fn create_board_request(project_id: &str, name: &str) -> (r: RemoteRequest)
    ensures
        r.method is Post,
        r.path@ == "/api/projects/"@ + project_id@ + "/boards"@,
        r.body matches Some(b) && b.deep_view() == spec_create_board_body(name@),
{
    let mut members: Vec<(String, JsonValue)> = Vec::new();
    members.push(("name".to_owned(), JsonValue::Str(name.to_owned())));
    members.push(("position".to_owned(), JsonValue::Num(JsonNumber::Int(DEFAULT_POSITION))));
    let body = JsonValue::Obj(members);
    proof {
        assert(body.deep_view()->Obj_0 =~= spec_create_board_body(name@)->Obj_0);
    }
    RemoteRequest {
        method: HttpMethod::Post,
        path: path3("/api/projects/", project_id, "/boards"),
        body: Some(body),
    }
}

/// The body posted to create a list: its name, placed at the end.
pub open spec fn spec_create_list_body(name: Seq<char>) -> JVal {
    JVal::Obj(
        seq![("name"@, JVal::Str(name)), ("position"@, JVal::Int(DEFAULT_POSITION as int))],
    )
}

/// The request that creates a list on a board.
pub fn create_list_request(board_id: &str, name: &str) -> (r: RemoteRequest)
    ensures
        r.method is Post,
        r.path@ == "/api/boards/"@ + board_id@ + "/lists"@,
        r.body matches Some(b) && b.deep_view() == spec_create_list_body(name@),
{
    let mut members: Vec<(String, JsonValue)> = Vec::new();
    members.push(("name".to_owned(), JsonValue::Str(name.to_owned())));
    members.push(("position".to_owned(), JsonValue::Num(JsonNumber::Int(DEFAULT_POSITION))));
    let body = JsonValue::Obj(members);
    proof {
        assert(body.deep_view()->Obj_0 =~= spec_create_list_body(name@)->Obj_0);
    }
    RemoteRequest {
        method: HttpMethod::Post,
        path: path3("/api/boards/", board_id, "/lists"),
        body: Some(body),
    }
}

/// The document shape of a stopwatch in a request body.
pub open spec fn spec_stopwatch_json(s: Stopwatch) -> JVal {
    JVal::Obj(
        seq![
            (
                "startedAt"@,
                match s.started_at {
                    Some(t) => JVal::Str(t@),
                    None => JVal::Null,
                },
            ),
            ("total"@, JVal::Int(s.total as int)),
        ],
    )
}

/// Builds the document for a stopwatch.
fn stopwatch_to_json(s: Stopwatch) -> (r: JsonValue)
    ensures
        r.deep_view() == spec_stopwatch_json(s),
{
    let ghost gs = s;
    let Stopwatch { started_at, total } = s;
    let mut members: Vec<(String, JsonValue)> = Vec::new();
    let started = match started_at {
        Some(t) => JsonValue::Str(t),
        None => JsonValue::Null,
    };
    members.push(("startedAt".to_owned(), started));
    members.push(("total".to_owned(), JsonValue::Num(JsonNumber::Int(total))));
    let r = JsonValue::Obj(members);
    proof {
        assert(r.deep_view()->Obj_0 =~= spec_stopwatch_json(gs)->Obj_0);
    }
    r
}

/// The body posted to create a card: always its name, type tag and the
/// end-of-list position; each optional field only when supplied.
pub open spec fn spec_create_card_body(o: CreateCardOptions) -> JVal {
    let base = seq![
        ("name"@, JVal::Str(o.name@)),
        ("type"@, JVal::Str(o.card_type.spec_str())),
        ("position"@, JVal::Int(DEFAULT_POSITION as int)),
    ];
    let m1 = with_member(
        base,
        "description"@,
        match o.description {
            Some(d) => JVal::Str(d@),
            None => JVal::Null,
        },
        o.description is Some,
    );
    let m2 = with_member(
        m1,
        "dueDate"@,
        match o.due_date {
            Some(d) => JVal::Str(d@),
            None => JVal::Null,
        },
        o.due_date is Some,
    );
    let m3 = with_member(
        m2,
        "isDueCompleted"@,
        match o.is_due_completed {
            Some(b) => JVal::Bool(b),
            None => JVal::Null,
        },
        o.is_due_completed is Some,
    );
    let m4 = with_member(
        m3,
        "stopwatch"@,
        match o.stopwatch {
            Some(s) => spec_stopwatch_json(s),
            None => JVal::Null,
        },
        o.stopwatch is Some,
    );
    JVal::Obj(m4)
}

/// The request that creates a card in a list.
pub fn create_card_request(options: CreateCardOptions) -> (r: RemoteRequest)
    ensures
        r.method is Post,
        r.path@ == "/api/lists/"@ + options.list_id@ + "/cards"@,
        r.body matches Some(b) && b.deep_view() == spec_create_card_body(options),
{
    let ghost go = options;
    let CreateCardOptions {
        list_id,
        card_type,
        name,
        description,
        due_date,
        is_due_completed,
        stopwatch,
    } = options;
    let mut members: Vec<(String, JsonValue)> = Vec::new();
    members.push(("name".to_owned(), JsonValue::Str(name)));
    members.push(("type".to_owned(), JsonValue::Str(card_type.as_str().to_owned())));
    members.push(("position".to_owned(), JsonValue::Num(JsonNumber::Int(DEFAULT_POSITION))));
    if let Some(d) = description {
        members.push(("description".to_owned(), JsonValue::Str(d)));
    }
    if let Some(d) = due_date {
        members.push(("dueDate".to_owned(), JsonValue::Str(d)));
    }
    if let Some(b) = is_due_completed {
        members.push(("isDueCompleted".to_owned(), JsonValue::Bool(b)));
    }
    if let Some(s) = stopwatch {
        members.push(("stopwatch".to_owned(), stopwatch_to_json(s)));
    }
    let body = JsonValue::Obj(members);
    proof {
        assert(body.deep_view()->Obj_0 =~= spec_create_card_body(go)->Obj_0);
    }
    RemoteRequest {
        method: HttpMethod::Post,
        path: path3("/api/lists/", list_id.as_str(), "/cards"),
        body: Some(body),
    }
}

/// The body of a partial card update: exactly the supplied fields, in a
/// fixed order, and nothing else.
pub open spec fn spec_update_card_body(o: UpdateCardOptions) -> JVal {
    let m0 = Seq::<(Seq<char>, JVal)>::empty();
    let m1 = with_member(
        m0,
        "name"@,
        match o.name {
            Some(s) => JVal::Str(s@),
            None => JVal::Null,
        },
        o.name is Some,
    );
    let m2 = with_member(
        m1,
        "description"@,
        match o.description {
            Some(s) => JVal::Str(s@),
            None => JVal::Null,
        },
        o.description is Some,
    );
    let m3 = with_member(
        m2,
        "type"@,
        match o.card_type {
            Some(t) => JVal::Str(t.spec_str()),
            None => JVal::Null,
        },
        o.card_type is Some,
    );
    let m4 = with_member(
        m3,
        "dueDate"@,
        match o.due_date {
            Some(s) => JVal::Str(s@),
            None => JVal::Null,
        },
        o.due_date is Some,
    );
    let m5 = with_member(
        m4,
        "isDueCompleted"@,
        match o.is_due_completed {
            Some(b) => JVal::Bool(b),
            None => JVal::Null,
        },
        o.is_due_completed is Some,
    );
    let m6 = with_member(
        m5,
        "boardId"@,
        match o.board_id {
            Some(s) => JVal::Str(s@),
            None => JVal::Null,
        },
        o.board_id is Some,
    );
    let m7 = with_member(
        m6,
        "coverAttachmentId"@,
        match o.cover_attachment_id {
            Some(s) => JVal::Str(s@),
            None => JVal::Null,
        },
        o.cover_attachment_id is Some,
    );
    JVal::Obj(m7)
}

/// The request that updates a card, patching only the supplied fields.
pub fn update_card_request(card_id: &str, options: UpdateCardOptions) -> (r: RemoteRequest)
    ensures
        r.method is Patch,
        r.path@ == "/api/cards/"@ + card_id@,
        r.body matches Some(b) && b.deep_view() == spec_update_card_body(options),
{
    let ghost go = options;
    let UpdateCardOptions {
        name,
        description,
        card_type,
        due_date,
        is_due_completed,
        board_id,
        cover_attachment_id,
    } = options;
    let mut members: Vec<(String, JsonValue)> = Vec::new();
    if let Some(s) = name {
        members.push(("name".to_owned(), JsonValue::Str(s)));
    }
    if let Some(s) = description {
        members.push(("description".to_owned(), JsonValue::Str(s)));
    }
    if let Some(t) = card_type {
        members.push(("type".to_owned(), JsonValue::Str(t.as_str().to_owned())));
    }
    if let Some(s) = due_date {
        members.push(("dueDate".to_owned(), JsonValue::Str(s)));
    }
    if let Some(b) = is_due_completed {
        members.push(("isDueCompleted".to_owned(), JsonValue::Bool(b)));
    }
    if let Some(s) = board_id {
        members.push(("boardId".to_owned(), JsonValue::Str(s)));
    }
    if let Some(s) = cover_attachment_id {
        members.push(("coverAttachmentId".to_owned(), JsonValue::Str(s)));
    }
    let body = JsonValue::Obj(members);
    proof {
        assert(body.deep_view()->Obj_0 =~= spec_update_card_body(go)->Obj_0);
    }
    RemoteRequest {
        method: HttpMethod::Patch,
        path: path2("/api/cards/", card_id),
        body: Some(body),
    }
}

/// The body that moves a card: the target list, and the given position or
/// the end-of-list default.
pub open spec fn spec_move_card_body(list_id: Seq<char>, position: Option<JsonNumber>) -> JVal {
    JVal::Obj(
        seq![
            ("listId"@, JVal::Str(list_id)),
            (
                "position"@,
                match position {
                    Some(n) => crate::json::jnum_of(n),
                    None => JVal::Int(DEFAULT_POSITION as int),
                },
            ),
        ],
    )
}

/// The request that moves a card to a list.
pub fn move_card_request(card_id: &str, list_id: &str, position: Option<JsonNumber>) -> (r:
    RemoteRequest)
    ensures
        r.method is Patch,
        r.path@ == "/api/cards/"@ + card_id@,
        r.body matches Some(b) && b.deep_view() == spec_move_card_body(list_id@, position),
{
    let ghost gpos = position;
    let mut members: Vec<(String, JsonValue)> = Vec::new();
    members.push(("listId".to_owned(), JsonValue::Str(list_id.to_owned())));
    let pos = match position {
        Some(n) => JsonValue::Num(n),
        None => JsonValue::Num(JsonNumber::Int(DEFAULT_POSITION)),
    };
    members.push(("position".to_owned(), pos));
    let body = JsonValue::Obj(members);
    proof {
        assert(body.deep_view()->Obj_0 =~= spec_move_card_body(list_id@, gpos)->Obj_0);
    }
    RemoteRequest {
        method: HttpMethod::Patch,
        path: path2("/api/cards/", card_id),
        body: Some(body),
    }
}

/// The request that deletes a card.
pub fn delete_card_request(card_id: &str) -> (r: RemoteRequest)
    ensures
        r.method is Delete,
        r.path@ == "/api/cards/"@ + card_id@,
        r.body is None,
{
    RemoteRequest { method: HttpMethod::Delete, path: path2("/api/cards/", card_id), body: None }
}

/// The request that deletes a list, and with it every card on it.
pub fn delete_list_request(list_id: &str) -> (r: RemoteRequest)
    ensures
        r.method is Delete,
        r.path@ == "/api/lists/"@ + list_id@,
        r.body is None,
{
    RemoteRequest { method: HttpMethod::Delete, path: path2("/api/lists/", list_id), body: None }
}

} // verus!
