//! The tool layer: the catalog the server advertises, the decoding of
//! each tool's arguments, the remote operation each call plans, and the
//! tool result each reply is turned into.
//!
//! Argument faults never become protocol errors: the call still succeeds
//! at the protocol level and carries an error-flagged text result.

use vstd::prelude::*;

use crate::gateway::{
    create_board_request, create_card_request, create_list_request, delete_card_request,
    delete_list_request, is_2xx, list_boards_request, list_cards_request, list_lists_request,
    list_projects_request, move_card_request, spec_create_board_body, spec_create_card_body,
    spec_create_list_body, spec_move_card_body, spec_update_card_body, update_card_request,
    PlankaError, RemoteRequest,
};
use crate::json::{JVal, JsonNumber, JsonValue};
use crate::mcp::{is_error_result, is_text_result, Tool, ToolAnnotations, ToolCallResult};
use crate::records::{
    opt_bool_member, opt_bool_ok, opt_num_member, opt_num_ok, opt_str_member, opt_str_ok,
    req_str_member, req_str_ok, CardType, CreateCardOptions, UpdateCardOptions,
};
use crate::render::spec_dec_u;

verus! {

broadcast use crate::json::group_json_model;

/// The caller identifier allowed to invoke the non-destructive tools
/// programmatically.
pub fn programmatic_annotations() -> (r: Option<ToolAnnotations>)
    ensures
        r matches Some(a) && (a.allowed_callers matches Some(c) && c@.len() == 1 && c@[0]@
            == "code_execution_20250825"@),
{
    let mut callers: Vec<String> = Vec::new();
    callers.push("code_execution_20250825".to_owned());
    Some(ToolAnnotations { allowed_callers: Some(callers) })
}

/// The card type used when a creation request names none.
pub fn default_card_type() -> (r: String)
    ensures
        r@ == "project"@,
{
    "project".to_owned()
}

/// Which remote operation a planned tool call performs, deciding how its
/// reply is read.
pub enum ToolOp {
    ListProjects,
    ListBoards,
    ListLists,
    ListCards,
    CreateBoard,
    CreateList,
    CreateCard,
    UpdateCard,
    MoveCard,
    DeleteCard,
    DeleteList,
}

/// What a tool call comes to: an immediate result, or a remote request
/// whose reply `finish_call` turns into the result.
pub enum ToolPlan {
    Done(ToolCallResult),
    Remote { request: RemoteRequest, op: ToolOp },
}

/// Whether two character sequences agree up to ASCII letter case.
pub open spec fn char_eq_nocase(a: char, b: char) -> bool {
    ||| a == b
    ||| (65 <= a as u32 <= 90 && b as u32 == a as u32 + 32)
    ||| (65 <= b as u32 <= 90 && a as u32 == b as u32 + 32)
}

/// Whether two character sequences agree up to ASCII letter case.
pub open spec fn eq_nocase(s: Seq<char>, t: Seq<char>) -> bool {
    s.len() == t.len() && forall|i: int| 0 <= i < s.len() ==> char_eq_nocase(s[i], t[i])
}

/// Compares two strings ignoring ASCII letter case.
fn str_eq_nocase(s: &str, t: &str) -> (r: bool)
    ensures
        r == eq_nocase(s@, t@),
{
    let ns = s.unicode_len();
    let nt = t.unicode_len();
    if ns != nt {
        return false;
    }
    let mut i: usize = 0;
    #[verifier::loop_isolation(false)]
    while i < ns
        invariant
            0 <= i <= ns,
            forall|k: int| 0 <= k < i ==> char_eq_nocase(s@[k], t@[k]),
        decreases ns - i,
    {
        let a = s.get_char(i);
        let b = t.get_char(i);
        let au = a as u32;
        let bu = b as u32;
        let same = a == b || (65 <= au && au <= 90 && bu == au + 32) || (65 <= bu && bu <= 90 && au
            == bu + 32);
        if !same {
            return false;
        }
        i += 1;
    }
    true
}

/// Reads a card type name, ignoring ASCII letter case.
fn parse_card_type(s: &str) -> (r: Option<CardType>)
    ensures
        match r {
            Some(t) => t is Project <==> eq_nocase(s@, "project"@),
            None => !eq_nocase(s@, "project"@) && !eq_nocase(s@, "story"@),
        },
        r matches Some(t) && t is Story ==> eq_nocase(s@, "story"@),
{
    if str_eq_nocase(s, "project") {
        Some(CardType::Project)
    } else if str_eq_nocase(s, "story") {
        Some(CardType::Story)
    } else {
        None
    }
}

/// Whether `name` names a tool of the catalog.
pub open spec fn known_tool(name: Seq<char>) -> bool {
    ||| name == "list_projects"@
    ||| name == "list_boards"@
    ||| name == "list_lists"@
    ||| name == "list_cards"@
    ||| name == "create_board"@
    ||| name == "create_list"@
    ||| name == "create_card"@
    ||| name == "update_card"@
    ||| name == "move_card"@
    ||| name == "delete_card"@
    ||| name == "delete_list"@
}

/// Plans the tool that lists all projects; its arguments are ignored.
fn plan_list_projects() -> (r: ToolPlan)
    ensures
        r matches ToolPlan::Remote { request, op } && op is ListProjects && request.method is Get
            && request.path@ == "/api/projects"@ && request.body is None,
{
    ToolPlan::Remote { request: list_projects_request(), op: ToolOp::ListProjects }
}

/// How the tool that lists the boards of a project treats its arguments.
pub open spec fn plans_list_boards(args: Option<JsonValue>, r: ToolPlan) -> bool {
    match args {
        None => r matches ToolPlan::Done(res) && is_error_result(
            res,
            "Missing required argument: project_id"@,
        ),
        Some(a) => {
            if req_str_ok(a.deep_view(), "project_id"@) {
                r matches ToolPlan::Remote { request, op } && op is ListBoards && request.method
                    is Get && request.body is None && (a.deep_view().get("project_id"@) matches Some(
                    JVal::Str(pid),
                ) && request.path@ == "/api/projects/"@ + pid)
            } else {
                r matches ToolPlan::Done(res) && is_error_result(
                    res,
                    "Invalid arguments: project_id must be a string"@,
                )
            }
        },
    }
}

/// Plans the tool that lists the boards of a project.
fn plan_list_boards(args: Option<JsonValue>) -> (r: ToolPlan)
    ensures
        plans_list_boards(args, r),
{
    let a = match args {
        Some(a) => a,
        None => {
            return ToolPlan::Done(
                ToolCallResult::error("Missing required argument: project_id".to_owned()),
            );
        },
    };
    match req_str_member(&a, "project_id") {
        Ok(id) => ToolPlan::Remote {
            request: list_boards_request(id.as_str()),
            op: ToolOp::ListBoards,
        },
        Err(_) => ToolPlan::Done(
            ToolCallResult::error("Invalid arguments: project_id must be a string".to_owned()),
        ),
    }
}

/// How the tool that lists the lists of a board treats its arguments.
pub open spec fn plans_list_lists(args: Option<JsonValue>, r: ToolPlan) -> bool {
    match args {
        None => r matches ToolPlan::Done(res) && is_error_result(
            res,
            "Missing required argument: board_id"@,
        ),
        Some(a) => {
            if req_str_ok(a.deep_view(), "board_id"@) {
                r matches ToolPlan::Remote { request, op } && op is ListLists && request.method
                    is Get && request.body is None && (a.deep_view().get("board_id"@) matches Some(
                    JVal::Str(bid),
                ) && request.path@ == "/api/boards/"@ + bid)
            } else {
                r matches ToolPlan::Done(res) && is_error_result(
                    res,
                    "Invalid arguments: board_id must be a string"@,
                )
            }
        },
    }
}

/// Plans the tool that lists the lists of a board.
fn plan_list_lists(args: Option<JsonValue>) -> (r: ToolPlan)
    ensures
        plans_list_lists(args, r),
{
    let a = match args {
        Some(a) => a,
        None => {
            return ToolPlan::Done(
                ToolCallResult::error("Missing required argument: board_id".to_owned()),
            );
        },
    };
    match req_str_member(&a, "board_id") {
        Ok(id) => ToolPlan::Remote {
            request: list_lists_request(id.as_str()),
            op: ToolOp::ListLists,
        },
        Err(_) => ToolPlan::Done(
            ToolCallResult::error("Invalid arguments: board_id must be a string".to_owned()),
        ),
    }
}

/// How the tool that lists the cards of a board treats its arguments.
pub open spec fn plans_list_cards(args: Option<JsonValue>, r: ToolPlan) -> bool {
    match args {
        None => r matches ToolPlan::Done(res) && is_error_result(
            res,
            "Missing required argument: board_id"@,
        ),
        Some(a) => {
            if req_str_ok(a.deep_view(), "board_id"@) {
                r matches ToolPlan::Remote { request, op } && op is ListCards && request.method
                    is Get && request.body is None && (a.deep_view().get("board_id"@) matches Some(
                    JVal::Str(bid),
                ) && request.path@ == "/api/boards/"@ + bid)
            } else {
                r matches ToolPlan::Done(res) && is_error_result(
                    res,
                    "Invalid arguments: board_id must be a string"@,
                )
            }
        },
    }
}

/// Plans the tool that lists the cards of a board.
fn plan_list_cards(args: Option<JsonValue>) -> (r: ToolPlan)
    ensures
        plans_list_cards(args, r),
{
    let a = match args {
        Some(a) => a,
        None => {
            return ToolPlan::Done(
                ToolCallResult::error("Missing required argument: board_id".to_owned()),
            );
        },
    };
    match req_str_member(&a, "board_id") {
        Ok(id) => ToolPlan::Remote {
            request: list_cards_request(id.as_str()),
            op: ToolOp::ListCards,
        },
        Err(_) => ToolPlan::Done(
            ToolCallResult::error("Invalid arguments: board_id must be a string".to_owned()),
        ),
    }
}

/// How the tool that creates a board treats its arguments.
pub open spec fn plans_create_board(args: Option<JsonValue>, r: ToolPlan) -> bool {
    match args {
        None => r matches ToolPlan::Done(res) && is_error_result(
            res,
            "Missing required arguments: project_id, name"@,
        ),
        Some(a) => {
            if req_str_ok(a.deep_view(), "project_id"@) && req_str_ok(a.deep_view(), "name"@) {
                r matches ToolPlan::Remote { request, op } && op is CreateBoard && request.method
                    is Post && (a.deep_view().get("project_id"@) matches Some(JVal::Str(pid))
                    && a.deep_view().get("name"@) matches Some(JVal::Str(nm)) && request.path@
                    == "/api/projects/"@ + pid + "/boards"@ && (request.body matches Some(b)
                    && b.deep_view() == spec_create_board_body(nm)))
            } else {
                r matches ToolPlan::Done(res) && is_error_result(
                    res,
                    "Invalid arguments: project_id and name must be strings"@,
                )
            }
        },
    }
}

/// Plans the tool that creates a board.
fn plan_create_board(args: Option<JsonValue>) -> (r: ToolPlan)
    ensures
        plans_create_board(args, r),
{
    let a = match args {
        Some(a) => a,
        None => {
            return ToolPlan::Done(
                ToolCallResult::error("Missing required arguments: project_id, name".to_owned()),
            );
        },
    };
    let pid = match req_str_member(&a, "project_id") {
        Ok(s) => s,
        Err(_) => {
            return ToolPlan::Done(
                ToolCallResult::error(
                    "Invalid arguments: project_id and name must be strings".to_owned(),
                ),
            );
        },
    };
    match req_str_member(&a, "name") {
        Ok(nm) => ToolPlan::Remote {
            request: create_board_request(pid.as_str(), nm.as_str()),
            op: ToolOp::CreateBoard,
        },
        Err(_) => ToolPlan::Done(
            ToolCallResult::error(
                "Invalid arguments: project_id and name must be strings".to_owned(),
            ),
        ),
    }
}

/// How the tool that creates a list treats its arguments.
pub open spec fn plans_create_list(args: Option<JsonValue>, r: ToolPlan) -> bool {
    match args {
        None => r matches ToolPlan::Done(res) && is_error_result(
            res,
            "Missing required arguments: board_id, name"@,
        ),
        Some(a) => {
            if req_str_ok(a.deep_view(), "board_id"@) && req_str_ok(a.deep_view(), "name"@) {
                r matches ToolPlan::Remote { request, op } && op is CreateList && request.method
                    is Post && (a.deep_view().get("board_id"@) matches Some(JVal::Str(bid))
                    && a.deep_view().get("name"@) matches Some(JVal::Str(nm)) && request.path@
                    == "/api/boards/"@ + bid + "/lists"@ && (request.body matches Some(b)
                    && b.deep_view() == spec_create_list_body(nm)))
            } else {
                r matches ToolPlan::Done(res) && is_error_result(
                    res,
                    "Invalid arguments: board_id and name must be strings"@,
                )
            }
        },
    }
}

/// Plans the tool that creates a list.
fn plan_create_list(args: Option<JsonValue>) -> (r: ToolPlan)
    ensures
        plans_create_list(args, r),
{
    let a = match args {
        Some(a) => a,
        None => {
            return ToolPlan::Done(
                ToolCallResult::error("Missing required arguments: board_id, name".to_owned()),
            );
        },
    };
    let bid = match req_str_member(&a, "board_id") {
        Ok(s) => s,
        Err(_) => {
            return ToolPlan::Done(
                ToolCallResult::error(
                    "Invalid arguments: board_id and name must be strings".to_owned(),
                ),
            );
        },
    };
    match req_str_member(&a, "name") {
        Ok(nm) => ToolPlan::Remote {
            request: create_list_request(bid.as_str(), nm.as_str()),
            op: ToolOp::CreateList,
        },
        Err(_) => ToolPlan::Done(
            ToolCallResult::error(
                "Invalid arguments: board_id and name must be strings".to_owned(),
            ),
        ),
    }
}

/// How the tool that deletes a card treats its arguments.
pub open spec fn plans_delete_card(args: Option<JsonValue>, r: ToolPlan) -> bool {
    match args {
        None => r matches ToolPlan::Done(res) && is_error_result(
            res,
            "Missing required argument: card_id"@,
        ),
        Some(a) => {
            if req_str_ok(a.deep_view(), "card_id"@) {
                r matches ToolPlan::Remote { request, op } && op is DeleteCard && request.method
                    is Delete && request.body is None && (a.deep_view().get(
                    "card_id"@,
                ) matches Some(JVal::Str(cid)) && request.path@ == "/api/cards/"@ + cid)
            } else {
                r matches ToolPlan::Done(res) && is_error_result(
                    res,
                    "Invalid arguments: card_id must be a string"@,
                )
            }
        },
    }
}

/// Plans the tool that deletes a card.
fn plan_delete_card(args: Option<JsonValue>) -> (r: ToolPlan)
    ensures
        plans_delete_card(args, r),
{
    let a = match args {
        Some(a) => a,
        None => {
            return ToolPlan::Done(
                ToolCallResult::error("Missing required argument: card_id".to_owned()),
            );
        },
    };
    match req_str_member(&a, "card_id") {
        Ok(id) => ToolPlan::Remote {
            request: delete_card_request(id.as_str()),
            op: ToolOp::DeleteCard,
        },
        Err(_) => ToolPlan::Done(
            ToolCallResult::error("Invalid arguments: card_id must be a string".to_owned()),
        ),
    }
}

/// How the tool that deletes a list treats its arguments.
pub open spec fn plans_delete_list(args: Option<JsonValue>, r: ToolPlan) -> bool {
    match args {
        None => r matches ToolPlan::Done(res) && is_error_result(
            res,
            "Missing required argument: list_id"@,
        ),
        Some(a) => {
            if req_str_ok(a.deep_view(), "list_id"@) {
                r matches ToolPlan::Remote { request, op } && op is DeleteList && request.method
                    is Delete && request.body is None && (a.deep_view().get(
                    "list_id"@,
                ) matches Some(JVal::Str(lid)) && request.path@ == "/api/lists/"@ + lid)
            } else {
                r matches ToolPlan::Done(res) && is_error_result(
                    res,
                    "Invalid arguments: list_id must be a string"@,
                )
            }
        },
    }
}

/// Plans the tool that deletes a list.
fn plan_delete_list(args: Option<JsonValue>) -> (r: ToolPlan)
    ensures
        plans_delete_list(args, r),
{
    let a = match args {
        Some(a) => a,
        None => {
            return ToolPlan::Done(
                ToolCallResult::error("Missing required argument: list_id".to_owned()),
            );
        },
    };
    match req_str_member(&a, "list_id") {
        Ok(id) => ToolPlan::Remote {
            request: delete_list_request(id.as_str()),
            op: ToolOp::DeleteList,
        },
        Err(_) => ToolPlan::Done(
            ToolCallResult::error("Invalid arguments: list_id must be a string".to_owned()),
        ),
    }
}

/// The type name a card creation uses: the `type` member if it is a
/// string, else the default.
pub open spec fn create_type_name(v: JVal) -> Seq<char> {
    match v.get("type"@) {
        Some(JVal::Str(s)) => s,
        _ => "project"@,
    }
}

/// Whether the `type` member, if present, is a string, as the decoder
/// demands before its value is judged.
pub open spec fn type_member_ok(v: JVal) -> bool {
    match v.get("type"@) {
        None => true,
        Some(x) => x is Str,
    }
}

/// Whether every argument of a card creation has a usable shape.
pub open spec fn create_card_args_ok(v: JVal) -> bool {
    &&& req_str_ok(v, "list_id"@)
    &&& req_str_ok(v, "name"@)
    &&& type_member_ok(v)
    &&& opt_str_ok(v, "description"@)
    &&& opt_str_ok(v, "due_date"@)
    &&& opt_bool_ok(v, "is_due_completed"@)
}

/// The canonical type tag a creation or update sends for the (case
/// insensitive) name `s`.
pub open spec fn canonical_type(s: Seq<char>) -> Seq<char> {
    if eq_nocase(s, "project"@) {
        "project"@
    } else {
        "story"@
    }
}

/// The body a card creation sends, built from the call's arguments.
pub open spec fn spec_create_card_body_of(v: JVal) -> JVal {
    let base = seq![
        (
            "name"@,
            match v.get("name"@) {
                Some(JVal::Str(s)) => JVal::Str(s),
                _ => JVal::Null,
            },
        ),
        ("type"@, JVal::Str(canonical_type(create_type_name(v)))),
        ("position"@, JVal::Int(crate::gateway::DEFAULT_POSITION as int)),
    ];
    let m1 = crate::gateway::with_member(
        base,
        "description"@,
        match v.get("description"@) {
            Some(JVal::Str(s)) => JVal::Str(s),
            _ => JVal::Null,
        },
        v.get("description"@) matches Some(x) && x is Str,
    );
    let m2 = crate::gateway::with_member(
        m1,
        "dueDate"@,
        match v.get("due_date"@) {
            Some(JVal::Str(s)) => JVal::Str(s),
            _ => JVal::Null,
        },
        v.get("due_date"@) matches Some(x) && x is Str,
    );
    let m3 = crate::gateway::with_member(
        m2,
        "isDueCompleted"@,
        match v.get("is_due_completed"@) {
            Some(JVal::Bool(b)) => JVal::Bool(b),
            _ => JVal::Null,
        },
        v.get("is_due_completed"@) matches Some(x) && x is Bool,
    );
    JVal::Obj(m3)
}

/// How the tool that creates a card treats its arguments: a missing or
/// mistyped field fails before any request; a type name outside the two
/// known tags is rejected; the planned body always carries the name, the
/// type tag (`project` unless `story` was asked for) and the end-of-list
/// position, and each optional field exactly when it was supplied.
pub open spec fn plans_create_card(args: Option<JsonValue>, r: ToolPlan) -> bool {
    match args {
        None => r matches ToolPlan::Done(res) && is_error_result(
            res,
            "Missing required arguments: list_id, name"@,
        ),
        Some(a) => {
            let v = a.deep_view();
            if !create_card_args_ok(v) {
                r matches ToolPlan::Done(res) && is_error_result(
                    res,
                    "Invalid arguments: wrong field types"@,
                )
            } else if !eq_nocase(create_type_name(v), "project"@) && !eq_nocase(
                create_type_name(v),
                "story"@,
            ) {
                r matches ToolPlan::Done(res) && is_error_result(
                    res,
                    "Invalid card type. Must be 'project' or 'story'"@,
                )
            } else {
                r matches ToolPlan::Remote { request, op } && op is CreateCard && request.method
                    is Post && (v.get("list_id"@) matches Some(JVal::Str(lid)) && request.path@
                    == "/api/lists/"@ + lid + "/cards"@) && (request.body matches Some(b)
                    && b.deep_view() == spec_create_card_body_of(v))
            }
        },
    }
}

/// Plans the tool that creates a card.
fn plan_create_card(args: Option<JsonValue>) -> (r: ToolPlan)
    ensures
        plans_create_card(args, r),
{
    let a = match args {
        Some(a) => a,
        None => {
            return ToolPlan::Done(
                ToolCallResult::error("Missing required arguments: list_id, name".to_owned()),
            );
        },
    };
    let bad = ToolPlan::Done(
        ToolCallResult::error("Invalid arguments: wrong field types".to_owned()),
    );
    let list_id = match req_str_member(&a, "list_id") {
        Ok(s) => s,
        Err(_) => {
            return bad;
        },
    };
    let name = match req_str_member(&a, "name") {
        Ok(s) => s,
        Err(_) => {
            return bad;
        },
    };
    let tag_text = match a.get_member("type") {
        None => default_card_type(),
        Some(JsonValue::Str(s)) => s.clone(),
        Some(_) => {
            return bad;
        },
    };
    let description = match opt_str_member(&a, "description") {
        Ok(o) => o,
        Err(_) => {
            return bad;
        },
    };
    let due_date = match opt_str_member(&a, "due_date") {
        Ok(o) => o,
        Err(_) => {
            return bad;
        },
    };
    let is_due_completed = match opt_bool_member(&a, "is_due_completed") {
        Ok(o) => o,
        Err(_) => {
            return bad;
        },
    };
    let card_type = match parse_card_type(tag_text.as_str()) {
        Some(t) => t,
        None => {
            return ToolPlan::Done(
                ToolCallResult::error(
                    "Invalid card type. Must be 'project' or 'story'".to_owned(),
                ),
            );
        },
    };
    let options = CreateCardOptions {
        list_id,
        card_type,
        name,
        description,
        due_date,
        is_due_completed,
        stopwatch: None,
    };
    let ghost go = options;
    let ghost gv = a.deep_view();
    let request = create_card_request(options);
    proof {
        assert(spec_create_card_body(go)->Obj_0 =~= spec_create_card_body_of(gv)->Obj_0);
        assert(spec_create_card_body(go) == spec_create_card_body_of(gv));
    }
    ToolPlan::Remote { request, op: ToolOp::CreateCard }
}

/// Whether every argument of a card update has a usable shape.
pub open spec fn update_card_args_ok(v: JVal) -> bool {
    &&& req_str_ok(v, "card_id"@)
    &&& opt_str_ok(v, "name"@)
    &&& opt_str_ok(v, "description"@)
    &&& type_member_ok(v)
    &&& opt_str_ok(v, "due_date"@)
    &&& opt_bool_ok(v, "is_due_completed"@)
    &&& opt_str_ok(v, "board_id"@)
    &&& opt_str_ok(v, "cover_attachment_id"@)
}

/// The body a card update sends: exactly the supplied fields.  A member
/// holding `null` counts as unsupplied and is left out, so nothing can be
/// cleared, only changed.
pub open spec fn spec_update_card_body_of(v: JVal) -> JVal {
    let m0 = Seq::<(Seq<char>, JVal)>::empty();
    let m1 = crate::gateway::with_member(
        m0,
        "name"@,
        match v.get("name"@) {
            Some(JVal::Str(s)) => JVal::Str(s),
            _ => JVal::Null,
        },
        v.get("name"@) matches Some(x) && x is Str,
    );
    let m2 = crate::gateway::with_member(
        m1,
        "description"@,
        match v.get("description"@) {
            Some(JVal::Str(s)) => JVal::Str(s),
            _ => JVal::Null,
        },
        v.get("description"@) matches Some(x) && x is Str,
    );
    let m3 = crate::gateway::with_member(
        m2,
        "type"@,
        JVal::Str(canonical_type(create_type_name(v))),
        v.get("type"@) matches Some(x) && x is Str,
    );
    let m4 = crate::gateway::with_member(
        m3,
        "dueDate"@,
        match v.get("due_date"@) {
            Some(JVal::Str(s)) => JVal::Str(s),
            _ => JVal::Null,
        },
        v.get("due_date"@) matches Some(x) && x is Str,
    );
    let m5 = crate::gateway::with_member(
        m4,
        "isDueCompleted"@,
        match v.get("is_due_completed"@) {
            Some(JVal::Bool(b)) => JVal::Bool(b),
            _ => JVal::Null,
        },
        v.get("is_due_completed"@) matches Some(x) && x is Bool,
    );
    let m6 = crate::gateway::with_member(
        m5,
        "boardId"@,
        match v.get("board_id"@) {
            Some(JVal::Str(s)) => JVal::Str(s),
            _ => JVal::Null,
        },
        v.get("board_id"@) matches Some(x) && x is Str,
    );
    let m7 = crate::gateway::with_member(
        m6,
        "coverAttachmentId"@,
        match v.get("cover_attachment_id"@) {
            Some(JVal::Str(s)) => JVal::Str(s),
            _ => JVal::Null,
        },
        v.get("cover_attachment_id"@) matches Some(x) && x is Str,
    );
    JVal::Obj(m7)
}

/// How the tool that updates a card treats its arguments.
pub open spec fn plans_update_card(args: Option<JsonValue>, r: ToolPlan) -> bool {
    match args {
        None => r matches ToolPlan::Done(res) && is_error_result(
            res,
            "Missing required argument: card_id"@,
        ),
        Some(a) => {
            let v = a.deep_view();
            if !update_card_args_ok(v) {
                r matches ToolPlan::Done(res) && is_error_result(
                    res,
                    "Invalid arguments: wrong field types"@,
                )
            } else if (v.get("type"@) matches Some(x) && x is Str) && !eq_nocase(
                create_type_name(v),
                "project"@,
            ) && !eq_nocase(create_type_name(v), "story"@) {
                r matches ToolPlan::Done(res) && is_error_result(
                    res,
                    "Invalid card type. Must be 'project' or 'story'"@,
                )
            } else {
                r matches ToolPlan::Remote { request, op } && op is UpdateCard && request.method
                    is Patch && (v.get("card_id"@) matches Some(JVal::Str(cid)) && request.path@
                    == "/api/cards/"@ + cid) && (request.body matches Some(b) && b.deep_view()
                    == spec_update_card_body_of(v))
            }
        },
    }
}

/// Plans the tool that updates a card.
fn plan_update_card(args: Option<JsonValue>) -> (r: ToolPlan)
    ensures
        plans_update_card(args, r),
{
    let a = match args {
        Some(a) => a,
        None => {
            return ToolPlan::Done(
                ToolCallResult::error("Missing required argument: card_id".to_owned()),
            );
        },
    };
    let bad = ToolPlan::Done(
        ToolCallResult::error("Invalid arguments: wrong field types".to_owned()),
    );
    let card_id = match req_str_member(&a, "card_id") {
        Ok(s) => s,
        Err(_) => {
            return bad;
        },
    };
    let name = match opt_str_member(&a, "name") {
        Ok(o) => o,
        Err(_) => {
            return bad;
        },
    };
    let description = match opt_str_member(&a, "description") {
        Ok(o) => o,
        Err(_) => {
            return bad;
        },
    };
    let tag_text = match a.get_member("type") {
        None => None,
        Some(JsonValue::Str(s)) => Some(s.clone()),
        Some(_) => {
            return bad;
        },
    };
    let due_date = match opt_str_member(&a, "due_date") {
        Ok(o) => o,
        Err(_) => {
            return bad;
        },
    };
    let is_due_completed = match opt_bool_member(&a, "is_due_completed") {
        Ok(o) => o,
        Err(_) => {
            return bad;
        },
    };
    let board_id = match opt_str_member(&a, "board_id") {
        Ok(o) => o,
        Err(_) => {
            return bad;
        },
    };
    let cover_attachment_id = match opt_str_member(&a, "cover_attachment_id") {
        Ok(o) => o,
        Err(_) => {
            return bad;
        },
    };
    let card_type = match tag_text {
        None => None,
        Some(tn) => match parse_card_type(tn.as_str()) {
            Some(t) => Some(t),
            None => {
                return ToolPlan::Done(
                    ToolCallResult::error(
                        "Invalid card type. Must be 'project' or 'story'".to_owned(),
                    ),
                );
            },
        },
    };
    let options = UpdateCardOptions {
        name,
        description,
        card_type,
        due_date,
        is_due_completed,
        board_id,
        cover_attachment_id,
    };
    let ghost go = options;
    let ghost gv = a.deep_view();
    let request = update_card_request(card_id.as_str(), options);
    proof {
        assert(spec_update_card_body(go)->Obj_0 =~= spec_update_card_body_of(gv)->Obj_0);
        assert(spec_update_card_body(go) == spec_update_card_body_of(gv));
    }
    ToolPlan::Remote { request, op: ToolOp::UpdateCard }
}

/// Whether every argument of a card move has a usable shape.
pub open spec fn move_card_args_ok(v: JVal) -> bool {
    &&& req_str_ok(v, "card_id"@)
    &&& req_str_ok(v, "list_id"@)
    &&& opt_num_ok(v, "position"@)
}

/// The body a card move sends: the target list, and the given position or
/// the end-of-list default.
pub open spec fn spec_move_card_body_of(v: JVal) -> JVal {
    JVal::Obj(
        seq![
            (
                "listId"@,
                match v.get("list_id"@) {
                    Some(JVal::Str(s)) => JVal::Str(s),
                    _ => JVal::Null,
                },
            ),
            (
                "position"@,
                match v.get("position"@) {
                    Some(JVal::Int(i)) => JVal::Int(i),
                    Some(JVal::Dec(d)) => JVal::Dec(d),
                    _ => JVal::Int(crate::gateway::DEFAULT_POSITION as int),
                },
            ),
        ],
    )
}

/// How the tool that moves a card treats its arguments.
pub open spec fn plans_move_card(args: Option<JsonValue>, r: ToolPlan) -> bool {
    match args {
        None => r matches ToolPlan::Done(res) && is_error_result(
            res,
            "Missing required arguments: card_id, list_id"@,
        ),
        Some(a) => {
            let v = a.deep_view();
            if !move_card_args_ok(v) {
                r matches ToolPlan::Done(res) && is_error_result(
                    res,
                    "Invalid arguments: wrong field types"@,
                )
            } else {
                r matches ToolPlan::Remote { request, op } && op is MoveCard && request.method
                    is Patch && (v.get("card_id"@) matches Some(JVal::Str(cid)) && request.path@
                    == "/api/cards/"@ + cid) && (request.body matches Some(b) && b.deep_view()
                    == spec_move_card_body_of(v))
            }
        },
    }
}

/// Plans the tool that moves a card.
fn plan_move_card(args: Option<JsonValue>) -> (r: ToolPlan)
    ensures
        plans_move_card(args, r),
{
    let a = match args {
        Some(a) => a,
        None => {
            return ToolPlan::Done(
                ToolCallResult::error("Missing required arguments: card_id, list_id".to_owned()),
            );
        },
    };
    let bad = ToolPlan::Done(
        ToolCallResult::error("Invalid arguments: wrong field types".to_owned()),
    );
    let card_id = match req_str_member(&a, "card_id") {
        Ok(s) => s,
        Err(_) => {
            return bad;
        },
    };
    let list_id = match req_str_member(&a, "list_id") {
        Ok(s) => s,
        Err(_) => {
            return bad;
        },
    };
    let position = match opt_num_member(&a, "position") {
        Ok(o) => o,
        Err(_) => {
            return bad;
        },
    };
    let ghost gpos = position;
    let ghost gv = a.deep_view();
    let ghost glid = list_id@;
    let request = move_card_request(card_id.as_str(), list_id.as_str(), position);
    proof {
        assert(spec_move_card_body(glid, gpos)->Obj_0 =~= spec_move_card_body_of(gv)->Obj_0);
        assert(spec_move_card_body(glid, gpos) == spec_move_card_body_of(gv));
    }
    ToolPlan::Remote { request, op: ToolOp::MoveCard }
}

/// How a tool call is planned from its name and arguments.
pub open spec fn plan_spec(name: Seq<char>, args: Option<JsonValue>, r: ToolPlan) -> bool {
    &&& name == "list_projects"@ ==> (r matches ToolPlan::Remote { request, op } && op
        is ListProjects && request.method is Get && request.path@ == "/api/projects"@
        && request.body is None)
    &&& name == "list_boards"@ ==> plans_list_boards(args, r)
    &&& name == "list_lists"@ ==> plans_list_lists(args, r)
    &&& name == "list_cards"@ ==> plans_list_cards(args, r)
    &&& name == "create_board"@ ==> plans_create_board(args, r)
    &&& name == "create_list"@ ==> plans_create_list(args, r)
    &&& name == "create_card"@ ==> plans_create_card(args, r)
    &&& name == "update_card"@ ==> plans_update_card(args, r)
    &&& name == "move_card"@ ==> plans_move_card(args, r)
    &&& name == "delete_card"@ ==> plans_delete_card(args, r)
    &&& name == "delete_list"@ ==> plans_delete_list(args, r)
    &&& !known_tool(name) ==> (r matches ToolPlan::Done(res) && is_error_result(
        res,
        "Unknown tool: "@ + name,
    ))
}

/// Routes a tool call by name: each catalog tool is planned from its
/// arguments, and an unknown name is answered with an error-flagged
/// result naming it, never with a protocol error.
pub fn plan_call(name: &str, args: Option<JsonValue>) -> (r: ToolPlan)
    ensures
        plan_spec(name@, args, r),
{
    proof {
        reveal_strlit("list_projects");
        reveal_strlit("list_boards");
        reveal_strlit("list_lists");
        reveal_strlit("list_cards");
        reveal_strlit("create_board");
        reveal_strlit("create_list");
        reveal_strlit("create_card");
        reveal_strlit("update_card");
        reveal_strlit("move_card");
        reveal_strlit("delete_card");
        reveal_strlit("delete_list");
        assert("list_projects"@.len() == 13);
        assert("list_boards"@.len() == 11);
        assert("list_lists"@.len() == 10);
        assert("list_cards"@.len() == 10);
        assert("create_board"@.len() == 12);
        assert("create_list"@.len() == 11);
        assert("create_card"@.len() == 11);
        assert("update_card"@.len() == 11);
        assert("move_card"@.len() == 9);
        assert("delete_card"@.len() == 11);
        assert("delete_list"@.len() == 11);
        assert("list_boards"@[0] == 'l');
        assert("create_list"@[0] == 'c');
        assert("create_card"@[0] == 'c');
        assert("update_card"@[0] == 'u');
        assert("delete_card"@[0] == 'd');
        assert("delete_list"@[0] == 'd');
        assert("create_list"@[7] == 'l');
        assert("create_card"@[7] == 'c');
        assert("delete_card"@[7] == 'c');
        assert("delete_list"@[7] == 'l');
        assert("list_lists"@[5] == 'l');
        assert("list_cards"@[5] == 'c');
    }
    if crate::json::str_eq(name, "list_projects") {
        plan_list_projects()
    } else if crate::json::str_eq(name, "list_boards") {
        plan_list_boards(args)
    } else if crate::json::str_eq(name, "list_lists") {
        plan_list_lists(args)
    } else if crate::json::str_eq(name, "list_cards") {
        plan_list_cards(args)
    } else if crate::json::str_eq(name, "create_board") {
        plan_create_board(args)
    } else if crate::json::str_eq(name, "create_list") {
        plan_create_list(args)
    } else if crate::json::str_eq(name, "create_card") {
        plan_create_card(args)
    } else if crate::json::str_eq(name, "update_card") {
        plan_update_card(args)
    } else if crate::json::str_eq(name, "move_card") {
        plan_move_card(args)
    } else if crate::json::str_eq(name, "delete_card") {
        plan_delete_card(args)
    } else if crate::json::str_eq(name, "delete_list") {
        plan_delete_list(args)
    } else {
        let mut msg = "Unknown tool: ".to_owned();
        msg.append(name);
        ToolPlan::Done(ToolCallResult::error(msg))
    }
}

/// The display text of a status failure, carrying the literal status code
/// and the raw reply body.
pub open spec fn status_text(status: u16, body: Seq<char>) -> Seq<char> {
    "HTTP status "@ + spec_dec_u(status as nat) + ": "@ + body
}

/// The display text of a 2xx reply whose body is not the expected
/// document.
pub open spec fn invalid_body_text() -> Seq<char> {
    "JSON error: "@ + "invalid response body"@
}

/// How a reply is turned into the tool result, operation by operation: a
/// non-2xx reply surfaces its literal status code and raw body; an
/// unreadable 2xx body surfaces a decode failure; a readable one is
/// rendered as JSON text.
pub open spec fn finishes(
    op: ToolOp,
    status: u16,
    body: Seq<char>,
    json: Option<JsonValue>,
    r: ToolCallResult,
) -> bool {
    match op {
        ToolOp::ListProjects => {
            &&& !is_2xx(status) ==> is_error_result(
                r,
                "Failed to list projects: "@ + status_text(status, body),
            )
            &&& is_2xx(status) ==> match json {
                None => is_error_result(r, "Failed to list projects: "@ + invalid_body_text()),
                Some(v) => {
                    if crate::responses::projects_response_decodable(v.deep_view()) {
                        exists|ps: Seq<crate::records::Project>|
                            #![auto]
                            crate::responses::projects_response_decodes(v.deep_view(), ps)
                                && is_text_result(
                                r,
                                crate::render::spec_pretty(
                                    crate::records::spec_projects_json(ps),
                                    Seq::empty(),
                                ),
                            )
                    } else {
                        is_error_result(r, "Failed to list projects: "@ + invalid_body_text())
                    }
                },
            }
        },
        ToolOp::ListBoards => {
            &&& !is_2xx(status) ==> is_error_result(
                r,
                "Failed to list boards: "@ + status_text(status, body),
            )
            &&& is_2xx(status) ==> match json {
                None => is_error_result(r, "Failed to list boards: "@ + invalid_body_text()),
                Some(v) => {
                    if crate::responses::project_response_decodable(v.deep_view()) {
                        exists|bs: Seq<crate::records::Board>|
                            #![auto]
                            crate::responses::project_response_boards(v.deep_view(), bs)
                                && is_text_result(
                                r,
                                crate::render::spec_pretty(
                                    crate::records::spec_boards_json(bs),
                                    Seq::empty(),
                                ),
                            )
                    } else {
                        is_error_result(r, "Failed to list boards: "@ + invalid_body_text())
                    }
                },
            }
        },
        ToolOp::ListLists => {
            &&& !is_2xx(status) ==> is_error_result(
                r,
                "Failed to list lists: "@ + status_text(status, body),
            )
            &&& is_2xx(status) ==> match json {
                None => is_error_result(r, "Failed to list lists: "@ + invalid_body_text()),
                Some(v) => {
                    if crate::responses::board_response_decodable(v.deep_view()) {
                        exists|ls: Seq<crate::records::List>|
                            #![auto]
                            crate::responses::board_response_lists(v.deep_view(), ls)
                                && is_text_result(
                                r,
                                crate::render::spec_pretty(
                                    crate::records::spec_lists_json(ls),
                                    Seq::empty(),
                                ),
                            )
                    } else {
                        is_error_result(r, "Failed to list lists: "@ + invalid_body_text())
                    }
                },
            }
        },
        ToolOp::ListCards => {
            &&& !is_2xx(status) ==> is_error_result(
                r,
                "Failed to list cards: "@ + status_text(status, body),
            )
            &&& is_2xx(status) ==> match json {
                None => is_error_result(r, "Failed to list cards: "@ + invalid_body_text()),
                Some(v) => {
                    if crate::responses::board_response_decodable(v.deep_view()) {
                        exists|cs: Seq<crate::records::Card>|
                            #![auto]
                            crate::responses::board_response_cards(v.deep_view(), cs)
                                && is_text_result(
                                r,
                                crate::render::spec_pretty(
                                    crate::records::spec_cards_json(cs),
                                    Seq::empty(),
                                ),
                            )
                    } else {
                        is_error_result(r, "Failed to list cards: "@ + invalid_body_text())
                    }
                },
            }
        },
        ToolOp::CreateBoard => {
            &&& !is_2xx(status) ==> is_error_result(
                r,
                "Failed to create board: "@ + status_text(status, body),
            )
            &&& is_2xx(status) ==> match json {
                None => is_error_result(r, "Failed to create board: "@ + invalid_body_text()),
                Some(v) => {
                    if crate::responses::board_item_decodable(v.deep_view()) {
                        exists|b: crate::records::Board|
                            #![auto]
                            crate::responses::board_item_decodes(v.deep_view(), b)
                                && is_text_result(
                                r,
                                crate::render::spec_pretty(
                                    crate::records::spec_board_json(b),
                                    Seq::empty(),
                                ),
                            )
                    } else {
                        is_error_result(r, "Failed to create board: "@ + invalid_body_text())
                    }
                },
            }
        },
        ToolOp::CreateList => {
            &&& !is_2xx(status) ==> is_error_result(
                r,
                "Failed to create list: "@ + status_text(status, body),
            )
            &&& is_2xx(status) ==> match json {
                None => is_error_result(r, "Failed to create list: "@ + invalid_body_text()),
                Some(v) => {
                    if crate::responses::list_item_decodable(v.deep_view()) {
                        exists|l: crate::records::List|
                            #![auto]
                            crate::responses::list_item_decodes(v.deep_view(), l)
                                && is_text_result(
                                r,
                                crate::render::spec_pretty(
                                    crate::records::spec_list_json(l),
                                    Seq::empty(),
                                ),
                            )
                    } else {
                        is_error_result(r, "Failed to create list: "@ + invalid_body_text())
                    }
                },
            }
        },
        ToolOp::CreateCard => finishes_card(status, body, json, r, "Failed to create card: "@),
        ToolOp::UpdateCard => finishes_card(status, body, json, r, "Failed to update card: "@),
        ToolOp::MoveCard => finishes_card(status, body, json, r, "Failed to move card: "@),
        ToolOp::DeleteCard => {
            &&& !is_2xx(status) ==> is_error_result(
                r,
                "Failed to delete card: "@ + status_text(status, body),
            )
            &&& is_2xx(status) ==> is_text_result(r, "Card deleted successfully"@)
        },
        ToolOp::DeleteList => {
            &&& !is_2xx(status) ==> is_error_result(
                r,
                "Failed to delete list: "@ + status_text(status, body),
            )
            &&& is_2xx(status) ==> is_text_result(r, "List deleted successfully"@)
        },
    }
}

/// How a reply carrying one card is turned into the tool result.
pub open spec fn finishes_card(
    status: u16,
    body: Seq<char>,
    json: Option<JsonValue>,
    r: ToolCallResult,
    prefix: Seq<char>,
) -> bool {
    &&& !is_2xx(status) ==> is_error_result(r, prefix + status_text(status, body))
    &&& is_2xx(status) ==> match json {
        None => is_error_result(r, prefix + invalid_body_text()),
        Some(v) => {
            if crate::responses::card_response_decodable(v.deep_view()) {
                exists|c: crate::records::Card|
                    #![auto]
                    crate::responses::card_response_decodes(v.deep_view(), c) && is_text_result(
                        r,
                        crate::render::spec_pretty(crate::records::spec_card_json(c), Seq::empty()),
                    )
            } else {
                is_error_result(r, prefix + invalid_body_text())
            }
        },
    }
}

/// The failure prefix of each operation's result text.
pub open spec fn op_prefix(op: ToolOp) -> Seq<char> {
    match op {
        ToolOp::ListProjects => "Failed to list projects: "@,
        ToolOp::ListBoards => "Failed to list boards: "@,
        ToolOp::ListLists => "Failed to list lists: "@,
        ToolOp::ListCards => "Failed to list cards: "@,
        ToolOp::CreateBoard => "Failed to create board: "@,
        ToolOp::CreateList => "Failed to create list: "@,
        ToolOp::CreateCard => "Failed to create card: "@,
        ToolOp::UpdateCard => "Failed to update card: "@,
        ToolOp::MoveCard => "Failed to move card: "@,
        ToolOp::DeleteCard => "Failed to delete card: "@,
        ToolOp::DeleteList => "Failed to delete list: "@,
    }
}

/// The failure prefix of each operation's result text.
pub fn op_prefix_str(op: &ToolOp) -> (r: &'static str)
    ensures
        r@ == op_prefix(*op),
{
    match op {
        ToolOp::ListProjects => "Failed to list projects: ",
        ToolOp::ListBoards => "Failed to list boards: ",
        ToolOp::ListLists => "Failed to list lists: ",
        ToolOp::ListCards => "Failed to list cards: ",
        ToolOp::CreateBoard => "Failed to create board: ",
        ToolOp::CreateList => "Failed to create list: ",
        ToolOp::CreateCard => "Failed to create card: ",
        ToolOp::UpdateCard => "Failed to update card: ",
        ToolOp::MoveCard => "Failed to move card: ",
        ToolOp::DeleteCard => "Failed to delete card: ",
        ToolOp::DeleteList => "Failed to delete list: ",
    }
}

/// Joins a failure prefix with an error's display text.
pub fn fail_text(prefix: &str, e: &PlankaError) -> (r: String)
    ensures
        r@ == prefix@ + crate::gateway::spec_error_text(*e),
{
    let mut out = prefix.to_owned();
    let detail = e.to_text();
    out.append(detail.as_str());
    out
}

/// Interprets a reply carrying one card into a tool result.
fn finish_card_op(status: u16, body: String, json: Option<JsonValue>, prefix: &str) -> (r:
    ToolCallResult)
    ensures
        finishes_card(status, body@, json, r, prefix@),
{
    let ghost gjson = json;
    match crate::responses::card_item_response(status, body, json) {
        Ok(c) => {
            let ghost gc = c;
            let text = crate::render::pretty_to_string(&crate::records::card_to_json(c));
            let res = ToolCallResult::text(text);
            proof {
                if is_2xx(status) {
                    match gjson {
                        Some(v) => {
                            assert(crate::responses::card_response_decodes(v.deep_view(), gc));
                        },
                        None => {},
                    }
                }
            }
            res
        },
        Err(e) => ToolCallResult::error(fail_text(prefix, &e)),
    }
}

/// Turns the reply of a planned remote operation into the tool result.
pub fn finish_call(op: ToolOp, status: u16, body: String, json: Option<JsonValue>) -> (r:
    ToolCallResult)
    ensures
        finishes(op, status, body@, json, r),
{
    let ghost gjson = json;
    match op {
        ToolOp::ListProjects => match crate::responses::list_projects_response(
            status,
            body,
            json,
        ) {
            Ok(ps) => {
                let ghost gps = ps@;
                let text = crate::render::pretty_to_string(&crate::records::projects_to_json(ps));
                ToolCallResult::text(text)
            },
            Err(e) => ToolCallResult::error(fail_text("Failed to list projects: ", &e)),
        },
        ToolOp::ListBoards => match crate::responses::list_boards_response(status, body, json) {
            Ok(bs) => {
                let ghost gbs = bs@;
                let text = crate::render::pretty_to_string(&crate::records::boards_to_json(bs));
                ToolCallResult::text(text)
            },
            Err(e) => ToolCallResult::error(fail_text("Failed to list boards: ", &e)),
        },
        ToolOp::ListLists => match crate::responses::list_lists_response(status, body, json) {
            Ok(ls) => {
                let ghost gls = ls@;
                let text = crate::render::pretty_to_string(&crate::records::lists_to_json(ls));
                ToolCallResult::text(text)
            },
            Err(e) => ToolCallResult::error(fail_text("Failed to list lists: ", &e)),
        },
        ToolOp::ListCards => match crate::responses::list_cards_response(status, body, json) {
            Ok(cs) => {
                let ghost gcs = cs@;
                let text = crate::render::pretty_to_string(&crate::records::cards_to_json(cs));
                ToolCallResult::text(text)
            },
            Err(e) => ToolCallResult::error(fail_text("Failed to list cards: ", &e)),
        },
        ToolOp::CreateBoard => match crate::responses::board_item_response(status, body, json) {
            Ok(b) => {
                let text = crate::render::pretty_to_string(&crate::records::board_to_json(b));
                ToolCallResult::text(text)
            },
            Err(e) => ToolCallResult::error(fail_text("Failed to create board: ", &e)),
        },
        ToolOp::CreateList => match crate::responses::list_item_response(status, body, json) {
            Ok(l) => {
                let text = crate::render::pretty_to_string(&crate::records::list_to_json(l));
                ToolCallResult::text(text)
            },
            Err(e) => ToolCallResult::error(fail_text("Failed to create list: ", &e)),
        },
        ToolOp::CreateCard => finish_card_op(status, body, json, "Failed to create card: "),
        ToolOp::UpdateCard => finish_card_op(status, body, json, "Failed to update card: "),
        ToolOp::MoveCard => finish_card_op(status, body, json, "Failed to move card: "),
        ToolOp::DeleteCard => match crate::responses::delete_response(status, body) {
            Ok(_) => ToolCallResult::text("Card deleted successfully".to_owned()),
            Err(e) => ToolCallResult::error(fail_text("Failed to delete card: ", &e)),
        },
        ToolOp::DeleteList => match crate::responses::delete_response(status, body) {
            Ok(_) => ToolCallResult::text("List deleted successfully".to_owned()),
            Err(e) => ToolCallResult::error(fail_text("Failed to delete list: ", &e)),
        },
    }
}

/// A schema property of the given type, with a description.
fn sprop(typ: &str, desc: &str) -> JsonValue {
    let mut members: Vec<(String, JsonValue)> = Vec::new();
    members.push(("type".to_owned(), JsonValue::Str(typ.to_owned())));
    members.push(("description".to_owned(), JsonValue::Str(desc.to_owned())));
    JsonValue::Obj(members)
}

/// The string property holding a card type name: one of the two tags,
/// with the default.
fn type_prop(desc: &str, with_default: bool) -> JsonValue {
    let mut tags: Vec<JsonValue> = Vec::new();
    tags.push(JsonValue::Str("project".to_owned()));
    tags.push(JsonValue::Str("story".to_owned()));
    let mut members: Vec<(String, JsonValue)> = Vec::new();
    members.push(("type".to_owned(), JsonValue::Str("string".to_owned())));
    members.push(("enum".to_owned(), JsonValue::Arr(tags)));
    members.push(("description".to_owned(), JsonValue::Str(desc.to_owned())));
    if with_default {
        members.push(("default".to_owned(), JsonValue::Str("project".to_owned())));
    }
    JsonValue::Obj(members)
}

/// A string property carrying a date-time format mark.
fn date_prop(desc: &str) -> JsonValue {
    let mut members: Vec<(String, JsonValue)> = Vec::new();
    members.push(("type".to_owned(), JsonValue::Str("string".to_owned())));
    members.push(("format".to_owned(), JsonValue::Str("date-time".to_owned())));
    members.push(("description".to_owned(), JsonValue::Str(desc.to_owned())));
    JsonValue::Obj(members)
}

/// An object schema with the given properties and required names.
fn schema_obj(properties: Vec<(String, JsonValue)>, required: Vec<String>) -> JsonValue {
    let mut names: Vec<JsonValue> = Vec::new();
    let n = required.len();
    let mut rest = required;
    let mut i: usize = 0;
    #[verifier::loop_isolation(false)]
    while i < n
        invariant
            0 <= i <= n,
            rest@.len() == n - i,
        decreases n - i,
    {
        let name = rest.remove(0);
        names.push(JsonValue::Str(name));
        i += 1;
    }
    let mut members: Vec<(String, JsonValue)> = Vec::new();
    members.push(("type".to_owned(), JsonValue::Str("object".to_owned())));
    members.push(("properties".to_owned(), JsonValue::Obj(properties)));
    members.push(("required".to_owned(), JsonValue::Arr(names)));
    JsonValue::Obj(members)
}

/// Whether a catalog entry is marked safe for programmatic invocation.
pub open spec fn programmatic_tool(t: Tool) -> bool {
    t.annotations matches Some(a) && (a.allowed_callers matches Some(c) && c@.len() == 1 && c@[0]@
        == "code_execution_20250825"@)
}

/// The tool catalog: eleven tools, fixed at compile time.  Every tool but
/// the two destructive delete operations is marked safe for programmatic
/// invocation.
pub fn list_tools() -> (r: Vec<Tool>)
    ensures
        r@.len() == 11,
        r@[0].name@ == "list_projects"@ && programmatic_tool(r@[0]),
        r@[1].name@ == "list_boards"@ && programmatic_tool(r@[1]),
        r@[2].name@ == "list_lists"@ && programmatic_tool(r@[2]),
        r@[3].name@ == "list_cards"@ && programmatic_tool(r@[3]),
        r@[4].name@ == "create_board"@ && programmatic_tool(r@[4]),
        r@[5].name@ == "create_list"@ && programmatic_tool(r@[5]),
        r@[6].name@ == "create_card"@ && programmatic_tool(r@[6]),
        r@[7].name@ == "update_card"@ && programmatic_tool(r@[7]),
        r@[8].name@ == "move_card"@ && programmatic_tool(r@[8]),
        r@[9].name@ == "delete_card"@ && r@[9].annotations is None,
        r@[10].name@ == "delete_list"@ && r@[10].annotations is None,
{
    let mut tools: Vec<Tool> = Vec::new();

    let props: Vec<(String, JsonValue)> = Vec::new();
    let required: Vec<String> = Vec::new();
    tools.push(
        Tool {
            name: "list_projects".to_owned(),
            description: "List all Planka projects".to_owned(),
            input_schema: schema_obj(props, required),
            annotations: programmatic_annotations(),
        },
    );

    let mut props: Vec<(String, JsonValue)> = Vec::new();
    props.push(("project_id".to_owned(), sprop("string", "The project ID")));
    let mut required: Vec<String> = Vec::new();
    required.push("project_id".to_owned());
    tools.push(
        Tool {
            name: "list_boards".to_owned(),
            description: "List all boards in a project".to_owned(),
            input_schema: schema_obj(props, required),
            annotations: programmatic_annotations(),
        },
    );

    let mut props: Vec<(String, JsonValue)> = Vec::new();
    props.push(("board_id".to_owned(), sprop("string", "The board ID")));
    let mut required: Vec<String> = Vec::new();
    required.push("board_id".to_owned());
    tools.push(
        Tool {
            name: "list_lists".to_owned(),
            description: "List all lists (columns) on a board".to_owned(),
            input_schema: schema_obj(props, required),
            annotations: programmatic_annotations(),
        },
    );

    let mut props: Vec<(String, JsonValue)> = Vec::new();
    props.push(("board_id".to_owned(), sprop("string", "The board ID")));
    let mut required: Vec<String> = Vec::new();
    required.push("board_id".to_owned());
    tools.push(
        Tool {
            name: "list_cards".to_owned(),
            description: "List all cards on a board".to_owned(),
            input_schema: schema_obj(props, required),
            annotations: programmatic_annotations(),
        },
    );

    let mut props: Vec<(String, JsonValue)> = Vec::new();
    props.push(
        ("project_id".to_owned(), sprop("string", "The project ID to create the board in")),
    );
    props.push(("name".to_owned(), sprop("string", "The board name")));
    let mut required: Vec<String> = Vec::new();
    required.push("project_id".to_owned());
    required.push("name".to_owned());
    tools.push(
        Tool {
            name: "create_board".to_owned(),
            description: "Create a new board in a project".to_owned(),
            input_schema: schema_obj(props, required),
            annotations: programmatic_annotations(),
        },
    );

    let mut props: Vec<(String, JsonValue)> = Vec::new();
    props.push(("board_id".to_owned(), sprop("string", "The board ID to create the list on")));
    props.push(("name".to_owned(), sprop("string", "The list name")));
    let mut required: Vec<String> = Vec::new();
    required.push("board_id".to_owned());
    required.push("name".to_owned());
    tools.push(
        Tool {
            name: "create_list".to_owned(),
            description: "Create a new list (column) on a board".to_owned(),
            input_schema: schema_obj(props, required),
            annotations: programmatic_annotations(),
        },
    );

    let mut props: Vec<(String, JsonValue)> = Vec::new();
    props.push(("list_id".to_owned(), sprop("string", "The list ID to create the card in")));
    props.push(("type".to_owned(), type_prop("Type of the card (project or story)", true)));
    props.push(("name".to_owned(), sprop("string", "The card title")));
    props.push(("description".to_owned(), sprop("string", "Optional card description")));
    props.push(("due_date".to_owned(), date_prop("Optional due date (ISO 8601 format)")));
    props.push(
        ("is_due_completed".to_owned(), sprop("boolean", "Whether the due date is completed")),
    );
    let mut required: Vec<String> = Vec::new();
    required.push("list_id".to_owned());
    required.push("name".to_owned());
    tools.push(
        Tool {
            name: "create_card".to_owned(),
            description: "Create a new card in a list".to_owned(),
            input_schema: schema_obj(props, required),
            annotations: programmatic_annotations(),
        },
    );

    let mut props: Vec<(String, JsonValue)> = Vec::new();
    props.push(("card_id".to_owned(), sprop("string", "The card ID to update")));
    props.push(("name".to_owned(), sprop("string", "New card title (optional)")));
    props.push(("description".to_owned(), sprop("string", "New card description (optional)")));
    props.push(("type".to_owned(), type_prop("Card type (optional)", false)));
    props.push(("due_date".to_owned(), date_prop("Due date in ISO 8601 format (optional)")));
    props.push(
        (
            "is_due_completed".to_owned(),
            sprop("boolean", "Whether the due date is completed (optional)"),
        ),
    );
    props.push(("board_id".to_owned(), sprop("string", "Move card to different board (optional)")));
    props.push(
        (
            "cover_attachment_id".to_owned(),
            sprop("string", "Set cover image attachment ID (optional)"),
        ),
    );
    let mut required: Vec<String> = Vec::new();
    required.push("card_id".to_owned());
    tools.push(
        Tool {
            name: "update_card".to_owned(),
            description: "Update a card's properties (name, description, type, due date, etc.)".to_owned(),
            input_schema: schema_obj(props, required),
            annotations: programmatic_annotations(),
        },
    );

    let mut props: Vec<(String, JsonValue)> = Vec::new();
    props.push(("card_id".to_owned(), sprop("string", "The card ID to move")));
    props.push(("list_id".to_owned(), sprop("string", "The target list ID")));
    props.push(("position".to_owned(), sprop("number", "Position in the list (optional)")));
    let mut required: Vec<String> = Vec::new();
    required.push("card_id".to_owned());
    required.push("list_id".to_owned());
    tools.push(
        Tool {
            name: "move_card".to_owned(),
            description: "Move a card to a different list".to_owned(),
            input_schema: schema_obj(props, required),
            annotations: programmatic_annotations(),
        },
    );

    let mut props: Vec<(String, JsonValue)> = Vec::new();
    props.push(("card_id".to_owned(), sprop("string", "The card ID to delete")));
    let mut required: Vec<String> = Vec::new();
    required.push("card_id".to_owned());
    tools.push(
        Tool {
            name: "delete_card".to_owned(),
            description: "Delete a card".to_owned(),
            input_schema: schema_obj(props, required),
            annotations: None,
        },
    );

    let mut props: Vec<(String, JsonValue)> = Vec::new();
    props.push(("list_id".to_owned(), sprop("string", "The list ID to delete")));
    let mut required: Vec<String> = Vec::new();
    required.push("list_id".to_owned());
    tools.push(
        Tool {
            name: "delete_list".to_owned(),
            description: "Delete a list and all its cards".to_owned(),
            input_schema: schema_obj(props, required),
            annotations: None,
        },
    );

    tools
}

} // verus!
