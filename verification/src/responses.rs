//! The remote gateway's reply side: classifying a reply by its status and
//! decoding the 2xx bodies into records.
//!
//! Any status outside the 2xx range becomes a status error carrying the
//! literal code and the raw body text.  A 2xx body that does not hold the
//! expected document becomes a distinct decode error, never a status error.

use vstd::prelude::*;

use crate::gateway::{is_2xx, status_ok, PlankaError};
use crate::json::{jval_of, JVal, JsonValue};
use crate::records::{
    board_decodable, board_decodes, board_from_json, card_decodable, card_decodes, card_from_json,
    list_decodable, list_decodes, list_from_json, project_decodable, project_decodes,
    project_from_json, Board, Card, List, Project,
};

verus! {

broadcast use crate::json::group_json_model;

/// The reply to listing all projects.
pub struct ProjectsResponse {
    pub items: Vec<Project>,
}

/// What a project fetch carries besides the project itself.
pub struct ProjectIncluded {
    pub boards: Vec<Board>,
    pub lists: Vec<List>,
    pub cards: Vec<Card>,
}

/// The reply to fetching one project.
pub struct ProjectResponse {
    pub item: Project,
    pub included: ProjectIncluded,
}

/// What a board fetch carries besides the board itself.
pub struct BoardIncluded {
    pub lists: Vec<List>,
    pub cards: Vec<Card>,
}

/// The reply to fetching one board.
pub struct BoardResponse {
    pub item: Board,
    pub included: BoardIncluded,
}

/// The reply to creating or updating a card.
pub struct CardResponse {
    pub item: Card,
}

/// The reply to creating a board.
pub struct BoardCreateResponse {
    pub item: Board,
}

/// The reply to creating a list.
pub struct ListResponse {
    pub item: List,
}

/// The decode error for a 2xx reply whose body is not the expected
/// document.
pub fn invalid_body_error() -> (r: PlankaError)
    ensures
        r matches PlankaError::Serde(m) && m@ == "invalid response body"@,
{
    PlankaError::Serde("invalid response body".to_owned())
}

/// Classifies a reply: a 2xx with a parsed body passes through, anything
/// else becomes the matching error.
fn classify(status: u16, body: String, json: Option<JsonValue>) -> (r: Result<
    JsonValue,
    PlankaError,
>)
    ensures
        !is_2xx(status) ==> (r matches Err(e) && e matches PlankaError::Status(s, b) && s == status
            && b@ == body@),
        is_2xx(status) && json is None ==> (r matches Err(e) && e matches PlankaError::Serde(m)
            && m@ == "invalid response body"@),
        is_2xx(status) ==> match json {
            Some(v) => (r matches Ok(o) && o == v),
            None => true,
        },
{
    if !status_ok(status) {
        return Err(PlankaError::Status(status, body));
    }
    match json {
        Some(v) => Ok(v),
        None => Err(invalid_body_error()),
    }
}

/// Whether every element of `items` decodes into a project record.
pub open spec fn all_projects_decodable(items: Seq<JVal>) -> bool {
    forall|i: int| 0 <= i < items.len() ==> project_decodable(items[i])
}

/// Whether the records `ps` read the elements of `items` one for one.
pub open spec fn projects_decode(items: Seq<JVal>, ps: Seq<Project>) -> bool {
    ps.len() == items.len() && forall|i: int|
        0 <= i < items.len() ==> project_decodes(items[i], ps[i])
}

/// Decodes an array of project records.
fn projects_from_arr(items: &Vec<JsonValue>) -> (r: Option<Vec<Project>>)
    ensures
        r is Some <==> all_projects_decodable(items.deep_view()),
        match r {
            Some(ps) => projects_decode(items.deep_view(), ps@),
            None => true,
        },
{
    let n = items.len();
    let mut out: Vec<Project> = Vec::new();
    let mut i: usize = 0;
    #[verifier::loop_isolation(false)]
    while i < n
        invariant
            0 <= i <= n,
            out@.len() == i,
            forall|k: int| 0 <= k < i ==> project_decodable(jval_of(items@[k])),
            forall|k: int| 0 <= k < i ==> project_decodes(jval_of(items@[k]), out@[k]),
        decreases n - i,
    {
        match project_from_json(&items[i]) {
            Some(p) => out.push(p),
            None => {
                proof {
                    assert(items.deep_view()[i as int] == jval_of(items@[i as int]));
                }
                return None;
            },
        }
        i += 1;
    }
    proof {
        assert forall|k: int| 0 <= k < items.deep_view().len() implies project_decodable(
            items.deep_view()[k],
        ) && project_decodes(items.deep_view()[k], out@[k]) by {
            assert(items.deep_view()[k] == jval_of(items@[k]));
        }
    }
    Some(out)
}

/// Whether every element of `items` decodes into a board record.
pub open spec fn all_boards_decodable(items: Seq<JVal>) -> bool {
    forall|i: int| 0 <= i < items.len() ==> board_decodable(items[i])
}

/// Whether the records `bs` read the elements of `items` one for one.
pub open spec fn boards_decode(items: Seq<JVal>, bs: Seq<Board>) -> bool {
    bs.len() == items.len() && forall|i: int| 0 <= i < items.len() ==> board_decodes(items[i], bs[i])
}

/// Decodes an array of board records.
fn boards_from_arr(items: &Vec<JsonValue>) -> (r: Option<Vec<Board>>)
    ensures
        r is Some <==> all_boards_decodable(items.deep_view()),
        match r {
            Some(bs) => boards_decode(items.deep_view(), bs@),
            None => true,
        },
{
    let n = items.len();
    let mut out: Vec<Board> = Vec::new();
    let mut i: usize = 0;
    #[verifier::loop_isolation(false)]
    while i < n
        invariant
            0 <= i <= n,
            out@.len() == i,
            forall|k: int| 0 <= k < i ==> board_decodable(jval_of(items@[k])),
            forall|k: int| 0 <= k < i ==> board_decodes(jval_of(items@[k]), out@[k]),
        decreases n - i,
    {
        match board_from_json(&items[i]) {
            Some(b) => out.push(b),
            None => {
                proof {
                    assert(items.deep_view()[i as int] == jval_of(items@[i as int]));
                }
                return None;
            },
        }
        i += 1;
    }
    proof {
        assert forall|k: int| 0 <= k < items.deep_view().len() implies board_decodable(
            items.deep_view()[k],
        ) && board_decodes(items.deep_view()[k], out@[k]) by {
            assert(items.deep_view()[k] == jval_of(items@[k]));
        }
    }
    Some(out)
}

/// Whether every element of `items` decodes into a list record.
pub open spec fn all_lists_decodable(items: Seq<JVal>) -> bool {
    forall|i: int| 0 <= i < items.len() ==> list_decodable(items[i])
}

/// Whether the records `ls` read the elements of `items` one for one.
pub open spec fn lists_decode(items: Seq<JVal>, ls: Seq<List>) -> bool {
    ls.len() == items.len() && forall|i: int| 0 <= i < items.len() ==> list_decodes(items[i], ls[i])
}

/// Decodes an array of list records.
fn lists_from_arr(items: &Vec<JsonValue>) -> (r: Option<Vec<List>>)
    ensures
        r is Some <==> all_lists_decodable(items.deep_view()),
        match r {
            Some(ls) => lists_decode(items.deep_view(), ls@),
            None => true,
        },
{
    let n = items.len();
    let mut out: Vec<List> = Vec::new();
    let mut i: usize = 0;
    #[verifier::loop_isolation(false)]
    while i < n
        invariant
            0 <= i <= n,
            out@.len() == i,
            forall|k: int| 0 <= k < i ==> list_decodable(jval_of(items@[k])),
            forall|k: int| 0 <= k < i ==> list_decodes(jval_of(items@[k]), out@[k]),
        decreases n - i,
    {
        match list_from_json(&items[i]) {
            Some(l) => out.push(l),
            None => {
                proof {
                    assert(items.deep_view()[i as int] == jval_of(items@[i as int]));
                }
                return None;
            },
        }
        i += 1;
    }
    proof {
        assert forall|k: int| 0 <= k < items.deep_view().len() implies list_decodable(
            items.deep_view()[k],
        ) && list_decodes(items.deep_view()[k], out@[k]) by {
            assert(items.deep_view()[k] == jval_of(items@[k]));
        }
    }
    Some(out)
}

/// Whether every element of `items` decodes into a card record.
pub open spec fn all_cards_decodable(items: Seq<JVal>) -> bool {
    forall|i: int| 0 <= i < items.len() ==> card_decodable(items[i])
}

/// Whether the records `cs` read the elements of `items` one for one.
pub open spec fn cards_decode(items: Seq<JVal>, cs: Seq<Card>) -> bool {
    cs.len() == items.len() && forall|i: int| 0 <= i < items.len() ==> card_decodes(items[i], cs[i])
}

/// Decodes an array of card records.
fn cards_from_arr(items: &Vec<JsonValue>) -> (r: Option<Vec<Card>>)
    ensures
        r is Some <==> all_cards_decodable(items.deep_view()),
        match r {
            Some(cs) => cards_decode(items.deep_view(), cs@),
            None => true,
        },
{
    let n = items.len();
    let mut out: Vec<Card> = Vec::new();
    let mut i: usize = 0;
    #[verifier::loop_isolation(false)]
    while i < n
        invariant
            0 <= i <= n,
            out@.len() == i,
            forall|k: int| 0 <= k < i ==> card_decodable(jval_of(items@[k])),
            forall|k: int| 0 <= k < i ==> card_decodes(jval_of(items@[k]), out@[k]),
        decreases n - i,
    {
        match card_from_json(&items[i]) {
            Some(c) => out.push(c),
            None => {
                proof {
                    assert(items.deep_view()[i as int] == jval_of(items@[i as int]));
                }
                return None;
            },
        }
        i += 1;
    }
    proof {
        assert forall|k: int| 0 <= k < items.deep_view().len() implies card_decodable(
            items.deep_view()[k],
        ) && card_decodes(items.deep_view()[k], out@[k]) by {
            assert(items.deep_view()[k] == jval_of(items@[k]));
        }
    }
    Some(out)
}

/// Whether the member `key` of `v` may feed a record array that defaults
/// to empty: absent, or an array of decodable boards.
pub open spec fn boards_member_ok(v: JVal, key: Seq<char>) -> bool {
    match v.get(key) {
        None => true,
        Some(JVal::Arr(items)) => all_boards_decodable(items),
        Some(_) => false,
    }
}

/// Whether the records `bs` read the member `key` of `v`, an absent
/// member reading as empty.
pub open spec fn boards_member_decode(v: JVal, key: Seq<char>, bs: Seq<Board>) -> bool {
    match v.get(key) {
        None => bs.len() == 0,
        Some(JVal::Arr(items)) => boards_decode(items, bs),
        Some(_) => false,
    }
}

/// Reads an optional board-array member, an absent member as empty.
fn boards_member(v: &JsonValue, key: &str) -> (r: Result<Vec<Board>, ()>)
    ensures
        r is Ok <==> boards_member_ok(v.deep_view(), key@),
        match r {
            Ok(bs) => boards_member_decode(v.deep_view(), key@, bs@),
            Err(_) => true,
        },
{
    match v.get_member(key) {
        None => Ok(Vec::new()),
        Some(m) => match m {
            JsonValue::Arr(items) => {
                proof {
                    assert(m.deep_view()->Arr_0 =~= items.deep_view());
                }
                match boards_from_arr(items) {
                    Some(bs) => Ok(bs),
                    None => Err(()),
                }
            },
            _ => Err(()),
        },
    }
}

/// Whether the member `key` of `v` may feed a list array that defaults to
/// empty.
pub open spec fn lists_member_ok(v: JVal, key: Seq<char>) -> bool {
    match v.get(key) {
        None => true,
        Some(JVal::Arr(items)) => all_lists_decodable(items),
        Some(_) => false,
    }
}

/// Whether the records `ls` read the member `key` of `v`.
pub open spec fn lists_member_decode(v: JVal, key: Seq<char>, ls: Seq<List>) -> bool {
    match v.get(key) {
        None => ls.len() == 0,
        Some(JVal::Arr(items)) => lists_decode(items, ls),
        Some(_) => false,
    }
}

/// Reads an optional list-array member, an absent member as empty.
fn lists_member(v: &JsonValue, key: &str) -> (r: Result<Vec<List>, ()>)
    ensures
        r is Ok <==> lists_member_ok(v.deep_view(), key@),
        match r {
            Ok(ls) => lists_member_decode(v.deep_view(), key@, ls@),
            Err(_) => true,
        },
{
    match v.get_member(key) {
        None => Ok(Vec::new()),
        Some(m) => match m {
            JsonValue::Arr(items) => {
                proof {
                    assert(m.deep_view()->Arr_0 =~= items.deep_view());
                }
                match lists_from_arr(items) {
                    Some(ls) => Ok(ls),
                    None => Err(()),
                }
            },
            _ => Err(()),
        },
    }
}

/// Whether the member `key` of `v` may feed a card array that defaults to
/// empty.
pub open spec fn cards_member_ok(v: JVal, key: Seq<char>) -> bool {
    match v.get(key) {
        None => true,
        Some(JVal::Arr(items)) => all_cards_decodable(items),
        Some(_) => false,
    }
}

/// Whether the records `cs` read the member `key` of `v`.
pub open spec fn cards_member_decode(v: JVal, key: Seq<char>, cs: Seq<Card>) -> bool {
    match v.get(key) {
        None => cs.len() == 0,
        Some(JVal::Arr(items)) => cards_decode(items, cs),
        Some(_) => false,
    }
}

/// Reads an optional card-array member, an absent member as empty.
fn cards_member(v: &JsonValue, key: &str) -> (r: Result<Vec<Card>, ()>)
    ensures
        r is Ok <==> cards_member_ok(v.deep_view(), key@),
        match r {
            Ok(cs) => cards_member_decode(v.deep_view(), key@, cs@),
            Err(_) => true,
        },
{
    match v.get_member(key) {
        None => Ok(Vec::new()),
        Some(m) => match m {
            JsonValue::Arr(items) => {
                proof {
                    assert(m.deep_view()->Arr_0 =~= items.deep_view());
                }
                match cards_from_arr(items) {
                    Some(cs) => Ok(cs),
                    None => Err(()),
                }
            },
            _ => Err(()),
        },
    }
}

/// Whether `v` decodes into the reply to listing all projects.
pub open spec fn projects_response_decodable(v: JVal) -> bool {
    v.get("items"@) matches Some(JVal::Arr(items)) && all_projects_decodable(items)
}

/// Whether the reply records `ps` read the document `v`.
pub open spec fn projects_response_decodes(v: JVal, ps: Seq<Project>) -> bool {
    v.get("items"@) matches Some(JVal::Arr(items)) && projects_decode(items, ps)
}

/// Interprets the reply to listing all projects.
pub fn list_projects_response(status: u16, body: String, json: Option<JsonValue>) -> (r: Result<
    Vec<Project>,
    PlankaError,
>)
    ensures
        !is_2xx(status) ==> (r matches Err(e) && e matches PlankaError::Status(s, b) && s == status
            && b@ == body@),
        is_2xx(status) ==> match json {
            None => r is Err,
            Some(v) => {
                if projects_response_decodable(v.deep_view()) {
                    r matches Ok(ps) && projects_response_decodes(v.deep_view(), ps@)
                } else {
                    r matches Err(e) && e matches PlankaError::Serde(m) && m@
                        == "invalid response body"@
                }
            },
        },
        is_2xx(status) && json is None ==> (r matches Err(e) && e matches PlankaError::Serde(m)
            && m@ == "invalid response body"@),
{
    let v = match classify(status, body, json) {
        Ok(v) => v,
        Err(e) => {
            return Err(e);
        },
    };
    match v.get_member("items") {
        Some(m) => match m {
            JsonValue::Arr(items) => {
                proof {
                    assert(m.deep_view()->Arr_0 =~= items.deep_view());
                }
                match projects_from_arr(items) {
                    Some(ps) => {
                        let resp = ProjectsResponse { items: ps };
                        Ok(resp.items)
                    },
                    None => Err(invalid_body_error()),
                }
            },
            _ => Err(invalid_body_error()),
        },
        None => Err(invalid_body_error()),
    }
}

/// Whether `v` decodes into the reply to fetching one project.
pub open spec fn project_response_decodable(v: JVal) -> bool {
    &&& v.get("item"@) matches Some(item) && project_decodable(item)
    &&& v.get("included"@) matches Some(inc) && inc is Obj && boards_member_ok(inc, "boards"@)
        && lists_member_ok(inc, "lists"@) && cards_member_ok(inc, "cards"@)
}

/// Whether the included boards `bs` read the document `v`.
pub open spec fn project_response_boards(v: JVal, bs: Seq<Board>) -> bool {
    v.get("included"@) matches Some(inc) && boards_member_decode(inc, "boards"@, bs)
}

/// Interprets the reply to fetching a project, keeping its boards.
pub fn list_boards_response(status: u16, body: String, json: Option<JsonValue>) -> (r: Result<
    Vec<Board>,
    PlankaError,
>)
    ensures
        !is_2xx(status) ==> (r matches Err(e) && e matches PlankaError::Status(s, b) && s == status
            && b@ == body@),
        is_2xx(status) ==> match json {
            None => (r matches Err(e) && e matches PlankaError::Serde(m) && m@
                == "invalid response body"@),
            Some(v) => {
                if project_response_decodable(v.deep_view()) {
                    r matches Ok(bs) && project_response_boards(v.deep_view(), bs@)
                } else {
                    r matches Err(e) && e matches PlankaError::Serde(m) && m@
                        == "invalid response body"@
                }
            },
        },
{
    let v = match classify(status, body, json) {
        Ok(v) => v,
        Err(e) => {
            return Err(e);
        },
    };
    let item = match v.get_member("item") {
        Some(m) => match project_from_json(m) {
            Some(p) => p,
            None => {
                return Err(invalid_body_error());
            },
        },
        None => {
            return Err(invalid_body_error());
        },
    };
    match v.get_member("included") {
        Some(inc) => {
            if !inc.is_obj() {
                return Err(invalid_body_error());
            }
            let boards = match boards_member(inc, "boards") {
                Ok(bs) => bs,
                Err(_) => {
                    return Err(invalid_body_error());
                },
            };
            let lists = match lists_member(inc, "lists") {
                Ok(ls) => ls,
                Err(_) => {
                    return Err(invalid_body_error());
                },
            };
            let cards = match cards_member(inc, "cards") {
                Ok(cs) => cs,
                Err(_) => {
                    return Err(invalid_body_error());
                },
            };
            let resp = ProjectResponse { item, included: ProjectIncluded { boards, lists, cards } };
            Ok(resp.included.boards)
        },
        None => Err(invalid_body_error()),
    }
}

/// Whether `v` decodes into the reply to fetching one board.
pub open spec fn board_response_decodable(v: JVal) -> bool {
    &&& v.get("item"@) matches Some(item) && board_decodable(item)
    &&& v.get("included"@) matches Some(inc) && inc is Obj && lists_member_ok(inc, "lists"@)
        && cards_member_ok(inc, "cards"@)
}

/// Whether the included lists `ls` read the document `v`.
pub open spec fn board_response_lists(v: JVal, ls: Seq<List>) -> bool {
    v.get("included"@) matches Some(inc) && lists_member_decode(inc, "lists"@, ls)
}

/// Whether the included cards `cs` read the document `v`.
pub open spec fn board_response_cards(v: JVal, cs: Seq<Card>) -> bool {
    v.get("included"@) matches Some(inc) && cards_member_decode(inc, "cards"@, cs)
}

/// Interprets the reply to fetching a board, keeping its lists.
pub fn list_lists_response(status: u16, body: String, json: Option<JsonValue>) -> (r: Result<
    Vec<List>,
    PlankaError,
>)
    ensures
        !is_2xx(status) ==> (r matches Err(e) && e matches PlankaError::Status(s, b) && s == status
            && b@ == body@),
        is_2xx(status) ==> match json {
            None => (r matches Err(e) && e matches PlankaError::Serde(m) && m@
                == "invalid response body"@),
            Some(v) => {
                if board_response_decodable(v.deep_view()) {
                    r matches Ok(ls) && board_response_lists(v.deep_view(), ls@)
                } else {
                    r matches Err(e) && e matches PlankaError::Serde(m) && m@
                        == "invalid response body"@
                }
            },
        },
{
    let v = match classify(status, body, json) {
        Ok(v) => v,
        Err(e) => {
            return Err(e);
        },
    };
    let item = match v.get_member("item") {
        Some(m) => match board_from_json(m) {
            Some(b) => b,
            None => {
                return Err(invalid_body_error());
            },
        },
        None => {
            return Err(invalid_body_error());
        },
    };
    match v.get_member("included") {
        Some(inc) => {
            if !inc.is_obj() {
                return Err(invalid_body_error());
            }
            let lists = match lists_member(inc, "lists") {
                Ok(ls) => ls,
                Err(_) => {
                    return Err(invalid_body_error());
                },
            };
            let cards = match cards_member(inc, "cards") {
                Ok(cs) => cs,
                Err(_) => {
                    return Err(invalid_body_error());
                },
            };
            let resp = BoardResponse { item, included: BoardIncluded { lists, cards } };
            Ok(resp.included.lists)
        },
        None => Err(invalid_body_error()),
    }
}

/// Interprets the reply to fetching a board, keeping its cards.
pub fn list_cards_response(status: u16, body: String, json: Option<JsonValue>) -> (r: Result<
    Vec<Card>,
    PlankaError,
>)
    ensures
        !is_2xx(status) ==> (r matches Err(e) && e matches PlankaError::Status(s, b) && s == status
            && b@ == body@),
        is_2xx(status) ==> match json {
            None => (r matches Err(e) && e matches PlankaError::Serde(m) && m@
                == "invalid response body"@),
            Some(v) => {
                if board_response_decodable(v.deep_view()) {
                    r matches Ok(cs) && board_response_cards(v.deep_view(), cs@)
                } else {
                    r matches Err(e) && e matches PlankaError::Serde(m) && m@
                        == "invalid response body"@
                }
            },
        },
{
    let v = match classify(status, body, json) {
        Ok(v) => v,
        Err(e) => {
            return Err(e);
        },
    };
    let item = match v.get_member("item") {
        Some(m) => match board_from_json(m) {
            Some(b) => b,
            None => {
                return Err(invalid_body_error());
            },
        },
        None => {
            return Err(invalid_body_error());
        },
    };
    match v.get_member("included") {
        Some(inc) => {
            if !inc.is_obj() {
                return Err(invalid_body_error());
            }
            let lists = match lists_member(inc, "lists") {
                Ok(ls) => ls,
                Err(_) => {
                    return Err(invalid_body_error());
                },
            };
            let cards = match cards_member(inc, "cards") {
                Ok(cs) => cs,
                Err(_) => {
                    return Err(invalid_body_error());
                },
            };
            let resp = BoardResponse { item, included: BoardIncluded { lists, cards } };
            Ok(resp.included.cards)
        },
        None => Err(invalid_body_error()),
    }
}

/// Whether `v` decodes into a reply carrying one card.
pub open spec fn card_response_decodable(v: JVal) -> bool {
    v.get("item"@) matches Some(item) && card_decodable(item)
}

/// Whether the card `c` reads the `item` member of `v`.
pub open spec fn card_response_decodes(v: JVal, c: Card) -> bool {
    v.get("item"@) matches Some(item) && card_decodes(item, c)
}

/// Interprets a reply carrying one card.
pub fn card_item_response(status: u16, body: String, json: Option<JsonValue>) -> (r: Result<
    Card,
    PlankaError,
>)
    ensures
        !is_2xx(status) ==> (r matches Err(e) && e matches PlankaError::Status(s, b) && s == status
            && b@ == body@),
        is_2xx(status) ==> match json {
            None => (r matches Err(e) && e matches PlankaError::Serde(m) && m@
                == "invalid response body"@),
            Some(v) => {
                if card_response_decodable(v.deep_view()) {
                    r matches Ok(c) && card_response_decodes(v.deep_view(), c)
                } else {
                    r matches Err(e) && e matches PlankaError::Serde(m) && m@
                        == "invalid response body"@
                }
            },
        },
{
    let v = match classify(status, body, json) {
        Ok(v) => v,
        Err(e) => {
            return Err(e);
        },
    };
    match v.get_member("item") {
        Some(item) => match card_from_json(item) {
            Some(c) => {
                let resp = CardResponse { item: c };
                Ok(resp.item)
            },
            None => Err(invalid_body_error()),
        },
        None => Err(invalid_body_error()),
    }
}

/// Whether `v` decodes into a reply carrying one board.
pub open spec fn board_item_decodable(v: JVal) -> bool {
    v.get("item"@) matches Some(item) && board_decodable(item)
}

/// Whether the board `b` reads the `item` member of `v`.
pub open spec fn board_item_decodes(v: JVal, b: Board) -> bool {
    v.get("item"@) matches Some(item) && board_decodes(item, b)
}

/// Interprets a reply carrying one board.
pub fn board_item_response(status: u16, body: String, json: Option<JsonValue>) -> (r: Result<
    Board,
    PlankaError,
>)
    ensures
        !is_2xx(status) ==> (r matches Err(e) && e matches PlankaError::Status(s, b) && s == status
            && b@ == body@),
        is_2xx(status) ==> match json {
            None => (r matches Err(e) && e matches PlankaError::Serde(m) && m@
                == "invalid response body"@),
            Some(v) => {
                if board_item_decodable(v.deep_view()) {
                    r matches Ok(b) && board_item_decodes(v.deep_view(), b)
                } else {
                    r matches Err(e) && e matches PlankaError::Serde(m) && m@
                        == "invalid response body"@
                }
            },
        },
{
    let v = match classify(status, body, json) {
        Ok(v) => v,
        Err(e) => {
            return Err(e);
        },
    };
    match v.get_member("item") {
        Some(item) => match board_from_json(item) {
            Some(b) => {
                let resp = BoardCreateResponse { item: b };
                Ok(resp.item)
            },
            None => Err(invalid_body_error()),
        },
        None => Err(invalid_body_error()),
    }
}

/// Whether `v` decodes into a reply carrying one list.
pub open spec fn list_item_decodable(v: JVal) -> bool {
    v.get("item"@) matches Some(item) && list_decodable(item)
}

/// Whether the list `l` reads the `item` member of `v`.
pub open spec fn list_item_decodes(v: JVal, l: List) -> bool {
    v.get("item"@) matches Some(item) && list_decodes(item, l)
}

/// Interprets a reply carrying one list.
pub fn list_item_response(status: u16, body: String, json: Option<JsonValue>) -> (r: Result<
    List,
    PlankaError,
>)
    ensures
        !is_2xx(status) ==> (r matches Err(e) && e matches PlankaError::Status(s, b) && s == status
            && b@ == body@),
        is_2xx(status) ==> match json {
            None => (r matches Err(e) && e matches PlankaError::Serde(m) && m@
                == "invalid response body"@),
            Some(v) => {
                if list_item_decodable(v.deep_view()) {
                    r matches Ok(l) && list_item_decodes(v.deep_view(), l)
                } else {
                    r matches Err(e) && e matches PlankaError::Serde(m) && m@
                        == "invalid response body"@
                }
            },
        },
{
    let v = match classify(status, body, json) {
        Ok(v) => v,
        Err(e) => {
            return Err(e);
        },
    };
    match v.get_member("item") {
        Some(item) => match list_from_json(item) {
            Some(l) => {
                let resp = ListResponse { item: l };
                Ok(resp.item)
            },
            None => Err(invalid_body_error()),
        },
        None => Err(invalid_body_error()),
    }
}

/// Interprets a reply whose body carries nothing of interest: only the
/// status decides.
pub fn delete_response(status: u16, body: String) -> (r: Result<(), PlankaError>)
    ensures
        !is_2xx(status) ==> (r matches Err(e) && e matches PlankaError::Status(s, b) && s == status
            && b@ == body@),
        is_2xx(status) ==> r is Ok,
{
    if !status_ok(status) {
        return Err(PlankaError::Status(status, body));
    }
    Ok(())
}

} // verus!
