//! Domain records of the kanban service: projects, boards, lists and
//! cards, with the decoders for the documents the service returns and the
//! document shapes used to display them.
//!
//! Records are value objects passed through: they are only ever built from
//! a remote reply, never constructed or mutated locally.

use vstd::prelude::*;

use crate::json::{jnum_of, jval_of, JVal, JsonNumber, JsonValue};

verus! {

broadcast use crate::json::group_json_model;

/// A project: the root container of boards.
pub struct Project {
    pub id: String,
    pub name: String,
    pub slug: Option<String>,
}

/// A board inside a project.
pub struct Board {
    pub id: String,
    pub name: String,
    pub position: Option<JsonNumber>,
}

/// A list (column) on a board.
pub struct List {
    pub id: String,
    pub name: String,
    pub position: Option<JsonNumber>,
    pub board_id: String,
}

/// A card inside a list.
pub struct Card {
    pub id: String,
    pub name: String,
    pub description: Option<String>,
    pub list_id: String,
    pub position: Option<JsonNumber>,
    pub board_id: Option<String>,
}

/// The type tag of a card.
pub enum CardType {
    Project,
    Story,
}

impl CardType {
    /// The wire name of the type tag.
    pub open spec fn spec_str(self) -> Seq<char> {
        match self {
            CardType::Project => "project"@,
            CardType::Story => "story"@,
        }
    }

    /// The wire name of the type tag.
    pub fn as_str(&self) -> (r: &'static str)
        ensures
            r@ == self.spec_str(),
    {
        match self {
            CardType::Project => "project",
            CardType::Story => "story",
        }
    }
}

/// A card's time-tracking stopwatch: when it was started, if running, and
/// the seconds accumulated so far.
pub struct Stopwatch {
    pub started_at: Option<String>,
    pub total: i64,
}

/// Everything a new card can carry.
pub struct CreateCardOptions {
    pub list_id: String,
    pub card_type: CardType,
    pub name: String,
    pub description: Option<String>,
    pub due_date: Option<String>,
    pub is_due_completed: Option<bool>,
    pub stopwatch: Option<Stopwatch>,
}

/// The fields a card update may set; a field left `None` stays unchanged.
pub struct UpdateCardOptions {
    pub name: Option<String>,
    pub description: Option<String>,
    pub card_type: Option<CardType>,
    pub due_date: Option<String>,
    pub is_due_completed: Option<bool>,
    pub board_id: Option<String>,
    pub cover_attachment_id: Option<String>,
}

/// Copies a number, keeping its value.
pub fn dup_num(n: &JsonNumber) -> (r: JsonNumber)
    ensures
        jnum_of(r) == jnum_of(*n),
{
    match n {
        JsonNumber::Int(i) => JsonNumber::Int(*i),
        JsonNumber::Dec(s) => JsonNumber::Dec(s.clone()),
    }
}

/// Whether the member `key` of `v` may feed an optional string field:
/// absent, `null`, or a string.
pub open spec fn opt_str_ok(v: JVal, key: Seq<char>) -> bool {
    match v.get(key) {
        None => true,
        Some(x) => x is Str || x is Null,
    }
}

/// Whether the decoded optional string `o` reads the member `key` of `v`.
pub open spec fn opt_str_reads(v: JVal, key: Seq<char>, o: Option<String>) -> bool {
    match o {
        Some(s) => v.get(key) == Some(JVal::Str(s@)),
        None => v.get(key) is None || v.get(key) == Some(JVal::Null),
    }
}

/// Reads an optional string member.
pub fn opt_str_member(v: &JsonValue, key: &str) -> (r: Result<Option<String>, ()>)
    ensures
        match r {
            Ok(o) => opt_str_reads(v.deep_view(), key@, o),
            Err(_) => true,
        },
        r is Ok <==> opt_str_ok(v.deep_view(), key@),
{
    match v.get_member(key) {
        None => Ok(None),
        Some(JsonValue::Null) => Ok(None),
        Some(JsonValue::Str(s)) => Ok(Some(s.clone())),
        Some(_) => Err(()),
    }
}

/// Whether the member `key` of `v` may feed an optional number field.
pub open spec fn opt_num_ok(v: JVal, key: Seq<char>) -> bool {
    match v.get(key) {
        None => true,
        Some(x) => x is Int || x is Dec || x is Null,
    }
}

/// Whether the decoded optional number `o` reads the member `key` of `v`.
pub open spec fn opt_num_reads(v: JVal, key: Seq<char>, o: Option<JsonNumber>) -> bool {
    match o {
        Some(n) => v.get(key) == Some(jnum_of(n)),
        None => v.get(key) is None || v.get(key) == Some(JVal::Null),
    }
}

/// Reads an optional number member.
pub fn opt_num_member(v: &JsonValue, key: &str) -> (r: Result<Option<JsonNumber>, ()>)
    ensures
        match r {
            Ok(o) => opt_num_reads(v.deep_view(), key@, o),
            Err(_) => true,
        },
        r is Ok <==> opt_num_ok(v.deep_view(), key@),
{
    match v.get_member(key) {
        None => Ok(None),
        Some(JsonValue::Null) => Ok(None),
        Some(JsonValue::Num(n)) => Ok(Some(dup_num(n))),
        Some(_) => Err(()),
    }
}

/// Whether the member `key` of `v` may feed an optional boolean field.
pub open spec fn opt_bool_ok(v: JVal, key: Seq<char>) -> bool {
    match v.get(key) {
        None => true,
        Some(x) => x is Bool || x is Null,
    }
}

/// Whether the decoded optional boolean `o` reads the member `key` of `v`.
pub open spec fn opt_bool_reads(v: JVal, key: Seq<char>, o: Option<bool>) -> bool {
    match o {
        Some(b) => v.get(key) == Some(JVal::Bool(b)),
        None => v.get(key) is None || v.get(key) == Some(JVal::Null),
    }
}

/// Reads an optional boolean member.
pub fn opt_bool_member(v: &JsonValue, key: &str) -> (r: Result<Option<bool>, ()>)
    ensures
        match r {
            Ok(o) => opt_bool_reads(v.deep_view(), key@, o),
            Err(_) => true,
        },
        r is Ok <==> opt_bool_ok(v.deep_view(), key@),
{
    match v.get_member(key) {
        None => Ok(None),
        Some(JsonValue::Null) => Ok(None),
        Some(JsonValue::Bool(b)) => Ok(Some(*b)),
        Some(_) => Err(()),
    }
}

/// Whether the member `key` of `v` is a string, as a required field needs.
pub open spec fn req_str_ok(v: JVal, key: Seq<char>) -> bool {
    v.get(key) matches Some(x) && x is Str
}

/// Reads a required string member.
pub fn req_str_member(v: &JsonValue, key: &str) -> (r: Result<String, ()>)
    ensures
        match r {
            Ok(s) => v.deep_view().get(key@) == Some(JVal::Str(s@)),
            Err(_) => true,
        },
        r is Ok <==> req_str_ok(v.deep_view(), key@),
{
    match v.get_str_member(key) {
        Some(s) => Ok(s.clone()),
        None => Err(()),
    }
}

/// Whether `v` decodes into a project record.
pub open spec fn project_decodable(v: JVal) -> bool {
    &&& req_str_ok(v, "id"@)
    &&& req_str_ok(v, "name"@)
    &&& opt_str_ok(v, "slug"@)
}

/// Whether the project record `p` reads the document `v`.
pub open spec fn project_decodes(v: JVal, p: Project) -> bool {
    &&& v.get("id"@) == Some(JVal::Str(p.id@))
    &&& v.get("name"@) == Some(JVal::Str(p.name@))
    &&& opt_str_reads(v, "slug"@, p.slug)
}

/// Decodes a project record.
pub fn project_from_json(v: &JsonValue) -> (r: Option<Project>)
    ensures
        r is Some <==> project_decodable(v.deep_view()),
        match r {
            Some(p) => project_decodes(v.deep_view(), p),
            None => true,
        },
{
    let id = match req_str_member(v, "id") {
        Ok(s) => s,
        Err(_) => {
            return None;
        },
    };
    let name = match req_str_member(v, "name") {
        Ok(s) => s,
        Err(_) => {
            return None;
        },
    };
    let slug = match opt_str_member(v, "slug") {
        Ok(o) => o,
        Err(_) => {
            return None;
        },
    };
    Some(Project { id, name, slug })
}

/// Whether `v` decodes into a board record.
pub open spec fn board_decodable(v: JVal) -> bool {
    &&& req_str_ok(v, "id"@)
    &&& req_str_ok(v, "name"@)
    &&& opt_num_ok(v, "position"@)
}

/// Whether the board record `b` reads the document `v`.
pub open spec fn board_decodes(v: JVal, b: Board) -> bool {
    &&& v.get("id"@) == Some(JVal::Str(b.id@))
    &&& v.get("name"@) == Some(JVal::Str(b.name@))
    &&& opt_num_reads(v, "position"@, b.position)
}

/// Decodes a board record.
pub fn board_from_json(v: &JsonValue) -> (r: Option<Board>)
    ensures
        r is Some <==> board_decodable(v.deep_view()),
        match r {
            Some(b) => board_decodes(v.deep_view(), b),
            None => true,
        },
{
    let id = match req_str_member(v, "id") {
        Ok(s) => s,
        Err(_) => {
            return None;
        },
    };
    let name = match req_str_member(v, "name") {
        Ok(s) => s,
        Err(_) => {
            return None;
        },
    };
    let position = match opt_num_member(v, "position") {
        Ok(o) => o,
        Err(_) => {
            return None;
        },
    };
    Some(Board { id, name, position })
}

/// Whether `v` decodes into a list record.
pub open spec fn list_decodable(v: JVal) -> bool {
    &&& req_str_ok(v, "id"@)
    &&& req_str_ok(v, "name"@)
    &&& opt_num_ok(v, "position"@)
    &&& req_str_ok(v, "boardId"@)
}

/// Whether the list record `l` reads the document `v`.
pub open spec fn list_decodes(v: JVal, l: List) -> bool {
    &&& v.get("id"@) == Some(JVal::Str(l.id@))
    &&& v.get("name"@) == Some(JVal::Str(l.name@))
    &&& opt_num_reads(v, "position"@, l.position)
    &&& v.get("boardId"@) == Some(JVal::Str(l.board_id@))
}

/// Decodes a list record.
pub fn list_from_json(v: &JsonValue) -> (r: Option<List>)
    ensures
        r is Some <==> list_decodable(v.deep_view()),
        match r {
            Some(l) => list_decodes(v.deep_view(), l),
            None => true,
        },
{
    let id = match req_str_member(v, "id") {
        Ok(s) => s,
        Err(_) => {
            return None;
        },
    };
    let name = match req_str_member(v, "name") {
        Ok(s) => s,
        Err(_) => {
            return None;
        },
    };
    let position = match opt_num_member(v, "position") {
        Ok(o) => o,
        Err(_) => {
            return None;
        },
    };
    let board_id = match req_str_member(v, "boardId") {
        Ok(s) => s,
        Err(_) => {
            return None;
        },
    };
    Some(List { id, name, position, board_id })
}

/// Whether `v` decodes into a card record.
pub open spec fn card_decodable(v: JVal) -> bool {
    &&& req_str_ok(v, "id"@)
    &&& req_str_ok(v, "name"@)
    &&& opt_str_ok(v, "description"@)
    &&& req_str_ok(v, "listId"@)
    &&& opt_num_ok(v, "position"@)
    &&& opt_str_ok(v, "boardId"@)
}

/// Whether the card record `c` reads the document `v`.
pub open spec fn card_decodes(v: JVal, c: Card) -> bool {
    &&& v.get("id"@) == Some(JVal::Str(c.id@))
    &&& v.get("name"@) == Some(JVal::Str(c.name@))
    &&& opt_str_reads(v, "description"@, c.description)
    &&& v.get("listId"@) == Some(JVal::Str(c.list_id@))
    &&& opt_num_reads(v, "position"@, c.position)
    &&& opt_str_reads(v, "boardId"@, c.board_id)
}

/// Decodes a card record.
pub fn card_from_json(v: &JsonValue) -> (r: Option<Card>)
    ensures
        r is Some <==> card_decodable(v.deep_view()),
        match r {
            Some(c) => card_decodes(v.deep_view(), c),
            None => true,
        },
{
    let id = match req_str_member(v, "id") {
        Ok(s) => s,
        Err(_) => {
            return None;
        },
    };
    let name = match req_str_member(v, "name") {
        Ok(s) => s,
        Err(_) => {
            return None;
        },
    };
    let description = match opt_str_member(v, "description") {
        Ok(o) => o,
        Err(_) => {
            return None;
        },
    };
    let list_id = match req_str_member(v, "listId") {
        Ok(s) => s,
        Err(_) => {
            return None;
        },
    };
    let position = match opt_num_member(v, "position") {
        Ok(o) => o,
        Err(_) => {
            return None;
        },
    };
    let board_id = match opt_str_member(v, "boardId") {
        Ok(o) => o,
        Err(_) => {
            return None;
        },
    };
    Some(Card { id, name, description, list_id, position, board_id })
}

/// The document member for an optional string: the string, or `null`.
pub open spec fn spec_opt_str_json(o: Option<String>) -> JVal {
    match o {
        Some(s) => JVal::Str(s@),
        None => JVal::Null,
    }
}

/// The document member for an optional number: the number, or `null`.
pub open spec fn spec_opt_num_json(o: Option<JsonNumber>) -> JVal {
    match o {
        Some(n) => jnum_of(n),
        None => JVal::Null,
    }
}

/// Builds the document member for an optional string.
fn opt_str_json(o: Option<String>) -> (r: JsonValue)
    ensures
        r.deep_view() == spec_opt_str_json(o),
{
    match o {
        Some(s) => JsonValue::Str(s),
        None => JsonValue::Null,
    }
}

/// Builds the document member for an optional number.
fn opt_num_json(o: Option<JsonNumber>) -> (r: JsonValue)
    ensures
        r.deep_view() == spec_opt_num_json(o),
{
    match o {
        Some(n) => JsonValue::Num(n),
        None => JsonValue::Null,
    }
}

/// The document shape a project record is displayed with.
pub open spec fn spec_project_json(p: Project) -> JVal {
    JVal::Obj(
        seq![
            ("id"@, JVal::Str(p.id@)),
            ("name"@, JVal::Str(p.name@)),
            ("slug"@, spec_opt_str_json(p.slug)),
        ],
    )
}

/// Builds the display document of a project record.
pub fn project_to_json(p: Project) -> (r: JsonValue)
    ensures
        r.deep_view() == spec_project_json(p),
{
    let ghost gp = p;
    let Project { id, name, slug } = p;
    let mut members: Vec<(String, JsonValue)> = Vec::new();
    members.push(("id".to_owned(), JsonValue::Str(id)));
    members.push(("name".to_owned(), JsonValue::Str(name)));
    members.push(("slug".to_owned(), opt_str_json(slug)));
    let r = JsonValue::Obj(members);
    proof {
        assert(r.deep_view()->Obj_0 =~= spec_project_json(gp)->Obj_0);
    }
    r
}

/// The document shape a board record is displayed with.
pub open spec fn spec_board_json(b: Board) -> JVal {
    JVal::Obj(
        seq![
            ("id"@, JVal::Str(b.id@)),
            ("name"@, JVal::Str(b.name@)),
            ("position"@, spec_opt_num_json(b.position)),
        ],
    )
}

/// Builds the display document of a board record.
pub fn board_to_json(b: Board) -> (r: JsonValue)
    ensures
        r.deep_view() == spec_board_json(b),
{
    let ghost gb = b;
    let Board { id, name, position } = b;
    let mut members: Vec<(String, JsonValue)> = Vec::new();
    members.push(("id".to_owned(), JsonValue::Str(id)));
    members.push(("name".to_owned(), JsonValue::Str(name)));
    members.push(("position".to_owned(), opt_num_json(position)));
    let r = JsonValue::Obj(members);
    proof {
        assert(r.deep_view()->Obj_0 =~= spec_board_json(gb)->Obj_0);
    }
    r
}

/// The document shape a list record is displayed with.
pub open spec fn spec_list_json(l: List) -> JVal {
    JVal::Obj(
        seq![
            ("id"@, JVal::Str(l.id@)),
            ("name"@, JVal::Str(l.name@)),
            ("position"@, spec_opt_num_json(l.position)),
            ("boardId"@, JVal::Str(l.board_id@)),
        ],
    )
}

/// Builds the display document of a list record.
pub fn list_to_json(l: List) -> (r: JsonValue)
    ensures
        r.deep_view() == spec_list_json(l),
{
    let ghost gl = l;
    let List { id, name, position, board_id } = l;
    let mut members: Vec<(String, JsonValue)> = Vec::new();
    members.push(("id".to_owned(), JsonValue::Str(id)));
    members.push(("name".to_owned(), JsonValue::Str(name)));
    members.push(("position".to_owned(), opt_num_json(position)));
    members.push(("boardId".to_owned(), JsonValue::Str(board_id)));
    let r = JsonValue::Obj(members);
    proof {
        assert(r.deep_view()->Obj_0 =~= spec_list_json(gl)->Obj_0);
    }
    r
}

/// The document shape a card record is displayed with.
pub open spec fn spec_card_json(c: Card) -> JVal {
    JVal::Obj(
        seq![
            ("id"@, JVal::Str(c.id@)),
            ("name"@, JVal::Str(c.name@)),
            ("description"@, spec_opt_str_json(c.description)),
            ("listId"@, JVal::Str(c.list_id@)),
            ("position"@, spec_opt_num_json(c.position)),
            ("boardId"@, spec_opt_str_json(c.board_id)),
        ],
    )
}

/// Builds the display document of a card record.
pub fn card_to_json(c: Card) -> (r: JsonValue)
    ensures
        r.deep_view() == spec_card_json(c),
{
    let ghost gc = c;
    let Card { id, name, description, list_id, position, board_id } = c;
    let mut members: Vec<(String, JsonValue)> = Vec::new();
    members.push(("id".to_owned(), JsonValue::Str(id)));
    members.push(("name".to_owned(), JsonValue::Str(name)));
    members.push(("description".to_owned(), opt_str_json(description)));
    members.push(("listId".to_owned(), JsonValue::Str(list_id)));
    members.push(("position".to_owned(), opt_num_json(position)));
    members.push(("boardId".to_owned(), opt_str_json(board_id)));
    let r = JsonValue::Obj(members);
    proof {
        assert(r.deep_view()->Obj_0 =~= spec_card_json(gc)->Obj_0);
    }
    r
}

/// The document shape of a sequence of projects.
pub open spec fn spec_projects_json(ps: Seq<Project>) -> JVal {
    JVal::Arr(Seq::new(ps.len(), |i: int| spec_project_json(ps[i])))
}

/// Builds the display document of a sequence of projects.
pub fn projects_to_json(ps: Vec<Project>) -> (r: JsonValue)
    ensures
        r.deep_view() == spec_projects_json(ps@),
{
    let ghost gps = ps@;
    let mut items: Vec<JsonValue> = Vec::new();
    let n = ps.len();
    let mut rest = ps;
    let mut i: usize = 0;
    #[verifier::loop_isolation(false)]
    while i < n
        invariant
            0 <= i <= n,
            rest@ == gps.skip(i as int),
            items@.len() == i,
            forall|k: int| 0 <= k < i ==> items@[k].deep_view() == spec_project_json(gps[k]),
        decreases n - i,
    {
        let p = rest.remove(0);
        proof {
            assert(p == gps[i as int]);
            assert(gps.skip(i as int).drop_first() =~= gps.skip(i as int + 1));
        }
        items.push(project_to_json(p));
        i += 1;
    }
    let r = JsonValue::Arr(items);
    proof {
        assert(r.deep_view()->Arr_0 =~= spec_projects_json(gps)->Arr_0);
    }
    r
}

/// The document shape of a sequence of boards.
pub open spec fn spec_boards_json(bs: Seq<Board>) -> JVal {
    JVal::Arr(Seq::new(bs.len(), |i: int| spec_board_json(bs[i])))
}

/// Builds the display document of a sequence of boards.
pub fn boards_to_json(bs: Vec<Board>) -> (r: JsonValue)
    ensures
        r.deep_view() == spec_boards_json(bs@),
{
    let ghost gbs = bs@;
    let mut items: Vec<JsonValue> = Vec::new();
    let n = bs.len();
    let mut rest = bs;
    let mut i: usize = 0;
    #[verifier::loop_isolation(false)]
    while i < n
        invariant
            0 <= i <= n,
            rest@ == gbs.skip(i as int),
            items@.len() == i,
            forall|k: int| 0 <= k < i ==> items@[k].deep_view() == spec_board_json(gbs[k]),
        decreases n - i,
    {
        let b = rest.remove(0);
        proof {
            assert(b == gbs[i as int]);
            assert(gbs.skip(i as int).drop_first() =~= gbs.skip(i as int + 1));
        }
        items.push(board_to_json(b));
        i += 1;
    }
    let r = JsonValue::Arr(items);
    proof {
        assert(r.deep_view()->Arr_0 =~= spec_boards_json(gbs)->Arr_0);
    }
    r
}

/// The document shape of a sequence of lists.
pub open spec fn spec_lists_json(ls: Seq<List>) -> JVal {
    JVal::Arr(Seq::new(ls.len(), |i: int| spec_list_json(ls[i])))
}

/// Builds the display document of a sequence of lists.
pub fn lists_to_json(ls: Vec<List>) -> (r: JsonValue)
    ensures
        r.deep_view() == spec_lists_json(ls@),
{
    let ghost gls = ls@;
    let mut items: Vec<JsonValue> = Vec::new();
    let n = ls.len();
    let mut rest = ls;
    let mut i: usize = 0;
    #[verifier::loop_isolation(false)]
    while i < n
        invariant
            0 <= i <= n,
            rest@ == gls.skip(i as int),
            items@.len() == i,
            forall|k: int| 0 <= k < i ==> items@[k].deep_view() == spec_list_json(gls[k]),
        decreases n - i,
    {
        let l = rest.remove(0);
        proof {
            assert(l == gls[i as int]);
            assert(gls.skip(i as int).drop_first() =~= gls.skip(i as int + 1));
        }
        items.push(list_to_json(l));
        i += 1;
    }
    let r = JsonValue::Arr(items);
    proof {
        assert(r.deep_view()->Arr_0 =~= spec_lists_json(gls)->Arr_0);
    }
    r
}

/// The document shape of a sequence of cards.
pub open spec fn spec_cards_json(cs: Seq<Card>) -> JVal {
    JVal::Arr(Seq::new(cs.len(), |i: int| spec_card_json(cs[i])))
}

/// Builds the display document of a sequence of cards.
pub fn cards_to_json(cs: Vec<Card>) -> (r: JsonValue)
    ensures
        r.deep_view() == spec_cards_json(cs@),
{
    let ghost gcs = cs@;
    let mut items: Vec<JsonValue> = Vec::new();
    let n = cs.len();
    let mut rest = cs;
    let mut i: usize = 0;
    #[verifier::loop_isolation(false)]
    while i < n
        invariant
            0 <= i <= n,
            rest@ == gcs.skip(i as int),
            items@.len() == i,
            forall|k: int| 0 <= k < i ==> items@[k].deep_view() == spec_card_json(gcs[k]),
        decreases n - i,
    {
        let c = rest.remove(0);
        proof {
            assert(c == gcs[i as int]);
            assert(gcs.skip(i as int).drop_first() =~= gcs.skip(i as int + 1));
        }
        items.push(card_to_json(c));
        i += 1;
    }
    let r = JsonValue::Arr(items);
    proof {
        assert(r.deep_view()->Arr_0 =~= spec_cards_json(gcs)->Arr_0);
    }
    r
}

} // verus!
