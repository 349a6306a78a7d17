//! A model of JSON documents.
//!
//! `JsonValue` is the executable representation; `JVal` is its mathematical
//! counterpart, reached through `deep_view`.  Numbers are either exact
//! integers or the raw decimal text of a non-integer literal, so the model
//! never holds a floating-point value.

use vstd::prelude::*;

verus! {

/// A JSON number: an exact integer, or the raw text of a non-integer
/// decimal literal (kept verbatim so values round-trip unchanged).
pub enum JsonNumber {
    Int(i64),
    Dec(String),
}

/// An executable JSON document.
pub enum JsonValue {
    Null,
    Bool(bool),
    Num(JsonNumber),
    Str(String),
    Arr(Vec<JsonValue>),
    Obj(Vec<(String, JsonValue)>),
}

/// The mathematical shape of a JSON document.
pub enum JVal {
    Null,
    Bool(bool),
    Int(int),
    Dec(Seq<char>),
    Str(Seq<char>),
    Arr(Seq<JVal>),
    Obj(Seq<(Seq<char>, JVal)>),
}

/// The mathematical value of a number.
pub open spec fn jnum_of(n: JsonNumber) -> JVal {
    match n {
        JsonNumber::Int(i) => JVal::Int(i as int),
        JsonNumber::Dec(s) => JVal::Dec(s@),
    }
}

impl DeepView for JsonNumber {
    type V = JVal;

    open spec fn deep_view(&self) -> JVal {
        jnum_of(*self)
    }
}

/// The mathematical value of a document.
pub open spec fn jval_of(v: JsonValue) -> JVal
    decreases v,
{
    match v {
        JsonValue::Null => JVal::Null,
        JsonValue::Bool(b) => JVal::Bool(b),
        JsonValue::Num(n) => jnum_of(n),
        JsonValue::Str(s) => JVal::Str(s@),
        JsonValue::Arr(items) => JVal::Arr(
            Seq::new(
                items@.len(),
                |i: int|
                    if 0 <= i < items@.len() {
                        jval_of(items@[i])
                    } else {
                        JVal::Null
                    },
            ),
        ),
        JsonValue::Obj(members) => JVal::Obj(
            Seq::new(
                members@.len(),
                |i: int|
                    if 0 <= i < members@.len() {
                        (members@[i].0@, jval_of(members@[i].1))
                    } else {
                        (Seq::empty(), JVal::Null)
                    },
            ),
        ),
    }
}

impl DeepView for JsonValue {
    type V = JVal;

    open spec fn deep_view(&self) -> JVal {
        jval_of(*self)
    }
}

/// An array value holds one element view per element.
pub broadcast proof fn lemma_arr_el(items: Vec<JsonValue>, i: int)
    requires
        0 <= i < items@.len(),
    ensures
        (#[trigger] jval_of(JsonValue::Arr(items))->Arr_0[i]) == jval_of(items@[i]),
{
}

/// An array value has one element view per element.
pub broadcast proof fn lemma_arr_len(items: Vec<JsonValue>)
    ensures
        (#[trigger] jval_of(JsonValue::Arr(items))->Arr_0).len() == items@.len(),
{
}

/// An object value holds one member view per member.
pub broadcast proof fn lemma_obj_el(members: Vec<(String, JsonValue)>, i: int)
    requires
        0 <= i < members@.len(),
    ensures
        (#[trigger] jval_of(JsonValue::Obj(members))->Obj_0[i]) == (
            members@[i].0@,
            jval_of(members@[i].1),
        ),
{
}

/// An object value has one member view per member.
pub broadcast proof fn lemma_obj_len(members: Vec<(String, JsonValue)>)
    ensures
        (#[trigger] jval_of(JsonValue::Obj(members))->Obj_0).len() == members@.len(),
{
}

/// The pointwise description of array and object views.
pub broadcast group group_json_model {
    lemma_arr_el,
    lemma_arr_len,
    lemma_obj_el,
    lemma_obj_len,
}

/// Characters that may stand in the raw text of a number literal.
pub open spec fn number_char(c: char) -> bool {
    ||| c == '0' || c == '1' || c == '2' || c == '3' || c == '4'
    ||| c == '5' || c == '6' || c == '7' || c == '8' || c == '9'
    ||| c == '+' || c == '-' || c == '.' || c == 'e' || c == 'E'
}

/// Whether `s` is shaped like a number literal: nonempty, and made of
/// number characters only.
pub open spec fn number_text_wf(s: Seq<char>) -> bool {
    s.len() > 0 && forall|i: int| 0 <= i < s.len() ==> number_char(s[i])
}

impl JVal {
    /// Well-formedness of a document: every number kept as raw text is
    /// shaped like a number literal.  Parsed input satisfies this by
    /// construction; rendering a well-formed document yields valid JSON.
    pub open spec fn wf(self) -> bool
        decreases self, 0int,
    {
        match self {
            JVal::Dec(s) => number_text_wf(s),
            JVal::Arr(items) => wf_seq(items, items.len() as int),
            JVal::Obj(members) => wf_members(members, members.len() as int),
            _ => true,
        }
    }
}

/// Whether the first `n` documents are well-formed.
pub open spec fn wf_seq(items: Seq<JVal>, n: int) -> bool
    decreases items, n,
{
    if n <= 0 || n > items.len() {
        true
    } else {
        wf_seq(items, n - 1) && items[n - 1].wf()
    }
}

/// Whether the values of the first `n` members are well-formed.
pub open spec fn wf_members(members: Seq<(Seq<char>, JVal)>, n: int) -> bool
    decreases members, n,
{
    if n <= 0 || n > members.len() {
        true
    } else {
        wf_members(members, n - 1) && members[n - 1].1.wf()
    }
}

/// Well-formedness of the first `n` documents is their pointwise
/// well-formedness.
pub proof fn lemma_wf_seq(items: Seq<JVal>, n: int)
    requires
        0 <= n <= items.len(),
    ensures
        wf_seq(items, n) <==> (forall|i: int| 0 <= i < n ==> #[trigger] items[i].wf()),
    decreases n,
{
    if n > 0 {
        lemma_wf_seq(items, n - 1);
        if wf_seq(items, n) {
            assert forall|i: int| 0 <= i < n implies #[trigger] items[i].wf() by {
                if i == n - 1 {
                    assert(items[n - 1].wf());
                }
            }
        }
        if forall|i: int| 0 <= i < n ==> #[trigger] items[i].wf() {
            assert(items[n - 1].wf());
            assert(forall|i: int| 0 <= i < n - 1 ==> #[trigger] items[i].wf());
        }
    }
}

/// Well-formedness of the first `n` members is their pointwise
/// well-formedness.
pub proof fn lemma_wf_members(members: Seq<(Seq<char>, JVal)>, n: int)
    requires
        0 <= n <= members.len(),
    ensures
        wf_members(members, n) <==> (forall|i: int| 0 <= i < n ==> #[trigger] members[i].1.wf()),
    decreases n,
{
    if n > 0 {
        lemma_wf_members(members, n - 1);
        if wf_members(members, n) {
            assert forall|i: int| 0 <= i < n implies #[trigger] members[i].1.wf() by {
                if i == n - 1 {
                    assert(members[n - 1].1.wf());
                }
            }
        }
        if forall|i: int| 0 <= i < n ==> #[trigger] members[i].1.wf() {
            assert(members[n - 1].1.wf());
            assert(forall|i: int| 0 <= i < n - 1 ==> #[trigger] members[i].1.wf());
        }
    }
}

/// Tests one character of a number literal.
fn is_number_char(c: char) -> (r: bool)
    ensures
        r == number_char(c),
{
    c == '0' || c == '1' || c == '2' || c == '3' || c == '4' || c == '5' || c == '6' || c == '7'
        || c == '8' || c == '9' || c == '+' || c == '-' || c == '.' || c == 'e' || c == 'E'
}

/// Tests whether a string is shaped like a number literal.
pub fn check_number_text(s: &str) -> (r: bool)
    ensures
        r == number_text_wf(s@),
{
    let n = s.unicode_len();
    if n == 0 {
        return false;
    }
    let mut i: usize = 0;
    #[verifier::loop_isolation(false)]
    while i < n
        invariant
            0 <= i <= n,
            forall|k: int| 0 <= k < i ==> number_char(s@[k]),
        decreases n - i,
    {
        if !is_number_char(s.get_char(i)) {
            return false;
        }
        i += 1;
    }
    true
}

/// The first member of `members` named `key`, if any.  Members are kept in
/// insertion order and looked up by their first occurrence.
pub open spec fn lookup(members: Seq<(Seq<char>, JVal)>, key: Seq<char>) -> Option<JVal>
    decreases members.len(),
{
    if members.len() == 0 {
        None
    } else if members[0].0 == key {
        Some(members[0].1)
    } else {
        lookup(members.drop_first(), key)
    }
}

impl JVal {
    /// The member named `key` of an object value; `None` for a missing
    /// member or a non-object value.
    pub open spec fn get(self, key: Seq<char>) -> Option<JVal> {
        match self {
            JVal::Obj(members) => lookup(members, key),
            _ => None,
        }
    }
}

/// Compares two string slices by their character sequences.
pub fn str_eq(a: &str, b: &str) -> (r: bool)
    ensures
        r == (a@ == b@),
{
    let owned_a = a.to_owned();
    let owned_b = b.to_owned();
    owned_a == owned_b
}

/// A lookup restricted to the tail of `members` starting at `i`.
pub open spec fn lookup_from(members: Seq<(Seq<char>, JVal)>, key: Seq<char>, i: int) -> Option<
    JVal,
>
    recommends
        0 <= i <= members.len(),
{
    lookup(members.subrange(i, members.len() as int), key)
}

proof fn lemma_lookup_from_unfold(members: Seq<(Seq<char>, JVal)>, key: Seq<char>, i: int)
    requires
        0 <= i < members.len(),
    ensures
        members[i].0 == key ==> lookup_from(members, key, i) == Some(members[i].1),
        members[i].0 != key ==> lookup_from(members, key, i) == lookup_from(members, key, i + 1),
{
    let tail = members.subrange(i, members.len() as int);
    assert(tail[0] == members[i]);
    if members[i].0 != key {
        assert(tail.drop_first() =~= members.subrange(i + 1, members.len() as int));
    }
}

impl JsonValue {
    /// Looks a member up in an object value, borrowing it.
    pub fn get_member<'a>(&'a self, key: &str) -> (r: Option<&'a JsonValue>)
        ensures
            match r {
                Some(v) => self.deep_view().get(key@) == Some(v.deep_view()),
                None => self.deep_view().get(key@) is None,
            },
    {
        match self {
            JsonValue::Obj(members) => {
                let ghost gmembers = self.deep_view()->Obj_0;
                let n = members.len();
                proof {
                    assert(gmembers.len() == members@.len());
                    assert(gmembers.subrange(0, gmembers.len() as int) =~= gmembers);
                }
                let mut i: usize = 0;
                #[verifier::loop_isolation(false)]
                while i < n
                    invariant
                        0 <= i <= n,
                        lookup(gmembers, key@) == lookup_from(gmembers, key@, i as int),
                    decreases n - i,
                {
                    proof {
                        lemma_lookup_from_unfold(gmembers, key@, i as int);
                    }
                    if str_eq(members[i].0.as_str(), key) {
                        return Some(&members[i].1);
                    }
                    i += 1;
                }
                proof {
                    assert(gmembers.len() == members@.len());
                    assert(gmembers.subrange(n as int, n as int) =~= Seq::empty());
                }
                None
            },
            _ => None,
        }
    }

    /// Whether this document is an object.
    pub fn is_obj(&self) -> (r: bool)
        ensures
            r == (self.deep_view() is Obj),
    {
        match self {
            JsonValue::Obj(_) => true,
            _ => false,
        }
    }

    /// Looks a string member up in an object value.
    pub fn get_str_member<'a>(&'a self, key: &str) -> (r: Option<&'a String>)
        ensures
            match r {
                Some(s) => self.deep_view().get(key@) == Some(JVal::Str(s@)),
                None => match self.deep_view().get(key@) {
                    Some(v) => !(v is Str),
                    None => true,
                },
            },
    {
        match self.get_member(key) {
            Some(JsonValue::Str(s)) => Some(s),
            _ => None,
        }
    }

    /// Tests well-formedness: that every raw number text in the document
    /// is shaped like a number literal.
    pub fn check_wf(&self) -> (r: bool)
        ensures
            r == self.deep_view().wf(),
        decreases self,
    {
        broadcast use group_json_model;

        match self {
            JsonValue::Null => true,
            JsonValue::Bool(_) => true,
            JsonValue::Num(JsonNumber::Int(_)) => true,
            JsonValue::Num(JsonNumber::Dec(s)) => check_number_text(s.as_str()),
            JsonValue::Str(_) => true,
            JsonValue::Arr(items) => {
                let n = items.len();
                let mut i: usize = 0;
                #[verifier::loop_isolation(false)]
                while i < n
                    invariant
                        0 <= i <= n,
                        forall|k: int| 0 <= k < i ==> jval_of(items@[k]).wf(),
                    decreases n - i,
                {
                    proof {
                        assert(decreases_to!(*self => (*self)->Arr_0));
                        assert((*self)->Arr_0 == *items);
                        assert(decreases_to!(*items => items@));
                        assert(decreases_to!(items@ => items@[i as int]));
                    }
                    if !items[i].check_wf() {
                        proof {
                            let g = self.deep_view()->Arr_0;
                            lemma_wf_seq(g, g.len() as int);
                            assert(g[i as int] == jval_of(items@[i as int]));
                        }
                        return false;
                    }
                    i += 1;
                }
                proof {
                    let g = self.deep_view()->Arr_0;
                    lemma_wf_seq(g, g.len() as int);
                    assert forall|k: int| 0 <= k < g.len() implies #[trigger] g[k].wf() by {
                        assert(g[k] == jval_of(items@[k]));
                    }
                }
                true
            },
            JsonValue::Obj(members) => {
                let n = members.len();
                let mut i: usize = 0;
                #[verifier::loop_isolation(false)]
                while i < n
                    invariant
                        0 <= i <= n,
                        forall|k: int| 0 <= k < i ==> jval_of(members@[k].1).wf(),
                    decreases n - i,
                {
                    proof {
                        assert(decreases_to!(*self => (*self)->Obj_0));
                        assert((*self)->Obj_0 == *members);
                        assert(decreases_to!(*members => members@));
                        assert(decreases_to!(members@ => members@[i as int]));
                        assert(decreases_to!(members@[i as int] => members@[i as int].1));
                    }
                    if !members[i].1.check_wf() {
                        proof {
                            let g = self.deep_view()->Obj_0;
                            lemma_wf_members(g, g.len() as int);
                            assert(g[i as int].1 == jval_of(members@[i as int].1));
                        }
                        return false;
                    }
                    i += 1;
                }
                proof {
                    let g = self.deep_view()->Obj_0;
                    lemma_wf_members(g, g.len() as int);
                    assert forall|k: int| 0 <= k < g.len() implies #[trigger] g[k].1.wf() by {
                        assert(g[k] == (members@[k].0@, jval_of(members@[k].1)));
                    }
                }
                true
            },
        }
    }

    /// Copies a document.
    pub fn duplicate(&self) -> (r: JsonValue)
        ensures
            r.deep_view() == self.deep_view(),
        decreases self,
    {
        match self {
            JsonValue::Null => JsonValue::Null,
            JsonValue::Bool(b) => JsonValue::Bool(*b),
            JsonValue::Num(JsonNumber::Int(i)) => JsonValue::Num(JsonNumber::Int(*i)),
            JsonValue::Num(JsonNumber::Dec(s)) => JsonValue::Num(JsonNumber::Dec(s.clone())),
            JsonValue::Str(s) => JsonValue::Str(s.clone()),
            JsonValue::Arr(items) => {
                let n = items.len();
                let mut out: Vec<JsonValue> = Vec::new();
                let mut i: usize = 0;
                #[verifier::loop_isolation(false)]
                while i < n
                    invariant
                        n == items.len(),
                        0 <= i <= n,
                        out@.len() == i,
                        forall|k: int|
                            0 <= k < i ==> out@[k].deep_view() == items@[k].deep_view(),
                    decreases n - i,
                {
                    proof {
                        assert(decreases_to!(*self => (*self)->Arr_0));
                        assert((*self)->Arr_0 == *items);
                        assert(decreases_to!(*items => items@));
                        assert(decreases_to!(items@ => items@[i as int]));
                    }
                    let copied = items[i].duplicate();
                    out.push(copied);
                    i += 1;
                }
                let result = JsonValue::Arr(out);
                proof {
                    assert(result.deep_view()->Arr_0 =~= self.deep_view()->Arr_0);
                }
                result
            },
            JsonValue::Obj(members) => {
                let n = members.len();
                let mut out: Vec<(String, JsonValue)> = Vec::new();
                let mut i: usize = 0;
                #[verifier::loop_isolation(false)]
                while i < n
                    invariant
                        n == members.len(),
                        0 <= i <= n,
                        out@.len() == i,
                        forall|k: int|
                            0 <= k < i ==> out@[k].0@ == members@[k].0@ && out@[k].1.deep_view()
                                == members@[k].1.deep_view(),
                    decreases n - i,
                {
                    proof {
                        assert(decreases_to!(*self => (*self)->Obj_0));
                        assert((*self)->Obj_0 == *members);
                        assert(decreases_to!(*members => members@));
                        assert(decreases_to!(members@ => members@[i as int]));
                        assert(decreases_to!(members@[i as int] => members@[i as int].1));
                    }
                    let key = members[i].0.clone();
                    let copied = members[i].1.duplicate();
                    out.push((key, copied));
                    i += 1;
                }
                let result = JsonValue::Obj(out);
                proof {
                    assert(result.deep_view()->Obj_0 =~= self.deep_view()->Obj_0);
                }
                result
            },
        }
    }
}

} // verus!
