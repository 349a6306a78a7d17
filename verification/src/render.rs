//! Rendering of JSON documents as text.
//!
//! `spec_render` gives the exact character sequence produced for a value;
//! `render_into` and `render_to_string` produce it.  Rendered text of a
//! well-formed value never contains a newline, so one rendered document is
//! always one output line.

use vstd::prelude::*;

use crate::json::{
    jval_of, lemma_wf_members, lemma_wf_seq, number_char, wf_members, wf_seq, JVal, JsonNumber,
    JsonValue,
};

verus! {

/// The decimal digits of `n`, most significant first.
pub open spec fn spec_dec_u(n: nat) -> Seq<char>
    decreases n,
{
    if n < 10 {
        digit_lit(n as int)
    } else {
        spec_dec_u(n / 10) + digit_lit((n % 10) as int)
    }
}

/// The text of one decimal digit.
pub open spec fn digit_lit(d: int) -> Seq<char> {
    if d == 0 {
        "0"@
    } else if d == 1 {
        "1"@
    } else if d == 2 {
        "2"@
    } else if d == 3 {
        "3"@
    } else if d == 4 {
        "4"@
    } else if d == 5 {
        "5"@
    } else if d == 6 {
        "6"@
    } else if d == 7 {
        "7"@
    } else if d == 8 {
        "8"@
    } else {
        "9"@
    }
}

/// The decimal text of an integer, with a sign for negative values.
pub open spec fn spec_dec_i(i: int) -> Seq<char> {
    if i < 0 {
        "-"@ + spec_dec_u((-i) as nat)
    } else {
        spec_dec_u(i as nat)
    }
}

/// The text of one hexadecimal digit.
pub open spec fn hex_lit(d: int) -> Seq<char> {
    if d < 10 {
        digit_lit(d)
    } else if d == 10 {
        "a"@
    } else if d == 11 {
        "b"@
    } else if d == 12 {
        "c"@
    } else if d == 13 {
        "d"@
    } else if d == 14 {
        "e"@
    } else {
        "f"@
    }
}

/// How one character appears inside a JSON string literal.
pub open spec fn esc_char(c: char) -> Seq<char> {
    if c == '"' {
        "\\\""@
    } else if c == '\\' {
        "\\\\"@
    } else if c == '\n' {
        "\\n"@
    } else if c == '\r' {
        "\\r"@
    } else if c == '\t' {
        "\\t"@
    } else if (c as u32) < 32 {
        "\\u00"@ + hex_lit(c as int / 16) + hex_lit(c as int % 16)
    } else {
        seq![c]
    }
}

/// The body of a JSON string literal for the characters `s`.
pub open spec fn spec_escape(s: Seq<char>) -> Seq<char>
    decreases s.len(),
{
    if s.len() == 0 {
        Seq::empty()
    } else {
        spec_escape(s.drop_last()) + esc_char(s.last())
    }
}

/// The text of a JSON value.
pub open spec fn spec_render(v: JVal) -> Seq<char>
    decreases v, 0int,
{
    match v {
        JVal::Null => "null"@,
        JVal::Bool(b) => if b {
            "true"@
        } else {
            "false"@
        },
        JVal::Int(i) => spec_dec_i(i),
        JVal::Dec(s) => s,
        JVal::Str(s) => "\""@ + spec_escape(s) + "\""@,
        JVal::Arr(items) => "["@ + spec_render_items(items, items.len() as int) + "]"@,
        JVal::Obj(members) => "{"@ + spec_render_members(members, members.len() as int) + "}"@,
    }
}

/// The first `n` array items, joined by commas.
pub open spec fn spec_render_items(items: Seq<JVal>, n: int) -> Seq<char>
    decreases items, n,
{
    if n <= 0 || n > items.len() {
        Seq::empty()
    } else if n == 1 {
        spec_render(items[0])
    } else {
        spec_render_items(items, n - 1) + ","@ + spec_render(items[n - 1])
    }
}

/// One object member: a quoted key, a colon, and the value.
pub open spec fn spec_render_member(m: (Seq<char>, JVal)) -> Seq<char>
    decreases m, 0int,
{
    "\""@ + spec_escape(m.0) + "\""@ + ":"@ + spec_render(m.1)
}

/// The first `n` object members, joined by commas.
pub open spec fn spec_render_members(members: Seq<(Seq<char>, JVal)>, n: int) -> Seq<char>
    decreases members, n,
{
    if n <= 0 || n > members.len() {
        Seq::empty()
    } else if n == 1 {
        spec_render_member(members[0])
    } else {
        spec_render_members(members, n - 1) + ","@ + spec_render_member(members[n - 1])
    }
}

/// One decimal digit as text.
fn digit_str(d: u64) -> (r: &'static str)
    requires
        d < 10,
    ensures
        r@ == digit_lit(d as int),
{
    match d {
        0 => "0",
        1 => "1",
        2 => "2",
        3 => "3",
        4 => "4",
        5 => "5",
        6 => "6",
        7 => "7",
        8 => "8",
        _ => "9",
    }
}

/// One hexadecimal digit as text.
fn hex_str(d: u32) -> (r: &'static str)
    requires
        d < 16,
    ensures
        r@ == hex_lit(d as int),
{
    match d {
        0 => "0",
        1 => "1",
        2 => "2",
        3 => "3",
        4 => "4",
        5 => "5",
        6 => "6",
        7 => "7",
        8 => "8",
        9 => "9",
        10 => "a",
        11 => "b",
        12 => "c",
        13 => "d",
        14 => "e",
        _ => "f",
    }
}

/// Appends the decimal digits of `n`.
pub fn push_dec_u64(n: u64, out: &mut String)
    ensures
        final(out)@ == old(out)@ + spec_dec_u(n as nat),
    decreases n,
{
    if n < 10 {
        out.append(digit_str(n));
    } else {
        push_dec_u64(n / 10, out);
        out.append(digit_str(n % 10));
    }
}

/// Appends the decimal text of `i`.
pub fn push_dec_i64(i: i64, out: &mut String)
    ensures
        final(out)@ == old(out)@ + spec_dec_i(i as int),
{
    if i < 0 {
        out.append("-");
        let magnitude: u64 = (0i128 - (i as i128)) as u64;
        proof {
            assert(magnitude as nat == (-(i as int)) as nat);
        }
        push_dec_u64(magnitude, out);
    } else {
        push_dec_u64(i as u64, out);
    }
}

/// Appends the escaped form of `s`.
pub fn push_escaped(s: &str, out: &mut String)
    ensures
        final(out)@ == old(out)@ + spec_escape(s@),
{
    let ghost base = out@;
    let n = s.unicode_len();
    let mut i: usize = 0;
    #[verifier::loop_isolation(false)]
    while i < n
        invariant
            0 <= i <= n,
            out@ == base + spec_escape(s@.subrange(0, i as int)),
        decreases n - i,
    {
        let c = s.get_char(i);
        if c == '"' {
            out.append("\\\"");
        } else if c == '\\' {
            out.append("\\\\");
        } else if c == '\n' {
            out.append("\\n");
        } else if c == '\r' {
            out.append("\\r");
        } else if c == '\t' {
            out.append("\\t");
        } else if (c as u32) < 32 {
            out.append("\\u00");
            out.append(hex_str(c as u32 / 16));
            out.append(hex_str(c as u32 % 16));
        } else {
            let one = s.substring_char(i, i + 1);
            proof {
                assert(one@ =~= seq![c]);
            }
            out.append(one);
        }
        proof {
            let prefix = s@.subrange(0, i + 1 as int);
            assert(prefix.drop_last() =~= s@.subrange(0, i as int));
            assert(prefix.last() == c);
        }
        i += 1;
    }
    proof {
        assert(s@.subrange(0, n as int) =~= s@);
    }
}

/// Appends the text of a JSON value.
pub fn render_into(v: &JsonValue, out: &mut String)
    ensures
        final(out)@ == old(out)@ + spec_render(v.deep_view()),
    decreases v,
{
    match v {
        JsonValue::Null => out.append("null"),
        JsonValue::Bool(b) => {
            if *b {
                out.append("true");
            } else {
                out.append("false");
            }
        },
        JsonValue::Num(JsonNumber::Int(i)) => push_dec_i64(*i, out),
        JsonValue::Num(JsonNumber::Dec(s)) => out.append(s.as_str()),
        JsonValue::Str(s) => {
            out.append("\"");
            push_escaped(s.as_str(), out);
            out.append("\"");
        },
        JsonValue::Arr(items) => {
            let ghost base = out@;
            let ghost gitems = v.deep_view()->Arr_0;
            out.append("[");
            let n = items.len();
            let mut i: usize = 0;
            #[verifier::loop_isolation(false)]
            while i < n
                invariant
                    0 <= i <= n,
                    out@ == base + "["@ + spec_render_items(gitems, i as int),
                decreases n - i,
            {
                if i > 0 {
                    out.append(",");
                }
                proof {
                    assert(decreases_to!(*v => (*v)->Arr_0));
                    assert((*v)->Arr_0 == *items);
                    assert(decreases_to!(*items => items@));
                    assert(decreases_to!(items@ => items@[i as int]));
                }
                render_into(&items[i], out);
                i += 1;
            }
            out.append("]");
        },
        JsonValue::Obj(members) => {
            let ghost base = out@;
            let ghost gmembers = v.deep_view()->Obj_0;
            proof {
                assert(gmembers.len() == members@.len());
            }
            out.append("{");
            let n = members.len();
            let mut i: usize = 0;
            #[verifier::loop_isolation(false)]
            while i < n
                invariant
                    0 <= i <= n,
                    out@ == base + "{"@ + spec_render_members(gmembers, i as int),
                decreases n - i,
            {
                if i > 0 {
                    out.append(",");
                }
                out.append("\"");
                push_escaped(members[i].0.as_str(), out);
                out.append("\"");
                out.append(":");
                proof {
                    assert(decreases_to!(*v => (*v)->Obj_0));
                    assert((*v)->Obj_0 == *members);
                    assert(decreases_to!(*members => members@));
                    assert(decreases_to!(members@ => members@[i as int]));
                    assert(decreases_to!(members@[i as int] => members@[i as int].1));
                }
                render_into(&members[i].1, out);
                proof {
                    let gi = i as int;
                    assert(gmembers[gi] == (members@[gi].0@, jval_of(members@[gi].1)));
                    assert(spec_render_member(gmembers[gi]) == "\""@ + spec_escape(members@[gi].0@)
                        + "\""@ + ":"@ + spec_render(members@[gi].1.deep_view()));
                    if i == 0 {
                        assert(spec_render_members(gmembers, 1) == spec_render_member(
                            gmembers[0],
                        ));
                    } else {
                        assert(spec_render_members(gmembers, gi + 1) == spec_render_members(
                            gmembers,
                            gi,
                        ) + ","@ + spec_render_member(gmembers[gi]));
                    }
                    assert(out@ =~= base + "{"@ + spec_render_members(gmembers, gi + 1));
                }
                i += 1;
            }
            out.append("}");
        },
    }
}

/// The text of a JSON value as a fresh string.
pub fn render_to_string(v: &JsonValue) -> (r: String)
    ensures
        r@ == spec_render(v.deep_view()),
{
    let mut out = String::new();
    render_into(v, &mut out);
    out
}

/// The text of a JSON value laid out for reading: arrays and objects are
/// split over indented lines.  `pad` is the indentation of the value's
/// own line; nested values indent by two more spaces.
pub open spec fn spec_pretty(v: JVal, pad: Seq<char>) -> Seq<char>
    decreases v, 0int,
{
    match v {
        JVal::Null => "null"@,
        JVal::Bool(b) => if b {
            "true"@
        } else {
            "false"@
        },
        JVal::Int(i) => spec_dec_i(i),
        JVal::Dec(s) => s,
        JVal::Str(s) => "\""@ + spec_escape(s) + "\""@,
        JVal::Arr(items) => if items.len() == 0 {
            "[]"@
        } else {
            "[\n"@ + spec_pretty_items(items, items.len() as int, pad + "  "@) + "\n"@ + pad
                + "]"@
        },
        JVal::Obj(members) => if members.len() == 0 {
            "{}"@
        } else {
            "{\n"@ + spec_pretty_members(members, members.len() as int, pad + "  "@) + "\n"@
                + pad + "}"@
        },
    }
}

/// The first `n` array items, one per indented line.
pub open spec fn spec_pretty_items(items: Seq<JVal>, n: int, pad: Seq<char>) -> Seq<char>
    decreases items, n,
{
    if n <= 0 || n > items.len() {
        Seq::empty()
    } else if n == 1 {
        pad + spec_pretty(items[0], pad)
    } else {
        spec_pretty_items(items, n - 1, pad) + ",\n"@ + pad + spec_pretty(items[n - 1], pad)
    }
}

/// One object member on its indented line: the quoted key, a colon and a
/// space, and the value.
pub open spec fn spec_pretty_member(m: (Seq<char>, JVal), pad: Seq<char>) -> Seq<char>
    decreases m, 0int,
{
    pad + "\""@ + spec_escape(m.0) + "\""@ + ": "@ + spec_pretty(m.1, pad)
}

/// The first `n` object members, one per indented line.
pub open spec fn spec_pretty_members(members: Seq<(Seq<char>, JVal)>, n: int, pad: Seq<char>) -> Seq<
    char,
>
    decreases members, n,
{
    if n <= 0 || n > members.len() {
        Seq::empty()
    } else if n == 1 {
        spec_pretty_member(members[0], pad)
    } else {
        spec_pretty_members(members, n - 1, pad) + ",\n"@ + spec_pretty_member(members[n - 1], pad)
    }
}

/// Appends the pretty text of a JSON value, indented by `pad`.
#[verifier::rlimit(50)]
pub fn pretty_into(v: &JsonValue, pad: &str, out: &mut String)
    ensures
        final(out)@ == old(out)@ + spec_pretty(v.deep_view(), pad@),
    decreases v,
{
    match v {
        JsonValue::Null => out.append("null"),
        JsonValue::Bool(b) => {
            if *b {
                out.append("true");
            } else {
                out.append("false");
            }
        },
        JsonValue::Num(JsonNumber::Int(i)) => push_dec_i64(*i, out),
        JsonValue::Num(JsonNumber::Dec(s)) => out.append(s.as_str()),
        JsonValue::Str(s) => {
            out.append("\"");
            push_escaped(s.as_str(), out);
            out.append("\"");
        },
        JsonValue::Arr(items) => {
            if items.len() == 0 {
                out.append("[]");
                return ;
            }
            let ghost base = out@;
            let ghost gitems = v.deep_view()->Arr_0;
            proof {
                assert(gitems.len() == items@.len());
            }
            let mut child = pad.to_owned();
            child.append("  ");
            out.append("[\n");
            let n = items.len();
            let mut i: usize = 0;
            #[verifier::loop_isolation(false)]
            while i < n
                invariant
                    0 < i <= n || i == 0,
                    child@ == pad@ + "  "@,
                    out@ == base + "[\n"@ + spec_pretty_items(gitems, i as int, child@),
                decreases n - i,
            {
                if i > 0 {
                    out.append(",\n");
                }
                out.append(child.as_str());
                proof {
                    assert(decreases_to!(*v => (*v)->Arr_0));
                    assert((*v)->Arr_0 == *items);
                    assert(decreases_to!(*items => items@));
                    assert(decreases_to!(items@ => items@[i as int]));
                }
                pretty_into(&items[i], child.as_str(), out);
                proof {
                    let gi = i as int;
                    assert(gitems[gi] == jval_of(items@[gi]));
                    if i == 0 {
                        assert(spec_pretty_items(gitems, 1, child@) == child@ + spec_pretty(
                            gitems[0],
                            child@,
                        ));
                    } else {
                        assert(spec_pretty_items(gitems, gi + 1, child@) == spec_pretty_items(
                            gitems,
                            gi,
                            child@,
                        ) + ",\n"@ + child@ + spec_pretty(gitems[gi], child@));
                    }
                    assert(out@ =~= base + "[\n"@ + spec_pretty_items(gitems, gi + 1, child@));
                }
                i += 1;
            }
            out.append("\n");
            out.append(pad);
            out.append("]");
        },
        JsonValue::Obj(members) => {
            if members.len() == 0 {
                out.append("{}");
                return ;
            }
            let ghost base = out@;
            let ghost gmembers = v.deep_view()->Obj_0;
            proof {
                assert(gmembers.len() == members@.len());
            }
            let mut child = pad.to_owned();
            child.append("  ");
            out.append("{\n");
            let n = members.len();
            let mut i: usize = 0;
            #[verifier::loop_isolation(false)]
            while i < n
                invariant
                    0 <= i <= n,
                    child@ == pad@ + "  "@,
                    out@ == base + "{\n"@ + spec_pretty_members(gmembers, i as int, child@),
                decreases n - i,
            {
                if i > 0 {
                    out.append(",\n");
                }
                out.append(child.as_str());
                out.append("\"");
                push_escaped(members[i].0.as_str(), out);
                out.append("\"");
                out.append(": ");
                proof {
                    assert(decreases_to!(*v => (*v)->Obj_0));
                    assert((*v)->Obj_0 == *members);
                    assert(decreases_to!(*members => members@));
                    assert(decreases_to!(members@ => members@[i as int]));
                    assert(decreases_to!(members@[i as int] => members@[i as int].1));
                }
                pretty_into(&members[i].1, child.as_str(), out);
                proof {
                    let gi = i as int;
                    assert(gmembers[gi] == (members@[gi].0@, jval_of(members@[gi].1)));
                    if i == 0 {
                        assert(spec_pretty_members(gmembers, 1, child@) == spec_pretty_member(
                            gmembers[0],
                            child@,
                        ));
                    } else {
                        assert(spec_pretty_members(gmembers, gi + 1, child@)
                            == spec_pretty_members(gmembers, gi, child@) + ",\n"@
                            + spec_pretty_member(gmembers[gi], child@));
                    }
                    assert(out@ =~= base + "{\n"@ + spec_pretty_members(
                        gmembers,
                        gi + 1,
                        child@,
                    ));
                }
                i += 1;
            }
            out.append("\n");
            out.append(pad);
            out.append("}");
        },
    }
}

/// The pretty text of a JSON value as a fresh string, starting at the left
/// margin.
pub fn pretty_to_string(v: &JsonValue) -> (r: String)
    ensures
        r@ == spec_pretty(v.deep_view(), Seq::empty()),
{
    let mut out = String::new();
    pretty_into(v, "", &mut out);
    proof {
        reveal_strlit("");
        assert(""@ =~= Seq::<char>::empty());
    }
    out
}

/// Whether no character of `s` is a newline.
pub open spec fn line_safe(s: Seq<char>) -> bool {
    forall|i: int| 0 <= i < s.len() ==> s[i] != '\n'
}

/// Joining two newline-free texts keeps them newline-free.
proof fn lemma_line_safe_concat(a: Seq<char>, b: Seq<char>)
    requires
        line_safe(a),
        line_safe(b),
    ensures
        line_safe(a + b),
{
    assert forall|i: int| 0 <= i < (a + b).len() implies (a + b)[i] != '\n' by {
        if i < a.len() {
            assert((a + b)[i] == a[i]);
        } else {
            assert((a + b)[i] == b[i - a.len()]);
        }
    }
}

proof fn lemma_digit_line_safe(d: int)
    ensures
        line_safe(digit_lit(d)),
{
    reveal_strlit("0");
    reveal_strlit("1");
    reveal_strlit("2");
    reveal_strlit("3");
    reveal_strlit("4");
    reveal_strlit("5");
    reveal_strlit("6");
    reveal_strlit("7");
    reveal_strlit("8");
    reveal_strlit("9");
}

proof fn lemma_hex_line_safe(d: int)
    ensures
        line_safe(hex_lit(d)),
{
    lemma_digit_line_safe(d);
    reveal_strlit("a");
    reveal_strlit("b");
    reveal_strlit("c");
    reveal_strlit("d");
    reveal_strlit("e");
    reveal_strlit("f");
}

proof fn lemma_dec_u_line_safe(n: nat)
    ensures
        line_safe(spec_dec_u(n)),
    decreases n,
{
    if n < 10 {
        lemma_digit_line_safe(n as int);
    } else {
        lemma_dec_u_line_safe(n / 10);
        lemma_digit_line_safe((n % 10) as int);
        lemma_line_safe_concat(spec_dec_u(n / 10), digit_lit((n % 10) as int));
    }
}

proof fn lemma_dec_i_line_safe(i: int)
    ensures
        line_safe(spec_dec_i(i)),
{
    if i < 0 {
        reveal_strlit("-");
        lemma_dec_u_line_safe((-i) as nat);
        lemma_line_safe_concat("-"@, spec_dec_u((-i) as nat));
    } else {
        lemma_dec_u_line_safe(i as nat);
    }
}

proof fn lemma_esc_char_line_safe(c: char)
    ensures
        line_safe(esc_char(c)),
{
    reveal_strlit("\\\"");
    reveal_strlit("\\\\");
    reveal_strlit("\\n");
    reveal_strlit("\\r");
    reveal_strlit("\\t");
    reveal_strlit("\\u00");
    if c == '"' || c == '\\' || c == '\n' || c == '\r' || c == '\t' {
    } else if (c as u32) < 32 {
        lemma_hex_line_safe(c as int / 16);
        lemma_hex_line_safe(c as int % 16);
        lemma_line_safe_concat("\\u00"@, hex_lit(c as int / 16));
        lemma_line_safe_concat("\\u00"@ + hex_lit(c as int / 16), hex_lit(c as int % 16));
    } else {
        assert(esc_char(c) == seq![c]);
    }
}

proof fn lemma_escape_line_safe(s: Seq<char>)
    ensures
        line_safe(spec_escape(s)),
    decreases s.len(),
{
    if s.len() > 0 {
        lemma_escape_line_safe(s.drop_last());
        lemma_esc_char_line_safe(s.last());
        lemma_line_safe_concat(spec_escape(s.drop_last()), esc_char(s.last()));
    }
}

/// The rendered text of a well-formed document holds no newline: one
/// rendered document is always exactly one output line.
pub proof fn lemma_render_line_safe(v: JVal)
    requires
        v.wf(),
    ensures
        line_safe(spec_render(v)),
    decreases v, 0int,
{
    match v {
        JVal::Null => {
            reveal_strlit("null");
        },
        JVal::Bool(b) => {
            reveal_strlit("true");
            reveal_strlit("false");
        },
        JVal::Int(i) => {
            lemma_dec_i_line_safe(i);
        },
        JVal::Dec(s) => {
            assert forall|i: int| 0 <= i < s.len() implies s[i] != '\n' by {
                assert(number_char(s[i]));
            }
        },
        JVal::Str(s) => {
            reveal_strlit("\"");
            lemma_escape_line_safe(s);
            lemma_line_safe_concat("\""@, spec_escape(s));
            lemma_line_safe_concat("\""@ + spec_escape(s), "\""@);
        },
        JVal::Arr(items) => {
            reveal_strlit("[");
            reveal_strlit("]");
            lemma_items_line_safe(items, items.len() as int);
            lemma_line_safe_concat("["@, spec_render_items(items, items.len() as int));
            lemma_line_safe_concat(
                "["@ + spec_render_items(items, items.len() as int),
                "]"@,
            );
        },
        JVal::Obj(members) => {
            reveal_strlit("{");
            reveal_strlit("}");
            lemma_members_line_safe(members, members.len() as int);
            lemma_line_safe_concat("{"@, spec_render_members(members, members.len() as int));
            lemma_line_safe_concat(
                "{"@ + spec_render_members(members, members.len() as int),
                "}"@,
            );
        },
    }
}

proof fn lemma_items_line_safe(items: Seq<JVal>, n: int)
    requires
        wf_seq(items, items.len() as int),
    ensures
        line_safe(spec_render_items(items, n)),
    decreases items, n,
{
    if n <= 0 || n > items.len() {
    } else if n == 1 {
        lemma_wf_seq(items, items.len() as int);
        assert(items[0].wf());
        lemma_render_line_safe(items[0]);
    } else {
        reveal_strlit(",");
        lemma_items_line_safe(items, n - 1);
        lemma_wf_seq(items, items.len() as int);
        assert(items[n - 1].wf());
        lemma_render_line_safe(items[n - 1]);
        lemma_line_safe_concat(spec_render_items(items, n - 1), ","@);
        lemma_line_safe_concat(
            spec_render_items(items, n - 1) + ","@,
            spec_render(items[n - 1]),
        );
    }
}

proof fn lemma_member_line_safe(m: (Seq<char>, JVal))
    requires
        m.1.wf(),
    ensures
        line_safe(spec_render_member(m)),
    decreases m, 0int,
{
    reveal_strlit("\"");
    reveal_strlit(":");
    lemma_escape_line_safe(m.0);
    lemma_render_line_safe(m.1);
    lemma_line_safe_concat("\""@, spec_escape(m.0));
    lemma_line_safe_concat("\""@ + spec_escape(m.0), "\""@);
    lemma_line_safe_concat("\""@ + spec_escape(m.0) + "\""@, ":"@);
    lemma_line_safe_concat(
        "\""@ + spec_escape(m.0) + "\""@ + ":"@,
        spec_render(m.1),
    );
}

proof fn lemma_members_line_safe(members: Seq<(Seq<char>, JVal)>, n: int)
    requires
        wf_members(members, members.len() as int),
    ensures
        line_safe(spec_render_members(members, n)),
    decreases members, n,
{
    if n <= 0 || n > members.len() {
    } else if n == 1 {
        lemma_wf_members(members, members.len() as int);
        assert(members[0].1.wf());
        lemma_member_line_safe(members[0]);
    } else {
        reveal_strlit(",");
        lemma_members_line_safe(members, n - 1);
        lemma_wf_members(members, members.len() as int);
        assert(members[n - 1].1.wf());
        lemma_member_line_safe(members[n - 1]);
        lemma_line_safe_concat(spec_render_members(members, n - 1), ","@);
        lemma_line_safe_concat(
            spec_render_members(members, n - 1) + ","@,
            spec_render_member(members[n - 1]),
        );
    }
}

} // verus!
