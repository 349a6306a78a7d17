use planka_mcp::bridge::{begin_line, resume_tool, Step};
use planka_mcp::json::{JsonNumber, JsonValue};
use planka_mcp::render::{pretty_to_string, render_to_string};
use planka_mcp::token::{PlankaAuth, TokenManager};
use planka_mcp::tools::ToolOp;

fn s(x: &str) -> String {
    x.to_string()
}

fn obj(members: Vec<(&str, JsonValue)>) -> JsonValue {
    JsonValue::Obj(members.into_iter().map(|(k, v)| (k.to_string(), v)).collect())
}

fn static_mgr() -> TokenManager {
    TokenManager::new(PlankaAuth::Token(s("T")))
}

fn envelope(method: &str, id: Option<JsonValue>, params: Option<JsonValue>) -> JsonValue {
    let mut members = vec![
        (s("jsonrpc"), JsonValue::Str(s("2.0"))),
        (s("method"), JsonValue::Str(s(method))),
    ];
    if let Some(p) = params {
        members.push((s("params"), p));
    }
    if let Some(i) = id {
        members.push((s("id"), i));
    }
    JsonValue::Obj(members)
}

fn line_of(step: Step) -> String {
    match step {
        Step::Done(Some(line)) => line,
        _ => panic!("expected a response line"),
    }
}

#[test]
fn parse_failure_answers_with_null_id() {
    let mgr = static_mgr();
    let line = line_of(begin_line(&mgr, None));
    assert_eq!(
        line,
        "{\"jsonrpc\":\"2.0\",\"error\":{\"code\":-32700,\"message\":\"Parse error\"},\"id\":null}"
    );
}

#[test]
fn ill_shaped_envelope_answers_with_parse_error() {
    let mgr = static_mgr();
    // no method member
    let v = obj(vec![("jsonrpc", JsonValue::Str(s("2.0"))), ("id", JsonValue::Num(JsonNumber::Int(1)))]);
    let line = line_of(begin_line(&mgr, Some(v)));
    assert!(line.contains("-32700"));
    assert!(line.ends_with("\"id\":null}"));
}

#[test]
fn notification_produces_no_line() {
    let mgr = static_mgr();
    let v = envelope("notifications/initialized", None, None);
    match begin_line(&mgr, Some(v)) {
        Step::Done(None) => {}
        _ => panic!("a notification must never be answered"),
    }
    // an id holding null also marks a notification
    let v = envelope("ping", Some(JsonValue::Null), None);
    match begin_line(&mgr, Some(v)) {
        Step::Done(None) => {}
        _ => panic!("a null id marks a notification"),
    }
}

#[test]
fn ping_echoes_id_with_empty_result() {
    let mgr = static_mgr();
    let v = envelope("ping", Some(JsonValue::Num(JsonNumber::Int(7))), None);
    let line = line_of(begin_line(&mgr, Some(v)));
    assert_eq!(line, "{\"jsonrpc\":\"2.0\",\"result\":{},\"id\":7}");
}

#[test]
fn initialize_reports_server_metadata() {
    let mgr = static_mgr();
    let v = envelope("initialize", Some(JsonValue::Str(s("x"))), None);
    let line = line_of(begin_line(&mgr, Some(v)));
    assert_eq!(
        line,
        "{\"jsonrpc\":\"2.0\",\"result\":{\"protocolVersion\":\"2024-11-05\",\
         \"capabilities\":{\"tools\":{\"listChanged\":false}},\
         \"serverInfo\":{\"name\":\"planka-mcp\",\"version\":\"0.1.0\"}},\"id\":\"x\"}"
    );
}

#[test]
fn unknown_method_is_refused_by_name() {
    let mgr = static_mgr();
    let v = envelope("bogus/method", Some(JsonValue::Num(JsonNumber::Int(2))), None);
    let line = line_of(begin_line(&mgr, Some(v)));
    assert_eq!(
        line,
        "{\"jsonrpc\":\"2.0\",\"error\":{\"code\":-32601,\
         \"message\":\"Method not found: bogus/method\"},\"id\":2}"
    );
}

#[test]
fn tools_call_without_params_is_invalid() {
    let mgr = static_mgr();
    let v = envelope("tools/call", Some(JsonValue::Num(JsonNumber::Int(3))), None);
    let line = line_of(begin_line(&mgr, Some(v)));
    assert_eq!(
        line,
        "{\"jsonrpc\":\"2.0\",\"error\":{\"code\":-32602,\"message\":\"Missing params\"},\"id\":3}"
    );
    let mgr = static_mgr();
    let v = envelope(
        "tools/call",
        Some(JsonValue::Num(JsonNumber::Int(4))),
        Some(obj(vec![("name", JsonValue::Num(JsonNumber::Int(1)))])),
    );
    let line = line_of(begin_line(&mgr, Some(v)));
    assert_eq!(
        line,
        "{\"jsonrpc\":\"2.0\",\"error\":{\"code\":-32602,\"message\":\"Invalid params\"},\"id\":4}"
    );
}

#[test]
fn tools_list_answers_eleven_tools() {
    let mgr = static_mgr();
    let v = envelope("tools/list", Some(JsonValue::Num(JsonNumber::Int(5))), None);
    let line = line_of(begin_line(&mgr, Some(v)));
    assert_eq!(line.matches("\"inputSchema\"").count(), 11);
    assert_eq!(line.matches("\"allowedCallers\"").count(), 9);
    assert!(line.ends_with("\"id\":5}"));
    assert!(!line.contains('\n'));
}

#[test]
fn tool_call_round_trip_lists_projects() {
    let mgr = static_mgr();
    let params = obj(vec![("name", JsonValue::Str(s("list_projects")))]);
    let v = envelope("tools/call", Some(JsonValue::Num(JsonNumber::Int(6))), Some(params));
    let (request, token, id, op) = match begin_line(&mgr, Some(v)) {
        Step::CallTool { request, token, id, op } => (request, token, id, op),
        _ => panic!("expected a remote call"),
    };
    assert_eq!(token, "T");
    assert_eq!(request.path, "/api/projects");
    assert!(matches!(op, ToolOp::ListProjects));
    let body_json = obj(vec![(
        "items",
        JsonValue::Arr(vec![obj(vec![
            ("id", JsonValue::Str(s("p1"))),
            ("name", JsonValue::Str(s("P"))),
        ])]),
    )]);
    let line = line_of(resume_tool(id, op, 200, s("ignored"), Some(body_json)));
    // the content is the pretty-printed record list, escaped onto the line
    let expected_text = "[\n  {\n    \"id\": \"p1\",\n    \"name\": \"P\",\n    \"slug\": null\n  }\n]";
    let expected_line = format!(
        "{{\"jsonrpc\":\"2.0\",\"result\":{{\"content\":[{{\"type\":\"text\",\"text\":\"{}\"}}]}},\"id\":6}}",
        expected_text.replace('\\', "\\\\").replace('"', "\\\"").replace('\n', "\\n")
    );
    assert_eq!(line, expected_line);
    assert!(!line.contains('\n'));
}

#[test]
fn remote_failure_surfaces_status_and_body() {
    // a non-2xx reply carries its literal status code and raw body
    let line = line_of(resume_tool(
        Some(JsonValue::Num(JsonNumber::Int(8))),
        ToolOp::ListProjects,
        503,
        s("service down"),
        None,
    ));
    assert_eq!(
        line,
        "{\"jsonrpc\":\"2.0\",\"result\":{\"content\":[{\"type\":\"text\",\
         \"text\":\"Failed to list projects: HTTP status 503: service down\"}],\
         \"isError\":true},\"id\":8}"
    );
}

#[test]
fn rendering_escapes_and_stays_on_one_line() {
    let v = JsonValue::Str(s("a\"b\\c\nd\u{1}e\tf\rg"));
    let text = render_to_string(&v);
    assert_eq!(text, "\"a\\\"b\\\\c\\nd\\u0001e\\tf\\rg\"");
    assert!(!text.contains('\n'));
}

#[test]
fn rendering_numbers_is_exact() {
    assert_eq!(render_to_string(&JsonValue::Num(JsonNumber::Int(0))), "0");
    assert_eq!(render_to_string(&JsonValue::Num(JsonNumber::Int(-42))), "-42");
    assert_eq!(
        render_to_string(&JsonValue::Num(JsonNumber::Int(i64::MIN))),
        "-9223372036854775808"
    );
    assert_eq!(
        render_to_string(&JsonValue::Num(JsonNumber::Dec(s("32767.5")))),
        "32767.5"
    );
}

#[test]
fn well_formedness_checks_raw_number_texts() {
    let good = obj(vec![
        ("a", JsonValue::Num(JsonNumber::Dec(s("1.5e-3")))),
        ("b", JsonValue::Arr(vec![JsonValue::Num(JsonNumber::Int(1))])),
    ]);
    assert!(good.check_wf());
    let bad = obj(vec![("a", JsonValue::Num(JsonNumber::Dec(s("1.5\n2"))))]);
    assert!(!bad.check_wf());
}

#[test]
fn pretty_rendering_indents_nested_values() {
    let v = obj(vec![
        ("empty", JsonValue::Arr(vec![])),
        ("items", JsonValue::Arr(vec![JsonValue::Num(JsonNumber::Int(1)), JsonValue::Bool(true)])),
    ]);
    assert_eq!(
        pretty_to_string(&v),
        "{\n  \"empty\": [],\n  \"items\": [\n    1,\n    true\n  ]\n}"
    );
    assert_eq!(pretty_to_string(&JsonValue::Obj(vec![])), "{}");
}
