use planka_mcp::bridge::{resume_login, PendingTool, Step};
use planka_mcp::gateway::{list_projects_request, PlankaError};
use planka_mcp::json::{JsonNumber, JsonValue};
use planka_mcp::render::render_to_string;
use planka_mcp::token::{PlankaAuth, TokenManager, TokenStep};
use planka_mcp::tools::{finish_call, plan_call, ToolOp, ToolPlan};

fn s(x: &str) -> String {
    x.to_string()
}

fn obj(members: Vec<(&str, JsonValue)>) -> JsonValue {
    JsonValue::Obj(members.into_iter().map(|(k, v)| (k.to_string(), v)).collect())
}

fn result_text(plan: ToolPlan) -> (String, bool) {
    match plan {
        ToolPlan::Done(res) => {
            let planka_mcp::mcp::ToolContent::Text { text } = res.content.into_iter().next().unwrap();
            (text, res.is_error == Some(true))
        }
        ToolPlan::Remote { .. } => panic!("expected an immediate result"),
    }
}

#[test]
fn unknown_tool_is_flagged_not_protocol_error() {
    let plan = plan_call("bogus_tool", None);
    let (text, is_error) = result_text(plan);
    assert!(is_error);
    assert_eq!(text, "Unknown tool: bogus_tool");
}

#[test]
fn create_card_defaults_type_and_position() {
    let args = obj(vec![
        ("list_id", JsonValue::Str(s("L1"))),
        ("name", JsonValue::Str(s("Task A"))),
    ]);
    match plan_call("create_card", Some(args)) {
        ToolPlan::Remote { request, op } => {
            assert!(matches!(op, ToolOp::CreateCard));
            assert_eq!(request.path, "/api/lists/L1/cards");
            let body = request.body.expect("a creation posts a body");
            assert_eq!(
                render_to_string(&body),
                "{\"name\":\"Task A\",\"type\":\"project\",\"position\":65535}"
            );
        }
        ToolPlan::Done(_) => panic!("expected a remote call"),
    }
}

#[test]
fn create_card_accepts_case_insensitive_story() {
    let args = obj(vec![
        ("list_id", JsonValue::Str(s("L1"))),
        ("name", JsonValue::Str(s("Task B"))),
        ("type", JsonValue::Str(s("STORY"))),
    ]);
    match plan_call("create_card", Some(args)) {
        ToolPlan::Remote { request, .. } => {
            let body = request.body.unwrap();
            assert_eq!(
                render_to_string(&body),
                "{\"name\":\"Task B\",\"type\":\"story\",\"position\":65535}"
            );
        }
        ToolPlan::Done(_) => panic!("expected a remote call"),
    }
}

#[test]
fn create_card_rejects_unknown_type() {
    let args = obj(vec![
        ("list_id", JsonValue::Str(s("L1"))),
        ("name", JsonValue::Str(s("Task C"))),
        ("type", JsonValue::Str(s("epic"))),
    ]);
    let (text, is_error) = result_text(plan_call("create_card", Some(args)));
    assert!(is_error);
    assert_eq!(text, "Invalid card type. Must be 'project' or 'story'");
}

#[test]
fn update_card_body_holds_only_supplied_fields() {
    let args = obj(vec![
        ("card_id", JsonValue::Str(s("C1"))),
        ("name", JsonValue::Str(s("New"))),
    ]);
    match plan_call("update_card", Some(args)) {
        ToolPlan::Remote { request, op } => {
            assert!(matches!(op, ToolOp::UpdateCard));
            assert_eq!(request.path, "/api/cards/C1");
            let body = request.body.unwrap();
            assert_eq!(render_to_string(&body), "{\"name\":\"New\"}");
        }
        ToolPlan::Done(_) => panic!("expected a remote call"),
    }
}

#[test]
fn move_card_defaults_position() {
    let args = obj(vec![
        ("card_id", JsonValue::Str(s("C1"))),
        ("list_id", JsonValue::Str(s("L2"))),
    ]);
    match plan_call("move_card", Some(args)) {
        ToolPlan::Remote { request, .. } => {
            assert_eq!(request.path, "/api/cards/C1");
            let body = request.body.unwrap();
            assert_eq!(render_to_string(&body), "{\"listId\":\"L2\",\"position\":65535}");
        }
        ToolPlan::Done(_) => panic!("expected a remote call"),
    }
}

#[test]
fn missing_required_argument_is_reported() {
    let (text, is_error) = result_text(plan_call("list_boards", None));
    assert!(is_error);
    assert_eq!(text, "Missing required argument: project_id");
}

#[test]
fn status_error_text_is_literal() {
    let err = PlankaError::Status(404, s("not found"));
    assert_eq!(err.to_text(), "HTTP status 404: not found");
    let res = finish_call(ToolOp::ListProjects, 500, s("boom"), None);
    let is_error = res.is_error;
    let planka_mcp::mcp::ToolContent::Text { text } = res.content.into_iter().next().unwrap();
    assert_eq!(text, "Failed to list projects: HTTP status 500: boom");
    assert_eq!(is_error, Some(true));
}

#[test]
fn unreadable_success_body_is_a_decode_error() {
    let res = finish_call(ToolOp::ListProjects, 200, s(""), None);
    let is_error = res.is_error;
    let planka_mcp::mcp::ToolContent::Text { text } = res.content.into_iter().next().unwrap();
    assert_eq!(text, "Failed to list projects: JSON error: invalid response body");
    assert_eq!(is_error, Some(true));
}

#[test]
fn delete_replies_report_outcome() {
    let ok = finish_call(ToolOp::DeleteCard, 204, s(""), None);
    let planka_mcp::mcp::ToolContent::Text { text } = ok.content.into_iter().next().unwrap();
    assert_eq!(text, "Card deleted successfully");
    assert!(ok.is_error.is_none());

    let bad = finish_call(ToolOp::DeleteList, 403, s("forbidden"), None);
    let planka_mcp::mcp::ToolContent::Text { text } = bad.content.into_iter().next().unwrap();
    assert_eq!(text, "Failed to delete list: HTTP status 403: forbidden");
}

#[test]
fn static_token_needs_no_login() {
    let mgr = TokenManager::new(PlankaAuth::Token(s("tok")));
    match mgr.resolve_step() {
        TokenStep::Ready(t) => assert_eq!(t, "tok"),
        TokenStep::NeedsLogin(_) => panic!("a static token never logs in"),
    }
}

#[test]
fn failed_login_caches_nothing_and_retries() {
    let mut mgr = TokenManager::new(PlankaAuth::Credentials {
        email: s("me@example.org"),
        password: s("SECRET-REDACTED"),
    });
    let request = match mgr.resolve_step() {
        TokenStep::NeedsLogin(r) => r,
        TokenStep::Ready(_) => panic!("an empty cache must log in"),
    };
    assert_eq!(request.path, "/api/access-tokens");
    let body = request.body.expect("a login posts credentials");
    assert_eq!(
        render_to_string(&body),
        "{\"emailOrUsername\":\"me@example.org\",\"password\":\"SECRET-REDACTED\"}"
    );

    // first login fails: nothing is cached, the error carries the status
    match mgr.absorb_login(401, s("denied"), None) {
        Err(PlankaError::Status(code, text)) => {
            assert_eq!(code, 401);
            assert_eq!(text, "denied");
        }
        _ => panic!("a non-2xx login must fail with its status"),
    }
    assert!(mgr.cached_token.is_none());

    // the next resolution attempts a fresh login
    match mgr.resolve_step() {
        TokenStep::NeedsLogin(_) => {}
        TokenStep::Ready(_) => panic!("a failed login must not be cached"),
    }

    // a successful login fills the cache; later resolutions use it
    let reply = obj(vec![("item", JsonValue::Str(s("fresh-token")))]);
    match mgr.absorb_login(200, s("{}"), Some(reply)) {
        Ok(t) => assert_eq!(t, "fresh-token"),
        Err(_) => panic!("a 2xx login with a token must succeed"),
    }
    match mgr.resolve_step() {
        TokenStep::Ready(t) => assert_eq!(t, "fresh-token"),
        TokenStep::NeedsLogin(_) => panic!("the cached token must be reused"),
    }
}

#[test]
fn login_without_token_field_is_a_configuration_error() {
    let mut mgr = TokenManager::new(PlankaAuth::Credentials {
        email: s("me@example.org"),
        password: s("SECRET-REDACTED"),
    });
    let reply = obj(vec![("item", JsonValue::Num(JsonNumber::Int(5)))]);
    match mgr.absorb_login(200, s("{}"), Some(reply)) {
        Err(PlankaError::Config(m)) => assert_eq!(m, "No token in login response"),
        _ => panic!("a tokenless login reply is a configuration error"),
    }
    assert!(mgr.cached_token.is_none());
}

#[test]
fn login_failure_answers_the_pending_call() {
    let mut mgr = TokenManager::new(PlankaAuth::Credentials {
        email: s("me@example.org"),
        password: s("SECRET-REDACTED"),
    });
    let pending = PendingTool {
        request: list_projects_request(),
        id: Some(JsonValue::Num(JsonNumber::Int(9))),
        op: ToolOp::ListProjects,
    };
    match resume_login(&mut mgr, pending, 401, s("denied"), None) {
        Step::Done(Some(line)) => {
            assert_eq!(
                line,
                "{\"jsonrpc\":\"2.0\",\"result\":{\"content\":[{\"type\":\"text\",\
                 \"text\":\"Failed to list projects: HTTP status 401: denied\"}],\
                 \"isError\":true},\"id\":9}"
            );
        }
        _ => panic!("a failed login still answers the request"),
    }
    assert!(mgr.cached_token.is_none());

    // with a good login the pending call goes out, carrying the token
    let pending = PendingTool {
        request: list_projects_request(),
        id: Some(JsonValue::Num(JsonNumber::Int(10))),
        op: ToolOp::ListProjects,
    };
    let reply = obj(vec![("item", JsonValue::Str(s("fresh-token")))]);
    match resume_login(&mut mgr, pending, 200, s("{}"), Some(reply)) {
        Step::CallTool { request, token, .. } => {
            assert_eq!(token, "fresh-token");
            assert_eq!(request.path, "/api/projects");
        }
        _ => panic!("a successful login carries the call forward"),
    }
}
