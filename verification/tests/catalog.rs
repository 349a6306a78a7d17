use planka_mcp::json::JsonValue;
use planka_mcp::mcp::{annotations_to_json, tool_to_json, Tool, ToolAnnotations};
use planka_mcp::render::render_to_string;
use planka_mcp::tools::list_tools;

fn s(x: &str) -> String {
    x.to_string()
}

fn object_schema() -> JsonValue {
    JsonValue::Obj(vec![(s("type"), JsonValue::Str(s("object")))])
}

#[test]
fn test_tool_annotations_serializes_correctly() {
    let annotations = ToolAnnotations {
        allowed_callers: Some(vec!["code_execution_20250825".to_string()]),
    };
    let json = annotations_to_json(annotations);
    assert_eq!(
        render_to_string(&json),
        "{\"allowedCallers\":[\"code_execution_20250825\"]}"
    );
}

#[test]
fn test_tool_annotations_omits_none_fields() {
    let annotations = ToolAnnotations { allowed_callers: None };
    let json = annotations_to_json(annotations);
    assert_eq!(render_to_string(&json), "{}");
}

#[test]
fn test_tool_with_annotations_serializes_correctly() {
    let tool = Tool {
        name: "test_tool".to_string(),
        description: "A test tool".to_string(),
        input_schema: object_schema(),
        annotations: Some(ToolAnnotations {
            allowed_callers: Some(vec!["code_execution_20250825".to_string()]),
        }),
    };
    let json = tool_to_json(tool);
    let name = json.get_member("name").expect("name member");
    assert_eq!(render_to_string(name), "\"test_tool\"");
    let description = json.get_member("description").expect("description member");
    assert_eq!(render_to_string(description), "\"A test tool\"");
    let schema = json.get_member("inputSchema").expect("inputSchema member");
    assert_eq!(render_to_string(schema), "{\"type\":\"object\"}");
    let annotations = json.get_member("annotations").expect("annotations member");
    let callers = annotations.get_member("allowedCallers").expect("allowedCallers member");
    assert_eq!(render_to_string(callers), "[\"code_execution_20250825\"]");
}

#[test]
fn test_tool_without_annotations_omits_field() {
    let tool = Tool {
        name: "test_tool".to_string(),
        description: "A test tool".to_string(),
        input_schema: object_schema(),
        annotations: None,
    };
    let json = tool_to_json(tool);
    let name = json.get_member("name").expect("name member");
    assert_eq!(render_to_string(name), "\"test_tool\"");
    assert!(json.get_member("annotations").is_none());
}

#[test]
fn test_list_tools_returns_all_tools() {
    let tools = list_tools();
    assert_eq!(tools.len(), 11, "Expected 11 tools");

    let names: Vec<&str> = tools.iter().map(|t| t.name.as_str()).collect();
    assert!(names.contains(&"list_projects"));
    assert!(names.contains(&"list_boards"));
    assert!(names.contains(&"list_lists"));
    assert!(names.contains(&"list_cards"));
    assert!(names.contains(&"create_board"));
    assert!(names.contains(&"create_list"));
    assert!(names.contains(&"create_card"));
    assert!(names.contains(&"update_card"));
    assert!(names.contains(&"move_card"));
    assert!(names.contains(&"delete_card"));
    assert!(names.contains(&"delete_list"));
}

#[test]
fn test_programmatic_tools_have_allowed_callers() {
    let tools = list_tools();
    let programmatic_tools = [
        "list_projects",
        "list_boards",
        "list_lists",
        "list_cards",
        "create_board",
        "create_list",
        "create_card",
        "update_card",
        "move_card",
    ];

    for tool_name in programmatic_tools {
        let tool = tools.iter().find(|t| t.name == tool_name).unwrap();
        let annotations = tool
            .annotations
            .as_ref()
            .unwrap_or_else(|| panic!("{tool_name} should have annotations"));
        let callers = annotations
            .allowed_callers
            .as_ref()
            .unwrap_or_else(|| panic!("{tool_name} should have allowed_callers"));
        assert!(
            callers.contains(&"code_execution_20250825".to_string()),
            "{tool_name} should allow code_execution_20250825"
        );
    }
}

#[test]
fn test_delete_tools_excluded_from_programmatic_calling() {
    let tools = list_tools();
    let delete_tools = ["delete_card", "delete_list"];

    for tool_name in delete_tools {
        let tool = tools.iter().find(|t| t.name == tool_name).unwrap();
        assert!(
            tool.annotations.is_none(),
            "{tool_name} should NOT have annotations (destructive operation)"
        );
    }
}
