use omnitool::dispatch::{execute_tool, find_tool, tool_not_found, RegisteredTool};
use omnitool::tools::options::{OptionValue, ToolOptions};
use omnitool::tools::{Tool, ToolInput, ToolOutput};

fn input(value: &str, options: ToolOptions) -> ToolInput {
    ToolInput { value: value.to_string(), options }
}

fn action(name: &str) -> ToolOptions {
    ToolOptions::new().with("action", OptionValue::Text(name.to_string()))
}

#[test]
fn dispatch_formats_json() {
    let output = execute_tool(
        "json_formatter",
        input(r#"{"a":1,"b":2}"#, ToolOptions::new().with("indent", OptionValue::Count(2))),
    );
    assert_eq!(output.result, "{\n  \"a\": 1,\n  \"b\": 2\n}");
    assert_eq!(output.error, None);
}

#[test]
fn dispatch_encodes_base64() {
    let output = execute_tool("base64", input("Hello World", action("encode")));
    assert_eq!(output.result, "SGVsbG8gV29ybGQ=");
    assert_eq!(output.error, None);
}

#[test]
fn dispatch_decodes_base64() {
    let output = execute_tool("base64", input("SGVsbG8gV29ybGQ=", action("decode")));
    assert_eq!(output.result, "Hello World");
    assert_eq!(output.error, None);
}

#[test]
fn dispatch_reports_undecodable_base64() {
    let output = execute_tool("base64", input("!!!Invalid!!!", action("decode")));
    assert!(output.error.is_some());
    assert_eq!(output.result, "");
}

#[test]
fn dispatch_reaches_every_tool() {
    assert_eq!(execute_tool("url_encoder", input("a b", ToolOptions::new())).result, "a%20b");
    assert_eq!(
        execute_tool("jwt_debugger", input("x", ToolOptions::new())).error,
        Some("Invalid JWT format: Missing segments".to_string())
    );
    assert_eq!(execute_tool("json_formatter", input("[ ]", ToolOptions::new())).result, "[]");
    assert_eq!(execute_tool("base64", input("a", ToolOptions::new())).result, "YQ==");
}

#[test]
fn dispatch_reports_unknown_tools() {
    for id in ["", "nope", "Base64", "BASE64", "base64 ", " base64", "json", "url_encoder2", "tool's"] {
        let output = execute_tool(id, input("SGVsbG8gV29ybGQ=", action("decode")));
        assert_eq!(output.result, "");
        assert_eq!(output.error, Some(format!("Tool '{}' not found", id)));
    }
}

#[test]
fn not_found_names_the_identifier() {
    assert_eq!(
        tool_not_found("hex"),
        ToolOutput { result: "".to_string(), error: Some("Tool 'hex' not found".to_string()) }
    );
}

#[test]
fn registry_is_keyed_by_exact_identifier() {
    assert_eq!(find_tool("base64"), Some(RegisteredTool::Base64));
    assert_eq!(find_tool("json_formatter"), Some(RegisteredTool::JsonFormatter));
    assert_eq!(find_tool("url_encoder"), Some(RegisteredTool::UrlEncoder));
    assert_eq!(find_tool("jwt_debugger"), Some(RegisteredTool::JwtDebugger));
    assert_eq!(find_tool("Jwt_Debugger"), None);
    assert_eq!(find_tool(""), None);
    for tool in [
        RegisteredTool::Base64,
        RegisteredTool::JsonFormatter,
        RegisteredTool::UrlEncoder,
        RegisteredTool::JwtDebugger,
    ] {
        assert_eq!(find_tool(tool.id()), Some(tool));
        assert!(tool.id().chars().all(|c| c.is_ascii_lowercase() || c.is_ascii_digit() || c == '_'));
        assert!(!tool.name().is_empty());
    }
}

#[test]
fn registered_tool_runs_as_its_tool() {
    let output = RegisteredTool::Base64.execute(input("Hello World", ToolOptions::new()));
    assert_eq!(output.result, "SGVsbG8gV29ybGQ=");
    assert_eq!(RegisteredTool::JwtDebugger.name(), "JWT Debugger");
}

#[test]
fn failed_calls_carry_no_result() {
    let calls = [
        execute_tool("base64", input("%%%", action("decode"))),
        execute_tool("json_formatter", input("{", ToolOptions::new())),
        execute_tool("url_encoder", input("%ff", action("decode"))),
        execute_tool("jwt_debugger", input("no dots", ToolOptions::new())),
        execute_tool("missing", input("x", ToolOptions::new())),
    ];
    for output in calls {
        assert!(output.error.is_some());
        assert_eq!(output.result, "");
    }
}

#[test]
fn calls_are_repeatable() {
    let first = execute_tool("json_formatter", input("{\"k\": [1, 2]}", ToolOptions::new()));
    let second = execute_tool("json_formatter", input("{\"k\": [1, 2]}", ToolOptions::new()));
    assert_eq!(first, second);
    let bad_first = execute_tool("base64", input("???", action("decode")));
    let bad_second = execute_tool("base64", input("???", action("decode")));
    assert_eq!(bad_first, bad_second);
}
