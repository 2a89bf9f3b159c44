use omnitool::tools::json_tool::{indent_of, invalid_json_failure, wants_minify, JsonTool};
use omnitool::tools::options::{OptionValue, ToolOptions};
use omnitool::tools::{Tool, ToolCategory, ToolInput};

#[test]
fn test_json_format() {
    let tool = JsonTool;
    let input = ToolInput {
        value: r#"{"a":1,"b":2}"#.to_string(),
        options: ToolOptions::new().with("indent", OptionValue::Count(2)),
    };
    let output = tool.execute(input);
    assert_eq!(output.result, "{\n  \"a\": 1,\n  \"b\": 2\n}");
}

#[test]
fn test_json_minify() {
    let tool = JsonTool;
    let input = ToolInput {
        value: "{\n  \"a\": 1\n}".to_string(),
        options: ToolOptions::new().with("minify", OptionValue::Flag(true)),
    };
    let output = tool.execute(input);
    assert_eq!(output.result, "{\"a\":1}");
}

#[test]
fn json_describes_itself() {
    assert_eq!(JsonTool.id(), "json_formatter");
    assert_eq!(JsonTool.name(), "JSON Formatter");
    assert_eq!(JsonTool.category(), ToolCategory::Formatter);
}

#[test]
fn json_indent_defaults_to_two() {
    let output = JsonTool.execute(ToolInput {
        value: r#"{"a":[1,{"b":null}]}"#.to_string(),
        options: ToolOptions::new(),
    });
    assert_eq!(
        output.result,
        "{\n  \"a\": [\n    1,\n    {\n      \"b\": null\n    }\n  ]\n}"
    );
    assert_eq!(output.error, None);
}

#[test]
fn json_indent_is_counted_in_spaces() {
    let four = JsonTool.execute(ToolInput {
        value: r#"{"a":[true]}"#.to_string(),
        options: ToolOptions::new().with("indent", OptionValue::Count(4)),
    });
    assert_eq!(four.result, "{\n    \"a\": [\n        true\n    ]\n}");
    let none = JsonTool.execute(ToolInput {
        value: r#"{"a":[true]}"#.to_string(),
        options: ToolOptions::new().with("indent", OptionValue::Count(0)),
    });
    assert_eq!(none.result, "{\n\"a\": [\ntrue\n]\n}");
    let one = JsonTool.execute(ToolInput {
        value: "[1]".to_string(),
        options: ToolOptions::new().with("indent", OptionValue::Count(1)),
    });
    assert_eq!(one.result, "[\n 1\n]");
}

#[test]
fn json_minify_ignores_indent() {
    let output = JsonTool.execute(ToolInput {
        value: "[ 1 , 2 , { \"k\" : \"v\" } ]".to_string(),
        options: ToolOptions::new()
            .with("indent", OptionValue::Count(8))
            .with("minify", OptionValue::Flag(true)),
    });
    assert_eq!(output.result, "[1,2,{\"k\":\"v\"}]");
    assert_eq!(output.error, None);
}

#[test]
fn json_reads_its_options_leniently() {
    let empty = ToolOptions::new();
    assert_eq!(indent_of(&empty), 2);
    assert!(!wants_minify(&empty));
    let odd = ToolOptions::new()
        .with("indent", OptionValue::Text("4".to_string()))
        .with("minify", OptionValue::Count(1));
    assert_eq!(indent_of(&odd), 2);
    assert!(!wants_minify(&odd));
    let set = ToolOptions::new()
        .with("indent", OptionValue::Count(3))
        .with("minify", OptionValue::Flag(false));
    assert_eq!(indent_of(&set), 3);
    assert!(!wants_minify(&set));
    assert!(wants_minify(&set.with("minify", OptionValue::Flag(true))));
}

#[test]
fn json_names_the_parse_failure() {
    let output = JsonTool.execute(ToolInput {
        value: r#"{"a": 1,}"#.to_string(),
        options: ToolOptions::new(),
    });
    assert_eq!(output.result, "");
    assert_eq!(
        output.error,
        Some("Invalid JSON: trailing comma at line 1 column 9".to_string())
    );
    let empty = JsonTool.execute(ToolInput { value: "".to_string(), options: ToolOptions::new() });
    assert_eq!(empty.result, "");
    assert_eq!(
        empty.error,
        Some("Invalid JSON: EOF while parsing a value at line 1 column 0".to_string())
    );
}

#[test]
fn json_failure_carries_the_detail() {
    let output = invalid_json_failure("expected value at line 1 column 1");
    assert_eq!(output.result, "");
    assert_eq!(
        output.error,
        Some("Invalid JSON: expected value at line 1 column 1".to_string())
    );
}

#[test]
fn json_formats_scalars_and_keeps_text() {
    let number = JsonTool.execute(ToolInput { value: " 42 ".to_string(), options: ToolOptions::new() });
    assert_eq!(number.result, "42");
    let text = JsonTool.execute(ToolInput {
        value: "\"\\u00e9\\n\"".to_string(),
        options: ToolOptions::new(),
    });
    assert_eq!(text.result, "\"é\\n\"");
}

#[test]
fn json_pretty_printing_is_idempotent() {
    for source in [
        r#"{"a":1,"b":2}"#,
        r#"[1,2,3,"test"]"#,
        r#"{"nested":{"list":[1,2,{"x":null}],"flag":true},"s":"text"}"#,
        "[]",
        "{}",
        "\"plain\"",
        "-17",
    ] {
        let once = JsonTool.execute(ToolInput {
            value: source.to_string(),
            options: ToolOptions::new().with("indent", OptionValue::Count(2)),
        });
        assert_eq!(once.error, None);
        let twice = JsonTool.execute(ToolInput {
            value: once.result.clone(),
            options: ToolOptions::new().with("indent", OptionValue::Count(2)),
        });
        assert_eq!(twice.error, None);
        assert_eq!(twice.result, once.result);
    }
}

#[test]
fn json_prints_a_parsed_document_both_ways() {
    let value = serde_json::from_str::<serde_json::Value>("{\"b\": [1, 2], \"a\": false}").unwrap();
    assert_eq!(JsonTool::minify(&value).result, "{\"a\":false,\"b\":[1,2]}");
    assert_eq!(
        JsonTool::format(&value, 2).result,
        "{\n  \"a\": false,\n  \"b\": [\n    1,\n    2\n  ]\n}"
    );
    assert_eq!(JsonTool::format(&value, 2).error, None);
}
