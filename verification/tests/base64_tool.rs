use omnitool::tools::base64_tool::Base64Tool;
use omnitool::tools::options::{OptionValue, ToolOptions};
use omnitool::tools::{Tool, ToolCategory, ToolInput};

fn action(name: &str) -> ToolOptions {
    ToolOptions::new().with("action", OptionValue::Text(name.to_string()))
}

#[test]
fn test_base64_encode() {
    let tool = Base64Tool;
    let input = ToolInput {
        value: "Hello World".to_string(),
        options: action("encode"),
    };
    let output = tool.execute(input);
    assert_eq!(output.result, "SGVsbG8gV29ybGQ=");
    assert!(output.error.is_none());
}

#[test]
fn test_base64_decode() {
    let tool = Base64Tool;
    let input = ToolInput {
        value: "SGVsbG8gV29ybGQ=".to_string(),
        options: action("decode"),
    };
    let output = tool.execute(input);
    assert_eq!(output.result, "Hello World");
    assert!(output.error.is_none());
}

#[test]
fn test_base64_decode_invalid() {
    let tool = Base64Tool;
    let input = ToolInput {
        value: "!!!Invalid!!!".to_string(),
        options: action("decode"),
    };
    let output = tool.execute(input);
    assert!(output.error.is_some());
    assert_eq!(output.result, "");
}

#[test]
fn base64_describes_itself() {
    assert_eq!(Base64Tool.id(), "base64");
    assert_eq!(Base64Tool.name(), "Base64 Encoder/Decoder");
    assert_eq!(Base64Tool.category(), ToolCategory::Encoder);
}

#[test]
fn base64_encodes_by_default() {
    let bare = ToolInput { value: "Hello World".to_string(), options: ToolOptions::new() };
    assert_eq!(Base64Tool.execute(bare).result, "SGVsbG8gV29ybGQ=");
    let other = ToolInput { value: "Hello World".to_string(), options: action("reverse") };
    assert_eq!(Base64Tool.execute(other).result, "SGVsbG8gV29ybGQ=");
    let upper = ToolInput { value: "Hello World".to_string(), options: action("DECODE") };
    assert_eq!(Base64Tool.execute(upper).result, "SGVsbG8gV29ybGQ=");
    let flag = ToolInput {
        value: "Hello World".to_string(),
        options: ToolOptions::new().with("action", OptionValue::Flag(true)),
    };
    assert_eq!(Base64Tool.execute(flag).result, "SGVsbG8gV29ybGQ=");
}

#[test]
fn base64_encodes_the_utf8_bytes() {
    let output = Base64Tool::encode("héllo wörld");
    assert_eq!(output.result, "aMOpbGxvIHfDtnJsZA==");
    assert_eq!(output.error, None);
    let empty = Base64Tool::encode("");
    assert_eq!(empty.result, "");
    assert_eq!(empty.error, None);
    assert_eq!(Base64Tool::encode(" a ").result, "IGEg");
}

#[test]
fn base64_decode_trims_first() {
    let output = Base64Tool::decode("  SGVsbG8gV29ybGQ=\n");
    assert_eq!(output.result, "Hello World");
    assert_eq!(output.error, None);
}

#[test]
fn base64_decode_replaces_what_is_not_utf8() {
    let output = Base64Tool::decode("//5BQkNERUZH");
    assert_eq!(output.result, "\u{fffd}\u{fffd}ABCDEFG");
    assert_eq!(output.error, None);
}

#[test]
fn base64_decode_reports_the_decoder_words() {
    let bad_symbol = Base64Tool::decode("!!!Invalid!!!");
    assert_eq!(bad_symbol.result, "");
    assert_eq!(
        bad_symbol.error,
        Some("Decoding failed: Invalid symbol 33, offset 12.".to_string())
    );
    let bad_padding = Base64Tool::decode("SGVsbG8gV29ybGQ");
    assert_eq!(bad_padding.result, "");
    assert_eq!(bad_padding.error, Some("Decoding failed: Invalid padding".to_string()));
    let url_alphabet = Base64Tool::decode("SGVsbG8_");
    assert_eq!(url_alphabet.result, "");
    assert!(url_alphabet.error.unwrap().starts_with("Decoding failed: "));
}

#[test]
fn base64_round_trip() {
    for text in ["", "a", "ab", "abc", "Hello World", "héllo wörld", "  spaced  ", "{\"a\":1}", "日本語"] {
        let encoded = Base64Tool.execute(ToolInput {
            value: text.to_string(),
            options: action("encode"),
        });
        assert_eq!(encoded.error, None);
        let decoded = Base64Tool.execute(ToolInput {
            value: encoded.result,
            options: action("decode"),
        });
        assert_eq!(decoded.error, None);
        assert_eq!(decoded.result, text);
    }
}
