use omnitool::tools::options::{OptionValue, ToolOptions};
use omnitool::tools::url_tool::UrlTool;
use omnitool::tools::{Tool, ToolCategory, ToolInput};

fn action(name: &str) -> ToolOptions {
    ToolOptions::new().with("action", OptionValue::Text(name.to_string()))
}

#[test]
fn url_describes_itself() {
    assert_eq!(UrlTool.id(), "url_encoder");
    assert_eq!(UrlTool.name(), "URL Encoder/Decoder");
    assert_eq!(UrlTool.category(), ToolCategory::Encoder);
}

#[test]
fn url_encodes_all_but_unreserved_bytes() {
    assert_eq!(UrlTool::encode("hello world").result, "hello%20world");
    assert_eq!(UrlTool::encode("a-b_c.d~e").result, "a-b_c.d~e");
    assert_eq!(UrlTool::encode("AZaz09").result, "AZaz09");
    assert_eq!(UrlTool::encode("a+b&c=d/e?f").result, "a%2Bb%26c%3Dd%2Fe%3Ff");
    assert_eq!(UrlTool::encode("é").result, "%C3%A9");
    assert_eq!(UrlTool::encode("100%").result, "100%25");
    assert_eq!(UrlTool::encode("\n\u{7f}").result, "%0A%7F");
    assert_eq!(UrlTool::encode("").result, "");
    assert_eq!(UrlTool::encode("x y").error, None);
}

#[test]
fn url_encodes_by_default() {
    let bare = UrlTool.execute(ToolInput { value: "a b".to_string(), options: ToolOptions::new() });
    assert_eq!(bare.result, "a%20b");
    let named = UrlTool.execute(ToolInput { value: "a b".to_string(), options: action("encode") });
    assert_eq!(named.result, "a%20b");
    let other = UrlTool.execute(ToolInput { value: "a b".to_string(), options: action("Decode") });
    assert_eq!(other.result, "a%20b");
}

#[test]
fn url_decodes_percent_sequences() {
    let output =
        UrlTool.execute(ToolInput { value: "hello%20world%21".to_string(), options: action("decode") });
    assert_eq!(output.result, "hello world!");
    assert_eq!(output.error, None);
    assert_eq!(UrlTool::decode("%C3%A9").result, "é");
    assert_eq!(UrlTool::decode("%c3%a9").result, "é");
    assert_eq!(UrlTool::decode("a+b").result, "a+b");
    assert_eq!(UrlTool::decode("plain").result, "plain");
}

#[test]
fn url_decode_refuses_what_is_not_utf8() {
    let output = UrlTool.execute(ToolInput { value: "%ff".to_string(), options: action("decode") });
    assert_eq!(output.result, "");
    assert_eq!(
        output.error,
        Some("Decoding failed: invalid utf-8 sequence of 1 bytes from index 0".to_string())
    );
    let cut = UrlTool::decode("ab%C3");
    assert_eq!(cut.result, "");
    assert!(cut.error.unwrap().starts_with("Decoding failed: "));
}

#[test]
fn url_round_trip() {
    for text in ["", "hello world", "a/b?c=d&e=f", "é ü 日本", "100% sure", "~_-."] {
        let encoded = UrlTool::encode(text);
        assert_eq!(encoded.error, None);
        let decoded = UrlTool::decode(&encoded.result);
        assert_eq!(decoded.error, None);
        assert_eq!(decoded.result, text);
    }
}
