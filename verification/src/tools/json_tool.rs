//! Pretty-printing and minifying of JSON text.

use super::options::{count_option, flag_option, OptionsView, ToolOptions};
use super::{
    failed, succeeded, Tool, ToolCategory, ToolInput, ToolInputView, ToolOutput, ToolOutputView,
};
use crate::codec::json::{
    error_message, json_compact, json_error_text, json_indented, json_parse, parse_text,
    to_compact, to_indented,
};
use crate::codec::utf8::{to_text, utf8_error_message, utf8_error_text, utf8_failure};
use vstd::prelude::*;
use vstd::string::*;
use vstd::utf8::*;

verus! {

/// Reprints JSON text: with `indent` spaces per nesting level (two where
/// the settings name none), or, under the flag `minify`, as compactly as
/// JSON allows.
pub struct JsonTool;

/// The number of spaces per nesting level that the settings ask for.
pub open spec fn indent_width(options: OptionsView) -> usize {
    match count_option(options, "indent"@) {
        Some(n) => n as usize,
        None => 2,
    }
}

/// Whether the settings ask for the compact form.
pub open spec fn minify_requested(options: OptionsView) -> bool {
    flag_option(options, "minify"@) == Some(true)
}

/// `width` spaces, as bytes.
pub open spec fn spaces(width: nat) -> Seq<u8> {
    Seq::new(width, |i: int| 0x20u8)
}

/// The outcome for text that is not JSON, from the parser's own words.
pub open spec fn invalid_json(detail: Seq<char>) -> ToolOutputView {
    failed("Invalid JSON: "@ + detail)
}

/// What minifying makes of a parsed document.
pub open spec fn json_minified(value: serde_json::Value) -> ToolOutputView {
    match json_compact(value) {
        Ok(text) => succeeded(text),
        Err(e) => failed(json_error_text(e)),
    }
}

/// What pretty-printing with `width` spaces per level makes of a parsed
/// document.
pub open spec fn json_formatted(value: serde_json::Value, width: usize) -> ToolOutputView {
    match json_indented(value, spaces(width as nat)) {
        Ok(bytes) => if valid_utf8(bytes) {
            succeeded(decode_utf8(bytes))
        } else {
            failed(utf8_error_text(utf8_failure(bytes)))
        },
        Err(e) => failed(json_error_text(e)),
    }
}

/// What the settings make of a parsed document.
pub open spec fn json_rendered(value: serde_json::Value, options: OptionsView) -> ToolOutputView {
    if minify_requested(options) {
        json_minified(value)
    } else {
        json_formatted(value, indent_width(options))
    }
}

/// Reads the indent width from the settings.
pub fn indent_of(options: &ToolOptions) -> (r: usize)
    ensures
        r == indent_width(options@),
{
    match options.get_count("indent") {
        Some(n) => n as usize,
        None => 2,
    }
}

/// Reads the `minify` flag from the settings.
pub fn wants_minify(options: &ToolOptions) -> (r: bool)
    ensures
        r == minify_requested(options@),
{
    match options.get_flag("minify") {
        Some(flag) => flag,
        None => false,
    }
}

/// The output for text that is not JSON.
pub fn invalid_json_failure(detail: &str) -> (out: ToolOutput)
    ensures
        out@ == invalid_json(detail@),
{
    let mut message = "Invalid JSON: ".to_owned();
    message.append(detail);
    ToolOutput::failure(message)
}

/// A run of `width` spaces.
fn indent_bytes(width: usize) -> (r: Vec<u8>)
    ensures
        r@ == spaces(width as nat),
{
    let mut bytes: Vec<u8> = Vec::new();
    let mut i: usize = 0;
    while i < width
        invariant
            i <= width,
            bytes@ == spaces(i as nat),
        decreases width - i,
    {
        bytes.push(0x20u8);
        i += 1;
        assert(bytes@ =~= spaces(i as nat));
    }
    bytes
}

impl JsonTool {
    /// Prints a parsed document in its most compact form.
    pub fn minify(value: &serde_json::Value) -> (out: ToolOutput)
        ensures
            out@ == json_minified(*value),
            out@.well_formed(),
    {
        match to_compact(value) {
            Ok(text) => ToolOutput::success(text),
            Err(e) => ToolOutput::failure(error_message(&e)),
        }
    }

    /// Pretty-prints a parsed document with `width` spaces per nesting level.
    pub fn format(value: &serde_json::Value, width: usize) -> (out: ToolOutput)
        ensures
            out@ == json_formatted(*value, width),
            out@.well_formed(),
    {
        let indent = indent_bytes(width);
        match to_indented(value, indent.as_slice()) {
            Ok(bytes) => match to_text(bytes) {
                Ok(text) => ToolOutput::success(text),
                Err(e) => ToolOutput::failure(utf8_error_message(&e)),
            },
            Err(e) => ToolOutput::failure(error_message(&e)),
        }
    }
}

/// Pretty-printing reproduces its own output wherever the parser reads that
/// output back as the document that was printed.
pub proof fn lemma_format_reproduces_what_parses_back(
    value: serde_json::Value,
    text: Seq<char>,
    options: OptionsView,
)
    requires
        !minify_requested(options),
        json_formatted(value, indent_width(options)) == succeeded(text),
        json_parse(text) == Ok::<serde_json::Value, serde_json::Error>(value),
    ensures
        JsonTool.outcome(ToolInputView { value: text, options }) == succeeded(text),
{
}

impl Tool for JsonTool {
    open spec fn tool_id(&self) -> Seq<char> {
        "json_formatter"@
    }

    open spec fn label(&self) -> Seq<char> {
        "JSON Formatter"@
    }

    open spec fn kind(&self) -> ToolCategory {
        ToolCategory::Formatter
    }

    open spec fn outcome(&self, input: ToolInputView) -> ToolOutputView {
        match json_parse(input.value) {
            Ok(value) => json_rendered(value, input.options),
            Err(e) => invalid_json(json_error_text(e)),
        }
    }

    fn id(&self) -> (r: &'static str) {
        proof {
            reveal_strlit("json_formatter");
        }
        "json_formatter"
    }

    fn name(&self) -> (r: &'static str) {
        "JSON Formatter"
    }

    fn category(&self) -> (r: ToolCategory) {
        ToolCategory::Formatter
    }

    fn execute(&self, input: ToolInput) -> (out: ToolOutput) {
        let width = indent_of(&input.options);
        let minify = wants_minify(&input.options);
        match parse_text(input.value.as_str()) {
            Ok(value) => if minify {
                JsonTool::minify(&value)
            } else {
                JsonTool::format(&value, width)
            },
            Err(e) => invalid_json_failure(error_message(&e).as_str()),
        }
    }
}

} // verus!
