//! Percent-encoding and decoding of text.

use super::{
    decode_requested, decoding_failed, decoding_failure, succeeded, wants_decode, Tool,
    ToolCategory, ToolInput, ToolInputView, ToolOutput, ToolOutputView,
};
use crate::codec::percent::{decode, encode, percent_decoding, percent_encoded};
use crate::codec::utf8::{utf8_error_message, utf8_error_text};
use vstd::prelude::*;
use vstd::string::*;
use vstd::utf8::*;

verus! {

/// Percent-encodes the UTF-8 bytes of the text as a URL component, or,
/// under the action `decode`, turns percent sequences back into text.
pub struct UrlTool;

/// What decoding makes of `value`.
pub open spec fn url_decoded(value: Seq<char>) -> ToolOutputView {
    match percent_decoding(value) {
        Ok(text) => succeeded(text),
        Err(e) => decoding_failed(utf8_error_text(e)),
    }
}

/// What encoding makes of `value`.
pub open spec fn url_encoded(value: Seq<char>) -> ToolOutputView {
    succeeded(percent_encoded(encode_utf8(value)))
}

impl UrlTool {
    /// Decodes `value`.
    pub fn decode(value: &str) -> (out: ToolOutput)
        ensures
            out@ == url_decoded(value@),
            out@.well_formed(),
    {
        match decode(value) {
            Ok(text) => ToolOutput::success(text),
            Err(e) => decoding_failure(utf8_error_message(&e).as_str()),
        }
    }

    /// Encodes `value`.
    pub fn encode(value: &str) -> (out: ToolOutput)
        ensures
            out@ == url_encoded(value@),
            out@.well_formed(),
    {
        ToolOutput::success(encode(value))
    }
}

impl Tool for UrlTool {
    open spec fn tool_id(&self) -> Seq<char> {
        "url_encoder"@
    }

    open spec fn label(&self) -> Seq<char> {
        "URL Encoder/Decoder"@
    }

    open spec fn kind(&self) -> ToolCategory {
        ToolCategory::Encoder
    }

    open spec fn outcome(&self, input: ToolInputView) -> ToolOutputView {
        if decode_requested(input.options) {
            url_decoded(input.value)
        } else {
            url_encoded(input.value)
        }
    }

    fn id(&self) -> (r: &'static str) {
        proof {
            reveal_strlit("url_encoder");
        }
        "url_encoder"
    }

    fn name(&self) -> (r: &'static str) {
        "URL Encoder/Decoder"
    }

    fn category(&self) -> (r: ToolCategory) {
        ToolCategory::Encoder
    }

    fn execute(&self, input: ToolInput) -> (out: ToolOutput) {
        if wants_decode(&input.options) {
            UrlTool::decode(input.value.as_str())
        } else {
            UrlTool::encode(input.value.as_str())
        }
    }
}

} // verus!
