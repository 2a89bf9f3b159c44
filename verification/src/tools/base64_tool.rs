//! Base64 encoding and decoding of text.

use super::{
    decode_requested, decoding_failed, decoding_failure, failed, succeeded, wants_decode, Tool,
    ToolCategory, ToolInput, ToolInputView, ToolOutput, ToolOutputView,
};
use crate::codec::base64::{
    all_standard_symbols, decode_error_message, decode_error_text, decode_standard,
    encode_standard, encoded_len_fits, is_standard_symbol, standard_decodes_to,
    standard_decoding, standard_encoding,
};
use crate::codec::utf8::{lossy_text, to_text_lossy};
use crate::text::{lemma_trimmed_identity, trim, trimmed};
use vstd::prelude::*;
use vstd::string::*;
use vstd::utf8::*;

verus! {

/// Standard Base64 with padding. Encodes the UTF-8 bytes of the text, or,
/// under the action `decode`, decodes the trimmed text and reads the bytes
/// as text, replacing what is not UTF-8.
pub struct Base64Tool;

/// What decoding makes of `value`.
pub open spec fn base64_decoded(value: Seq<char>) -> ToolOutputView {
    match standard_decoding(encode_utf8(trimmed(value))) {
        Ok(bytes) => succeeded(lossy_text(bytes)),
        Err(e) => decoding_failed(decode_error_text(e)),
    }
}

/// What encoding makes of `value`. Text whose encoding would be longer than
/// any text can be is refused.
pub open spec fn base64_encoded(value: Seq<char>) -> ToolOutputView {
    if encoded_len_fits(encode_utf8(value).len()) {
        succeeded(standard_encoding(encode_utf8(value)))
    } else {
        failed("Encoding failed: input too long"@)
    }
}

/// Whether `len` bytes can be encoded.
fn len_fits(len: usize) -> (r: bool)
    ensures
        r == encoded_len_fits(len as nat),
{
    let groups: usize = if len % 3 == 0 {
        len / 3
    } else {
        len / 3 + 1
    };
    groups <= usize::MAX / 4
}

impl Base64Tool {
    /// Decodes `value`.
    pub fn decode(value: &str) -> (out: ToolOutput)
        ensures
            out@ == base64_decoded(value@),
            out@.well_formed(),
    {
        match decode_standard(trim(value).as_bytes()) {
            Ok(bytes) => ToolOutput::success(to_text_lossy(bytes.as_slice())),
            Err(e) => decoding_failure(decode_error_message(&e).as_str()),
        }
    }

    /// Encodes `value`. What it returns, `decode` turns back into `value`.
    pub fn encode(value: &str) -> (out: ToolOutput)
        ensures
            out@ == base64_encoded(value@),
            out@.well_formed(),
            out@.error is None ==> base64_decoded(out@.result) == succeeded(value@),
    {
        let bytes = value.as_bytes();
        if len_fits(bytes.len()) {
            let encoded = encode_standard(bytes);
            proof {
                lemma_decode_inverts_encode(value@, encoded@);
            }
            ToolOutput::success(encoded)
        } else {
            ToolOutput::failure("Encoding failed: input too long".to_owned())
        }
    }
}

/// Decoding inverts encoding: text that is made of symbols of the standard
/// alphabet and `=`, and that the decoder takes back to the bytes of
/// `text`, is decoded to `text`. The encoder returns such text.
pub proof fn lemma_decode_inverts_encode(text: Seq<char>, encoded: Seq<char>)
    requires
        all_standard_symbols(encoded),
        standard_decodes_to(encode_utf8(encoded), encode_utf8(text)),
    ensures
        base64_decoded(encoded) == succeeded(text),
{
    if encoded.len() > 0 {
        assert(is_standard_symbol(encoded.first()));
        assert(is_standard_symbol(encoded.last()));
    }
    lemma_trimmed_identity(encoded);
    encode_utf8_valid_utf8(text);
    encode_utf8_decode_utf8(text);
}

impl Tool for Base64Tool {
    open spec fn tool_id(&self) -> Seq<char> {
        "base64"@
    }

    open spec fn label(&self) -> Seq<char> {
        "Base64 Encoder/Decoder"@
    }

    open spec fn kind(&self) -> ToolCategory {
        ToolCategory::Encoder
    }

    open spec fn outcome(&self, input: ToolInputView) -> ToolOutputView {
        if decode_requested(input.options) {
            base64_decoded(input.value)
        } else {
            base64_encoded(input.value)
        }
    }

    fn id(&self) -> (r: &'static str) {
        proof {
            reveal_strlit("base64");
        }
        "base64"
    }

    fn name(&self) -> (r: &'static str) {
        "Base64 Encoder/Decoder"
    }

    fn category(&self) -> (r: ToolCategory) {
        ToolCategory::Encoder
    }

    /// Runs the tool. Where it encoded, decoding the result gives the
    /// input's text back.
    fn execute(&self, input: ToolInput) -> (out: ToolOutput)
        ensures
            !decode_requested(input@.options) && out@.error is None ==> base64_decoded(
                out@.result,
            ) == succeeded(input@.value),
    {
        if wants_decode(&input.options) {
            Base64Tool::decode(input.value.as_str())
        } else {
            Base64Tool::encode(input.value.as_str())
        }
    }
}

} // verus!
