//! Inspection of JSON Web Tokens: the header and the payload, decoded and
//! printed. The signature is looked for, never checked.

use super::{
    failed, succeeded, Tool, ToolCategory, ToolInput, ToolInputView, ToolOutput, ToolOutputView,
};
use crate::codec::base64::{decode_url_safe, url_safe_decoding};
use crate::codec::json::{
    error_message, flag_value, json_error_text, json_flag, json_object, json_or_null,
    json_parse_bytes, json_pretty, members_view, object_value, parse_bytes, to_pretty,
    value_or_null,
};
use crate::text::{trim, trimmed};
use vstd::prelude::*;
use vstd::slice::*;
use vstd::string::*;
use vstd::utf8::*;

verus! {

/// Shows what a token holds: its header and payload as JSON, and whether a
/// signature follows them.
pub struct JwtTool;

/// The full stop that separates the segments of a token.
pub const DOT: u8 = 0x2e;

/// The sign that fills a segment up to a multiple of four symbols.
pub const PAD: u8 = 0x3d;

/// The index of the first full stop at or after `from`, or the length of
/// `bytes` where there is none.
pub open spec fn next_dot(bytes: Seq<u8>, from: int) -> int
    decreases bytes.len() - from,
{
    if from < 0 || from >= bytes.len() {
        bytes.len() as int
    } else if bytes[from] == DOT {
        from
    } else {
        next_dot(bytes, from + 1)
    }
}

/// The leading segments of a token, as they stand in the text.
pub struct Segments<'a> {
    pub header: &'a [u8],
    pub payload: &'a [u8],
    /// Whether a third segment follows the payload.
    pub signature_present: bool,
}

/// The mathematical value of a [`Segments`].
pub struct SegmentsView {
    pub header: Seq<u8>,
    pub payload: Seq<u8>,
    pub signature_present: bool,
}

impl<'a> View for Segments<'a> {
    type V = SegmentsView;

    open spec fn view(&self) -> SegmentsView {
        SegmentsView {
            header: self.header@,
            payload: self.payload@,
            signature_present: self.signature_present,
        }
    }
}

/// The segments of `bytes`, split at full stops: the header before the
/// first, the payload up to the second or to the end; none where `bytes`
/// holds no full stop.
pub open spec fn jwt_segments(bytes: Seq<u8>) -> Option<SegmentsView> {
    let first = next_dot(bytes, 0);
    if first >= bytes.len() {
        None
    } else {
        let second = next_dot(bytes, first + 1);
        Some(
            SegmentsView {
                header: bytes.subrange(0, first),
                payload: bytes.subrange(first + 1, second),
                signature_present: second < bytes.len(),
            },
        )
    }
}

/// How many padding signs bring `len` symbols to a multiple of four.
pub open spec fn padding_len(len: nat) -> nat {
    ((4 - len % 4) % 4) as nat
}

/// `segment`, filled with padding signs up to a multiple of four symbols.
pub open spec fn padded(segment: Seq<u8>) -> Seq<u8> {
    segment + Seq::new(padding_len(segment.len()), |i: int| PAD)
}

/// The document that a segment holds: its padded form, decoded by the
/// URL-safe alphabet and parsed as JSON; none where either step fails.
pub open spec fn segment_document(segment: Seq<u8>) -> Option<serde_json::Value> {
    match url_safe_decoding(padded(segment)) {
        Ok(bytes) => match json_parse_bytes(bytes) {
            Ok(value) => Some(value),
            Err(_) => None,
        },
        Err(_) => None,
    }
}

/// The report on a token: an object of the header, the payload (each
/// `null` where the segment held no document) and the signature flag.
pub open spec fn jwt_report(
    header: Option<serde_json::Value>,
    payload: Option<serde_json::Value>,
    signature_present: bool,
) -> serde_json::Value {
    json_object(
        seq![
            ("header"@, json_or_null(header)),
            ("payload"@, json_or_null(payload)),
            ("signature_present"@, json_flag(signature_present)),
        ],
    )
}

/// What printing makes of a report.
pub open spec fn jwt_printed(report: serde_json::Value) -> ToolOutputView {
    match json_pretty(report) {
        Ok(text) => succeeded(text),
        Err(e) => failed(json_error_text(e)),
    }
}

/// What the tool makes of `value`.
pub open spec fn jwt_outcome(value: Seq<char>) -> ToolOutputView {
    match jwt_segments(encode_utf8(trimmed(value))) {
        Some(segments) => jwt_printed(
            jwt_report(
                segment_document(segments.header),
                segment_document(segments.payload),
                segments.signature_present,
            ),
        ),
        None => failed("Invalid JWT format: Missing segments"@),
    }
}

/// Finds the first full stop at or after `from`; the length of `bytes`
/// where there is none.
pub fn find_dot(bytes: &[u8], from: usize) -> (r: usize)
    ensures
        r == next_dot(bytes@, from as int),
        r <= bytes@.len(),
        from <= bytes@.len() ==> from <= r,
{
    if from >= bytes.len() {
        return bytes.len();
    }
    let mut i: usize = from;
    while i < bytes.len() && bytes[i] != DOT
        invariant
            from <= i <= bytes@.len(),
            next_dot(bytes@, from as int) == next_dot(bytes@, i as int),
        decreases bytes@.len() - i,
    {
        i += 1;
    }
    i
}

/// Splits a token into its leading segments.
pub fn split_segments<'a>(bytes: &'a [u8]) -> (r: Option<Segments<'a>>)
    ensures
        match r {
            Some(segments) => jwt_segments(bytes@) == Some(segments@),
            None => jwt_segments(bytes@) is None,
        },
{
    let first = find_dot(bytes, 0);
    if first >= bytes.len() {
        return None;
    }
    let second = find_dot(bytes, first + 1);
    Some(
        Segments {
            header: slice_subrange(bytes, 0, first),
            payload: slice_subrange(bytes, first + 1, second),
            signature_present: second < bytes.len(),
        },
    )
}

/// Fills a segment with padding signs up to a multiple of four symbols.
pub fn pad_segment(segment: &[u8]) -> (r: Vec<u8>)
    ensures
        r@ == padded(segment@),
{
    let mut bytes = slice_to_vec(segment);
    let ghost start = bytes@;
    while bytes.len() % 4 != 0
        invariant
            start == segment@,
            bytes@.len() >= start.len(),
            bytes@.len() - start.len() <= padding_len(start.len()),
            bytes@ == start + Seq::new((bytes@.len() - start.len()) as nat, |i: int| PAD),
        decreases padding_len(start.len()) - (bytes@.len() - start.len()),
    {
        bytes.push(PAD);
        assert(bytes@ =~= start + Seq::new((bytes@.len() - start.len()) as nat, |i: int| PAD));
    }
    bytes
}

/// Reads the document that a segment holds.
pub fn decode_segment(segment: &[u8]) -> (r: Option<serde_json::Value>)
    ensures
        r == segment_document(segment@),
{
    let filled = pad_segment(segment);
    match decode_url_safe(filled.as_slice()) {
        Ok(bytes) => match parse_bytes(bytes.as_slice()) {
            Ok(value) => Some(value),
            Err(_) => None,
        },
        Err(_) => None,
    }
}

impl JwtTool {
    /// Builds the report on a token from what its segments held.
    pub fn report(
        header: Option<serde_json::Value>,
        payload: Option<serde_json::Value>,
        signature_present: bool,
    ) -> (r: serde_json::Value)
        ensures
            r == jwt_report(header, payload, signature_present),
    {
        let mut members: Vec<(String, serde_json::Value)> = Vec::new();
        members.push(("header".to_owned(), value_or_null(header)));
        members.push(("payload".to_owned(), value_or_null(payload)));
        members.push(("signature_present".to_owned(), flag_value(signature_present)));
        assert(members_view(members@) =~= seq![
            ("header"@, json_or_null(header)),
            ("payload"@, json_or_null(payload)),
            ("signature_present"@, json_flag(signature_present)),
        ]);
        object_value(members)
    }

    /// Prints a report.
    pub fn print(report: &serde_json::Value) -> (out: ToolOutput)
        ensures
            out@ == jwt_printed(*report),
            out@.well_formed(),
    {
        match to_pretty(report) {
            Ok(text) => ToolOutput::success(text),
            Err(e) => ToolOutput::failure(error_message(&e)),
        }
    }
}

impl Tool for JwtTool {
    open spec fn tool_id(&self) -> Seq<char> {
        "jwt_debugger"@
    }

    open spec fn label(&self) -> Seq<char> {
        "JWT Debugger"@
    }

    open spec fn kind(&self) -> ToolCategory {
        ToolCategory::Converter
    }

    open spec fn outcome(&self, input: ToolInputView) -> ToolOutputView {
        jwt_outcome(input.value)
    }

    fn id(&self) -> (r: &'static str) {
        proof {
            reveal_strlit("jwt_debugger");
        }
        "jwt_debugger"
    }

    fn name(&self) -> (r: &'static str) {
        "JWT Debugger"
    }

    fn category(&self) -> (r: ToolCategory) {
        ToolCategory::Converter
    }

    fn execute(&self, input: ToolInput) -> (out: ToolOutput) {
        match split_segments(trim(input.value.as_str()).as_bytes()) {
            Some(segments) => {
                let header = decode_segment(segments.header);
                let payload = decode_segment(segments.payload);
                let report = JwtTool::report(header, payload, segments.signature_present);
                JwtTool::print(&report)
            },
            None => ToolOutput::failure("Invalid JWT format: Missing segments".to_owned()),
        }
    }
}

} // verus!
