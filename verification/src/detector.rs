//! Guesses which tool a piece of text calls for.
//!
//! The checks run in a fixed order and the first that matches wins: JSON,
//! whose brackets are unambiguous, before Base64, which many plain words
//! satisfy by accident.

use crate::codec::base64::{
    all_standard_bytes, decode_standard, is_standard_symbol, standard_decoding,
};
use crate::codec::json::{json_parse, parse_text};
use crate::text::{
    alphanumeric, is_alphanumeric, lemma_ascii_bytes_ascii_chars, lemma_trimmed_byte_len,
    lemma_trimmed_is_slice, trim, trimmed,
};
use crate::tools::options::{OptionValue, OptionValueView, OptionsView, ToolOptions};
use vstd::prelude::*;
use vstd::string::*;
use vstd::utf8::*;

verus! {

/// A guess: the tool, how sure the guess is, and the settings to start the
/// tool with.
#[derive(Debug, PartialEq, Eq)]
pub struct DetectionResult {
    pub tool_id: &'static str,
    /// The confidence in hundredths, from 0 to 100.
    pub confidence_percent: u8,
    pub initial_options: ToolOptions,
}

/// The mathematical value of a [`DetectionResult`].
pub struct DetectionResultView {
    pub tool_id: Seq<char>,
    pub confidence_percent: nat,
    pub initial_options: OptionsView,
}

impl View for DetectionResult {
    type V = DetectionResultView;

    open spec fn view(&self) -> DetectionResultView {
        DetectionResultView {
            tool_id: self.tool_id@,
            confidence_percent: self.confidence_percent as nat,
            initial_options: self.initial_options@,
        }
    }
}

/// The guess for JSON: certain, to be printed with an indent of two.
pub open spec fn json_match() -> DetectionResultView {
    DetectionResultView {
        tool_id: "json_formatter"@,
        confidence_percent: 100,
        initial_options: seq![("indent"@, OptionValueView::Count(2))],
    }
}

/// The guess for Base64: likely, to be decoded.
pub open spec fn base64_match() -> DetectionResultView {
    DetectionResultView {
        tool_id: "base64"@,
        confidence_percent: 80,
        initial_options: seq![("action"@, OptionValueView::Text("decode"@))],
    }
}

/// Whether `text` opens and closes like a JSON object or a JSON array.
pub open spec fn is_bracketed(text: Seq<char>) -> bool {
    text.len() > 0 && ((text.first() == '{' && text.last() == '}') || (text.first() == '['
        && text.last() == ']'))
}

/// A character that may occur in Base64 text: a letter, a number, `+`, `/`
/// or `=`.
pub open spec fn is_base64_char(c: char) -> bool {
    alphanumeric(c) || c == '+' || c == '/' || c == '='
}

/// Whether all of `text` may occur in Base64 text.
pub open spec fn all_base64_chars(text: Seq<char>) -> bool {
    forall|i: int| 0 <= i < text.len() ==> is_base64_char(#[trigger] text[i])
}

/// Whether `text` is long enough, at twelve bytes or more, and of the right
/// characters to be tried as Base64.
pub open spec fn is_base64_shaped(text: Seq<char>) -> bool {
    encode_utf8(text).len() >= 12 && all_base64_chars(text)
}

/// The guess, given which checks matched: the first match wins.
pub open spec fn verdict(json: bool, base64: bool) -> Option<DetectionResultView> {
    if json {
        Some(json_match())
    } else if base64 {
        Some(base64_match())
    } else {
        None
    }
}

/// Whether the JSON check matches trimmed text: it is bracketed and parses.
pub open spec fn matches_json(text: Seq<char>) -> bool {
    is_bracketed(text) && json_parse(text) is Ok
}

/// Whether the Base64 check matches trimmed text: it has the shape and
/// decodes.
pub open spec fn matches_base64(text: Seq<char>) -> bool {
    is_base64_shaped(text) && standard_decoding(encode_utf8(text)) is Ok
}

/// The guess for `text`: none for blank text, else what the checks say of
/// the trimmed text.
pub open spec fn detection(text: Seq<char>) -> Option<DetectionResultView> {
    let t = trimmed(text);
    if t.len() == 0 {
        None
    } else {
        verdict(matches_json(t), matches_base64(t))
    }
}

/// Tells whether `text` opens and closes like a JSON object or array.
pub fn has_brackets(text: &str) -> (r: bool)
    ensures
        r == is_bracketed(text@),
{
    let n = text.unicode_len();
    if n == 0 {
        return false;
    }
    let first = text.get_char(0);
    let last = text.get_char(n - 1);
    (first == '{' && last == '}') || (first == '[' && last == ']')
}

/// Tells whether `text` has the length and the characters of Base64 text.
pub fn has_base64_shape(text: &str) -> (r: bool)
    ensures
        r == is_base64_shaped(text@),
{
    if text.as_bytes().len() < 12 {
        return false;
    }
    let mut ok = true;
    for c in it: text.chars()
        invariant
            it.seq() == text@,
            ok == all_base64_chars(text@.take(it.index() as int)),
    {
        let fits = is_alphanumeric(c) || c == '+' || c == '/' || c == '=';
        proof {
            let before = text@.take(it.index() as int);
            let after = text@.take(it.index() + 1);
            assert(after.last() == c);
            assert(forall|i: int| 0 <= i < before.len() ==> before[i] == after[i]);
            if all_base64_chars(after) {
                assert forall|i: int| 0 <= i < before.len() implies is_base64_char(
                    #[trigger] before[i],
                ) by {
                    assert(is_base64_char(after[i]));
                }
                assert(is_base64_char(after[after.len() - 1]));
            }
        }
        ok = ok && fits;
    }
    assert(text@.take(text@.len() as int) =~= text@);
    ok
}

/// Turns the outcome of the checks into the guess: JSON where its check
/// matched, else Base64 where its check matched, else none.
pub fn conclude(json: bool, base64: bool) -> (r: Option<DetectionResult>)
    ensures
        match r {
            Some(found) => verdict(json, base64) == Some(found@),
            None => verdict(json, base64) is None,
        },
{
    if json {
        let options = ToolOptions::new().with("indent", OptionValue::Count(2));
        let found = DetectionResult {
            tool_id: "json_formatter",
            confidence_percent: 100,
            initial_options: options,
        };
        assert(found@.initial_options =~= json_match().initial_options);
        Some(found)
    } else if base64 {
        let options = ToolOptions::new().with("action", OptionValue::Text("decode".to_owned()));
        let found = DetectionResult {
            tool_id: "base64",
            confidence_percent: 80,
            initial_options: options,
        };
        assert(found@.initial_options =~= base64_match().initial_options);
        Some(found)
    } else {
        None
    }
}

/// Guesses the tool for `input`, or declines to guess. Text of fewer than
/// twelve characters is never guessed to be Base64.
pub fn detect(input: &str) -> (r: Option<DetectionResult>)
    ensures
        match r {
            Some(found) => detection(input@) == Some(found@),
            None => detection(input@) is None,
        },
        input@.len() < 12 ==> !(r matches Some(found) && found@ == base64_match()),
{
    let text = trim(input);
    if text.is_empty() {
        return None;
    }
    let json = has_brackets(text) && parse_text(text).is_ok();
    let base64 = !json && has_base64_shape(text) && decode_standard(text.as_bytes()).is_ok();
    proof {
        if !json && input@.len() < 12 {
            lemma_few_characters_are_not_base64(input@);
        }
        lemma_matches_differ();
    }
    conclude(json, base64)
}

/// The two guesses differ.
pub proof fn lemma_matches_differ()
    ensures
        json_match() != base64_match(),
{
}

/// Trimmed text that is bracketed and parses as JSON is guessed to be JSON,
/// with full confidence, whatever else it looks like.
pub proof fn lemma_json_is_detected(text: Seq<char>)
    requires
        is_bracketed(trimmed(text)),
        json_parse(trimmed(text)) is Ok,
    ensures
        detection(text) == Some(json_match()),
        detection(text)->0.tool_id == "json_formatter"@,
        detection(text)->0.confidence_percent == 100,
{
}

/// Text of fewer than twelve bytes is never guessed to be Base64, whatever
/// its characters are.
pub proof fn lemma_short_text_is_not_base64(text: Seq<char>)
    requires
        encode_utf8(text).len() < 12,
    ensures
        detection(text) != Some(base64_match()),
        detection(text) matches Some(found) ==> found.tool_id != "base64"@,
{
    lemma_trimmed_byte_len(text);
    reveal_strlit("json_formatter");
    reveal_strlit("base64");
    assert("json_formatter"@.len() != "base64"@.len());
}

/// Text of fewer than twelve characters is never guessed to be Base64,
/// given of the decoder that it accepts symbols of the standard alphabet
/// and `=` alone: characters that take a byte each.
pub proof fn lemma_few_characters_are_not_base64(text: Seq<char>)
    requires
        text.len() < 12,
        matches_base64(trimmed(text)) ==> all_standard_bytes(encode_utf8(trimmed(text))),
    ensures
        detection(text) != Some(base64_match()),
{
    let t = trimmed(text);
    let _ = lemma_trimmed_is_slice(text);
    lemma_matches_differ();
    if matches_base64(t) {
        let bytes = encode_utf8(t);
        assert forall|i: int| 0 <= i < bytes.len() implies bytes[i] < 0x80 by {
            assert(is_standard_symbol(bytes[i] as char));
        }
        lemma_ascii_bytes_ascii_chars(t);
    }
}

/// A guess is one of the two that the detector knows, and its confidence
/// lies between 0 and 100.
pub proof fn lemma_detection_is_known(text: Seq<char>)
    ensures
        detection(text) matches Some(found) ==> (found == json_match() || found == base64_match())
            && found.confidence_percent <= 100,
{
}

} // verus!
