//! The contract that every tool satisfies, and the data that crosses it.

pub mod base64_tool;
pub mod json_tool;
pub mod jwt_tool;
pub mod options;
pub mod url_tool;

use self::options::{text_option, OptionsView, ToolOptions};
use crate::text::same_text;
use vstd::prelude::*;
use vstd::string::*;

verus! {

/// Classification of a tool. Metadata only: dispatch does not read it.
#[derive(Debug, Clone, Copy, PartialEq, Eq, Structural)]
pub enum ToolCategory {
    Encoder,
    Formatter,
    Generator,
    Converter,
}

/// What a tool is run on: the subject text and the tool's settings.
#[derive(Debug, PartialEq, Eq)]
pub struct ToolInput {
    pub value: String,
    pub options: ToolOptions,
}

/// The mathematical value of a [`ToolInput`].
pub struct ToolInputView {
    pub value: Seq<char>,
    pub options: OptionsView,
}

impl View for ToolInput {
    type V = ToolInputView;

    open spec fn view(&self) -> ToolInputView {
        ToolInputView { value: self.value@, options: self.options@ }
    }
}

/// What a tool hands back: the transformed text, or a message that says why
/// there is none.
#[derive(Debug, PartialEq, Eq)]
pub struct ToolOutput {
    pub result: String,
    pub error: Option<String>,
}

/// The mathematical value of a [`ToolOutput`].
pub struct ToolOutputView {
    pub result: Seq<char>,
    pub error: Option<Seq<char>>,
}

impl ToolOutputView {
    /// A failed call carries no result.
    pub open spec fn well_formed(self) -> bool {
        self.error is Some ==> self.result.len() == 0
    }
}

impl View for ToolOutput {
    type V = ToolOutputView;

    open spec fn view(&self) -> ToolOutputView {
        ToolOutputView {
            result: self.result@,
            error: match self.error {
                Some(message) => Some(message@),
                None => None,
            },
        }
    }
}

/// The outcome of a call that produced `result`.
pub open spec fn succeeded(result: Seq<char>) -> ToolOutputView {
    ToolOutputView { result, error: None }
}

/// The outcome of a call that failed with `message`.
pub open spec fn failed(message: Seq<char>) -> ToolOutputView {
    ToolOutputView { result: Seq::empty(), error: Some(message) }
}

impl ToolOutput {
    /// The output of a successful call.
    pub fn success(result: String) -> (out: ToolOutput)
        ensures
            out@ == succeeded(result@),
    {
        ToolOutput { result, error: None }
    }

    /// The output of a failed call: no result, and the message.
    pub fn failure(message: String) -> (out: ToolOutput)
        ensures
            out@ == failed(message@),
    {
        ToolOutput { result: String::new(), error: Some(message) }
    }
}

/// Whether `id` is written in lower-case snake style: lower-case ASCII
/// letters, digits and underscores.
pub open spec fn is_snake_case(id: Seq<char>) -> bool {
    forall|i: int|
        0 <= i < id.len() ==> {
            let c = #[trigger] id[i];
            'a' <= c <= 'z' || '0' <= c <= '9' || c == '_'
        }
}

/// A stateless text transformation. `execute` is total and deterministic:
/// what it returns is a function of the input, and every failure comes back
/// as data.
pub trait Tool {
    /// The identifier under which the tool is registered.
    spec fn tool_id(&self) -> Seq<char>;

    /// The label under which the tool is shown.
    spec fn label(&self) -> Seq<char>;

    /// The class that the tool belongs to.
    spec fn kind(&self) -> ToolCategory;

    /// What the tool makes of an input.
    spec fn outcome(&self, input: ToolInputView) -> ToolOutputView;

    /// The stable identifier used as the dispatch key.
    fn id(&self) -> (r: &'static str)
        ensures
            r@ == self.tool_id(),
            is_snake_case(r@),
    ;

    /// The human-readable display label.
    fn name(&self) -> (r: &'static str)
        ensures
            r@ == self.label(),
    ;

    /// The classification tag.
    fn category(&self) -> (r: ToolCategory)
        ensures
            r == self.kind(),
    ;

    /// Runs the tool.
    fn execute(&self, input: ToolInput) -> (out: ToolOutput)
        ensures
            out@ == self.outcome(input@),
            out@.well_formed(),
    ;
}

/// Whether the settings ask a two-way tool to decode: the text `decode`
/// under `action`. Anything else, or nothing, means encode.
pub open spec fn decode_requested(options: OptionsView) -> bool {
    text_option(options, "action"@) == Some("decode"@)
}

/// Reads the direction of a two-way tool from its settings.
pub fn wants_decode(options: &ToolOptions) -> (r: bool)
    ensures
        r == decode_requested(options@),
{
    match options.get_text("action") {
        Some(action) => same_text(action, "decode"),
        None => false,
    }
}

/// The outcome of a decoding that the codec refused with `detail`.
pub open spec fn decoding_failed(detail: Seq<char>) -> ToolOutputView {
    failed("Decoding failed: "@ + detail)
}

/// The output for a decoding that the codec refused, from the codec's own
/// words.
pub fn decoding_failure(detail: &str) -> (out: ToolOutput)
    ensures
        out@ == decoding_failed(detail@),
{
    let mut message = "Decoding failed: ".to_owned();
    message.append(detail);
    ToolOutput::failure(message)
}

} // verus!
