//! The registry of tools and the dispatcher that runs one by its
//! identifier.

use crate::codec::base64::{all_standard_symbols, standard_decodes_to};
use crate::text::same_text;
use crate::tools::base64_tool::{lemma_decode_inverts_encode, Base64Tool};
use crate::tools::json_tool::JsonTool;
use crate::tools::jwt_tool::JwtTool;
use crate::tools::options::OptionsView;
use crate::tools::url_tool::UrlTool;
use crate::tools::{
    decode_requested, failed, succeeded, Tool, ToolCategory, ToolInput, ToolInputView, ToolOutput,
    ToolOutputView,
};
use vstd::prelude::*;
use vstd::string::*;
use vstd::utf8::*;

verus! {

/// A tool of the registry. The registry is closed: these four and no other.
#[derive(Debug, Clone, Copy, PartialEq, Eq, Structural)]
pub enum RegisteredTool {
    Base64,
    JsonFormatter,
    UrlEncoder,
    JwtDebugger,
}

impl Tool for RegisteredTool {
    open spec fn tool_id(&self) -> Seq<char> {
        match self {
            RegisteredTool::Base64 => Base64Tool.tool_id(),
            RegisteredTool::JsonFormatter => JsonTool.tool_id(),
            RegisteredTool::UrlEncoder => UrlTool.tool_id(),
            RegisteredTool::JwtDebugger => JwtTool.tool_id(),
        }
    }

    open spec fn label(&self) -> Seq<char> {
        match self {
            RegisteredTool::Base64 => Base64Tool.label(),
            RegisteredTool::JsonFormatter => JsonTool.label(),
            RegisteredTool::UrlEncoder => UrlTool.label(),
            RegisteredTool::JwtDebugger => JwtTool.label(),
        }
    }

    open spec fn kind(&self) -> ToolCategory {
        match self {
            RegisteredTool::Base64 => Base64Tool.kind(),
            RegisteredTool::JsonFormatter => JsonTool.kind(),
            RegisteredTool::UrlEncoder => UrlTool.kind(),
            RegisteredTool::JwtDebugger => JwtTool.kind(),
        }
    }

    open spec fn outcome(&self, input: ToolInputView) -> ToolOutputView {
        match self {
            RegisteredTool::Base64 => Base64Tool.outcome(input),
            RegisteredTool::JsonFormatter => JsonTool.outcome(input),
            RegisteredTool::UrlEncoder => UrlTool.outcome(input),
            RegisteredTool::JwtDebugger => JwtTool.outcome(input),
        }
    }

    fn id(&self) -> (r: &'static str) {
        match self {
            RegisteredTool::Base64 => Base64Tool.id(),
            RegisteredTool::JsonFormatter => JsonTool.id(),
            RegisteredTool::UrlEncoder => UrlTool.id(),
            RegisteredTool::JwtDebugger => JwtTool.id(),
        }
    }

    fn name(&self) -> (r: &'static str) {
        match self {
            RegisteredTool::Base64 => Base64Tool.name(),
            RegisteredTool::JsonFormatter => JsonTool.name(),
            RegisteredTool::UrlEncoder => UrlTool.name(),
            RegisteredTool::JwtDebugger => JwtTool.name(),
        }
    }

    fn category(&self) -> (r: ToolCategory) {
        match self {
            RegisteredTool::Base64 => Base64Tool.category(),
            RegisteredTool::JsonFormatter => JsonTool.category(),
            RegisteredTool::UrlEncoder => UrlTool.category(),
            RegisteredTool::JwtDebugger => JwtTool.category(),
        }
    }

    fn execute(&self, input: ToolInput) -> (out: ToolOutput) {
        match self {
            RegisteredTool::Base64 => Base64Tool.execute(input),
            RegisteredTool::JsonFormatter => JsonTool.execute(input),
            RegisteredTool::UrlEncoder => UrlTool.execute(input),
            RegisteredTool::JwtDebugger => JwtTool.execute(input),
        }
    }
}

/// The tool registered under `id`: the one whose identifier is exactly
/// `id`, letter case included.
pub open spec fn registered(id: Seq<char>) -> Option<RegisteredTool> {
    if id == RegisteredTool::Base64.tool_id() {
        Some(RegisteredTool::Base64)
    } else if id == RegisteredTool::JsonFormatter.tool_id() {
        Some(RegisteredTool::JsonFormatter)
    } else if id == RegisteredTool::UrlEncoder.tool_id() {
        Some(RegisteredTool::UrlEncoder)
    } else if id == RegisteredTool::JwtDebugger.tool_id() {
        Some(RegisteredTool::JwtDebugger)
    } else {
        None
    }
}

/// The outcome for an identifier that the registry does not hold.
pub open spec fn not_found(id: Seq<char>) -> ToolOutputView {
    failed("Tool '"@ + id + "' not found"@)
}

/// What running the tool named `id` on `input` gives: the tool's own
/// outcome, untouched, or `not_found`.
pub open spec fn dispatched(id: Seq<char>, input: ToolInputView) -> ToolOutputView {
    match registered(id) {
        Some(tool) => tool.outcome(input),
        None => not_found(id),
    }
}

/// Looks `id` up in the registry.
pub fn find_tool(id: &str) -> (r: Option<RegisteredTool>)
    ensures
        r == registered(id@),
        r matches Some(tool) ==> tool.tool_id() == id@,
{
    if same_text(id, RegisteredTool::Base64.id()) {
        Some(RegisteredTool::Base64)
    } else if same_text(id, RegisteredTool::JsonFormatter.id()) {
        Some(RegisteredTool::JsonFormatter)
    } else if same_text(id, RegisteredTool::UrlEncoder.id()) {
        Some(RegisteredTool::UrlEncoder)
    } else if same_text(id, RegisteredTool::JwtDebugger.id()) {
        Some(RegisteredTool::JwtDebugger)
    } else {
        None
    }
}

/// The output for an identifier that the registry does not hold.
pub fn tool_not_found(id: &str) -> (out: ToolOutput)
    ensures
        out@ == not_found(id@),
{
    let mut message = "Tool '".to_owned();
    message.append(id);
    message.append("' not found");
    assert(message@ =~= "Tool '"@ + id@ + "' not found"@);
    ToolOutput::failure(message)
}

/// Runs the tool registered under `id` on `input` and returns what the
/// tool returned. The one failure of its own is an unknown identifier.
pub fn execute_tool(id: &str, input: ToolInput) -> (out: ToolOutput)
    ensures
        out@ == dispatched(id@, input@),
        out@.well_formed(),
{
    match find_tool(id) {
        Some(tool) => tool.execute(input),
        None => tool_not_found(id),
    }
}

/// Every registered tool is found under its own identifier: no two tools
/// share one.
pub proof fn lemma_ids_are_unique(tool: RegisteredTool)
    ensures
        registered(tool.tool_id()) == Some(tool),
{
    reveal_strlit("base64");
    reveal_strlit("json_formatter");
    reveal_strlit("url_encoder");
    reveal_strlit("jwt_debugger");
    assert("base64"@.len() == 6);
    assert("json_formatter"@.len() == 14);
    assert("url_encoder"@.len() == 11);
    assert("jwt_debugger"@.len() == 12);
}

/// Dispatch adds nothing of its own: under a tool's identifier it gives
/// what the tool gives.
pub proof fn lemma_dispatch_passes_through(tool: RegisteredTool, input: ToolInputView)
    ensures
        dispatched(tool.tool_id(), input) == tool.outcome(input),
{
    lemma_ids_are_unique(tool);
}

/// Whatever the identifier and the input, a failure carries no result.
pub proof fn lemma_dispatched_is_well_formed(id: Seq<char>, input: ToolInputView)
    ensures
        dispatched(id, input).well_formed(),
{
}

/// Base64 round trip: where the tool encoded `text` to `encoded`, the tool
/// decodes `encoded` to `text`. Of `encoded` it takes what the encoder
/// answers for: standard symbols alone, which the decoder takes back to the
/// bytes of `text`.
pub proof fn lemma_base64_round_trip(
    text: Seq<char>,
    encoded: Seq<char>,
    encode_options: OptionsView,
    decode_options: OptionsView,
)
    requires
        !decode_requested(encode_options),
        decode_requested(decode_options),
        dispatched("base64"@, ToolInputView { value: text, options: encode_options })
            == succeeded(encoded),
        all_standard_symbols(encoded),
        standard_decodes_to(encode_utf8(encoded), encode_utf8(text)),
    ensures
        dispatched("base64"@, ToolInputView { value: encoded, options: decode_options })
            == succeeded(text),
{
    lemma_decode_inverts_encode(text, encoded);
}

/// An identifier that the registry does not hold is answered with the
/// message that names it, and with no result.
pub proof fn lemma_unknown_tool_is_reported(id: Seq<char>, input: ToolInputView)
    requires
        registered(id) is None,
    ensures
        dispatched(id, input).error == Some("Tool '"@ + id + "' not found"@),
        dispatched(id, input).result == Seq::<char>::empty(),
{
}

} // verus!
