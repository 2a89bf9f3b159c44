//! JSON by the `serde_json` crate. A parsed document stays a
//! `serde_json::Value`: the library carries it from the parser to a printer
//! and never looks inside.

use vstd::prelude::*;

verus! {

/// `serde_json::Value`: a JSON document, opaque here.
#[verifier::external_type_specification]
#[verifier::external_body]
pub struct ExValue(serde_json::Value);

/// `serde_json::Error`: why a text was not parsed or a document not printed.
#[verifier::external_type_specification]
#[verifier::external_body]
pub struct ExError(serde_json::Error);

/// What `serde_json::from_str` returns for `text`, read as a `Value`.
pub uninterp spec fn json_parse(text: Seq<char>) -> Result<serde_json::Value, serde_json::Error>;

/// What `serde_json::from_slice` returns for `bytes`, read as a `Value`.
pub uninterp spec fn json_parse_bytes(bytes: Seq<u8>) -> Result<
    serde_json::Value,
    serde_json::Error,
>;

/// What `serde_json::to_string` returns for `value`: its most compact text.
pub uninterp spec fn json_compact(value: serde_json::Value) -> Result<Seq<char>, serde_json::Error>;

/// What `serde_json::to_string_pretty` returns for `value`.
pub uninterp spec fn json_pretty(value: serde_json::Value) -> Result<Seq<char>, serde_json::Error>;

/// The bytes that a `Serializer` with a `PrettyFormatter` writes for `value`,
/// where `indent` is repeated once per nesting level.
pub uninterp spec fn json_indented(value: serde_json::Value, indent: Seq<u8>) -> Result<
    Seq<u8>,
    serde_json::Error,
>;

/// The message that a `serde_json::Error` displays.
pub uninterp spec fn json_error_text(e: serde_json::Error) -> Seq<char>;

/// The `Value` that stands for the boolean `b`.
pub uninterp spec fn json_flag(b: bool) -> serde_json::Value;

/// The `Value` that stands for an optional document.
pub uninterp spec fn json_or_null(value: Option<serde_json::Value>) -> serde_json::Value;

/// The `Value` that is the object with the given members.
pub uninterp spec fn json_object(members: Seq<(Seq<char>, serde_json::Value)>) -> serde_json::Value;

/// The members of an object as keys and documents.
pub open spec fn members_view(members: Seq<(String, serde_json::Value)>) -> Seq<
    (Seq<char>, serde_json::Value),
> {
    Seq::new(members.len(), |i: int| (members[i].0@, members[i].1))
}

/// Calls `serde_json::from_str` at the type `Value`.
#[verifier::external_body]
pub(crate) fn parse_text(text: &str) -> (r: Result<serde_json::Value, serde_json::Error>)
    ensures
        r == json_parse(text@),
{
    serde_json::from_str::<serde_json::Value>(text)
}

/// Calls `serde_json::from_slice` at the type `Value`.
#[verifier::external_body]
pub(crate) fn parse_bytes(bytes: &[u8]) -> (r: Result<serde_json::Value, serde_json::Error>)
    ensures
        r == json_parse_bytes(bytes@),
{
    serde_json::from_slice::<serde_json::Value>(bytes)
}

/// Calls `serde_json::to_string`.
#[verifier::external_body]
pub(crate) fn to_compact(value: &serde_json::Value) -> (r: Result<String, serde_json::Error>)
    ensures
        match r {
            Ok(text) => json_compact(*value) == Ok::<Seq<char>, serde_json::Error>(text@),
            Err(e) => json_compact(*value) == Err::<Seq<char>, serde_json::Error>(e),
        },
{
    serde_json::to_string(value)
}

/// Calls `serde_json::to_string_pretty`.
#[verifier::external_body]
pub(crate) fn to_pretty(value: &serde_json::Value) -> (r: Result<String, serde_json::Error>)
    ensures
        match r {
            Ok(text) => json_pretty(*value) == Ok::<Seq<char>, serde_json::Error>(text@),
            Err(e) => json_pretty(*value) == Err::<Seq<char>, serde_json::Error>(e),
        },
{
    serde_json::to_string_pretty(value)
}

/// Serializes `value` into a byte vector through a `Serializer` whose
/// `PrettyFormatter` indents with `indent`.
#[verifier::external_body]
pub(crate) fn to_indented(value: &serde_json::Value, indent: &[u8]) -> (r: Result<
    Vec<u8>,
    serde_json::Error,
>)
    ensures
        match r {
            Ok(bytes) => json_indented(*value, indent@) == Ok::<Seq<u8>, serde_json::Error>(
                bytes@,
            ),
            Err(e) => json_indented(*value, indent@) == Err::<Seq<u8>, serde_json::Error>(e),
        },
{
    let mut buffer = Vec::new();
    let formatter = serde_json::ser::PrettyFormatter::with_indent(indent);
    let mut serializer = serde_json::Serializer::with_formatter(&mut buffer, formatter);
    match serde::Serialize::serialize(value, &mut serializer) {
        Ok(()) => Ok(buffer),
        Err(e) => Err(e),
    }
}

/// Calls the `Display` impl of `serde_json::Error`.
#[verifier::external_body]
pub(crate) fn error_message(e: &serde_json::Error) -> (r: String)
    ensures
        r@ == json_error_text(*e),
{
    e.to_string()
}

/// Calls `Value::from` on a `bool`, which gives `Value::Bool`.
#[verifier::external_body]
pub(crate) fn flag_value(b: bool) -> (r: serde_json::Value)
    ensures
        r == json_flag(b),
{
    serde_json::Value::from(b)
}

/// Calls `Value::from` on an `Option`, which gives the document itself
/// where there is one and `Value::Null` where there is none.
#[verifier::external_body]
pub(crate) fn value_or_null(value: Option<serde_json::Value>) -> (r: serde_json::Value)
    ensures
        r == json_or_null(value),
        value matches Some(inner) ==> r == inner,
{
    serde_json::Value::from(value)
}

/// Collects keys and documents into a `Value::Object`, by the `FromIterator`
/// impl of `Value`.
#[verifier::external_body]
pub(crate) fn object_value(members: Vec<(String, serde_json::Value)>) -> (r: serde_json::Value)
    ensures
        r == json_object(members_view(members@)),
{
    members.into_iter().collect()
}

} // verus!
