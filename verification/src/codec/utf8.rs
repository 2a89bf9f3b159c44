//! Bytes to text by the standard library's UTF-8 conversions.

use vstd::prelude::*;
use vstd::utf8::*;

verus! {

/// `std::string::FromUtf8Error`: why bytes were not read as text.
#[verifier::external_type_specification]
#[verifier::external_body]
pub struct ExFromUtf8Error(std::string::FromUtf8Error);

/// What `String::from_utf8_lossy` returns for `bytes`. It stands for the
/// repaired text of bytes that are not valid UTF-8.
pub uninterp spec fn repaired_text(bytes: Seq<u8>) -> Seq<char>;

/// The text read from `bytes`, with each invalid sequence replaced: valid
/// UTF-8 reads as the text that it encodes.
pub open spec fn lossy_text(bytes: Seq<u8>) -> Seq<char> {
    if valid_utf8(bytes) {
        decode_utf8(bytes)
    } else {
        repaired_text(bytes)
    }
}

/// The error with which `String::from_utf8` refuses `bytes`.
pub uninterp spec fn utf8_failure(bytes: Seq<u8>) -> std::string::FromUtf8Error;

/// The message that a `FromUtf8Error` displays.
pub uninterp spec fn utf8_error_text(e: std::string::FromUtf8Error) -> Seq<char>;

/// Calls `String::from_utf8_lossy`, which replaces each invalid sequence by
/// U+FFFD and leaves valid UTF-8 as it is.
#[verifier::external_body]
pub(crate) fn to_text_lossy(bytes: &[u8]) -> (r: String)
    ensures
        valid_utf8(bytes@) ==> r@ == decode_utf8(bytes@),
        !valid_utf8(bytes@) ==> r@ == repaired_text(bytes@),
{
    String::from_utf8_lossy(bytes).into_owned()
}

/// Calls `String::from_utf8`, which succeeds exactly on valid UTF-8 and
/// then returns the text that the bytes encode.
#[verifier::external_body]
pub(crate) fn to_text(bytes: Vec<u8>) -> (r: Result<String, std::string::FromUtf8Error>)
    ensures
        match r {
            Ok(text) => valid_utf8(bytes@) && text@ == decode_utf8(bytes@),
            Err(e) => !valid_utf8(bytes@) && e == utf8_failure(bytes@),
        },
{
    String::from_utf8(bytes)
}

/// Calls the `Display` impl of `FromUtf8Error`.
#[verifier::external_body]
pub(crate) fn utf8_error_message(e: &std::string::FromUtf8Error) -> (r: String)
    ensures
        r@ == utf8_error_text(*e),
{
    e.to_string()
}

} // verus!
