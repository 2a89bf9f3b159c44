//! Base64 by the `base64` crate's general-purpose engines.

use base64::Engine;
use vstd::prelude::*;
use vstd::utf8::*;

verus! {

/// `base64::DecodeError`: why an input was not decoded.
#[verifier::external_type_specification]
#[verifier::external_body]
pub struct ExDecodeError(base64::DecodeError);

/// What the `STANDARD` engine's `encode` returns for `bytes`.
pub uninterp spec fn standard_encoding(bytes: Seq<u8>) -> Seq<char>;

/// What the `STANDARD` engine's `decode` returns for the input `bytes`.
pub uninterp spec fn standard_decoding(bytes: Seq<u8>) -> Result<Seq<u8>, base64::DecodeError>;

/// What the `URL_SAFE` engine's `decode` returns for the input `bytes`.
pub uninterp spec fn url_safe_decoding(bytes: Seq<u8>) -> Result<Seq<u8>, base64::DecodeError>;

/// The message that a `DecodeError` displays.
pub uninterp spec fn decode_error_text(e: base64::DecodeError) -> Seq<char>;

/// A symbol of the standard alphabet, or the padding sign.
pub open spec fn is_standard_symbol(c: char) -> bool {
    ||| 'A' <= c <= 'Z'
    ||| 'a' <= c <= 'z'
    ||| '0' <= c <= '9'
    ||| c == '+'
    ||| c == '/'
    ||| c == '='
}

/// Whether `text` is made of symbols of the standard alphabet and `=` alone.
pub open spec fn all_standard_symbols(text: Seq<char>) -> bool {
    forall|i: int| 0 <= i < text.len() ==> is_standard_symbol(#[trigger] text[i])
}

/// Whether `bytes` are symbols of the standard alphabet and `=` alone.
pub open spec fn all_standard_bytes(bytes: Seq<u8>) -> bool {
    forall|i: int| 0 <= i < bytes.len() ==> is_standard_symbol(#[trigger] bytes[i] as char)
}

/// Whether the `STANDARD` engine decodes the input `encoded` to `bytes`.
pub open spec fn standard_decodes_to(encoded: Seq<u8>, bytes: Seq<u8>) -> bool {
    standard_decoding(encoded) matches Ok(decoded) && decoded == bytes
}

/// Whether the padded encoding of `len` bytes has a length that fits in
/// `usize`: four symbols for every three bytes or part of three.
pub open spec fn encoded_len_fits(len: nat) -> bool {
    4 * ((len + 2) / 3) <= usize::MAX
}

/// Calls `Engine::encode` on `STANDARD`, which panics where the encoded
/// length overflows. Claims of the text that comes back: it is made of
/// symbols of the standard alphabet and `=`, and the same engine decodes it
/// to the bytes that went in.
#[verifier::external_body]
pub(crate) fn encode_standard(bytes: &[u8]) -> (r: String)
    requires
        encoded_len_fits(bytes@.len()),
    ensures
        r@ == standard_encoding(bytes@),
        all_standard_symbols(r@),
        standard_decodes_to(encode_utf8(r@), bytes@),
{
    base64::engine::general_purpose::STANDARD.encode(bytes)
}

/// Calls `Engine::decode` on `STANDARD`, which refuses input that holds a
/// byte other than a symbol of the standard alphabet or `=`.
#[verifier::external_body]
pub(crate) fn decode_standard(bytes: &[u8]) -> (r: Result<Vec<u8>, base64::DecodeError>)
    ensures
        match r {
            Ok(decoded) => standard_decoding(bytes@) == Ok::<Seq<u8>, base64::DecodeError>(
                decoded@,
            ),
            Err(e) => standard_decoding(bytes@) == Err::<Seq<u8>, base64::DecodeError>(e),
        },
        r is Ok ==> all_standard_bytes(bytes@),
{
    base64::engine::general_purpose::STANDARD.decode(bytes)
}

/// Calls `Engine::decode` on `URL_SAFE`.
#[verifier::external_body]
pub(crate) fn decode_url_safe(bytes: &[u8]) -> (r: Result<Vec<u8>, base64::DecodeError>)
    ensures
        match r {
            Ok(decoded) => url_safe_decoding(bytes@) == Ok::<Seq<u8>, base64::DecodeError>(
                decoded@,
            ),
            Err(e) => url_safe_decoding(bytes@) == Err::<Seq<u8>, base64::DecodeError>(e),
        },
{
    base64::engine::general_purpose::URL_SAFE.decode(bytes)
}

/// Calls the `Display` impl of `DecodeError`.
#[verifier::external_body]
pub(crate) fn decode_error_message(e: &base64::DecodeError) -> (r: String)
    ensures
        r@ == decode_error_text(*e),
{
    e.to_string()
}

} // verus!
