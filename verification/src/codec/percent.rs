//! Percent-encoding by the `urlencoding` crate.

use vstd::prelude::*;
use vstd::utf8::*;

verus! {

/// A byte that percent-encoding leaves as it is: an ASCII letter or digit,
/// `-`, `_`, `.` or `~`.
pub open spec fn is_unreserved(b: u8) -> bool {
    ||| 0x30 <= b <= 0x39
    ||| 0x41 <= b <= 0x5a
    ||| 0x61 <= b <= 0x7a
    ||| b == 0x2d
    ||| b == 0x2e
    ||| b == 0x5f
    ||| b == 0x7e
}

/// The upper-case hexadecimal digit for `n`, where `n < 16`.
pub open spec fn hex_digit(n: u8) -> char {
    if n < 10 {
        (0x30 + n) as char
    } else {
        (0x37 + n) as char
    }
}

/// The percent-encoding of `bytes`: an unreserved byte stands for itself,
/// every other byte becomes `%` and its two hexadecimal digits.
pub open spec fn percent_encoded(bytes: Seq<u8>) -> Seq<char>
    decreases bytes.len(),
{
    if bytes.len() == 0 {
        Seq::empty()
    } else {
        let b = bytes.first();
        let head = if is_unreserved(b) {
            seq![b as char]
        } else {
            seq!['%', hex_digit(b / 16), hex_digit(b % 16)]
        };
        head + percent_encoded(bytes.drop_first())
    }
}

/// What `urlencoding::decode` returns for `text`.
pub uninterp spec fn percent_decoding(text: Seq<char>) -> Result<
    Seq<char>,
    std::string::FromUtf8Error,
>;

/// Calls `urlencoding::encode`, which percent-encodes every byte of the
/// UTF-8 text except the unreserved ones.
#[verifier::external_body]
pub(crate) fn encode(text: &str) -> (r: String)
    ensures
        r@ == percent_encoded(encode_utf8(text@)),
{
    urlencoding::encode(text).into_owned()
}

/// Calls `urlencoding::decode`.
#[verifier::external_body]
pub(crate) fn decode(text: &str) -> (r: Result<String, std::string::FromUtf8Error>)
    ensures
        match r {
            Ok(decoded) => percent_decoding(text@) == Ok::<Seq<char>, std::string::FromUtf8Error>(
                decoded@,
            ),
            Err(e) => percent_decoding(text@) == Err::<Seq<char>, std::string::FromUtf8Error>(e),
        },
{
    match urlencoding::decode(text) {
        Ok(decoded) => Ok(decoded.into_owned()),
        Err(e) => Err(e),
    }
}

} // verus!
