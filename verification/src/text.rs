//! Text primitives shared by the detector and the tools: surrounding
//! whitespace, equality of string slices, and UTF-8 lengths.

use vstd::prelude::*;
use vstd::utf8::*;

verus! {

/// Whether `c` carries the Unicode `White_Space` property.
pub open spec fn is_white_space(c: char) -> bool {
    ||| '\u{9}' <= c <= '\u{d}'
    ||| c == ' '
    ||| c == '\u{85}'
    ||| c == '\u{a0}'
    ||| c == '\u{1680}'
    ||| '\u{2000}' <= c <= '\u{200a}'
    ||| c == '\u{2028}'
    ||| c == '\u{2029}'
    ||| c == '\u{202f}'
    ||| c == '\u{205f}'
    ||| c == '\u{3000}'
}

/// `s` without its leading whitespace.
pub open spec fn trim_start(s: Seq<char>) -> Seq<char>
    decreases s.len(),
{
    if s.len() > 0 && is_white_space(s.first()) {
        trim_start(s.drop_first())
    } else {
        s
    }
}

/// `s` without its trailing whitespace.
pub open spec fn trim_end(s: Seq<char>) -> Seq<char>
    decreases s.len(),
{
    if s.len() > 0 && is_white_space(s.last()) {
        trim_end(s.drop_last())
    } else {
        s
    }
}

/// `s` without its leading and trailing whitespace.
pub open spec fn trimmed(s: Seq<char>) -> Seq<char> {
    trim_end(trim_start(s))
}

/// Calls `str::trim`, which returns the slice of `s` that is left when
/// leading and trailing `White_Space` characters are removed.
#[verifier::external_body]
pub(crate) fn trim(s: &str) -> (r: &str)
    ensures
        r@ == trimmed(s@),
{
    s.trim()
}

/// What `char::is_alphanumeric` returns for `c`: whether Unicode counts it as
/// a letter or a number.
pub uninterp spec fn alphanumeric(c: char) -> bool;

/// Calls `char::is_alphanumeric`.
#[verifier::external_body]
pub(crate) fn is_alphanumeric(c: char) -> (r: bool)
    ensures
        r == alphanumeric(c),
{
    c.is_alphanumeric()
}

/// Leading whitespace is a prefix: what `trim_start` drops, put back in
/// front, gives `s` again.
pub proof fn lemma_trim_start_suffix(s: Seq<char>)
    ensures
        trim_start(s).len() <= s.len(),
        trim_start(s) == s.subrange(s.len() - trim_start(s).len(), s.len() as int),
        trim_start(s).len() > 0 ==> !is_white_space(trim_start(s).first()),
    decreases s.len(),
{
    if s.len() > 0 && is_white_space(s.first()) {
        lemma_trim_start_suffix(s.drop_first());
        let t = trim_start(s.drop_first());
        assert(t =~= s.subrange(s.len() - t.len(), s.len() as int));
    } else {
        assert(s =~= s.subrange(0, s.len() as int));
    }
}

/// Trailing whitespace is a suffix: `trim_end` keeps a prefix of `s`.
pub proof fn lemma_trim_end_prefix(s: Seq<char>)
    ensures
        trim_end(s).len() <= s.len(),
        trim_end(s) == s.subrange(0, trim_end(s).len() as int),
        trim_end(s).len() > 0 ==> !is_white_space(trim_end(s).last()),
    decreases s.len(),
{
    if s.len() > 0 && is_white_space(s.last()) {
        lemma_trim_end_prefix(s.drop_last());
        let t = trim_end(s.drop_last());
        assert(t =~= s.subrange(0, t.len() as int));
    } else {
        assert(s =~= s.subrange(0, s.len() as int));
    }
}

/// The trimmed text is a contiguous part of the text, and neither of its
/// ends is whitespace.
pub proof fn lemma_trimmed_is_slice(s: Seq<char>) -> (bounds: (int, int))
    ensures
        0 <= bounds.0 <= bounds.1 <= s.len(),
        trimmed(s) == s.subrange(bounds.0, bounds.1),
        trimmed(s).len() > 0 ==> !is_white_space(trimmed(s).first()) && !is_white_space(
            trimmed(s).last(),
        ),
{
    lemma_trim_start_suffix(s);
    let a = trim_start(s);
    lemma_trim_end_prefix(a);
    let from = s.len() - a.len();
    let to = from + trimmed(s).len();
    assert(trimmed(s) =~= s.subrange(from, to));
    (from, to)
}

/// Text that neither begins nor ends with whitespace is its own trimmed form.
pub proof fn lemma_trimmed_identity(s: Seq<char>)
    requires
        s.len() > 0 ==> !is_white_space(s.first()) && !is_white_space(s.last()),
    ensures
        trimmed(s) == s,
{
}

/// UTF-8 encoding distributes over concatenation.
pub proof fn lemma_encode_utf8_concat(a: Seq<char>, b: Seq<char>)
    ensures
        encode_utf8(a + b) == encode_utf8(a) + encode_utf8(b),
    decreases a.len(),
{
    if a.len() == 0 {
        assert(a + b =~= b);
        assert(encode_utf8(a) + encode_utf8(b) =~= encode_utf8(b));
    } else {
        lemma_encode_utf8_concat(a.drop_first(), b);
        assert((a + b).drop_first() =~= a.drop_first() + b);
        assert((a + b)[0] == a[0]);
        assert(encode_utf8(a + b) =~= encode_utf8(a) + encode_utf8(b));
    }
}

/// A contiguous part of a text takes no more bytes than the text.
pub proof fn lemma_encode_utf8_subrange_len(s: Seq<char>, from: int, to: int)
    requires
        0 <= from <= to <= s.len(),
    ensures
        encode_utf8(s.subrange(from, to)).len() <= encode_utf8(s).len(),
{
    let head = s.subrange(0, from);
    let mid = s.subrange(from, to);
    let tail = s.subrange(to, s.len() as int);
    assert(s =~= head + (mid + tail));
    lemma_encode_utf8_concat(mid, tail);
    lemma_encode_utf8_concat(head, mid + tail);
}

/// Trimming never lengthens a text, counted in bytes.
pub proof fn lemma_trimmed_byte_len(s: Seq<char>)
    ensures
        encode_utf8(trimmed(s)).len() <= encode_utf8(s).len(),
{
    let bounds = lemma_trimmed_is_slice(s);
    lemma_encode_utf8_subrange_len(s, bounds.0, bounds.1);
}

/// Text whose UTF-8 bytes are all below 128 is ASCII, and takes as many
/// bytes as it has characters.
pub proof fn lemma_ascii_bytes_ascii_chars(s: Seq<char>)
    requires
        forall|i: int| 0 <= i < encode_utf8(s).len() ==> encode_utf8(s)[i] < 0x80,
    ensures
        is_ascii_chars(s),
        encode_utf8(s).len() == s.len(),
    decreases s.len(),
{
    if s.len() > 0 {
        let c = s[0] as u32;
        let rest = s.drop_first();
        let bytes = encode_utf8(s);
        char_is_scalar(s[0]);
        assert(bytes[0] == encode_scalar(c)[0]);
        assert(bytes[0] < 0x80);
        assert(has_width_1_encoding(c)) by {
            let x2 = ((c >> 6) & 0x1F) as u8;
            let x3 = ((c >> 12) & 0x0F) as u8;
            let x4 = ((c >> 18) & 0x7) as u8;
            assert(0xC0u8 | x2 >= 0x80) by (bit_vector);
            assert(0xE0u8 | x3 >= 0x80) by (bit_vector);
            assert(0xF0u8 | x4 >= 0x80) by (bit_vector);
        }
        assert(encode_scalar(c).len() == 1);
        assert(encode_utf8(rest) =~= bytes.subrange(1, bytes.len() as int));
        assert forall|i: int| 0 <= i < encode_utf8(rest).len() implies encode_utf8(rest)[i]
            < 0x80 by {
            assert(encode_utf8(rest)[i] == bytes[i + 1]);
        }
        lemma_ascii_bytes_ascii_chars(rest);
        assert forall|i: int| 0 <= i < s.len() implies '\0' <= #[trigger] s[i] <= '\u{7f}' by {
            if i > 0 {
                assert(s[i] == rest[i - 1]);
                assert('\0' <= rest[i - 1] <= '\u{7f}');
            } else {
                char_u32_cast(s[0], c);
            }
        }
    }
    is_ascii_chars_encode_utf8(s);
}

/// Whether two string slices hold the same characters.
pub fn same_text(a: &str, b: &str) -> (r: bool)
    ensures
        r == (a@ == b@),
{
    let x = a.as_bytes();
    let y = b.as_bytes();
    proof {
        encode_utf8_decode_utf8(a@);
        encode_utf8_decode_utf8(b@);
    }
    if x.len() != y.len() {
        return false;
    }
    let mut i: usize = 0;
    while i < x.len()
        invariant
            i <= x.len(),
            x.len() == y.len(),
            forall|k: int| 0 <= k < i ==> x@[k] == y@[k],
            x@ == encode_utf8(a@),
            y@ == encode_utf8(b@),
            decode_utf8(encode_utf8(a@)) == a@,
            decode_utf8(encode_utf8(b@)) == b@,
        decreases x.len() - i,
    {
        if x[i] != y[i] {
            return false;
        }
        i += 1;
    }
    assert(x@ =~= y@);
    true
}

} // verus!
