//! Byte-level helpers for UTF-8 text, and the facts that tie what they
//! compute on bytes to the characters those bytes encode.

use vstd::prelude::*;
use vstd::utf8::*;

verus! {

/// The line-feed byte.
pub const LINE_FEED: u8 = 0x0a;

/// Whether `bytes` ends with `suffix`.
pub fn bytes_end_with(bytes: &[u8], suffix: &[u8]) -> (r: bool)
    ensures
        r == suffix@.is_suffix_of(bytes@),
{
    let n: usize = bytes.len();
    let m: usize = suffix.len();
    if m > n {
        return false;
    }
    let start: usize = n - m;
    let mut i: usize = 0;
    while i < m
        invariant
            n == bytes@.len(),
            m == suffix@.len(),
            start == n - m,
            i <= m <= n,
            forall|j: int| 0 <= j < i ==> bytes@[start + j] == suffix@[j],
        decreases m - i,
    {
        if bytes[start + i] != suffix[i] {
            assert(bytes@.subrange(start as int, n as int)[i as int] != suffix@[i as int]);
            return false;
        }
        i += 1;
    }
    assert(suffix@ =~= bytes@.subrange(start as int, n as int));
    true
}

/// Whether two byte strings hold the same bytes.
pub fn bytes_equal(left: &[u8], right: &[u8]) -> (r: bool)
    ensures
        r == (left@ == right@),
{
    let n: usize = left.len();
    if n != right.len() {
        return false;
    }
    let mut i: usize = 0;
    while i < n
        invariant
            n == left@.len(),
            n == right@.len(),
            i <= n,
            forall|j: int| 0 <= j < i ==> left@[j] == right@[j],
        decreases n - i,
    {
        if left[i] != right[i] {
            return false;
        }
        i += 1;
    }
    assert(left@ =~= right@);
    true
}

/// Encoding a concatenation is concatenating the encodings.
pub proof fn lemma_encode_concat(a: Seq<char>, b: Seq<char>)
    ensures
        encode_utf8(a + b) == encode_utf8(a) + encode_utf8(b),
    decreases a.len(),
{
    if a.len() == 0 {
        assert(a + b =~= b);
        assert(encode_utf8(a) + encode_utf8(b) =~= encode_utf8(b));
    } else {
        lemma_encode_concat(a.drop_first(), b);
        assert((a + b).drop_first() =~= a.drop_first() + b);
        assert(encode_utf8(a + b) =~= encode_utf8(a) + encode_utf8(b));
    }
}

/// A byte string is the encoding of `text` exactly when it is valid UTF-8
/// that decodes to `text`.
pub proof fn lemma_encoding_iff_decoding(bytes: Seq<u8>, text: Seq<char>)
    ensures
        bytes == encode_utf8(text) <==> valid_utf8(bytes) && decode_utf8(bytes) == text,
{
    encode_utf8_valid_utf8(text);
    encode_utf8_decode_utf8(text);
    if valid_utf8(bytes) {
        decode_utf8_encode_utf8(bytes);
    }
}

/// For an ASCII `suffix`, a text ends with it exactly when the text's encoding
/// ends with the suffix's encoding: no multi-byte character can end in bytes
/// that pass for ASCII.
pub proof fn lemma_ascii_suffix(text: Seq<char>, suffix: Seq<char>)
    requires
        is_ascii_chars(suffix),
    ensures
        suffix.is_suffix_of(text) <==> encode_utf8(suffix).is_suffix_of(encode_utf8(text)),
{
    let bytes = encode_utf8(text);
    let tail = encode_utf8(suffix);
    is_ascii_chars_encode_utf8(suffix);
    encode_utf8_valid_utf8(text);
    encode_utf8_decode_utf8(text);
    encode_utf8_decode_utf8(suffix);
    if suffix.is_suffix_of(text) {
        let head = text.subrange(0, text.len() - suffix.len());
        assert(text =~= head + suffix);
        lemma_encode_concat(head, suffix);
        assert(tail =~= bytes.subrange(bytes.len() - tail.len(), bytes.len() as int));
    }
    if tail.is_suffix_of(bytes) {
        let k = bytes.len() - tail.len();
        if suffix.len() == 0 {
            assert(suffix =~= text.subrange(text.len() as int, text.len() as int));
        } else {
            assert(bytes[k] == tail[0]);
            assert(tail[0] == suffix[0] as u8);
            assert(!is_continuation_byte(bytes[k])) by {
                let c = suffix[0];
                assert('\0' <= c <= '\u{7f}');
            }
            is_char_boundary_iff_not_is_continuation_byte(bytes, k);
            decode_utf8_split(bytes, k);
            assert(bytes.subrange(k, bytes.len() as int) =~= tail);
            let front = decode_utf8(bytes.subrange(0, k));
            assert(text =~= front + suffix);
            assert(suffix =~= text.subrange(text.len() - suffix.len(), text.len() as int));
        }
    }
}

/// The encoding of a single character ends in a byte below 0x80 exactly when
/// the character is ASCII, and then that byte is the character.
pub proof fn lemma_encode_single(c: char)
    ensures
        encode_utf8(seq![c]) == encode_scalar(c as u32),
        encode_scalar(c as u32).len() > 0,
        encode_scalar(c as u32).last() < 0x80 <==> c <= '\u{7f}',
        encode_scalar(c as u32).last() < 0x80 ==> c == encode_scalar(c as u32).last() as char,
{
    let one = seq![c];
    let s = c as u32;
    let encoded = encode_scalar(s);
    char_is_scalar(c);
    assert(encode_utf8(one) =~= encoded) by {
        reveal_with_fuel(encode_utf8, 2);
        assert(one[0] == c);
        assert(one.drop_first().len() == 0);
    }
    if has_width_1_encoding(s) {
        assert(s as u8 == leading_byte_width_1(s) && leading_byte_width_1(s) < 0x80)
            by (bit_vector)
            requires
                has_width_1_encoding(s),
        ;
        assert(encoded.last() == s as u8);
        char_u32_cast(c, s);
    } else {
        assert(encoded.last() == last_continuation_byte(s));
        assert(last_continuation_byte(s) >= 0x80) by (bit_vector);
    }
}

/// The last byte of a non-empty text's encoding is below 0x80 exactly when
/// the last character is ASCII, and then it is that character.
pub proof fn lemma_last_byte(text: Seq<char>)
    requires
        text.len() > 0,
    ensures
        encode_utf8(text).len() > 0,
        encode_utf8(text).last() < 0x80 <==> text.last() <= '\u{7f}',
        encode_utf8(text).last() < 0x80 ==> text.last() == encode_utf8(text).last() as char,
{
    let front = text.drop_last();
    let one = seq![text.last()];
    assert(text =~= front + one);
    lemma_encode_concat(front, one);
    lemma_encode_single(text.last());
}

/// The text that lossy decoding makes of a byte string. Of bytes that are not
/// valid UTF-8 it is a text in which each malformed stretch is replaced by
/// U+FFFD.
pub uninterp spec fn lossy_text(bytes: Seq<u8>) -> Seq<char>;

/// What a byte string reads as: the text it encodes where it is valid UTF-8,
/// and otherwise what lossy decoding makes of it.
pub open spec fn spec_text_of(bytes: Seq<u8>) -> Seq<char> {
    if valid_utf8(bytes) {
        decode_utf8(bytes)
    } else {
        lossy_text(bytes)
    }
}

/// Decodes bytes as UTF-8, replacing what is malformed.
///
/// Trusted: the body is `String::from_utf8_lossy`. The contract names its
/// result and claims one thing of it, which the standard library documents:
/// valid UTF-8 comes back as the text it encodes.
#[verifier::external_body]
fn decode_lossy(bytes: &[u8]) -> (text: String)
    ensures
        text@ == lossy_text(bytes@),
        valid_utf8(bytes@) ==> text@ == decode_utf8(bytes@),
{
    String::from_utf8_lossy(bytes).into_owned()
}

/// Reads a byte string as text.
pub fn text_of(bytes: &[u8]) -> (text: String)
    ensures
        text@ == spec_text_of(bytes@),
{
    decode_lossy(bytes)
}

} // verus!
