//!
//! Byte offsets in UTF-8 text.
//!
use unicode_segmentation::UnicodeSegmentation;
use vstd::prelude::*;
use vstd::utf8::{
    decode_utf8, encode_scalar, encode_utf8, encode_utf8_decode_utf8, encode_utf8_first_scalar,
    encode_utf8_valid_utf8, is_char_boundary,
};

verus! {

/// Byte offset of the character with index `k` in the UTF-8 encoding of `s`.
pub open spec fn byte_offset(s: Seq<char>, k: int) -> int {
    encode_utf8(s.take(k)).len() as int
}

/// The encoding of a concatenation is the concatenation of the encodings.
pub proof fn lemma_encode_utf8_concat(a: Seq<char>, b: Seq<char>)
    ensures
        encode_utf8(a + b) =~= encode_utf8(a) + encode_utf8(b),
    decreases a.len(),
{
    if a.len() == 0 {
        assert(a + b =~= b);
    } else {
        assert((a + b).drop_first() =~= a.drop_first() + b);
        lemma_encode_utf8_concat(a.drop_first(), b);
    }
}

/// The encoding of a single character.
pub proof fn lemma_encode_utf8_single(c: char)
    ensures
        encode_utf8(seq![c]) =~= encode_scalar(c as u32),
{
    assert(seq![c].drop_first() =~= Seq::<char>::empty());
    assert(encode_utf8(Seq::<char>::empty()) =~= Seq::<u8>::empty());
}

/// Byte offsets grow by the encoded length of each character.
pub proof fn lemma_byte_offset_step(s: Seq<char>, k: int)
    requires
        0 <= k < s.len(),
    ensures
        byte_offset(s, k + 1) == byte_offset(s, k) + encode_scalar(s[k] as u32).len(),
        byte_offset(s, k + 1) <= byte_offset(s, s.len() as int),
{
    assert(s.take(k + 1) =~= s.take(k) + seq![s[k]]);
    lemma_encode_utf8_concat(s.take(k), seq![s[k]]);
    lemma_encode_utf8_single(s[k]);
    assert(s =~= s.take(k + 1) + s.skip(k + 1));
    assert(s.take(s.len() as int) =~= s);
    lemma_encode_utf8_concat(s.take(k + 1), s.skip(k + 1));
}

/// The byte offset of every character index is a character boundary.
pub proof fn lemma_char_boundary_at(s: Seq<char>, k: int)
    requires
        0 <= k <= s.len(),
    ensures
        is_char_boundary(encode_utf8(s), byte_offset(s, k)),
    decreases k,
{
    broadcast use encode_utf8_valid_utf8;

    if k > 0 {
        let bytes = encode_utf8(s);
        encode_utf8_first_scalar(s);
        assert(vstd::utf8::pop_first_scalar(bytes) =~= encode_utf8(s.drop_first()));
        lemma_char_boundary_at(s.drop_first(), k - 1);
        assert(s.take(k) =~= seq![s[0]] + s.drop_first().take(k - 1));
        lemma_encode_utf8_concat(seq![s[0]], s.drop_first().take(k - 1));
        lemma_encode_utf8_single(s[0]);
        assert(byte_offset(s, k) == encode_scalar(s[0] as u32).len() + byte_offset(
            s.drop_first(),
            k - 1,
        ));
    }
}

/// Text whose bytes are the encoding of the first `k` characters of `s`
/// is those characters; likewise for the rest.
pub proof fn lemma_split_chars(s: Seq<char>, k: int, left: Seq<char>, right: Seq<char>)
    requires
        0 <= k <= s.len(),
        encode_utf8(left) =~= encode_utf8(s).subrange(0, byte_offset(s, k)),
        encode_utf8(right) =~= encode_utf8(s).subrange(byte_offset(s, k), encode_utf8(s).len() as int),
    ensures
        left == s.take(k),
        right == s.skip(k),
{
    broadcast use encode_utf8_decode_utf8;

    assert(s =~= s.take(k) + s.skip(k));
    lemma_encode_utf8_concat(s.take(k), s.skip(k));
    assert(encode_utf8(left) =~= encode_utf8(s.take(k)));
    assert(encode_utf8(right) =~= encode_utf8(s.skip(k)));
    assert(decode_utf8(encode_utf8(left)) == left);
    assert(decode_utf8(encode_utf8(s.take(k))) == s.take(k));
    assert(decode_utf8(encode_utf8(right)) == right);
    assert(decode_utf8(encode_utf8(s.skip(k))) == s.skip(k));
}

/// Number of bytes of the UTF-8 encoding of `c`.
pub fn utf8_len(c: char) -> (r: usize)
    ensures
        r == encode_scalar(c as u32).len(),
        1 <= r <= 4,
{
    let v = c as u32;
    if v <= 0x7f {
        1
    } else if v <= 0x7ff {
        2
    } else if v <= 0xffff {
        3
    } else {
        4
    }
}

/// ASCII lowercase of a character; other characters stay as they are.
pub open spec fn ascii_lowercase(c: char) -> char {
    if 'A' <= c <= 'Z' {
        ((c as u32) + 32) as char
    } else {
        c
    }
}

/// ASCII lowercase of a character; other characters stay as they are.
pub fn to_ascii_lowercase(c: char) -> (r: char)
    ensures
        r == ascii_lowercase(c),
{
    if 'A' <= c && c <= 'Z' {
        ((c as u8) + 32) as char
    } else {
        c
    }
}

/// Number of extended grapheme clusters of the text.
pub uninterp spec fn grapheme_count(text: Seq<char>) -> int;

/// Counts the extended grapheme clusters of the text.
///
/// Calls unicode-segmentation's `graphemes(true).count()`. The contract
/// names the result; each cluster holds at least one char, so there are
/// no more of them than chars.
#[verifier::external_body]
pub(crate) fn graphemes_len(text: &str) -> (r: usize)
    ensures
        r == grapheme_count(text@),
        r <= text@.len(),
{
    text.graphemes(true).count()
}

/// Appends the text to the string.
///
/// Calls std's `String::push_str`, documented to append the given
/// string slice onto the end of the string.
#[verifier::external_body]
pub(crate) fn push_str(s: &mut String, text: &str)
    ensures
        final(s)@ == old(s)@ + text@,
{
    s.push_str(text);
}

/// Appends the char to the string.
///
/// Calls std's `String::push`, documented to append the given char to
/// the end of the string.
#[verifier::external_body]
pub(crate) fn push_char(s: &mut String, c: char)
    ensures
        final(s)@ == old(s)@.push(c),
{
    s.push(c);
}

/// Display width of a text in terminal columns.
pub uninterp spec fn display_width(s: Seq<char>) -> u64;

/// Display width of a text.
///
/// Calls `unicode_display_width::width`, which sums the widths of the
/// grapheme clusters. The contract names the result.
#[verifier::external_body]
pub(crate) fn text_width(s: &str) -> (r: u64)
    ensures
        r == display_width(s@),
{
    unicode_display_width::width(s)
}

} // verus!
