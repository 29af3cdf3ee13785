//! Comparison of texts, byte by byte.
//!
//! File names and arguments are compared as `str` compares them: by their
//! UTF-8 bytes. The contracts below therefore speak of `spec_bytes()`,
//! the bytes of a `str`, and of plain byte sequences.

use vstd::prelude::*;
use vstd::string::*;
use vstd::utf8::*;

verus! {

/// Whether two byte slices hold the same bytes.
pub fn bytes_eq(a: &[u8], b: &[u8]) -> (r: bool)
    ensures
        r == (a@ == b@),
{
    if a.len() != b.len() {
        return false;
    }
    let mut i: usize = 0;
    while i < a.len()
        invariant
            a@.len() == b@.len(),
            i <= a@.len(),
            a@.subrange(0, i as int) == b@.subrange(0, i as int),
        decreases a@.len() - i,
    {
        if a[i] != b[i] {
            assert(a@[i as int] != b@[i as int]);
            return false;
        }
        assert(a@.subrange(0, i + 1) == a@.subrange(0, i as int).push(a@[i as int]));
        assert(b@.subrange(0, i + 1) == b@.subrange(0, i as int).push(b@[i as int]));
        i = i + 1;
    }
    assert(a@ == a@.subrange(0, i as int));
    assert(b@ == b@.subrange(0, i as int));
    true
}

/// Whether `s` begins with the bytes of `prefix`.
pub fn bytes_start_with(s: &[u8], prefix: &[u8]) -> (r: bool)
    ensures
        r == prefix@.is_prefix_of(s@),
{
    if prefix.len() > s.len() {
        return false;
    }
    let head = vstd::slice::slice_subrange(s, 0, prefix.len());
    bytes_eq(prefix, head)
}

/// Whether `s` ends with the bytes of `suffix`.
pub fn bytes_end_with(s: &[u8], suffix: &[u8]) -> (r: bool)
    ensures
        r == suffix@.is_suffix_of(s@),
{
    if suffix.len() > s.len() {
        return false;
    }
    let tail = vstd::slice::slice_subrange(s, s.len() - suffix.len(), s.len());
    bytes_eq(suffix, tail)
}

/// Two texts have the same characters exactly when they have the same
/// bytes.
pub proof fn lemma_same_bytes_same_chars(a: Seq<char>, b: Seq<char>)
    ensures
        (encode_utf8(a) == encode_utf8(b)) <==> (a == b),
{
    encode_utf8_decode_utf8(a);
    encode_utf8_decode_utf8(b);
}

/// Whether two texts are equal.
pub fn str_eq(a: &str, b: &str) -> (r: bool)
    ensures
        r == (a@ == b@),
        r == (a.spec_bytes() == b.spec_bytes()),
{
    proof {
        lemma_same_bytes_same_chars(a@, b@);
    }
    bytes_eq(a.as_bytes(), b.as_bytes())
}

/// Whether the text `s` begins with the text `prefix`, compared by bytes.
pub open spec fn text_starts_with(s: Seq<char>, prefix: Seq<char>) -> bool {
    encode_utf8(prefix).is_prefix_of(encode_utf8(s))
}

/// Whether the text `s` ends with the text `suffix`, compared by bytes.
pub open spec fn text_ends_with(s: Seq<char>, suffix: Seq<char>) -> bool {
    encode_utf8(suffix).is_suffix_of(encode_utf8(s))
}

/// Whether the first byte of the text `s` is `b`.
pub open spec fn text_begins_with_byte(s: Seq<char>, b: u8) -> bool {
    encode_utf8(s).len() > 0 && encode_utf8(s)[0] == b
}

/// Whether `s` begins with `prefix`, compared by bytes.
pub fn str_starts_with(s: &str, prefix: &str) -> (r: bool)
    ensures
        r == text_starts_with(s@, prefix@),
{
    bytes_start_with(s.as_bytes(), prefix.as_bytes())
}

/// Whether `s` ends with `suffix`, compared by bytes.
pub fn str_ends_with(s: &str, suffix: &str) -> (r: bool)
    ensures
        r == text_ends_with(s@, suffix@),
{
    bytes_end_with(s.as_bytes(), suffix.as_bytes())
}

/// Whether the first byte of `s` is `b`.
pub fn str_begins_with_byte(s: &str, b: u8) -> (r: bool)
    ensures
        r == text_begins_with_byte(s@, b),
{
    let bytes = s.as_bytes();
    bytes.len() > 0 && bytes[0] == b
}

} // verus!
