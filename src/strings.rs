use vstd::prelude::*;
use vstd::string::{StringExecFns, StringSliceAdditionalSpecFns};
use vstd::utf8::{
    encode_utf8, encode_utf8_valid_utf8, is_char_boundary, length_of_first_scalar,
    pop_first_scalar, valid_utf8,
};

use crate::token::{token_end, token_end_of};

verus! {

/// In valid UTF-8, a byte below 0x80 always starts a character: it can be
/// neither a continuation byte nor part of a multi-byte encoding.
proof fn lemma_ascii_byte_is_char_boundary(bytes: Seq<u8>, i: int)
    requires
        valid_utf8(bytes),
        0 <= i < bytes.len(),
        bytes[i] <= 0x7f,
    ensures
        is_char_boundary(bytes, i),
    decreases bytes.len(),
{
    if i != 0 {
        let l = length_of_first_scalar(bytes);
        assert(i >= l);
        let rest = pop_first_scalar(bytes);
        assert(rest[i - l] == bytes[i]);
        lemma_ascii_byte_is_char_boundary(rest, i - l);
    }
}

/// The byte length of `name`'s UTF-8 encoding.
pub fn calculate_length(name: &String) -> (r: usize)
    ensures
        r == encode_utf8(name@).len(),
{
    name.as_str().as_bytes().len()
}

/// Appends the digits `"def"` to `digits`.
pub fn add_digits(digits: &mut String)
    ensures
        final(digits)@ == old(digits)@ + "def"@,
{
    digits.append("def");
}

/// The byte index where the first whitespace-delimited word of `s` ends: the
/// position of its first whitespace byte, or its byte length when it has none.
pub fn first_word_index(s: &String) -> (r: usize)
    ensures
        r == token_end(encode_utf8(s@)),
{
    token_end_of(s.as_str().as_bytes())
}

/// The first whitespace-delimited word of `s`, borrowed from it: the bytes
/// before its first whitespace byte, or all of `s` when it has none.
pub fn first_word_slice(s: &String) -> (r: &str)
    ensures
        encode_utf8(r@) == encode_utf8(s@).subrange(0, token_end(encode_utf8(s@)) as int),
{
    let text = s.as_str();
    let bytes = text.as_bytes();
    let end = token_end_of(bytes);
    if end == bytes.len() {
        assert(bytes@.subrange(0, end as int) =~= bytes@);
        return text;
    }
    proof {
        encode_utf8_valid_utf8(text@);
        lemma_ascii_byte_is_char_boundary(bytes@, end as int);
    }
    let (word, _) = text.split_at(end);
    word
}

} // verus!
