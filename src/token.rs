use vstd::prelude::*;

verus! {

/// The bytes that separate tokens: space, tab, line feed, form feed and
/// carriage return (the ASCII whitespace set).
pub open spec fn is_whitespace(b: u8) -> bool {
    b == 0x20u8 || b == 0x09u8 || b == 0x0au8 || b == 0x0cu8 || b == 0x0du8
}

/// Where the first token of `s` ends: the index of the first whitespace
/// byte, or the length of `s` when there is none.
pub open spec fn token_end(s: Seq<u8>) -> nat
    decreases s.len(),
{
    if s.len() == 0 {
        0
    } else if is_whitespace(s[0]) {
        0
    } else {
        1 + token_end(s.drop_first())
    }
}

/// `token_end(s)` is the first whitespace position, or the length when
/// there is none.
pub proof fn lemma_token_end_is_first_whitespace(s: Seq<u8>)
    ensures
        token_end(s) <= s.len(),
        forall|j: int| 0 <= j < token_end(s) ==> !is_whitespace(#[trigger] s[j]),
        token_end(s) < s.len() ==> is_whitespace(s[token_end(s) as int]),
    decreases s.len(),
{
    if s.len() > 0 && !is_whitespace(s[0]) {
        let t = s.drop_first();
        lemma_token_end_is_first_whitespace(t);
        assert forall|j: int| 0 <= j < token_end(s) implies !is_whitespace(#[trigger] s[j]) by {
            if j > 0 {
                assert(s[j] == t[j - 1]);
            }
        }
    }
}

/// Tells whether `b` separates tokens.
pub fn is_whitespace_byte(b: u8) -> (r: bool)
    ensures
        r == is_whitespace(b),
{
    b == 0x20u8 || b == 0x09u8 || b == 0x0au8 || b == 0x0cu8 || b == 0x0du8
}

/// Scans `bytes` from the front and returns the index of the first
/// whitespace byte, or the length of `bytes` when there is none.
pub fn token_end_of(bytes: &[u8]) -> (r: usize)
    ensures
        r == token_end(bytes@),
        r <= bytes@.len(),
        forall|j: int| 0 <= j < r ==> !is_whitespace(#[trigger] bytes@[j]),
        r < bytes@.len() ==> is_whitespace(bytes@[r as int]),
{
    let n = bytes.len();
    let mut i: usize = 0;
    proof {
        lemma_token_end_is_first_whitespace(bytes@);
        assert(bytes@.subrange(0, n as int) =~= bytes@);
    }
    while i < n
        invariant
            n == bytes@.len(),
            i <= n,
            token_end(bytes@) <= n,
            forall|j: int| 0 <= j < token_end(bytes@) ==> !is_whitespace(#[trigger] bytes@[j]),
            token_end(bytes@) < n ==> is_whitespace(bytes@[token_end(bytes@) as int]),
            token_end(bytes@) == i + token_end(bytes@.subrange(i as int, n as int)),
        decreases n - i,
    {
        let ghost rest = bytes@.subrange(i as int, n as int);
        if is_whitespace_byte(bytes[i]) {
            assert(rest[0] == bytes@[i as int]);
            return i;
        }
        assert(rest.drop_first() =~= bytes@.subrange(i + 1, n as int));
        i = i + 1;
    }
    proof {
        assert(bytes@.subrange(n as int, n as int).len() == 0);
    }
    n
}

} // verus!
