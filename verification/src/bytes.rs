//! Byte-string helpers shared by the parsers: comparison, searching and UTF-8.
use vstd::prelude::*;
use vstd::utf8::*;

verus! {

/// Index of the first occurrence of `x` in `b`, or `b.len()` when there is none.
pub open spec fn first_index(b: Seq<u8>, x: u8) -> int
    decreases b.len(),
{
    if b.len() == 0 {
        0
    } else if b[0] == x {
        0
    } else {
        1 + first_index(b.drop_first(), x)
    }
}

/// `first_index` lies within the sequence, and no earlier byte is `x`.
pub proof fn lemma_first_index_bounds(b: Seq<u8>, x: u8)
    ensures
        0 <= first_index(b, x) <= b.len(),
        first_index(b, x) < b.len() ==> b[first_index(b, x)] == x,
        forall|k: int| 0 <= k < first_index(b, x) ==> b[k] != x,
    decreases b.len(),
{
    if b.len() > 0 && b[0] != x {
        lemma_first_index_bounds(b.drop_first(), x);
        assert forall|k: int| 0 <= k < first_index(b, x) implies b[k] != x by {
            if k > 0 {
                assert(b[k] == b.drop_first()[k - 1]);
            }
        }
    }
}

/// A position before which no byte is `x`, and that is the end or holds `x`,
/// is `first_index`.
pub proof fn lemma_first_index_is(b: Seq<u8>, x: u8, i: int)
    requires
        0 <= i <= b.len(),
        forall|k: int| 0 <= k < i ==> b[k] != x,
        i == b.len() || b[i] == x,
    ensures
        first_index(b, x) == i,
    decreases i,
{
    if i > 0 {
        assert(b[0] != x);
        let t = b.drop_first();
        assert forall|k: int| 0 <= k < i - 1 implies t[k] != x by {
            assert(t[k] == b[k + 1]);
        }
        if i < b.len() {
            assert(t[i - 1] == b[i]);
        }
        lemma_first_index_is(t, x, i - 1);
    }
}

/// Index of the first occurrence of `pat` in `b`, if any.
pub open spec fn find_subsequence(b: Seq<u8>, pat: Seq<u8>) -> Option<int>
    decreases b.len(),
{
    if b.len() < pat.len() {
        None
    } else if b.subrange(0, pat.len() as int) == pat {
        Some(0)
    } else if b.len() == 0 {
        None
    } else {
        match find_subsequence(b.drop_first(), pat) {
            Some(i) => Some(i + 1),
            None => None,
        }
    }
}

/// Whether `b` starts with `pat`.
pub open spec fn has_prefix(b: Seq<u8>, pat: Seq<u8>) -> bool {
    pat.len() <= b.len() && b.subrange(0, pat.len() as int) == pat
}

/// Compares two byte strings.
pub fn bytes_eq(a: &[u8], b: &[u8]) -> (r: bool)
    ensures
        r == (a@ == b@),
{
    if a.len() != b.len() {
        return false;
    }
    let mut i: usize = 0;
    while i < a.len()
        invariant
            i <= a.len(),
            a.len() == b.len(),
            forall|j: int| 0 <= j < i ==> a@[j] == b@[j],
        decreases a.len() - i,
    {
        if a[i] != b[i] {
            return false;
        }
        i += 1;
    }
    assert(a@ =~= b@);
    true
}

/// Whether `b` starts with `pat`.
pub fn starts_with(b: &[u8], pat: &[u8]) -> (r: bool)
    ensures
        r == has_prefix(b@, pat@),
{
    if pat.len() > b.len() {
        return false;
    }
    bytes_eq(&b[0..pat.len()], pat)
}

/// Index of the first occurrence of `x` in `b[start..]`, counted from the
/// start of `b`, or `b.len()`.
pub fn find_byte(b: &[u8], start: usize, x: u8) -> (r: usize)
    requires
        start <= b.len(),
    ensures
        start <= r <= b.len(),
        r == start + first_index(b@.subrange(start as int, b@.len() as int), x),
{
    let mut i = start;
    while i < b.len()
        invariant
            start <= i <= b.len(),
            forall|k: int| start <= k < i ==> b@[k] != x,
        ensures
            start <= i <= b.len(),
            forall|k: int| start <= k < i ==> b@[k] != x,
            i == b.len() || b@[i as int] == x,
        decreases b.len() - i,
    {
        if b[i] == x {
            break;
        }
        i += 1;
    }
    proof {
        let t = b@.subrange(start as int, b@.len() as int);
        assert forall|k: int| 0 <= k < i - start implies t[k] != x by {
            assert(t[k] == b@[start + k]);
        }
        if i < b.len() {
            assert(t[i - start] == b@[i as int]);
        }
        lemma_first_index_is(t, x, i - start);
    }
    i
}

/// Index of the first occurrence of `pat` in `b`, if any.
pub fn find_pattern(b: &[u8], pat: &[u8]) -> (r: Option<usize>)
    ensures
        r is Some <==> find_subsequence(b@, pat@) is Some,
        r matches Some(i) ==> find_subsequence(b@, pat@) == Some(i as int) && i + pat@.len()
            <= b@.len(),
{
    let mut i: usize = 0;
    assert(b@.subrange(0, b@.len() as int) =~= b@);
    while i <= b.len()
        invariant
            i <= b.len(),
            find_subsequence(b@, pat@) == (match find_subsequence(
                b@.subrange(i as int, b@.len() as int),
                pat@,
            ) {
                Some(k) => Some(k + i),
                None => None,
            }),
        decreases b.len() + 1 - i,
    {
        let ghost rest = b@.subrange(i as int, b@.len() as int);
        if b.len() - i < pat.len() {
            return None;
        }
        if bytes_eq(&b[i..i + pat.len()], pat) {
            assert(rest.subrange(0, pat@.len() as int) =~= b@.subrange(
                i as int,
                i + pat@.len(),
            ));
            return Some(i);
        }
        assert(rest.subrange(0, pat@.len() as int) =~= b@.subrange(i as int, i + pat@.len()));
        if i == b.len() {
            return None;
        }
        assert(rest.drop_first() =~= b@.subrange(i + 1, b@.len() as int));
        i += 1;
    }
    None
}

/// `core::str::from_utf8`: its documentation states that it succeeds
/// exactly on byte strings that are valid UTF-8. The contract claims that this
/// agrees with vstd's `valid_utf8`, and that the resulting string slice holds
/// the characters that the bytes encode.
#[verifier::external_body]
pub(crate) fn str_from_utf8(bytes: &[u8]) -> (r: Option<&str>)
    ensures
        r is Some <==> valid_utf8(bytes@),
        r matches Some(s) ==> s@ == decode_utf8(bytes@),
{
    core::str::from_utf8(bytes).ok()
}

/// Whether a byte string is valid UTF-8.
pub fn is_valid_utf8(bytes: &[u8]) -> (r: bool)
    ensures
        r == valid_utf8(bytes@),
{
    str_from_utf8(bytes).is_some()
}

/// The characters `str::to_lowercase` gives for a string's characters.
pub uninterp spec fn unicode_lowercase(s: Seq<char>) -> Seq<char>;

/// The ASCII lowercase of a character: `A` to `Z` become `a` to `z`, every
/// other character is kept.
pub open spec fn ascii_lowercase_char(c: char) -> char {
    if 65 <= (c as u32) <= 90 {
        ((c as u32) + 32) as char
    } else {
        c
    }
}

/// `str::to_lowercase`: the result is a function of the characters alone,
/// named `unicode_lowercase`; its Unicode case tables are not restated. The
/// contract also claims what the Unicode lowercase mapping gives for ASCII
/// text: its ASCII lowercase, character by character.
#[verifier::external_body]
pub(crate) fn str_to_lowercase(s: &str) -> (r: String)
    ensures
        r@ == unicode_lowercase(s@),
        (forall|i: int| 0 <= i < s@.len() ==> (s@[i] as u32) < 128) ==> r@ == s@.map_values(
            |c: char| ascii_lowercase_char(c),
        ),
{
    s.to_lowercase()
}

/// Whether every byte is ASCII.
pub open spec fn ascii_bytes(b: Seq<u8>) -> bool {
    forall|i: int| 0 <= i < b.len() ==> b[i] < 128
}

/// The ASCII lowercase of a byte: `A` to `Z` become `a` to `z`, every other
/// byte is kept.
pub open spec fn ascii_lowercase_byte(x: u8) -> u8 {
    if 65 <= x <= 90 {
        (x + 32) as u8
    } else {
        x
    }
}

/// ASCII bytes are valid UTF-8 and decode to one character per byte.
proof fn lemma_ascii_decode(b: Seq<u8>)
    requires
        ascii_bytes(b),
    ensures
        valid_utf8(b),
        decode_utf8(b) == b.map_values(|x: u8| x as char),
    decreases b.len(),
{
    if b.len() > 0 {
        let x = b[0];
        assert(x & 0x7f == x) by (bit_vector)
            requires
                x < 128,
        ;
        let rest = b.subrange(1, b.len() as int);
        lemma_ascii_decode(rest);
        assert(pop_first_scalar(b) =~= rest);
        assert(decode_utf8(b) =~= b.map_values(|x: u8| x as char));
    }
}

/// Characters below 128 encode to one byte each, their code.
proof fn lemma_ascii_encode(cs: Seq<char>)
    requires
        forall|i: int| 0 <= i < cs.len() ==> (cs[i] as u32) < 128,
    ensures
        encode_utf8(cs) == cs.map_values(|c: char| (c as u32) as u8),
    decreases cs.len(),
{
    if cs.len() > 0 {
        let v = cs[0] as u32;
        assert(v & 0x7f == v) by (bit_vector)
            requires
                v < 128,
        ;
        lemma_ascii_encode(cs.drop_first());
        assert(encode_utf8(cs) =~= cs.map_values(|c: char| (c as u32) as u8));
    }
}

/// The UTF-8 bytes of the lowercase form of a valid UTF-8 byte string; for
/// ASCII text, its ASCII lowercase.
pub fn utf8_lowercase(bytes: &[u8]) -> (r: Vec<u8>)
    requires
        valid_utf8(bytes@),
    ensures
        r@ == encode_utf8(unicode_lowercase(decode_utf8(bytes@))),
        ascii_bytes(bytes@) ==> r@ == bytes@.map_values(|x: u8| ascii_lowercase_byte(x)),
{
    let s = str_from_utf8(bytes);
    match s {
        Some(text) => {
            let lower = str_to_lowercase(text);
            proof {
                if ascii_bytes(bytes@) {
                    lemma_ascii_decode(bytes@);
                    assert forall|i: int| 0 <= i < text@.len() implies (text@[i] as u32) < 128 by {
                        assert(text@[i] == bytes@[i] as char);
                    }
                    assert forall|i: int| 0 <= i < lower@.len() implies (lower@[i] as u32) < 128 by {
                        assert(lower@[i] == ascii_lowercase_char(text@[i]));
                    }
                    lemma_ascii_encode(lower@);
                    assert forall|i: int| 0 <= i < bytes@.len() implies ((lower@[i] as u32) as u8)
                        == ascii_lowercase_byte(bytes@[i]) by {
                        assert(lower@[i] == ascii_lowercase_char(bytes@[i] as char));
                    }
                    assert(encode_utf8(lower@) =~= bytes@.map_values(
                        |x: u8| ascii_lowercase_byte(x),
                    ));
                }
            }
            vstd::slice::slice_to_vec(lower.as_str().as_bytes())
        },
        None => Vec::new(),
    }
}

/// Removing a leading ASCII prefix from valid UTF-8 leaves valid UTF-8.
pub proof fn lemma_valid_utf8_drop_ascii(b: Seq<u8>, n: int)
    requires
        valid_utf8(b),
        0 <= n <= b.len(),
        forall|k: int| 0 <= k < n ==> b[k] < 0x80,
    ensures
        valid_utf8(b.subrange(n, b.len() as int)),
    decreases n,
{
    if n > 0 {
        assert(is_leading_byte_width_1(b[0]));
        assert(pop_first_scalar(b) =~= b.subrange(1, b.len() as int));
        let t = b.subrange(1, b.len() as int);
        assert forall|k: int| 0 <= k < n - 1 implies t[k] < 0x80 by {
            assert(t[k] == b[k + 1]);
        }
        lemma_valid_utf8_drop_ascii(t, n - 1);
        assert(t.subrange(n - 1, t.len() as int) =~= b.subrange(n, b.len() as int));
    } else {
        assert(b.subrange(0, b.len() as int) =~= b);
    }
}

} // verus!
