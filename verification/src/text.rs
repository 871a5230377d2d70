//! Bytes and text.

use vstd::prelude::*;
use vstd::slice::slice_subrange;
use vstd::utf8::{decode_utf8, encode_utf8, encode_utf8_decode_utf8, valid_utf8};

verus! {

/// The text that `String::from_utf8_lossy` makes of `bytes`.
pub uninterp spec fn utf8_lossy(bytes: Seq<u8>) -> Seq<char>;

/// Assumed of `String::from_utf8_lossy`: the text depends on the bytes
/// alone, and bytes that are valid UTF-8 are decoded as they stand. (Every
/// other run of bytes comes out as U+FFFD; the contract leaves open how
/// many.)
#[verifier::external_body]
pub(crate) fn from_utf8_lossy(bytes: &[u8]) -> (text: String)
    ensures
        text@ == utf8_lossy(bytes@),
        valid_utf8(bytes@) ==> text@ == decode_utf8(bytes@),
{
    String::from_utf8_lossy(bytes).into_owned()
}

/// Whether two byte strings are the same.
pub fn bytes_eq(a: &[u8], b: &[u8]) -> (same: bool)
    ensures
        same == (a@ == b@),
{
    if a.len() != b.len() {
        return false;
    }
    let mut i: usize = 0;
    while i < a.len()
        invariant
            a@.len() == b@.len(),
            i <= a@.len(),
            a@.subrange(0, i as int) == b@.subrange(0, i as int),
        decreases a@.len() - i,
    {
        if a[i] != b[i] {
            assert(a@[i as int] != b@[i as int]);
            return false;
        }
        assert(a@.subrange(0, i + 1) == a@.subrange(0, i as int).push(a@[i as int]));
        assert(b@.subrange(0, i + 1) == b@.subrange(0, i as int).push(b@[i as int]));
        i += 1;
    }
    assert(a@ == a@.subrange(0, i as int));
    assert(b@ == b@.subrange(0, i as int));
    true
}

/// Two texts with the same UTF-8 encoding are the same text.
pub proof fn lemma_encoding_is_injective(a: Seq<char>, b: Seq<char>)
    requires
        encode_utf8(a) == encode_utf8(b),
    ensures
        a == b,
{
    encode_utf8_decode_utf8(a);
    encode_utf8_decode_utf8(b);
}

/// Whether two strings hold the same text.
pub fn str_eq(a: &str, b: &str) -> (same: bool)
    ensures
        same == (a@ == b@),
{
    let same = bytes_eq(a.as_bytes(), b.as_bytes());
    proof {
        if same {
            lemma_encoding_is_injective(a@, b@);
        }
    }
    same
}

/// Whether `bytes` begins with `prefix`.
pub fn has_prefix(bytes: &[u8], prefix: &[u8]) -> (found: bool)
    ensures
        found == prefix@.is_prefix_of(bytes@),
{
    if prefix.len() > bytes.len() {
        return false;
    }
    bytes_eq(slice_subrange(bytes, 0, prefix.len()), prefix)
}

/// The position of the first `x` in `s`, or the length of `s` where it has
/// none.
pub open spec fn first_index<T>(s: Seq<T>, x: T) -> int
    decreases s.len(),
{
    if s.len() == 0 || s[0] == x {
        0
    } else {
        1 + first_index(s.drop_first(), x)
    }
}

/// `first_index` is the one position before which no `x` stands and at
/// which `s` ends or holds `x`.
pub proof fn lemma_first_index<T>(s: Seq<T>, x: T, k: int)
    requires
        0 <= k <= s.len(),
        forall|j: int| 0 <= j < k ==> s[j] != x,
        k == s.len() || s[k] == x,
    ensures
        first_index(s, x) == k,
    decreases s.len(),
{
    if s.len() > 0 && s[0] != x {
        let rest = s.drop_first();
        assert forall|j: int| 0 <= j < k - 1 implies rest[j] != x by {
            assert(rest[j] == s[j + 1]);
        }
        lemma_first_index(rest, x, k - 1);
    }
}

/// The pieces of `s` between occurrences of `sep`; one more piece than
/// there are separators, so an empty `s` has one empty piece.
pub open spec fn split<T>(s: Seq<T>, sep: T) -> Seq<Seq<T>>
    decreases s.len(),
{
    let k = first_index(s, sep);
    if 0 <= k < s.len() {
        seq![s.subrange(0, k)] + split(s.subrange(k + 1, s.len() as int), sep)
    } else {
        seq![s]
    }
}

} // verus!
