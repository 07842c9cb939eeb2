//! Verified string helpers: equality and substring search, specified over
//! the UTF-8 byte encoding of the character sequences.

use vstd::prelude::*;
use vstd::slice::slice_index_get;
use vstd::utf8::encode_utf8;
use vstd::utf8::encode_utf8_decode_utf8;

verus! {

/// `p` occurs as a contiguous run inside `t`.
pub open spec fn contains_seq(t: Seq<u8>, p: Seq<u8>) -> bool {
    exists|i: int|
        0 <= i <= t.len() - p.len() && #[trigger] t.subrange(i, i + p.len() as int) == p
}

/// The UTF-8 byte encoding of a character sequence.
pub open spec fn str_bytes(s: Seq<char>) -> Seq<u8> {
    encode_utf8(s)
}

/// `p` occurs as a substring of `t`, at the level of UTF-8 bytes.
pub open spec fn str_contains_spec(t: Seq<char>, p: Seq<char>) -> bool {
    contains_seq(str_bytes(t), str_bytes(p))
}

/// Byte-slice equality.
pub fn bytes_eq(a: &[u8], b: &[u8]) -> (r: bool)
    ensures
        r == (a@ == b@),
{
    if a.len() != b.len() {
        return false;
    }
    let mut i: usize = 0;
    while i < a.len()
        invariant
            a@.len() == b@.len(),
            i <= a@.len(),
            forall|j: int| 0 <= j < i ==> a@[j] == b@[j],
        decreases a@.len() - i,
    {
        if *slice_index_get(a, i) != *slice_index_get(b, i) {
            return false;
        }
        i += 1;
    }
    proof {
        assert(a@ =~= b@);
    }
    true
}

/// Whether `p` matches `t` starting at position `i`.
fn match_at(t: &[u8], p: &[u8], i: usize) -> (r: bool)
    requires
        i + p@.len() <= t@.len(),
    ensures
        r == (t@.subrange(i as int, i + p@.len()) == p@),
{
    let ghost window = t@.subrange(i as int, i + p@.len());
    let n: usize = t.len();
    let mut j: usize = 0;
    while j < p.len()
        invariant
            i + p@.len() <= t@.len(),
            n == t@.len(),
            j <= p@.len(),
            window == t@.subrange(i as int, i + p@.len()),
            forall|k: int| 0 <= k < j ==> t@[i + k] == p@[k],
        decreases p@.len() - j,
    {
        if *slice_index_get(t, i + j) != *slice_index_get(p, j) {
            proof {
                assert(window[j as int] == t@[i + j]);
            }
            return false;
        }
        j += 1;
    }
    proof {
        assert(window =~= p@);
    }
    true
}

/// Byte-level substring search.
pub fn contains_bytes(t: &[u8], p: &[u8]) -> (r: bool)
    ensures
        r == contains_seq(t@, p@),
{
    if p.len() > t.len() {
        return false;
    }
    if p.len() == 0 {
        proof {
            assert(contains_seq(t@, p@)) by {
                assert(t@.subrange(0, 0 + p@.len() as int) =~= p@);
            }
        }
        return true;
    }
    let tl: usize = t.len();
    let last: usize = tl - p.len();
    let mut i: usize = 0;
    while i <= last
        invariant
            1 <= p@.len() <= t@.len(),
            tl == t@.len(),
            last == t@.len() - p@.len(),
            i <= last + 1,
            forall|k: int|
                0 <= k < i ==> #[trigger] t@.subrange(k, k + p@.len() as int) != p@,
        decreases last + 1 - i,
    {
        if match_at(t, p, i) {
            return true;
        }
        i += 1;
    }
    false
}

/// Substring search on strings; the specification speaks of the UTF-8
/// bytes of both.
pub fn str_contains(t: &str, p: &str) -> (r: bool)
    ensures
        r == str_contains_spec(t@, p@),
{
    contains_bytes(t.as_bytes(), p.as_bytes())
}

/// String equality, specified over the character sequences.
pub fn str_eq(a: &str, b: &str) -> (r: bool)
    ensures
        r == (a@ == b@),
{
    let r = bytes_eq(a.as_bytes(), b.as_bytes());
    proof {
        if encode_utf8(a@) == encode_utf8(b@) {
            encode_utf8_decode_utf8(a@);
            encode_utf8_decode_utf8(b@);
        }
    }
    r
}

} // verus!
