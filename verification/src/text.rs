//! Text and bytes: the few operations on `str`, `String` and byte slices that
//! the rest of the library needs, each with its meaning stated.

use vstd::prelude::*;
use vstd::string::*;
use vstd::utf8::*;

verus! {

/// The view of an optional text.
pub open spec fn opt_text(o: Option<String>) -> Option<Seq<char>> {
    match o {
        Some(s) => Some(s@),
        None => None,
    }
}

/// A word: one lower-case letter of the English alphabet, or more.
pub open spec fn is_word(t: Seq<char>) -> bool {
    t.len() > 0 && forall|i: int| 0 <= i < t.len() ==> 'a' <= #[trigger] t[i] <= 'z'
}

/// The bytes of a word are its letters.
pub proof fn lemma_word_bytes(t: Seq<char>)
    requires
        is_word(t),
    ensures
        is_ascii_chars(t),
        encode_utf8(t).len() == t.len(),
        forall|i: int|
            0 <= i < t.len() ==> #[trigger] encode_utf8(t)[i] == t[i] as u8 && 97 <= encode_utf8(
                t,
            )[i] <= 122,
{
    assert(is_ascii_chars(t)) by {
        assert forall|i: int| 0 <= i < t.len() implies '\0' <= #[trigger] t[i] <= '\u{7f}' by {
            assert('a' <= t[i] <= 'z');
        }
    }
    is_ascii_chars_encode_utf8(t);
    assert forall|i: int| 0 <= i < t.len() implies #[trigger] encode_utf8(t)[i] == t[i] as u8
        && 97 <= encode_utf8(t)[i] <= 122 by {
        assert('a' <= t[i] <= 'z');
    }
}

/// The bytes of two ASCII texts, one behind the other, are the bytes of the
/// first and then those of the second.
pub proof fn lemma_ascii_concat(x: Seq<char>, y: Seq<char>)
    requires
        is_ascii_chars(x),
        is_ascii_chars(y),
    ensures
        is_ascii_chars(x + y),
        encode_utf8(x + y) == encode_utf8(x) + encode_utf8(y),
{
    assert(is_ascii_chars(x + y)) by {
        assert forall|i: int| 0 <= i < (x + y).len() implies '\0' <= #[trigger] (x + y)[i]
            <= '\u{7f}' by {
            if i < x.len() {
                assert((x + y)[i] == x[i]);
            } else {
                assert((x + y)[i] == y[i - x.len()]);
            }
        }
    }
    is_ascii_chars_encode_utf8(x);
    is_ascii_chars_encode_utf8(y);
    is_ascii_chars_encode_utf8(x + y);
    let whole = encode_utf8(x + y);
    let parts = encode_utf8(x) + encode_utf8(y);
    assert(whole.len() == parts.len());
    assert forall|i: int| 0 <= i < whole.len() implies whole[i] == parts[i] by {
        assert(whole[i] == (x + y)[i] as u8);
        if i < x.len() {
            assert((x + y)[i] == x[i]);
            assert(parts[i] == encode_utf8(x)[i]);
        } else {
            assert((x + y)[i] == y[i - x.len()]);
            assert(parts[i] == encode_utf8(y)[i - x.len()]);
        }
    }
    assert(whole =~= parts);
}

/// Two byte slices hold the same bytes.
pub fn bytes_eq(a: &[u8], b: &[u8]) -> (r: bool)
    ensures
        r == (a@ == b@),
{
    if a.len() != b.len() {
        return false;
    }
    let n: usize = a.len();
    let mut i: usize = 0;
    while i < n
        invariant
            i <= n,
            n == a@.len(),
            n == b@.len(),
            a@.subrange(0, i as int) == b@.subrange(0, i as int),
        decreases n - i,
    {
        if a[i] != b[i] {
            return false;
        }
        assert(a@.subrange(0, i + 1) =~= a@.subrange(0, i as int).push(a@[i as int]));
        assert(b@.subrange(0, i + 1) =~= b@.subrange(0, i as int).push(b@[i as int]));
        i = i + 1;
    }
    assert(a@ =~= a@.subrange(0, n as int));
    assert(b@ =~= b@.subrange(0, n as int));
    true
}

/// Two texts hold the same characters.
pub fn text_eq(a: &str, b: &str) -> (r: bool)
    ensures
        r == (a@ == b@),
{
    let same = bytes_eq(a.as_bytes(), b.as_bytes());
    proof {
        encode_utf8_decode_utf8(a@);
        encode_utf8_decode_utf8(b@);
    }
    same
}

/// A copy of an optional text.
pub fn clone_opt_text(o: &Option<String>) -> (r: Option<String>)
    ensures
        opt_text(r) == opt_text(*o),
{
    match o {
        Some(s) => Some(s.clone()),
        None => None,
    }
}

/// A copy of a byte vector.
pub fn clone_bytes(v: &Vec<u8>) -> (r: Vec<u8>)
    ensures
        r@ == v@,
{
    v.clone()
}

/// The text that a byte slice holds in UTF-8, if it holds one.
///
/// Calls `core::str::from_utf8`, which succeeds exactly on well-formed UTF-8
/// and then gives the text made of the same bytes. Trusted, not proved.
#[verifier::external_body]
pub(crate) fn text_of_utf8(bytes: &[u8]) -> (r: Option<&str>)
    ensures
        r is Some <==> valid_utf8(bytes@),
        r is Some ==> r->0.spec_bytes() == bytes@,
{
    match core::str::from_utf8(bytes) {
        Ok(s) => Some(s),
        Err(_) => None,
    }
}

/// The text that a byte slice holds in UTF-8, if it holds one, as a text of
/// its own.
pub fn text_from_utf8(bytes: &[u8]) -> (r: Option<String>)
    ensures
        r is Some <==> valid_utf8(bytes@),
        r is Some ==> r->0@ == decode_utf8(bytes@),
{
    match text_of_utf8(bytes) {
        Some(s) => {
            proof {
                encode_utf8_decode_utf8(s@);
            }
            Some(s.to_owned())
        },
        None => None,
    }
}

} // verus!
