//! Splitting the text of a key at its dots.

use vstd::prelude::*;
use vstd::slice::slice_subrange;

verus! {

/// The byte `.`.
pub const DOT: u8 = 46;

/// `i` is where the first dot of `text` stands, or the length of `text` if
/// it has none.
pub open spec fn is_first_dot(text: Seq<u8>, i: int) -> bool {
    &&& 0 <= i <= text.len()
    &&& forall|j: int| 0 <= j < i ==> #[trigger] text[j] != 46
    &&& i < text.len() ==> text[i] == 46
}

/// Where the first dot of `text` stands, or the length of `text` if it has
/// none.
pub open spec fn first_dot(text: Seq<u8>) -> int {
    choose|i: int| is_first_dot(text, i)
}

/// The text has a dot.
pub open spec fn has_dot(text: Seq<u8>) -> bool {
    first_dot(text) < text.len()
}

/// What stands before the first dot: the whole text if it has none.
pub open spec fn head(text: Seq<u8>) -> Seq<u8> {
    text.subrange(0, first_dot(text))
}

/// What stands behind the first dot.
pub open spec fn tail(text: Seq<u8>) -> Seq<u8>
    recommends
        has_dot(text),
{
    text.subrange(first_dot(text) + 1, text.len() as int)
}

/// There is one place that is the first dot, and `first_dot` names it.
pub proof fn lemma_first_dot(text: Seq<u8>, i: int)
    requires
        is_first_dot(text, i),
    ensures
        first_dot(text) == i,
{
    let c = first_dot(text);
    assert(is_first_dot(text, c));
    if c < i {
        assert(text[c] != 46);
    } else if i < c {
        assert(text[i] != 46);
    }
}

/// Every text has a place that is its first dot, or its end.
pub proof fn lemma_first_dot_exists(text: Seq<u8>)
    ensures
        is_first_dot(text, first_dot(text)),
        0 <= first_dot(text) <= text.len(),
        !has_dot(text) ==> head(text) == text,
{
    lemma_first_dot_from(text, 0);
    if !has_dot(text) {
        assert(head(text) =~= text);
    }
}

/// With no dot before `k`, the first dot stands at `k` or behind it.
proof fn lemma_first_dot_from(text: Seq<u8>, k: int)
    requires
        0 <= k <= text.len(),
        forall|j: int| 0 <= j < k ==> #[trigger] text[j] != 46,
    ensures
        exists|i: int| is_first_dot(text, i),
    decreases text.len() - k,
{
    if k == text.len() || text[k] == 46 {
        assert(is_first_dot(text, k));
    } else {
        lemma_first_dot_from(text, k + 1);
    }
}

/// A text without a dot has none.
pub proof fn lemma_no_dot(text: Seq<u8>)
    requires
        forall|j: int| 0 <= j < text.len() ==> #[trigger] text[j] != 46,
    ensures
        !has_dot(text),
        head(text) == text,
{
    lemma_first_dot(text, text.len() as int);
    assert(head(text) =~= text);
}

/// Two texts without a dot, joined by a dot, split into the two.
pub proof fn lemma_split_joined(a: Seq<u8>, b: Seq<u8>)
    requires
        forall|j: int| 0 <= j < a.len() ==> #[trigger] a[j] != 46,
        forall|j: int| 0 <= j < b.len() ==> #[trigger] b[j] != 46,
    ensures
        has_dot(a + seq![46u8] + b),
        head(a + seq![46u8] + b) == a,
        tail(a + seq![46u8] + b) == b,
        !has_dot(b),
{
    let t = a + seq![46u8] + b;
    assert forall|j: int| 0 <= j < a.len() implies #[trigger] t[j] != 46 by {
        assert(t[j] == a[j]);
    }
    assert(t[a.len() as int] == 46);
    lemma_first_dot(t, a.len() as int);
    assert(head(t) =~= a);
    assert(tail(t) =~= b);
    lemma_no_dot(b);
}

/// Finds the first dot.
pub fn find_dot(text: &[u8]) -> (i: usize)
    ensures
        i == first_dot(text@),
        i <= text@.len(),
{
    let n: usize = text.len();
    let mut i: usize = 0;
    while i < n && text[i] != DOT
        invariant
            i <= n,
            n == text@.len(),
            forall|j: int| 0 <= j < i ==> #[trigger] text@[j] != 46,
        decreases n - i,
    {
        i = i + 1;
    }
    proof {
        lemma_first_dot(text@, i as int);
    }
    i
}

/// Splits a text at its first dot, if it has one.
pub fn split_at_dot(text: &[u8]) -> (r: (&[u8], Option<&[u8]>))
    ensures
        r.0@ == head(text@),
        r.1 is Some <==> has_dot(text@),
        r.1 is Some ==> r.1->0@ == tail(text@),
        r.1 is None ==> r.0@ == text@,
{
    proof {
        lemma_first_dot_exists(text@);
    }
    let i = find_dot(text);
    let before = slice_subrange(text, 0, i);
    if i < text.len() {
        (before, Some(slice_subrange(text, i + 1, text.len())))
    } else {
        (before, None)
    }
}

} // verus!
