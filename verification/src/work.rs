//! The work that a task asks of a worker: each dot in the text of the task
//! is a second of work.

use crate::text::text_of_utf8;
use crate::topic::split::DOT;
use vstd::prelude::*;
use vstd::utf8::valid_utf8;

verus! {

/// The number of dots in a text.
pub open spec fn count_dots(text: Seq<u8>) -> nat
    decreases text.len(),
{
    if text.len() == 0 {
        0
    } else {
        count_dots(text.drop_last()) + if text.last() == 46 {
            1nat
        } else {
            0nat
        }
    }
}

/// The seconds of work that the body of a task asks for: one for each dot,
/// if the body is text in UTF-8; none is known if it is not.
pub open spec fn work_seconds_spec(data: Seq<u8>) -> Option<nat> {
    if valid_utf8(data) {
        Some(count_dots(data))
    } else {
        None
    }
}

/// The seconds of work that the body of a task asks for.
pub fn work_seconds(data: &[u8]) -> (r: Option<usize>)
    ensures
        r is Some <==> work_seconds_spec(data@) is Some,
        r is Some ==> r->0 == work_seconds_spec(data@)->0,
{
    if text_of_utf8(data).is_none() {
        return None;
    }
    let n: usize = data.len();
    let mut dots: usize = 0;
    let mut i: usize = 0;
    while i < n
        invariant
            i <= n,
            n == data@.len(),
            dots == count_dots(data@.subrange(0, i as int)),
            dots <= i,
        decreases n - i,
    {
        proof {
            assert(data@.subrange(0, i + 1).drop_last() =~= data@.subrange(0, i as int));
        }
        if data[i] == DOT {
            dots = dots + 1;
        }
        i = i + 1;
    }
    assert(data@.subrange(0, n as int) =~= data@);
    Some(dots)
}

} // verus!
