//! Replies find their calls by correlation identifier alone: the order in
//! which the broker delivers them does not matter, and a reply to a call
//! that is no longer in flight touches nothing.

use crate::envelope::{ReplyBodyView, ReplyEnvelopeView};
use vstd::prelude::*;

verus! {

/// The calls still in flight, and what was handed to the callers of those
/// that ended: the reply body, under the identifier of the call.
pub struct Settled<S> {
    pub pending: Map<Seq<char>, S>,
    pub delivered: Map<Seq<char>, ReplyBodyView>,
}

/// One reply arrives: if its call is in flight, the call ends with the body
/// of the reply; if not, the reply is dropped.
pub open spec fn settle_one<S>(before: Settled<S>, reply: ReplyEnvelopeView) -> Settled<S> {
    if before.pending.contains_key(reply.correlation_id) {
        Settled {
            pending: before.pending.remove(reply.correlation_id),
            delivered: before.delivered.insert(reply.correlation_id, reply.body),
        }
    } else {
        before
    }
}

/// A run of replies arrives, in this order.
pub open spec fn settle<S>(pending: Map<Seq<char>, S>, replies: Seq<ReplyEnvelopeView>) -> Settled<
    S,
>
    decreases replies.len(),
{
    if replies.len() == 0 {
        Settled { pending, delivered: Map::empty() }
    } else {
        settle_one(settle(pending, replies.drop_last()), replies.last())
    }
}

/// No two replies carry the same identifier.
pub open spec fn distinct_replies(replies: Seq<ReplyEnvelopeView>) -> bool {
    forall|i: int, j: int|
        0 <= i < j < replies.len() ==> (#[trigger] replies[i]).correlation_id != (
        #[trigger] replies[j]).correlation_id
}

/// Some reply carries the identifier `id`.
pub open spec fn has_reply_for(replies: Seq<ReplyEnvelopeView>, id: Seq<char>) -> bool {
    exists|i: int| 0 <= i < replies.len() && (#[trigger] replies[i]).correlation_id == id
}

/// Each reply is matched to its own call. After a run of replies with
/// distinct identifiers, in whatever order: every call in flight whose reply
/// was among them has ended with the body of that reply; no other call has
/// ended; and the calls without a reply are in flight as before.
pub proof fn lemma_settle_matches<S>(pending: Map<Seq<char>, S>, replies: Seq<ReplyEnvelopeView>)
    requires
        distinct_replies(replies),
    ensures
        forall|i: int|
            0 <= i < replies.len() && pending.contains_key(
                (#[trigger] replies[i]).correlation_id,
            ) ==> settle(pending, replies).delivered.contains_key(replies[i].correlation_id)
                && settle(pending, replies).delivered[replies[i].correlation_id]
                == replies[i].body,
        forall|id: Seq<char>| #[trigger]
            settle(pending, replies).delivered.contains_key(id) <==> pending.contains_key(id)
                && has_reply_for(replies, id),
        forall|id: Seq<char>| #[trigger]
            settle(pending, replies).pending.contains_key(id) <==> pending.contains_key(id)
                && !has_reply_for(replies, id),
        forall|id: Seq<char>| #[trigger]
            settle(pending, replies).pending.contains_key(id) ==> settle(
                pending,
                replies,
            ).pending[id] == pending[id],
    decreases replies.len(),
{
    if replies.len() > 0 {
        let front = replies.drop_last();
        let last = replies.last();
        let n = replies.len() - 1;
        assert forall|i: int, j: int| 0 <= i < j < front.len() implies (
        #[trigger] front[i]).correlation_id != (#[trigger] front[j]).correlation_id by {
            assert(replies[i].correlation_id != replies[j].correlation_id);
        }
        lemma_settle_matches(pending, front);
        let before = settle(pending, front);
        let after = settle(pending, replies);
        assert(after == settle_one(before, last));
        assert(!has_reply_for(front, last.correlation_id)) by {
            if has_reply_for(front, last.correlation_id) {
                let i = choose|i: int|
                    0 <= i < front.len() && (#[trigger] front[i]).correlation_id
                        == last.correlation_id;
                assert(replies[i].correlation_id != replies[n].correlation_id);
            }
        }
        assert forall|id: Seq<char>| has_reply_for(replies, id) <==> (has_reply_for(front, id)
            || id == last.correlation_id) by {
            if has_reply_for(replies, id) {
                let i = choose|i: int|
                    0 <= i < replies.len() && (#[trigger] replies[i]).correlation_id == id;
                if i < n {
                    assert(front[i].correlation_id == id);
                }
            }
            if has_reply_for(front, id) {
                let i = choose|i: int|
                    0 <= i < front.len() && (#[trigger] front[i]).correlation_id == id;
                assert(replies[i].correlation_id == id);
            }
            if id == last.correlation_id {
                assert(replies[n].correlation_id == id);
            }
        }
        assert forall|i: int|
            0 <= i < replies.len() && pending.contains_key(
                (#[trigger] replies[i]).correlation_id,
            ) implies after.delivered.contains_key(replies[i].correlation_id)
            && after.delivered[replies[i].correlation_id] == replies[i].body by {
            if i < n {
                assert(front[i] == replies[i]);
                assert(replies[i].correlation_id != replies[n].correlation_id);
            } else {
                assert(before.pending.contains_key(last.correlation_id));
            }
        }
    }
}

/// The order of arrival does not matter. Two runs of the same replies, each
/// with distinct identifiers, leave the same calls in flight and hand the
/// same body to each caller.
pub proof fn lemma_arrival_order_irrelevant<S>(
    pending: Map<Seq<char>, S>,
    first: Seq<ReplyEnvelopeView>,
    second: Seq<ReplyEnvelopeView>,
)
    requires
        distinct_replies(first),
        distinct_replies(second),
        forall|r: ReplyEnvelopeView| first.contains(r) <==> second.contains(r),
    ensures
        settle(pending, first) == settle(pending, second),
{
    lemma_settle_matches(pending, first);
    lemma_settle_matches(pending, second);
    let a = settle(pending, first);
    let b = settle(pending, second);
    assert forall|id: Seq<char>| has_reply_for(first, id) <==> has_reply_for(second, id) by {
        if has_reply_for(first, id) {
            let i = choose|i: int|
                0 <= i < first.len() && (#[trigger] first[i]).correlation_id == id;
            assert(first.contains(first[i]));
            assert(second.contains(first[i]));
            let j = choose|j: int| 0 <= j < second.len() && second[j] == first[i];
            assert(second[j].correlation_id == id);
        }
        if has_reply_for(second, id) {
            let i = choose|i: int|
                0 <= i < second.len() && (#[trigger] second[i]).correlation_id == id;
            assert(second.contains(second[i]));
            assert(first.contains(second[i]));
            let j = choose|j: int| 0 <= j < first.len() && first[j] == second[i];
            assert(first[j].correlation_id == id);
        }
    }
    assert forall|id: Seq<char>| a.delivered.contains_key(id) implies #[trigger]
        b.delivered.contains_key(id) && a.delivered[id] == b.delivered[id] by {
        let i = choose|i: int| 0 <= i < first.len() && (#[trigger] first[i]).correlation_id == id;
        assert(first.contains(first[i]));
        assert(second.contains(first[i]));
        let j = choose|j: int| 0 <= j < second.len() && second[j] == first[i];
        assert(a.delivered[first[i].correlation_id] == first[i].body);
        assert(b.delivered[second[j].correlation_id] == second[j].body);
    }
    assert(a.delivered =~= b.delivered);
    assert(a.pending =~= b.pending);
}

/// A late reply is dropped. Once the call `id` has been given up, a reply
/// that carries `id` leaves everything as it is: the other calls are in
/// flight as before, and nothing is handed to anyone.
pub proof fn lemma_late_reply_dropped<S>(
    pending: Map<Seq<char>, S>,
    delivered: Map<Seq<char>, ReplyBodyView>,
    id: Seq<char>,
    late: ReplyEnvelopeView,
)
    requires
        late.correlation_id == id,
    ensures
        ({
            let given_up = Settled { pending: pending.remove(id), delivered };
            &&& settle_one(given_up, late) == given_up
            &&& forall|other: Seq<char>|
                other != id ==> (given_up.pending.contains_key(other) <==> #[trigger]
                pending.contains_key(other))
            &&& forall|other: Seq<char>|
                other != id && #[trigger] pending.contains_key(other) ==> given_up.pending[other]
                    == pending[other]
        }),
{
}

/// A call leaves no trace. A call that is registered and then ends, by its
/// reply or by being given up, leaves the calls in flight exactly as they
/// were before it was started.
pub proof fn lemma_call_leaves_no_trace<S>(
    pending: Map<Seq<char>, S>,
    id: Seq<char>,
    signal: S,
    reply: ReplyEnvelopeView,
)
    requires
        !pending.contains_key(id),
        reply.correlation_id == id,
    ensures
        pending.insert(id, signal).remove(id) == pending,
        settle_one(
            Settled { pending: pending.insert(id, signal), delivered: Map::empty() },
            reply,
        ) == (Settled { pending, delivered: Map::empty().insert(id, reply.body) }),
{
    assert(pending.insert(id, signal).remove(id) =~= pending);
}

/// Giving up one call of a finite registry takes exactly that call out.
pub proof fn lemma_give_up_counts<S>(pending: Map<Seq<char>, S>, id: Seq<char>)
    requires
        pending.dom().finite(),
        pending.contains_key(id),
    ensures
        pending.remove(id).dom().finite(),
        pending.remove(id).dom().len() == pending.dom().len() - 1,
{
}

} // verus!
