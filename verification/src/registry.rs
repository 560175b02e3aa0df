//! The registry of calls in flight: from the correlation identifier of each
//! call to the record of the caller that waits for its reply.

use crate::envelope::{ReplyBody, ReplyBodyView};
use vstd::prelude::*;

verus! {

/// How a call in flight ended.
#[derive(Debug, Clone, PartialEq, Eq)]
pub enum CallOutcome {
    /// The reply arrived.
    Replied(ReplyBody),
    /// The call was given up: its time ran out, or the gateway closed.
    Cancelled,
}

/// The mathematical value of a [`CallOutcome`].
pub enum CallOutcomeView {
    Replied(ReplyBodyView),
    Cancelled,
}

impl View for CallOutcome {
    type V = CallOutcomeView;

    open spec fn view(&self) -> CallOutcomeView {
        match self {
            CallOutcome::Replied(body) => CallOutcomeView::Replied(body@),
            CallOutcome::Cancelled => CallOutcomeView::Cancelled,
        }
    }
}

/// The record of one call in flight. `S` is whatever wakes the caller: the
/// registry keeps it and hands it back when the call ends.
#[derive(Debug)]
pub struct PendingCall<S> {
    pub correlation_id: String,
    pub result_slot: Option<CallOutcome>,
    pub done_signal: S,
}

impl<S> PendingCall<S> {
    /// The outcome in the result slot, if the call has ended.
    pub open spec fn outcome(&self) -> Option<CallOutcomeView> {
        match self.result_slot {
            Some(o) => Some(o@),
            None => None,
        }
    }
}

/// Why a call could not be registered.
#[derive(Debug, Clone, Copy, PartialEq, Eq, Structural)]
pub enum RegistryError {
    /// A call with this identifier is already in flight.
    DuplicateCorrelationId,
}

/// No identifier occurs twice.
pub open spec fn distinct_ids<S>(s: Seq<PendingCall<S>>) -> bool {
    forall|i: int, j: int|
        0 <= i < j < s.len() ==> (#[trigger] s[i]).correlation_id@ != (
        #[trigger] s[j]).correlation_id@
}

/// No record holds an outcome yet.
pub open spec fn all_waiting<S>(s: Seq<PendingCall<S>>) -> bool {
    forall|i: int| 0 <= i < s.len() ==> (#[trigger] s[i]).result_slot is None
}

/// The records as a map from identifier to signal.
pub open spec fn signals_by_id<S>(s: Seq<PendingCall<S>>) -> Map<Seq<char>, S>
    decreases s.len(),
{
    if s.len() == 0 {
        Map::empty()
    } else {
        signals_by_id(s.drop_last()).insert(s.last().correlation_id@, s.last().done_signal)
    }
}

/// The map has exactly the identifiers of the records as its keys.
pub proof fn lemma_signals_keys<S>(s: Seq<PendingCall<S>>, id: Seq<char>)
    ensures
        signals_by_id(s).contains_key(id) <==> exists|i: int|
            0 <= i < s.len() && (#[trigger] s[i]).correlation_id@ == id,
    decreases s.len(),
{
    if s.len() > 0 {
        let front = s.drop_last();
        lemma_signals_keys(front, id);
        if signals_by_id(s).contains_key(id) {
            if s.last().correlation_id@ == id {
                assert(s[s.len() - 1].correlation_id@ == id);
            } else {
                let i = choose|i: int|
                    0 <= i < front.len() && (#[trigger] front[i]).correlation_id@ == id;
                assert(s[i].correlation_id@ == id);
            }
        }
        if exists|i: int| 0 <= i < s.len() && (#[trigger] s[i]).correlation_id@ == id {
            let i = choose|i: int| 0 <= i < s.len() && (#[trigger] s[i]).correlation_id@ == id;
            if i < s.len() - 1 {
                assert(front[i].correlation_id@ == id);
            }
        }
    }
}

/// Under distinct identifiers the map gives each record's own signal.
pub proof fn lemma_signals_at<S>(s: Seq<PendingCall<S>>, i: int)
    requires
        distinct_ids(s),
        0 <= i < s.len(),
    ensures
        signals_by_id(s).contains_key(s[i].correlation_id@),
        signals_by_id(s)[s[i].correlation_id@] == s[i].done_signal,
    decreases s.len(),
{
    if i < s.len() - 1 {
        let front = s.drop_last();
        assert forall|a: int, b: int| 0 <= a < b < front.len() implies (
        #[trigger] front[a]).correlation_id@ != (#[trigger] front[b]).correlation_id@ by {
            assert(s[a].correlation_id@ != s[b].correlation_id@);
        }
        lemma_signals_at(front, i);
        assert(front[i] == s[i]);
        assert(s[i].correlation_id@ != s[s.len() - 1].correlation_id@);
    }
}

/// Taking one record out removes its identifier from the map, and nothing
/// else; the identifiers stay distinct.
pub proof fn lemma_signals_remove<S>(s: Seq<PendingCall<S>>, i: int)
    requires
        distinct_ids(s),
        0 <= i < s.len(),
    ensures
        distinct_ids(s.remove(i)),
        signals_by_id(s.remove(i)) == signals_by_id(s).remove(s[i].correlation_id@),
    decreases s.len(),
{
    let rest = s.remove(i);
    let front = s.drop_last();
    let last = s.len() - 1;
    assert forall|a: int, b: int| 0 <= a < b < rest.len() implies (
    #[trigger] rest[a]).correlation_id@ != (#[trigger] rest[b]).correlation_id@ by {
        let a0 = if a < i {
            a
        } else {
            a + 1
        };
        let b0 = if b < i {
            b
        } else {
            b + 1
        };
        assert(rest[a] == s[a0] && rest[b] == s[b0]);
        assert(s[a0].correlation_id@ != s[b0].correlation_id@);
    }
    assert forall|a: int, b: int| 0 <= a < b < front.len() implies (
    #[trigger] front[a]).correlation_id@ != (#[trigger] front[b]).correlation_id@ by {
        assert(s[a].correlation_id@ != s[b].correlation_id@);
    }
    if i == last {
        assert(rest =~= front);
        lemma_signals_keys(front, s[i].correlation_id@);
        if signals_by_id(front).contains_key(s[i].correlation_id@) {
            let j = choose|j: int|
                0 <= j < front.len() && (#[trigger] front[j]).correlation_id@
                    == s[i].correlation_id@;
            assert(s[j].correlation_id@ != s[i].correlation_id@);
        }
        assert(signals_by_id(rest) =~= signals_by_id(s).remove(s[i].correlation_id@));
    } else {
        lemma_signals_remove(front, i);
        assert(rest.drop_last() =~= front.remove(i));
        assert(rest.last() == s.last());
        assert(front[i] == s[i]);
        assert(s[i].correlation_id@ != s[last].correlation_id@);
        assert(signals_by_id(rest) =~= signals_by_id(s).remove(s[i].correlation_id@));
    }
}

/// Under distinct identifiers the map has as many keys as there are records.
pub proof fn lemma_signals_len<S>(s: Seq<PendingCall<S>>)
    requires
        distinct_ids(s),
    ensures
        signals_by_id(s).dom().finite(),
        signals_by_id(s).dom().len() == s.len(),
    decreases s.len(),
{
    if s.len() > 0 {
        let front = s.drop_last();
        assert forall|a: int, b: int| 0 <= a < b < front.len() implies (
        #[trigger] front[a]).correlation_id@ != (#[trigger] front[b]).correlation_id@ by {
            assert(s[a].correlation_id@ != s[b].correlation_id@);
        }
        lemma_signals_len(front);
        lemma_signals_keys(front, s.last().correlation_id@);
        if signals_by_id(front).contains_key(s.last().correlation_id@) {
            let j = choose|j: int|
                0 <= j < front.len() && (#[trigger] front[j]).correlation_id@
                    == s.last().correlation_id@;
            assert(s[j].correlation_id@ != s[s.len() - 1].correlation_id@);
        }
        assert(signals_by_id(s).dom() =~= signals_by_id(front).dom().insert(
            s.last().correlation_id@,
        ));
    }
}

/// The calls in flight on one reply destination.
pub struct CorrelationRegistry<S> {
    entries: Vec<PendingCall<S>>,
}

impl<S> View for CorrelationRegistry<S> {
    type V = Map<Seq<char>, S>;

    /// From the identifier of each call in flight to its signal.
    closed spec fn view(&self) -> Map<Seq<char>, S> {
        signals_by_id(self.entries@)
    }
}

impl<S> CorrelationRegistry<S> {
    /// The registry's invariant: at most one record for each identifier, and
    /// none that has ended.
    pub closed spec fn wf(&self) -> bool {
        distinct_ids(self.entries@) && all_waiting(self.entries@)
    }

    /// The number of calls in flight.
    pub closed spec fn spec_len(&self) -> nat {
        self.entries@.len()
    }

    /// The number of calls in flight is the number of identifiers.
    pub proof fn lemma_len(&self)
        requires
            self.wf(),
        ensures
            self@.dom().finite(),
            self@.dom().len() == self.spec_len(),
    {
        lemma_signals_len(self.entries@);
    }

    /// A registry with no call in flight.
    pub fn new() -> (r: Self)
        ensures
            r.wf(),
            r@ == Map::<Seq<char>, S>::empty(),
            r.spec_len() == 0,
    {
        CorrelationRegistry { entries: Vec::new() }
    }

    /// The number of calls in flight.
    pub fn len(&self) -> (n: usize)
        ensures
            n == self.spec_len(),
    {
        self.entries.len()
    }

    /// Where the record of `id` stands, if there is one.
    fn position(&self, id: &str) -> (r: Option<usize>)
        ensures
            match r {
                Some(i) => i < self.entries@.len() && self.entries@[i as int].correlation_id@
                    == id@,
                None => !self@.contains_key(id@),
            },
    {
        let n: usize = self.entries.len();
        let mut i: usize = 0;
        while i < n
            invariant
                i <= n,
                n == self.entries@.len(),
                forall|j: int| 0 <= j < i ==> (#[trigger] self.entries@[j]).correlation_id@ != id@,
            decreases n - i,
        {
            if crate::text::text_eq(self.entries[i].correlation_id.as_str(), id) {
                return Some(i);
            }
            i = i + 1;
        }
        proof {
            lemma_signals_keys(self.entries@, id@);
        }
        None
    }

    /// Whether a call with this identifier is in flight.
    pub fn contains(&self, id: &str) -> (b: bool)
        ensures
            b == self@.contains_key(id@),
    {
        let found = self.position(id);
        proof {
            lemma_signals_keys(self.entries@, id@);
        }
        found.is_some()
    }

    /// Records a new call in flight under `id`, with the signal that wakes
    /// its caller. Fails, and hands the signal back, if a call with this
    /// identifier is already in flight; the registry is then unchanged.
    pub fn register(&mut self, id: String, signal: S) -> (r: Result<(), (RegistryError, S)>)
        requires
            old(self).wf(),
        ensures
            final(self).wf(),
            match r {
                Ok(_) => {
                    &&& !old(self)@.contains_key(id@)
                    &&& final(self)@ == old(self)@.insert(id@, signal)
                    &&& final(self).spec_len() == old(self).spec_len() + 1
                },
                Err(e) => {
                    &&& old(self)@.contains_key(id@)
                    &&& e.1 == signal
                    &&& *final(self) == *old(self)
                },
            },
    {
        let found = self.position(id.as_str());
        proof {
            lemma_signals_keys(self.entries@, id@);
        }
        if found.is_some() {
            return Err((RegistryError::DuplicateCorrelationId, signal));
        }
        let ghost before = self.entries@;
        self.entries.push(PendingCall { correlation_id: id, result_slot: None, done_signal: signal });
        proof {
            assert(self.entries@.drop_last() =~= before);
            assert forall|a: int, b: int| 0 <= a < b < self.entries@.len() implies (
            #[trigger] self.entries@[a]).correlation_id@ != (
            #[trigger] self.entries@[b]).correlation_id@ by {
                assert(self.entries@[a] == before[a]);
                if b < before.len() {
                    assert(self.entries@[b] == before[b]);
                }
            }
            assert forall|a: int| 0 <= a < self.entries@.len() implies (
            #[trigger] self.entries@[a]).result_slot is None by {
                if a < before.len() {
                    assert(self.entries@[a] == before[a]);
                }
            }
        }
        Ok(())
    }

    /// Takes the record of `id` out and puts `outcome` in its result slot.
    fn finish(&mut self, id: &str, outcome: CallOutcome) -> (r: Option<PendingCall<S>>)
        requires
            old(self).wf(),
        ensures
            final(self).wf(),
            match r {
                Some(call) => {
                    &&& old(self)@.contains_key(id@)
                    &&& call.correlation_id@ == id@
                    &&& call.done_signal == old(self)@[id@]
                    &&& call.outcome() == Some(outcome@)
                    &&& final(self)@ == old(self)@.remove(id@)
                    &&& final(self).spec_len() == old(self).spec_len() - 1
                },
                None => {
                    &&& !old(self)@.contains_key(id@)
                    &&& *final(self) == *old(self)
                },
            },
    {
        match self.position(id) {
            None => None,
            Some(i) => {
                let ghost before = self.entries@;
                proof {
                    lemma_signals_at(before, i as int);
                    lemma_signals_remove(before, i as int);
                }
                let mut call = self.entries.remove(i);
                call.result_slot = Some(outcome);
                proof {
                    assert forall|a: int| 0 <= a < self.entries@.len() implies (
                    #[trigger] self.entries@[a]).result_slot is None by {
                        if a < i {
                            assert(self.entries@[a] == before[a]);
                        } else {
                            assert(self.entries@[a] == before[a + 1]);
                        }
                    }
                }
                Some(call)
            },
        }
    }

    /// A reply for `id` arrived. If the call is in flight, its record leaves
    /// the registry with the reply in its result slot, for the caller to be
    /// woken. If it is not (the call ended, or never was), the reply is
    /// dropped and the registry is unchanged.
    pub fn resolve(&mut self, id: &str, result: ReplyBody) -> (r: Option<PendingCall<S>>)
        requires
            old(self).wf(),
        ensures
            final(self).wf(),
            match r {
                Some(call) => {
                    &&& old(self)@.contains_key(id@)
                    &&& call.correlation_id@ == id@
                    &&& call.done_signal == old(self)@[id@]
                    &&& call.outcome() == Some(CallOutcomeView::Replied(result@))
                    &&& final(self)@ == old(self)@.remove(id@)
                    &&& final(self).spec_len() == old(self).spec_len() - 1
                },
                None => {
                    &&& !old(self)@.contains_key(id@)
                    &&& *final(self) == *old(self)
                },
            },
    {
        self.finish(id, CallOutcome::Replied(result))
    }

    /// The call `id` is given up. If it is in flight, its record leaves the
    /// registry with a cancellation in its result slot; if not, nothing
    /// changes.
    pub fn cancel(&mut self, id: &str) -> (r: Option<PendingCall<S>>)
        requires
            old(self).wf(),
        ensures
            final(self).wf(),
            match r {
                Some(call) => {
                    &&& old(self)@.contains_key(id@)
                    &&& call.correlation_id@ == id@
                    &&& call.done_signal == old(self)@[id@]
                    &&& call.outcome() == Some(CallOutcomeView::Cancelled)
                    &&& final(self)@ == old(self)@.remove(id@)
                    &&& final(self).spec_len() == old(self).spec_len() - 1
                },
                None => {
                    &&& !old(self)@.contains_key(id@)
                    &&& *final(self) == *old(self)
                },
            },
    {
        self.finish(id, CallOutcome::Cancelled)
    }

    /// Every call in flight is given up, as when the gateway closes. Each
    /// record leaves the registry with a cancellation in its result slot;
    /// the registry is empty afterwards.
    pub fn cancel_all(&mut self) -> (gone: Vec<PendingCall<S>>)
        requires
            old(self).wf(),
        ensures
            final(self).wf(),
            final(self)@ == Map::<Seq<char>, S>::empty(),
            final(self).spec_len() == 0,
            gone@.len() == old(self).spec_len(),
            distinct_ids(gone@),
            forall|i: int|
                0 <= i < gone@.len() ==> {
                    &&& old(self)@.contains_key((#[trigger] gone@[i]).correlation_id@)
                    &&& gone@[i].done_signal == old(self)@[gone@[i].correlation_id@]
                    &&& gone@[i].outcome() == Some(CallOutcomeView::Cancelled)
                },
            forall|id: Seq<char>| #[trigger]
                old(self)@.contains_key(id) ==> exists|i: int|
                    0 <= i < gone@.len() && (#[trigger] gone@[i]).correlation_id@ == id,
    {
        let ghost before = self.entries@;
        let mut gone: Vec<PendingCall<S>> = Vec::new();
        while self.entries.len() > 0
            invariant
                distinct_ids(before),
                gone@.len() + self.entries@.len() == before.len(),
                self.entries@ == before.subrange(0, self.entries@.len() as int),
                forall|j: int|
                    0 <= j < gone@.len() ==> {
                        &&& (#[trigger] gone@[j]).correlation_id@ == before[before.len() - 1
                            - j].correlation_id@
                        &&& gone@[j].done_signal == before[before.len() - 1 - j].done_signal
                        &&& gone@[j].outcome() == Some(CallOutcomeView::Cancelled)
                    },
            decreases self.entries@.len(),
        {
            let ghost rest = self.entries@;
            let mut call = self.entries.pop().unwrap();
            call.result_slot = Some(CallOutcome::Cancelled);
            gone.push(call);
            proof {
                assert(self.entries@ =~= before.subrange(0, self.entries@.len() as int));
                assert(rest[rest.len() - 1] == before[rest.len() - 1]);
            }
        }
        proof {
            let n = before.len() as int;
            assert(self.entries@ =~= Seq::<PendingCall<S>>::empty());
            assert forall|a: int, b: int| 0 <= a < b < gone@.len() implies (
            #[trigger] gone@[a]).correlation_id@ != (#[trigger] gone@[b]).correlation_id@ by {
                assert(before[n - 1 - b].correlation_id@ != before[n - 1 - a].correlation_id@);
            }
            assert forall|i: int| 0 <= i < gone@.len() implies {
                &&& old(self)@.contains_key((#[trigger] gone@[i]).correlation_id@)
                &&& gone@[i].done_signal == old(self)@[gone@[i].correlation_id@]
            } by {
                lemma_signals_at(before, n - 1 - i);
            }
            assert forall|id: Seq<char>| #[trigger] old(self)@.contains_key(id) implies exists|
                i: int,
            |
                0 <= i < gone@.len() && (#[trigger] gone@[i]).correlation_id@ == id by {
                lemma_signals_keys(before, id);
                let k = choose|k: int|
                    0 <= k < before.len() && (#[trigger] before[k]).correlation_id@ == id;
                assert(gone@[n - 1 - k].correlation_id@ == id);
            }
        }
        gone
    }
}

} // verus!
