//! The caller's side of a remote call: one published message, and the reply
//! that carries its correlation identifier back on the gateway's own reply
//! destination.
//!
//! The gateway decides; its owner talks to the broker. To make a call the
//! owner asks the gateway for the message to publish, publishes it, and tells
//! the gateway what came of it: a delivery on the reply destination, the end
//! of the caller's patience, or a refusal by the broker.

use crate::envelope::{
    call_publication, parse_reply, CallEnvelope, CallEnvelopeView, ReplyBody, ReplyBodyView,
    ReplyEnvelope,
};
use crate::matching::{settle_one, Settled};
use crate::registry::{CallOutcome, CallOutcomeView, CorrelationRegistry, PendingCall};
use crate::text::text_from_utf8;
use crate::wire::{Delivery, Publication};
use vstd::prelude::*;
use vstd::utf8::{decode_utf8, valid_utf8};

verus! {

/// Why a call gave no result.
#[derive(Debug, Clone, PartialEq, Eq)]
pub enum CallError {
    /// The broker could not be reached, or refused the publication.
    TransportError,
    /// No reply came within the caller's time.
    CallTimedOut,
    /// A reply came that could not be read.
    MalformedReply,
    /// The computation on the server failed; the text says how.
    HandlerFailure(String),
    /// A call with the same identifier was already in flight.
    DuplicateCorrelationId,
}

/// The mathematical value of a [`CallError`].
pub enum CallErrorView {
    TransportError,
    CallTimedOut,
    MalformedReply,
    HandlerFailure(Seq<char>),
    DuplicateCorrelationId,
}

impl View for CallError {
    type V = CallErrorView;

    open spec fn view(&self) -> CallErrorView {
        match self {
            CallError::TransportError => CallErrorView::TransportError,
            CallError::CallTimedOut => CallErrorView::CallTimedOut,
            CallError::MalformedReply => CallErrorView::MalformedReply,
            CallError::HandlerFailure(text) => CallErrorView::HandlerFailure(text@),
            CallError::DuplicateCorrelationId => CallErrorView::DuplicateCorrelationId,
        }
    }
}

/// The mathematical value of what a call gives its caller.
pub open spec fn result_view(r: Result<Vec<u8>, CallError>) -> Result<Seq<u8>, CallErrorView> {
    match r {
        Ok(bytes) => Ok(bytes@),
        Err(e) => Err(e@),
    }
}

/// What the caller is given for the outcome of its call: the result that the
/// reply carries; the server's failure, if the reply is an error; and a
/// timeout if the call was given up.
pub open spec fn call_result_spec(outcome: CallOutcomeView) -> Result<Seq<u8>, CallErrorView> {
    match outcome {
        CallOutcomeView::Replied(ReplyBodyView::Payload(bytes)) => Ok(bytes),
        CallOutcomeView::Replied(ReplyBodyView::Error(text)) => if valid_utf8(text) {
            Err(CallErrorView::HandlerFailure(decode_utf8(text)))
        } else {
            Err(CallErrorView::MalformedReply)
        },
        CallOutcomeView::Cancelled => Err(CallErrorView::CallTimedOut),
    }
}

/// What the caller is given for the outcome of its call.
pub fn call_result(outcome: CallOutcome) -> (r: Result<Vec<u8>, CallError>)
    ensures
        result_view(r) == call_result_spec(outcome@),
{
    match outcome {
        CallOutcome::Replied(ReplyBody::Payload(bytes)) => Ok(bytes),
        CallOutcome::Replied(ReplyBody::Error(text)) => match text_from_utf8(text.as_slice()) {
            Some(message) => Err(CallError::HandlerFailure(message)),
            None => Err(CallError::MalformedReply),
        },
        CallOutcome::Cancelled => Err(CallError::CallTimedOut),
    }
}

/// A lower-case hexadecimal digit.
pub open spec fn is_lower_hex(c: char) -> bool {
    ('0' <= c <= '9') || ('a' <= c <= 'f')
}

/// The hyphenated text of a random (version 4) UUID: 36 characters, hyphens
/// after the 8th, 12th, 16th and 20th digit, lower-case hexadecimal digits
/// elsewhere, with the version and variant marks in their places.
pub open spec fn is_hyphenated_uuid(s: Seq<char>) -> bool {
    &&& s.len() == 36
    &&& forall|i: int|
        0 <= i < 36 ==> if i == 8 || i == 13 || i == 18 || i == 23 {
            #[trigger] s[i] == '-'
        } else {
            is_lower_hex(s[i])
        }
    &&& s[14] == '4'
    &&& (s[19] == '8' || s[19] == '9' || s[19] == 'a' || s[19] == 'b')
}

/// A new correlation identifier, drawn at random.
///
/// Calls `Uuid::new_v4` of the `uuid` crate and takes its hyphenated text.
/// Trusted, not proved: the text has the shape of [`is_hyphenated_uuid`].
/// Nothing is claimed of which identifier comes out: two calls may give the
/// same one, however unlikely. The outside function stops the program if
/// the operating system can give no random bytes.
#[verifier::external_body]
fn random_correlation_id() -> (id: String)
    ensures
        is_hyphenated_uuid(id@),
{
    uuid::Uuid::new_v4().to_hyphenated().to_string()
}

/// The caller's gateway. `S` is whatever wakes a waiting caller.
pub struct CallGateway<S> {
    work_queue: String,
    reply_to: String,
    registry: CorrelationRegistry<S>,
}

impl<S> CallGateway<S> {
    /// The gateway's invariant: that of its registry.
    pub closed spec fn wf(&self) -> bool {
        self.registry.wf()
    }

    /// The calls in flight: from correlation identifier to signal.
    pub closed spec fn pending(&self) -> Map<Seq<char>, S> {
        self.registry@
    }

    /// The number of calls in flight.
    pub closed spec fn pending_count(&self) -> nat {
        self.registry.spec_len()
    }

    /// The queue on which calls are published.
    pub closed spec fn spec_work_queue(&self) -> Seq<char> {
        self.work_queue@
    }

    /// The gateway's own reply destination.
    pub closed spec fn spec_reply_to(&self) -> Seq<char> {
        self.reply_to@
    }

    /// The call that the gateway publishes for a body under an identifier.
    pub open spec fn call_for(&self, id: Seq<char>, payload: Seq<u8>) -> CallEnvelopeView {
        CallEnvelopeView { correlation_id: id, reply_to: self.spec_reply_to(), payload }
    }

    /// The number of calls in flight is the number of their identifiers.
    pub proof fn lemma_pending_count(&self)
        requires
            self.wf(),
        ensures
            self.pending().dom().finite(),
            self.pending().dom().len() == self.pending_count(),
    {
        self.registry.lemma_len();
    }

    /// A gateway that publishes on `work_queue` and is answered on
    /// `reply_to`, with no call in flight.
    pub fn new(work_queue: String, reply_to: String) -> (g: Self)
        ensures
            g.wf(),
            g.pending() == Map::<Seq<char>, S>::empty(),
            g.pending_count() == 0,
            g.spec_work_queue() == work_queue@,
            g.spec_reply_to() == reply_to@,
    {
        CallGateway { work_queue, reply_to, registry: CorrelationRegistry::new() }
    }

    /// The queue on which calls are published.
    pub fn work_queue(&self) -> (q: &str)
        ensures
            q@ == self.spec_work_queue(),
    {
        self.work_queue.as_str()
    }

    /// The gateway's own reply destination.
    pub fn reply_to(&self) -> (q: &str)
        ensures
            q@ == self.spec_reply_to(),
    {
        self.reply_to.as_str()
    }

    /// The number of calls in flight.
    pub fn pending_len(&self) -> (n: usize)
        ensures
            n == self.pending_count(),
    {
        self.registry.len()
    }

    /// Whether the call `id` is in flight.
    pub fn is_pending(&self, id: &str) -> (b: bool)
        ensures
            b == self.pending().contains_key(id@),
    {
        self.registry.contains(id)
    }

    /// Starts a call under the identifier `id`: registers it, and gives the
    /// message to publish. If a call with this identifier is in flight
    /// already, nothing is registered and the signal comes back.
    pub fn begin_call(&mut self, id: String, payload: Vec<u8>, signal: S) -> (r: Result<
        Publication,
        (CallError, S),
    >)
        requires
            old(self).wf(),
        ensures
            final(self).wf(),
            final(self).spec_work_queue() == old(self).spec_work_queue(),
            final(self).spec_reply_to() == old(self).spec_reply_to(),
            match r {
                Ok(p) => {
                    &&& !old(self).pending().contains_key(id@)
                    &&& final(self).pending() == old(self).pending().insert(id@, signal)
                    &&& final(self).pending_count() == old(self).pending_count() + 1
                    &&& p@ == call_publication(
                        old(self).call_for(id@, payload@),
                        old(self).spec_work_queue(),
                    )
                },
                Err(e) => {
                    &&& old(self).pending().contains_key(id@)
                    &&& e.0@ == CallErrorView::DuplicateCorrelationId
                    &&& e.1 == signal
                    &&& *final(self) == *old(self)
                },
            },
    {
        let call = CallEnvelope {
            correlation_id: id.clone(),
            reply_to: self.reply_to.clone(),
            payload,
        };
        match self.registry.register(id, signal) {
            Ok(_) => Ok(call.into_publication(self.work_queue.as_str())),
            Err(e) => Err((CallError::DuplicateCorrelationId, e.1)),
        }
    }

    /// Starts a call under a new identifier drawn at random, and gives the
    /// identifier with the message to publish. Whatever identifier was drawn,
    /// the call is registered under it unless one with that identifier is in
    /// flight already.
    pub fn begin_invoke(&mut self, payload: Vec<u8>, signal: S) -> (r: Result<
        (String, Publication),
        (CallError, S),
    >)
        requires
            old(self).wf(),
        ensures
            final(self).wf(),
            final(self).spec_work_queue() == old(self).spec_work_queue(),
            final(self).spec_reply_to() == old(self).spec_reply_to(),
            match r {
                Ok(started) => {
                    &&& is_hyphenated_uuid(started.0@)
                    &&& !old(self).pending().contains_key(started.0@)
                    &&& final(self).pending() == old(self).pending().insert(started.0@, signal)
                    &&& final(self).pending_count() == old(self).pending_count() + 1
                    &&& started.1@ == call_publication(
                        old(self).call_for(started.0@, payload@),
                        old(self).spec_work_queue(),
                    )
                },
                Err(e) => {
                    &&& e.0@ == CallErrorView::DuplicateCorrelationId
                    &&& e.1 == signal
                    &&& *final(self) == *old(self)
                    &&& exists|id: Seq<char>|
                        is_hyphenated_uuid(id) && #[trigger] old(self).pending().contains_key(id)
                },
            },
    {
        let id = random_correlation_id();
        let kept = id.clone();
        match self.begin_call(id, payload, signal) {
            Ok(p) => Ok((kept, p)),
            Err(e) => Err(e),
        }
    }

    /// A message arrived on the reply destination. If it is the reply to a
    /// call in flight, the record of that call leaves the gateway with the
    /// reply in its result slot, and the caller is to be woken with it. A
    /// message without an identifier, or with that of no call in flight (a
    /// late reply to a call given up, a duplicate), is dropped and changes
    /// nothing.
    pub fn on_delivery(&mut self, d: Delivery) -> (r: Option<PendingCall<S>>)
        requires
            old(self).wf(),
        ensures
            final(self).wf(),
            final(self).spec_work_queue() == old(self).spec_work_queue(),
            final(self).spec_reply_to() == old(self).spec_reply_to(),
            parse_reply(d@) is Some ==> final(self).pending() == settle_one(
                Settled { pending: old(self).pending(), delivered: Map::empty() },
                parse_reply(d@)->0,
            ).pending,
            match r {
                Some(call) => {
                    &&& parse_reply(d@) is Some
                    &&& call.correlation_id@ == parse_reply(d@)->0.correlation_id
                    &&& old(self).pending().contains_key(call.correlation_id@)
                    &&& call.done_signal == old(self).pending()[call.correlation_id@]
                    &&& call.outcome() == Some(CallOutcomeView::Replied(parse_reply(d@)->0.body))
                    &&& final(self).pending() == old(self).pending().remove(call.correlation_id@)
                    &&& final(self).pending_count() == old(self).pending_count() - 1
                },
                None => {
                    &&& parse_reply(d@) is None || !old(self).pending().contains_key(
                        parse_reply(d@)->0.correlation_id,
                    )
                    &&& *final(self) == *old(self)
                },
            },
    {
        match ReplyEnvelope::parse(d) {
            None => None,
            Some(reply) => self.registry.resolve(reply.correlation_id.as_str(), reply.body),
        }
    }

    /// The caller of `id` waited long enough. The call is given up: its
    /// record, if it is still there, leaves the gateway with a cancellation
    /// in its result slot, and the caller is told `CallTimedOut`. No other
    /// call is touched. The message that was published is not taken back: a
    /// reply to it may still arrive, and is then dropped.
    pub fn on_timeout(&mut self, id: &str) -> (r: (CallError, Option<PendingCall<S>>))
        requires
            old(self).wf(),
        ensures
            final(self).wf(),
            final(self).spec_work_queue() == old(self).spec_work_queue(),
            final(self).spec_reply_to() == old(self).spec_reply_to(),
            r.0@ == CallErrorView::CallTimedOut,
            final(self).pending() == old(self).pending().remove(id@),
            match r.1 {
                Some(call) => {
                    &&& old(self).pending().contains_key(id@)
                    &&& call.correlation_id@ == id@
                    &&& call.done_signal == old(self).pending()[id@]
                    &&& call.outcome() == Some(CallOutcomeView::Cancelled)
                    &&& final(self).pending_count() == old(self).pending_count() - 1
                },
                None => {
                    &&& !old(self).pending().contains_key(id@)
                    &&& *final(self) == *old(self)
                },
            },
    {
        let gone = self.registry.cancel(id);
        proof {
            if gone is None {
                assert(old(self).pending().remove(id@) =~= old(self).pending());
            }
        }
        (CallError::CallTimedOut, gone)
    }

    /// The gateway closes: every call in flight is given up. Each record
    /// leaves the gateway with a cancellation in its result slot, for its
    /// caller to be woken; no call is in flight afterwards.
    pub fn shutdown(&mut self) -> (gone: Vec<PendingCall<S>>)
        requires
            old(self).wf(),
        ensures
            final(self).wf(),
            final(self).spec_work_queue() == old(self).spec_work_queue(),
            final(self).spec_reply_to() == old(self).spec_reply_to(),
            final(self).pending() == Map::<Seq<char>, S>::empty(),
            final(self).pending_count() == 0,
            gone@.len() == old(self).pending_count(),
            crate::registry::distinct_ids(gone@),
            forall|i: int|
                0 <= i < gone@.len() ==> {
                    &&& old(self).pending().contains_key((#[trigger] gone@[i]).correlation_id@)
                    &&& gone@[i].done_signal == old(self).pending()[gone@[i].correlation_id@]
                    &&& gone@[i].outcome() == Some(CallOutcomeView::Cancelled)
                },
            forall|id: Seq<char>| #[trigger]
                old(self).pending().contains_key(id) ==> exists|i: int|
                    0 <= i < gone@.len() && (#[trigger] gone@[i]).correlation_id@ == id,
    {
        self.registry.cancel_all()
    }

    /// The broker did not take the message of call `id`. The registration is
    /// undone, so that no trace of the call is left, and the caller is told
    /// `TransportError`.
    pub fn on_publish_failed(&mut self, id: &str) -> (r: (CallError, Option<PendingCall<S>>))
        requires
            old(self).wf(),
        ensures
            final(self).wf(),
            final(self).spec_work_queue() == old(self).spec_work_queue(),
            final(self).spec_reply_to() == old(self).spec_reply_to(),
            r.0@ == CallErrorView::TransportError,
            final(self).pending() == old(self).pending().remove(id@),
            match r.1 {
                Some(call) => {
                    &&& old(self).pending().contains_key(id@)
                    &&& call.correlation_id@ == id@
                    &&& call.done_signal == old(self).pending()[id@]
                    &&& call.outcome() == Some(CallOutcomeView::Cancelled)
                    &&& final(self).pending_count() == old(self).pending_count() - 1
                },
                None => {
                    &&& !old(self).pending().contains_key(id@)
                    &&& *final(self) == *old(self)
                },
            },
    {
        let gone = self.registry.cancel(id);
        proof {
            if gone is None {
                assert(old(self).pending().remove(id@) =~= old(self).pending());
            }
        }
        (CallError::TransportError, gone)
    }
}

} // verus!
