//! The Fibonacci client: calls to the Fibonacci server through a gateway.

use crate::decimal::{
    decimal_text, format_u64, lemma_decimal_round_trip, parse_decimal, parse_usize,
};
use crate::dispatcher::{classify, completion_actions, job_for, reply_for, Event, Parsed, Slots};
use crate::envelope::{call_publication, parse_reply, reply_publication, CallEnvelopeView};
use crate::gateway::{
    call_result, call_result_spec, is_hyphenated_uuid, CallError, CallErrorView, CallGateway,
};
use crate::options::{BasicConsumeOptions, QueueDeclareOptions};
use crate::registry::{CallOutcome, CallOutcomeView, PendingCall};
use crate::rpc_server::{fib_actions, fib_result};
use crate::wire::{delivered, ActionView, Delivery, Publication};
use vstd::prelude::*;
use vstd::utf8::{encode_utf8_decode_utf8, encode_utf8_valid_utf8};

verus! {

/// What the caller of the Fibonacci server is given for the outcome of its
/// call: the number in the reply; `MalformedReply` if the reply holds no
/// number; else the error of the call.
pub open spec fn fib_answer_spec(outcome: CallOutcomeView) -> Result<usize, CallErrorView> {
    match call_result_spec(outcome) {
        Ok(bytes) => match parse_decimal(bytes, usize::MAX as nat) {
            Some(value) => Ok(value as usize),
            None => Err(CallErrorView::MalformedReply),
        },
        Err(e) => Err(e),
    }
}

/// The mathematical value of what a call to the Fibonacci server gives.
pub open spec fn answer_view(r: Result<usize, CallError>) -> Result<usize, CallErrorView> {
    match r {
        Ok(value) => Ok(value),
        Err(e) => Err(e@),
    }
}

/// What the caller is given, in terms of what the handler returned.
pub open spec fn answer_for(result: Result<usize, Seq<char>>) -> Result<usize, CallErrorView> {
    match result {
        Ok(value) => Ok(value),
        Err(message) => Err(CallErrorView::HandlerFailure(message)),
    }
}

/// A call comes back with what the handler returned. Whatever the number
/// asked about, the identifier and the names of the queues, and whatever the
/// limit of the dispatcher, as long as a slot is free: the call that the
/// client publishes arrives at the server as the same call and takes a
/// slot; the reply that the server publishes for the handler's result goes
/// to the client's reply destination and arrives as the same reply; and
/// the client reads out of it what the handler returned, result or error.
pub proof fn lemma_call_round_trip(
    id: Seq<char>,
    reply_to: Seq<char>,
    work_queue: Seq<char>,
    input: u32,
    result: Result<usize, Seq<char>>,
    call_tag: u64,
    reply_tag: u64,
    slots: Slots,
)
    requires
        slots.within_limit(),
        slots.has_free_slot(),
    ensures
        ({
            let call = CallEnvelopeView {
                correlation_id: id,
                reply_to,
                payload: decimal_text(input as nat),
            };
            let d = delivered(call_publication(call, work_queue), call_tag);
            let reply = reply_for(id, result);
            let published = reply_publication(reply, reply_to);
            &&& classify(d) == Parsed::Call(call, input)
            &&& slots.step(Event::Offer(d)).running == slots.running + 1
            &&& slots.step(Event::Offer(d)).step(Event::Complete) == slots
            &&& completion_actions(job_for(d, call, input), result) == seq![
                ActionView::Publish(published),
                ActionView::Ack(call_tag),
            ]
            &&& published.routing_key == reply_to
            &&& parse_reply(delivered(published, reply_tag)) == Some(reply)
            &&& reply.correlation_id == id
            &&& fib_answer_spec(CallOutcomeView::Replied(reply.body)) == answer_for(result)
        }),
{
    lemma_decimal_round_trip(input as nat, u32::MAX as nat);
    match result {
        Ok(value) => {
            lemma_decimal_round_trip(value as nat, usize::MAX as nat);
        },
        Err(message) => {
            encode_utf8_valid_utf8(message);
            encode_utf8_decode_utf8(message);
        },
    }
}

/// A call to the Fibonacci server gives the Fibonacci number. The server
/// answers the call for `n` with one reply and one acknowledgement, and
/// the client reads out of that reply the `n`-th Fibonacci number, or the
/// handler's error if the number does not fit in a machine word.
pub proof fn lemma_fib_call_round_trip(
    id: Seq<char>,
    reply_to: Seq<char>,
    work_queue: Seq<char>,
    n: u32,
    call_tag: u64,
    reply_tag: u64,
)
    ensures
        ({
            let call = CallEnvelopeView {
                correlation_id: id,
                reply_to,
                payload: decimal_text(n as nat),
            };
            let d = delivered(call_publication(call, work_queue), call_tag);
            let reply = reply_for(id, fib_result(n));
            &&& fib_actions(d) == seq![
                ActionView::Publish(reply_publication(reply, reply_to)),
                ActionView::Ack(call_tag),
            ]
            &&& parse_reply(delivered(reply_publication(reply, reply_to), reply_tag)) == Some(
                reply,
            )
            &&& fib_answer_spec(CallOutcomeView::Replied(reply.body)) == answer_for(fib_result(n))
        }),
{
    let idle = Slots { limit: 1, running: 0, accepting: true };
    lemma_call_round_trip(id, reply_to, work_queue, n, fib_result(n), call_tag, reply_tag, idle);
}

/// The options with which a client declares its reply queue: a queue of its
/// own, named by the broker.
pub fn reply_queue_options() -> (r: QueueDeclareOptions)
    ensures
        r == (QueueDeclareOptions {
            passive: false,
            durable: false,
            exclusive: true,
            auto_delete: false,
            nowait: false,
        }),
{
    QueueDeclareOptions {
        passive: false,
        durable: false,
        exclusive: true,
        auto_delete: false,
        nowait: false,
    }
}

/// The options with which a client consumes its reply queue: replies need no
/// acknowledgement.
pub fn reply_consume_options() -> (r: BasicConsumeOptions)
    ensures
        r == (BasicConsumeOptions {
            no_local: false,
            no_ack: true,
            exclusive: false,
            nowait: false,
        }),
{
    BasicConsumeOptions { no_local: false, no_ack: true, exclusive: false, nowait: false }
}

/// A client of the Fibonacci server. `S` is whatever wakes a waiting caller.
pub struct FibClient<S> {
    inner: CallGateway<S>,
}

impl<S> FibClient<S> {
    /// The client's invariant: that of its gateway.
    pub closed spec fn wf(&self) -> bool {
        self.inner.wf()
    }

    /// The client's gateway.
    pub closed spec fn gateway(&self) -> CallGateway<S> {
        self.inner
    }

    /// A client that publishes its calls on `work_queue` and is answered on
    /// `reply_to`.
    pub fn new(work_queue: &str, reply_to: &str) -> (r: Self)
        ensures
            r.wf(),
            r.gateway().wf(),
            r.gateway().pending() == Map::<Seq<char>, S>::empty(),
            r.gateway().pending_count() == 0,
            r.gateway().spec_work_queue() == work_queue@,
            r.gateway().spec_reply_to() == reply_to@,
    {
        FibClient { inner: CallGateway::new(work_queue.to_owned(), reply_to.to_owned()) }
    }

    /// The body of the call that asks for the `input`-th Fibonacci number.
    pub fn request(input: u32) -> (body: Vec<u8>)
        ensures
            body@ == decimal_text(input as nat),
    {
        format_u64(input as u64)
    }

    /// Starts the call that asks for the `input`-th Fibonacci number, under
    /// a new identifier: gives the identifier and the message to publish.
    pub fn begin(&mut self, input: u32, signal: S) -> (r: Result<
        (String, Publication),
        (CallError, S),
    >)
        requires
            old(self).wf(),
        ensures
            final(self).wf(),
            final(self).gateway().wf(),
            final(self).gateway().spec_work_queue() == old(self).gateway().spec_work_queue(),
            final(self).gateway().spec_reply_to() == old(self).gateway().spec_reply_to(),
            match r {
                Ok(started) => {
                    &&& is_hyphenated_uuid(started.0@)
                    &&& !old(self).gateway().pending().contains_key(started.0@)
                    &&& final(self).gateway().pending() == old(self).gateway().pending().insert(
                        started.0@,
                        signal,
                    )
                    &&& started.1@ == call_publication(
                        old(self).gateway().call_for(started.0@, decimal_text(input as nat)),
                        old(self).gateway().spec_work_queue(),
                    )
                },
                Err(e) => {
                    &&& e.0@ == CallErrorView::DuplicateCorrelationId
                    &&& e.1 == signal
                    &&& *final(self) == *old(self)
                    &&& exists|id: Seq<char>|
                        is_hyphenated_uuid(id) && #[trigger] old(self).gateway().pending().contains_key(
                            id,
                        )
                },
            },
    {
        let body = Self::request(input);
        self.inner.begin_invoke(body, signal)
    }

    /// A message arrived on the reply destination: see
    /// [`CallGateway::on_delivery`].
    pub fn on_delivery(&mut self, d: Delivery) -> (r: Option<PendingCall<S>>)
        requires
            old(self).wf(),
        ensures
            final(self).wf(),
            final(self).gateway().wf(),
            final(self).gateway().spec_work_queue() == old(self).gateway().spec_work_queue(),
            final(self).gateway().spec_reply_to() == old(self).gateway().spec_reply_to(),
            match r {
                Some(call) => {
                    &&& parse_reply(d@) is Some
                    &&& call.correlation_id@ == parse_reply(d@)->0.correlation_id
                    &&& old(self).gateway().pending().contains_key(call.correlation_id@)
                    &&& call.done_signal == old(self).gateway().pending()[call.correlation_id@]
                    &&& call.outcome() == Some(CallOutcomeView::Replied(parse_reply(d@)->0.body))
                    &&& final(self).gateway().pending() == old(self).gateway().pending().remove(
                        call.correlation_id@,
                    )
                },
                None => {
                    &&& parse_reply(d@) is None || !old(self).gateway().pending().contains_key(
                        parse_reply(d@)->0.correlation_id,
                    )
                    &&& *final(self) == *old(self)
                },
            },
    {
        self.inner.on_delivery(d)
    }

    /// The caller of `id` waited long enough: see
    /// [`CallGateway::on_timeout`].
    pub fn on_timeout(&mut self, id: &str) -> (r: (CallError, Option<PendingCall<S>>))
        requires
            old(self).wf(),
        ensures
            final(self).wf(),
            final(self).gateway().wf(),
            final(self).gateway().spec_work_queue() == old(self).gateway().spec_work_queue(),
            final(self).gateway().spec_reply_to() == old(self).gateway().spec_reply_to(),
            r.0@ == CallErrorView::CallTimedOut,
            final(self).gateway().pending() == old(self).gateway().pending().remove(id@),
            r.1 is Some <==> old(self).gateway().pending().contains_key(id@),
            r.1 is Some ==> r.1->0.correlation_id@ == id@ && r.1->0.done_signal == old(
                self,
            ).gateway().pending()[id@] && r.1->0.outcome() == Some(CallOutcomeView::Cancelled),
    {
        self.inner.on_timeout(id)
    }

    /// The broker did not take the message of call `id`: see
    /// [`CallGateway::on_publish_failed`].
    pub fn on_publish_failed(&mut self, id: &str) -> (r: (CallError, Option<PendingCall<S>>))
        requires
            old(self).wf(),
        ensures
            final(self).wf(),
            final(self).gateway().wf(),
            final(self).gateway().spec_work_queue() == old(self).gateway().spec_work_queue(),
            final(self).gateway().spec_reply_to() == old(self).gateway().spec_reply_to(),
            r.0@ == CallErrorView::TransportError,
            final(self).gateway().pending() == old(self).gateway().pending().remove(id@),
            r.1 is Some <==> old(self).gateway().pending().contains_key(id@),
            r.1 is Some ==> r.1->0.correlation_id@ == id@ && r.1->0.done_signal == old(
                self,
            ).gateway().pending()[id@] && r.1->0.outcome() == Some(CallOutcomeView::Cancelled),
    {
        self.inner.on_publish_failed(id)
    }

    /// The number of calls in flight.
    pub fn pending_len(&self) -> (n: usize)
        ensures
            n == self.gateway().pending_count(),
    {
        self.inner.pending_len()
    }

    /// What the caller is given for the outcome of its call.
    pub fn answer(outcome: CallOutcome) -> (r: Result<usize, CallError>)
        ensures
            answer_view(r) == fib_answer_spec(outcome@),
    {
        match call_result(outcome) {
            Ok(bytes) => match parse_usize(bytes.as_slice()) {
                Some(value) => Ok(value),
                None => Err(CallError::MalformedReply),
            },
            Err(e) => Err(e),
        }
    }
}

} // verus!
