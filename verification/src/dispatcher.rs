//! The server's side: calls consumed from the work queue are executed, at
//! most a fixed number at a time, and answered on the destination that each
//! call names.
//!
//! Every delivery passes through the same stages: it is received and parsed;
//! a delivery that holds no well-formed call is rejected, the others are
//! executed; either way the delivery ends acknowledged, so that the broker
//! never hands it out again.
//!
//! The dispatcher decides; its owner talks to the broker and runs the
//! handler.

use crate::decimal::{decimal_text, format_u64, parse_decimal, parse_u32};
use crate::envelope::{
    parse_call, reply_publication, CallEnvelope, CallEnvelopeView, ReplyBody, ReplyBodyView,
    ReplyEnvelope, ReplyEnvelopeView,
};
use crate::wire::{actions_view, Action, ActionView, Delivery, DeliveryView};
use vstd::prelude::*;
use vstd::string::StrSliceExecFns;
use vstd::utf8::encode_utf8;

verus! {

/// The text of the error reply to a call whose body is no number.
pub open spec fn malformed_call_message() -> Seq<char> {
    "malformed call"@
}

/// The number of calls executed at a time: the configured limit, and 1 where
/// none is configured or the configured one is 0.
pub open spec fn effective_limit(configured: Option<u16>) -> u16 {
    match configured {
        Some(n) => if n == 0 {
            1
        } else {
            n
        },
        None => 1,
    }
}

/// The dispatcher's slots, as numbers: how many calls may run at a time,
/// how many do, and whether new ones are taken.
pub struct Slots {
    pub limit: nat,
    pub running: nat,
    pub accepting: bool,
}

/// What can happen to a dispatcher.
pub enum Event {
    /// A delivery from the work queue is offered.
    Offer(DeliveryView),
    /// The handler has returned for a running call.
    Complete,
    /// The dispatcher is told to stop.
    Shutdown,
}

impl Slots {
    /// No more calls run than the limit allows, and the limit is at least 1.
    pub open spec fn within_limit(self) -> bool {
        1 <= self.limit && self.running <= self.limit
    }

    /// A slot is free for a new call.
    pub open spec fn has_free_slot(self) -> bool {
        self.accepting && self.running < self.limit
    }

    /// The slots after an event. A call starts to run only when a delivery
    /// with a well-formed call is offered while a slot is free.
    pub open spec fn step(self, e: Event) -> Slots {
        match e {
            Event::Offer(d) => if self.has_free_slot() && classify(d) is Call {
                Slots { running: self.running + 1, ..self }
            } else {
                self
            },
            Event::Complete => if self.running > 0 {
                Slots { running: (self.running - 1) as nat, ..self }
            } else {
                self
            },
            Event::Shutdown => Slots { accepting: false, ..self },
        }
    }

    /// The slots after a run of events, in order.
    pub open spec fn after(self, events: Seq<Event>) -> Slots
        decreases events.len(),
    {
        if events.len() == 0 {
            self
        } else {
            self.after(events.drop_last()).step(events.last())
        }
    }
}

/// No event takes the number of running calls over the limit, or changes
/// the limit.
pub proof fn lemma_step_within_limit(s: Slots, e: Event)
    requires
        s.within_limit(),
    ensures
        s.step(e).within_limit(),
        s.step(e).limit == s.limit,
{
}

/// Whatever is offered, completed or stopped, in whatever order: at no
/// moment do more calls run than the limit allows.
pub proof fn lemma_never_over_limit(s: Slots, events: Seq<Event>, k: int)
    requires
        s.within_limit(),
        0 <= k <= events.len(),
    ensures
        s.after(events.take(k)).running <= s.limit,
        s.after(events.take(k)).within_limit(),
        s.after(events.take(k)).limit == s.limit,
    decreases k,
{
    if k > 0 {
        lemma_never_over_limit(s, events, k - 1);
        assert(events.take(k).drop_last() =~= events.take(k - 1));
        lemma_step_within_limit(s.after(events.take(k - 1)), events.take(k).last());
    }
}

/// Why a delivery from the work queue holds no call that can be executed.
#[derive(Debug, Clone, Copy, PartialEq, Eq, Structural)]
pub enum MalformedCall {
    /// The message does not say where to answer, or under what identifier.
    Unaddressed,
    /// The body of the call is no number.
    BadBody,
}

/// What a delivery from the work queue holds.
pub enum Parsed {
    /// A well-formed call, with the number it asks about.
    Call(CallEnvelopeView, u32),
    /// A call that names where to answer, with a body that is no number.
    Malformed(CallEnvelopeView),
    /// A message that does not say where to answer, or under what identifier.
    Unaddressed,
}

/// Parses a delivery from the work queue.
pub open spec fn classify(d: DeliveryView) -> Parsed {
    match parse_call(d) {
        None => Parsed::Unaddressed,
        Some(call) => match parse_decimal(call.payload, u32::MAX as nat) {
            Some(n) => Parsed::Call(call, n as u32),
            None => Parsed::Malformed(call),
        },
    }
}

/// Why a delivery is rejected, if it is.
pub open spec fn fault(d: DeliveryView) -> Option<MalformedCall> {
    match classify(d) {
        Parsed::Call(_, _) => None,
        Parsed::Malformed(_) => Some(MalformedCall::BadBody),
        Parsed::Unaddressed => Some(MalformedCall::Unaddressed),
    }
}

/// The reply that reports an error to the caller of `id`.
pub open spec fn error_reply(id: Seq<char>, message: Seq<char>) -> ReplyEnvelopeView {
    ReplyEnvelopeView { correlation_id: id, body: ReplyBodyView::Error(encode_utf8(message)) }
}

/// The reply that carries what the handler returned: its result in decimal,
/// or its error.
pub open spec fn reply_for(id: Seq<char>, result: Result<usize, Seq<char>>) -> ReplyEnvelopeView {
    match result {
        Ok(value) => ReplyEnvelopeView {
            correlation_id: id,
            body: ReplyBodyView::Payload(decimal_text(value as nat)),
        },
        Err(message) => error_reply(id, message),
    }
}

/// What is done with a delivery that holds no well-formed call: an error is
/// reported if the delivery says where to, and the delivery is acknowledged.
pub open spec fn rejection_actions(d: DeliveryView) -> Seq<ActionView> {
    match parse_call(d) {
        Some(call) => seq![
            ActionView::Publish(
                reply_publication(
                    error_reply(call.correlation_id, malformed_call_message()),
                    call.reply_to,
                ),
            ),
            ActionView::Ack(d.delivery_tag),
        ],
        None => seq![ActionView::Ack(d.delivery_tag)],
    }
}

/// The mathematical value of a [`Job`].
pub struct JobView {
    pub delivery_tag: u64,
    pub correlation_id: Seq<char>,
    pub reply_to: Seq<char>,
    pub input: u32,
}

/// The job that executes a well-formed call.
pub open spec fn job_for(d: DeliveryView, call: CallEnvelopeView, input: u32) -> JobView {
    JobView {
        delivery_tag: d.delivery_tag,
        correlation_id: call.correlation_id,
        reply_to: call.reply_to,
        input,
    }
}

/// What is done when the handler has returned: the reply is published to
/// the destination that the call named, under the identifier of the call,
/// and then the delivery is acknowledged.
pub open spec fn completion_actions(job: JobView, result: Result<usize, Seq<char>>) -> Seq<
    ActionView,
> {
    seq![
        ActionView::Publish(reply_publication(reply_for(job.correlation_id, result), job.reply_to)),
        ActionView::Ack(job.delivery_tag),
    ]
}

/// However a delivery is dealt with, its acknowledgement comes last, after
/// at most one publication; and a rejected delivery is answered with an
/// error exactly when it names an identifier and a reply destination.
pub proof fn lemma_acknowledged_last(d: DeliveryView, job: JobView, result: Result<usize, Seq<char>>)
    ensures
        rejection_actions(d).last() == ActionView::Ack(d.delivery_tag),
        parse_call(d) is Some <==> rejection_actions(d).len() == 2,
        parse_call(d) is None <==> rejection_actions(d).len() == 1,
        parse_call(d) is Some ==> rejection_actions(d)[0] == ActionView::Publish(
            reply_publication(
                error_reply(parse_call(d)->0.correlation_id, malformed_call_message()),
                parse_call(d)->0.reply_to,
            ),
        ),
        completion_actions(job, result).len() == 2,
        completion_actions(job, result).last() == ActionView::Ack(job.delivery_tag),
        completion_actions(job, result)[0] is Publish,
{
}

/// The mathematical value of what a handler returns.
pub open spec fn handler_result_view(r: Result<usize, String>) -> Result<usize, Seq<char>> {
    match r {
        Ok(v) => Ok(v),
        Err(m) => Err(m@),
    }
}

/// A call that holds one of the dispatcher's slots until it is completed.
#[derive(Debug)]
pub struct Job {
    delivery_tag: u64,
    correlation_id: String,
    reply_to: String,
    input: u32,
}

impl View for Job {
    type V = JobView;

    closed spec fn view(&self) -> JobView {
        JobView {
            delivery_tag: self.delivery_tag,
            correlation_id: self.correlation_id@,
            reply_to: self.reply_to@,
            input: self.input,
        }
    }
}

impl Job {
    /// The number that the call asks about.
    pub fn input(&self) -> (n: u32)
        ensures
            n == self@.input,
    {
        self.input
    }

    /// The tag of the delivery that brought the call.
    pub fn delivery_tag(&self) -> (tag: u64)
        ensures
            tag == self@.delivery_tag,
    {
        self.delivery_tag
    }

    /// The identifier of the call.
    pub fn correlation_id(&self) -> (id: &str)
        ensures
            id@ == self@.correlation_id,
    {
        self.correlation_id.as_str()
    }

    /// Where the reply goes.
    pub fn reply_to(&self) -> (dest: &str)
        ensures
            dest@ == self@.reply_to,
    {
        self.reply_to.as_str()
    }
}

/// What becomes of a delivery that is offered to the dispatcher.
#[derive(Debug)]
pub enum Admission {
    /// The call took a slot: run the handler on the job's input, and hand
    /// the job back with what it returned.
    Execute(Job),
    /// The delivery holds no well-formed call, for the reason given: these
    /// actions answer and acknowledge it. No slot was taken.
    Rejected(MalformedCall, Vec<Action>),
    /// No slot is free, or the dispatcher is shutting down: the delivery
    /// comes back as it was.
    Deferred(Delivery),
}

/// The error reply for `id` with the given text.
fn make_error_reply(id: String, message: &str) -> (r: ReplyEnvelope)
    ensures
        r@ == error_reply(id@, message@),
{
    ReplyEnvelope { correlation_id: id, body: ReplyBody::Error(message.as_bytes_vec()) }
}

/// The reply for `id` that carries what the handler returned.
fn make_reply(id: String, result: Result<usize, String>) -> (r: ReplyEnvelope)
    ensures
        r@ == reply_for(id@, handler_result_view(result)),
{
    match result {
        Ok(value) => ReplyEnvelope {
            correlation_id: id,
            body: ReplyBody::Payload(format_u64(value as u64)),
        },
        Err(message) => make_error_reply(id, message.as_str()),
    }
}

/// The dispatcher: how many calls may run at a time, how many do, and
/// whether new ones are taken.
pub struct BoundedDispatcher {
    limit: u16,
    in_flight: u16,
    accepting: bool,
}

impl BoundedDispatcher {
    /// The dispatcher's invariant: the limit is at least 1, and no more
    /// calls are running than the limit allows.
    pub closed spec fn wf(&self) -> bool {
        1 <= self.limit && self.in_flight <= self.limit
    }

    /// The number of calls that may run at a time.
    pub closed spec fn spec_limit(&self) -> u16 {
        self.limit
    }

    /// The number of calls that are running.
    pub closed spec fn spec_in_flight(&self) -> u16 {
        self.in_flight
    }

    /// Whether new calls are taken.
    pub closed spec fn spec_accepting(&self) -> bool {
        self.accepting
    }

    /// A slot is free for a new call.
    pub open spec fn spec_has_free_slot(&self) -> bool {
        self.spec_accepting() && self.spec_in_flight() < self.spec_limit()
    }

    /// Nothing runs and nothing new is taken: the channel can be closed.
    pub open spec fn spec_is_drained(&self) -> bool {
        !self.spec_accepting() && self.spec_in_flight() == 0
    }

    /// The dispatcher's slots as numbers.
    pub open spec fn slots(&self) -> Slots {
        Slots {
            limit: self.spec_limit() as nat,
            running: self.spec_in_flight() as nat,
            accepting: self.spec_accepting(),
        }
    }

    /// A dispatcher that is well formed runs no more calls than its limit.
    pub proof fn lemma_wf_within_limit(&self)
        ensures
            self.wf() <==> self.slots().within_limit(),
    {
    }

    /// An idle dispatcher that runs at most `configured` calls at a time, or
    /// one at a time if the limit is absent or 0.
    pub fn new(configured: Option<u16>) -> (r: Self)
        ensures
            r.wf(),
            r.spec_limit() == effective_limit(configured),
            r.spec_in_flight() == 0,
            r.spec_accepting(),
    {
        let limit: u16 = match configured {
            Some(n) => if n == 0 {
                1
            } else {
                n
            },
            None => 1,
        };
        BoundedDispatcher { limit, in_flight: 0, accepting: true }
    }

    /// The number of calls that may run at a time.
    pub fn limit(&self) -> (n: u16)
        ensures
            n == self.spec_limit(),
    {
        self.limit
    }

    /// The number of calls that are running.
    pub fn in_flight(&self) -> (n: u16)
        ensures
            n == self.spec_in_flight(),
    {
        self.in_flight
    }

    /// Whether new calls are taken.
    pub fn is_accepting(&self) -> (b: bool)
        ensures
            b == self.spec_accepting(),
    {
        self.accepting
    }

    /// Whether a slot is free for a new call. While none is, the owner pulls
    /// no delivery: the calls wait at the broker.
    pub fn has_free_slot(&self) -> (b: bool)
        ensures
            b == self.spec_has_free_slot(),
    {
        self.accepting && self.in_flight < self.limit
    }

    /// Whether nothing runs and nothing new is taken.
    pub fn is_drained(&self) -> (b: bool)
        ensures
            b == self.spec_is_drained(),
    {
        !self.accepting && self.in_flight == 0
    }

    /// Takes a delivery from the work queue. With no free slot the delivery
    /// comes back untouched. Otherwise it is parsed: a well-formed call
    /// takes a slot and becomes a job; anything else is rejected, with the
    /// actions that answer and acknowledge it.
    pub fn offer(&mut self, d: Delivery) -> (r: Admission)
        requires
            old(self).wf(),
        ensures
            final(self).wf(),
            final(self).slots() == old(self).slots().step(Event::Offer(d@)),
            match r {
                Admission::Deferred(back) => {
                    &&& !old(self).spec_has_free_slot()
                    &&& back == d
                    &&& *final(self) == *old(self)
                },
                Admission::Rejected(reason, actions) => {
                    &&& old(self).spec_has_free_slot()
                    &&& fault(d@) == Some(reason)
                    &&& actions_view(actions@) == rejection_actions(d@)
                    &&& *final(self) == *old(self)
                },
                Admission::Execute(job) => {
                    &&& old(self).spec_has_free_slot()
                    &&& classify(d@) is Call
                    &&& job@ == job_for(d@, classify(d@)->Call_0, classify(d@)->Call_1)
                    &&& final(self).spec_in_flight() == old(self).spec_in_flight() + 1
                },
            },
    {
        if !self.has_free_slot() {
            return Admission::Deferred(d);
        }
        let tag: u64 = d.delivery_tag;
        match CallEnvelope::parse(&d) {
            None => {
                let actions = vec![Action::Ack(tag)];
                assert(actions_view(actions@) =~= rejection_actions(d@));
                Admission::Rejected(MalformedCall::Unaddressed, actions)
            },
            Some(call) => match parse_u32(call.payload.as_slice()) {
                None => {
                    let dest = call.reply_to;
                    let reply = make_error_reply(call.correlation_id, "malformed call");
                    let actions = vec![
                        Action::Publish(reply.into_publication(dest.as_str())),
                        Action::Ack(tag),
                    ];
                    assert(actions_view(actions@) =~= rejection_actions(d@));
                    Admission::Rejected(MalformedCall::BadBody, actions)
                },
                Some(input) => {
                    self.in_flight = self.in_flight + 1;
                    Admission::Execute(
                        Job {
                            delivery_tag: tag,
                            correlation_id: call.correlation_id,
                            reply_to: call.reply_to,
                            input,
                        },
                    )
                },
            },
        }
    }

    /// The handler has returned for `job`: its slot is free again, and the
    /// actions publish the reply and acknowledge the delivery. An error of
    /// the handler is answered like a result: the caller is told, and the
    /// dispatcher goes on.
    pub fn complete(&mut self, job: Job, result: Result<usize, String>) -> (actions: Vec<Action>)
        requires
            old(self).wf(),
        ensures
            final(self).wf(),
            final(self).slots() == old(self).slots().step(Event::Complete),
            actions_view(actions@) == completion_actions(job@, handler_result_view(result)),
    {
        if self.in_flight > 0 {
            self.in_flight = self.in_flight - 1;
        }
        let tag: u64 = job.delivery_tag;
        let dest = job.reply_to;
        let reply = make_reply(job.correlation_id, result);
        let actions = vec![Action::Publish(reply.into_publication(dest.as_str())), Action::Ack(tag)];
        assert(actions_view(actions@) =~= completion_actions(job@, handler_result_view(result)));
        actions
    }

    /// Takes a delivery and sees it through: takes it in, runs the handler
    /// if it holds a well-formed call, and completes it. The slot that the
    /// call took is free again on return.
    pub fn run<F: Fn(u32) -> Result<usize, String>>(&mut self, d: Delivery, handler: &F) -> (r:
        Result<Vec<Action>, Delivery>)
        requires
            old(self).wf(),
            forall|n: u32| handler.requires((n,)),
        ensures
            final(self).wf(),
            *final(self) == *old(self),
            match r {
                Err(back) => !old(self).spec_has_free_slot() && back == d,
                Ok(actions) => {
                    &&& old(self).spec_has_free_slot()
                    &&& match classify(d@) {
                        Parsed::Call(call, input) => exists|result: Result<usize, String>|
                            {
                                &&& handler.ensures((input,), result)
                                &&& actions_view(actions@) == #[trigger] completion_actions(
                                    job_for(d@, call, input),
                                    handler_result_view(result),
                                )
                            },
                        _ => actions_view(actions@) == rejection_actions(d@),
                    }
                },
            },
    {
        match self.offer(d) {
            Admission::Deferred(back) => Err(back),
            Admission::Rejected(_, actions) => Ok(actions),
            Admission::Execute(job) => {
                let result = handler(job.input);
                let ghost shown = handler_result_view(result);
                let ghost jv = job@;
                let actions = self.complete(job, result);
                assert(actions_view(actions@) == completion_actions(jv, shown));
                Ok(actions)
            },
        }
    }

    /// Stops taking new calls. Those that run may finish.
    pub fn shutdown(&mut self)
        requires
            old(self).wf(),
        ensures
            final(self).wf(),
            final(self).slots() == old(self).slots().step(Event::Shutdown),
    {
        self.accepting = false;
    }
}

} // verus!
