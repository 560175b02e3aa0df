//! The Fibonacci server: its configuration, and what it does with each
//! delivery from its work queue.

use crate::dispatcher::{
    classify, completion_actions, effective_limit, job_for, rejection_actions, BoundedDispatcher,
    Parsed,
};
use crate::fib::{checked_fib, fib_spec};
use crate::options::{BasicConsumeOptions, BasicQosOptions, QueueDeclareOptions};
use crate::wire::{actions_view, Action, ActionView, Delivery, DeliveryView};
use vstd::prelude::*;

verus! {

/// The text of the error reply to a call whose result does not fit in a
/// machine word.
pub open spec fn out_of_range_message() -> Seq<char> {
    "result out of range"@
}

/// What the Fibonacci handler returns for `n`: the `n`-th Fibonacci number,
/// or an error if the number does not fit in a `usize`.
pub open spec fn fib_result(n: u32) -> Result<usize, Seq<char>> {
    if fib_spec(n as nat) <= usize::MAX {
        Ok(fib_spec(n as nat) as usize)
    } else {
        Err(out_of_range_message())
    }
}

/// What the server does with a delivery: a well-formed call is answered with
/// its Fibonacci number, or with the handler's error; anything else is
/// rejected. Every delivery is acknowledged.
pub open spec fn fib_actions(d: DeliveryView) -> Seq<ActionView> {
    match classify(d) {
        Parsed::Call(call, n) => completion_actions(job_for(d, call, n), fib_result(n)),
        _ => rejection_actions(d),
    }
}

/// Every delivery is acknowledged, once, after everything else; and a
/// delivery that holds no well-formed call is answered with an error where
/// it says to whom, and never executed.
pub proof fn lemma_every_delivery_acknowledged(d: DeliveryView)
    ensures
        fib_actions(d).len() >= 1,
        fib_actions(d).last() == ActionView::Ack(d.delivery_tag),
        forall|i: int| 0 <= i < fib_actions(d).len() - 1 ==> #[trigger] fib_actions(d)[i] is Publish,
        !(classify(d) is Call) ==> fib_actions(d) == rejection_actions(d),
        classify(d) is Malformed ==> fib_actions(d).len() == 2,
        classify(d) is Unaddressed ==> fib_actions(d).len() == 1,
{
}

/// The handler: the `n`-th Fibonacci number.
pub fn fib_handler(n: u32) -> (r: Result<usize, String>)
    ensures
        crate::dispatcher::handler_result_view(r) == fib_result(n),
{
    match checked_fib(n as usize) {
        Some(value) => Ok(value),
        None => Err("result out of range".to_owned()),
    }
}

/// A server that receives, on a queue of the broker, indices into the
/// Fibonacci sequence, and answers each on the reply destination that the
/// message names.
pub struct FibRpcServer {
    queue_name: String,
    msgcnt: Option<u16>,
    queue_declare_opts: QueueDeclareOptions,
    qos_opts: BasicQosOptions,
    consume_opts: BasicConsumeOptions,
}

/// The mathematical value of a [`FibRpcServer`].
pub struct FibRpcServerView {
    pub queue_name: Seq<char>,
    pub msgcnt: Option<u16>,
    pub queue_declare_opts: QueueDeclareOptions,
    pub qos_opts: BasicQosOptions,
    pub consume_opts: BasicConsumeOptions,
}

impl View for FibRpcServer {
    type V = FibRpcServerView;

    closed spec fn view(&self) -> FibRpcServerView {
        FibRpcServerView {
            queue_name: self.queue_name@,
            msgcnt: self.msgcnt,
            queue_declare_opts: self.queue_declare_opts,
            qos_opts: self.qos_opts,
            consume_opts: self.consume_opts,
        }
    }
}

/// The options of a server made by [`FibRpcServer::with_defaults`].
pub open spec fn default_server(queue_name: Seq<char>) -> FibRpcServerView {
    FibRpcServerView {
        queue_name,
        msgcnt: None,
        queue_declare_opts: QueueDeclareOptions {
            passive: false,
            durable: false,
            exclusive: false,
            auto_delete: false,
            nowait: false,
        },
        qos_opts: BasicQosOptions { global: false },
        consume_opts: BasicConsumeOptions {
            no_local: false,
            no_ack: false,
            exclusive: false,
            nowait: false,
        },
    }
}

impl FibRpcServer {
    /// A server on the queue `queue_name`, with an optional limit on the
    /// calls executed at a time and the options for the broker.
    pub fn new(
        queue_name: &str,
        msgcnt: Option<u16>,
        queue_declare_opts: QueueDeclareOptions,
        qos_opts: BasicQosOptions,
        consume_opts: BasicConsumeOptions,
    ) -> (r: Self)
        ensures
            r@ == (FibRpcServerView {
                queue_name: queue_name@,
                msgcnt,
                queue_declare_opts,
                qos_opts,
                consume_opts,
            }),
    {
        FibRpcServer {
            queue_name: queue_name.to_owned(),
            msgcnt,
            queue_declare_opts,
            qos_opts,
            consume_opts,
        }
    }

    /// A server on the queue `queue_name` with no configured limit and every
    /// option off.
    pub fn with_defaults(queue_name: &str) -> (r: Self)
        ensures
            r@ == default_server(queue_name@),
    {
        Self::new(
            queue_name,
            None,
            QueueDeclareOptions {
                passive: false,
                durable: false,
                exclusive: false,
                auto_delete: false,
                nowait: false,
            },
            BasicQosOptions { global: false },
            BasicConsumeOptions { no_local: false, no_ack: false, exclusive: false, nowait: false },
        )
    }

    /// Sets the name of the queue.
    pub fn set_queue_name(&mut self, name: &str)
        ensures
            final(self)@ == (FibRpcServerView { queue_name: name@, ..old(self)@ }),
    {
        self.queue_name = name.to_owned();
    }

    /// The name of the queue.
    pub fn queue_name(&self) -> (name: &str)
        ensures
            name@ == self@.queue_name,
    {
        self.queue_name.as_str()
    }

    /// Sets the limit on the calls executed at a time.
    pub fn set_message_count(&mut self, cnt: Option<u16>)
        ensures
            final(self)@ == (FibRpcServerView { msgcnt: cnt, ..old(self)@ }),
    {
        self.msgcnt = cnt;
    }

    /// The configured limit on the calls executed at a time.
    pub fn message_count(&self) -> (cnt: Option<u16>)
        ensures
            cnt == self@.msgcnt,
    {
        self.msgcnt
    }

    /// Sets the options with which the queue is declared.
    pub fn set_queue_declare_opts(&mut self, options: QueueDeclareOptions)
        ensures
            final(self)@ == (FibRpcServerView { queue_declare_opts: options, ..old(self)@ }),
    {
        self.queue_declare_opts = options;
    }

    /// The options with which the queue is declared.
    pub fn queue_declare_opts(&self) -> (options: &QueueDeclareOptions)
        ensures
            *options == self@.queue_declare_opts,
    {
        &self.queue_declare_opts
    }

    /// Sets how the limit on unacknowledged deliveries applies.
    pub fn set_qos_options(&mut self, options: BasicQosOptions)
        ensures
            final(self)@ == (FibRpcServerView { qos_opts: options, ..old(self)@ }),
    {
        self.qos_opts = options;
    }

    /// How the limit on unacknowledged deliveries applies.
    pub fn qos_options(&self) -> (options: &BasicQosOptions)
        ensures
            *options == self@.qos_opts,
    {
        &self.qos_opts
    }

    /// Sets the options with which the queue is consumed.
    pub fn set_consume_opts(&mut self, options: BasicConsumeOptions)
        ensures
            final(self)@ == (FibRpcServerView { consume_opts: options, ..old(self)@ }),
    {
        self.consume_opts = options;
    }

    /// The options with which the queue is consumed.
    pub fn consume_opts(&self) -> (options: &BasicConsumeOptions)
        ensures
            *options == self@.consume_opts,
    {
        &self.consume_opts
    }

    /// The number of unacknowledged deliveries that the broker is asked to
    /// allow: the configured limit, or 1 where none is configured or the
    /// configured one is 0.
    pub fn prefetch_count(&self) -> (n: u16)
        ensures
            n == effective_limit(self@.msgcnt),
            n >= 1,
    {
        match self.msgcnt {
            Some(n) => if n == 0 {
                1
            } else {
                n
            },
            None => 1,
        }
    }

    /// An idle dispatcher with this server's limit.
    pub fn dispatcher(&self) -> (r: BoundedDispatcher)
        ensures
            r.wf(),
            r.spec_limit() == effective_limit(self@.msgcnt),
            r.spec_in_flight() == 0,
            r.spec_accepting(),
    {
        BoundedDispatcher::new(self.msgcnt)
    }

    /// What the server does with one delivery from its queue, taken alone:
    /// the actions to perform, in order.
    pub fn serve_delivery(&self, d: Delivery) -> (actions: Vec<Action>)
        ensures
            actions_view(actions@) == fib_actions(d@),
    {
        let mut dispatcher = self.dispatcher();
        match dispatcher.run(d, &fib_handler) {
            Ok(actions) => actions,
            Err(_) => Vec::new(),
        }
    }
}

} // verus!
