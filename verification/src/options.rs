//! The options with which a queue is declared and consumed.

use vstd::prelude::*;

verus! {

/// How a queue is declared.
#[derive(Clone, Copy, Debug, PartialEq, Eq, Structural)]
pub struct QueueDeclareOptions {
    pub passive: bool,
    pub durable: bool,
    pub exclusive: bool,
    pub auto_delete: bool,
    pub nowait: bool,
}

/// How the limit on unacknowledged deliveries applies.
#[derive(Clone, Copy, Debug, PartialEq, Eq, Structural)]
pub struct BasicQosOptions {
    pub global: bool,
}

/// How a queue is consumed.
#[derive(Clone, Copy, Debug, PartialEq, Eq, Structural)]
pub struct BasicConsumeOptions {
    pub no_local: bool,
    pub no_ack: bool,
    pub exclusive: bool,
    pub nowait: bool,
}

impl Default for QueueDeclareOptions {
    fn default() -> (r: Self)
        ensures
            r == (QueueDeclareOptions {
                passive: false,
                durable: false,
                exclusive: false,
                auto_delete: false,
                nowait: false,
            }),
    {
        QueueDeclareOptions {
            passive: false,
            durable: false,
            exclusive: false,
            auto_delete: false,
            nowait: false,
        }
    }
}

impl Default for BasicQosOptions {
    fn default() -> (r: Self)
        ensures
            r == (BasicQosOptions { global: false }),
    {
        BasicQosOptions { global: false }
    }
}

impl Default for BasicConsumeOptions {
    fn default() -> (r: Self)
        ensures
            r == (BasicConsumeOptions {
                no_local: false,
                no_ack: false,
                exclusive: false,
                nowait: false,
            }),
    {
        BasicConsumeOptions { no_local: false, no_ack: false, exclusive: false, nowait: false }
    }
}

} // verus!
