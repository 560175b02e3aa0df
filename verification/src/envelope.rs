//! The logical messages of a remote call, and their form on the wire.
//!
//! A call carries a correlation identifier, the destination for its reply,
//! and a body. A reply carries the identifier of its call, and either a
//! result or the text of an error.

use crate::text::{clone_bytes, text_eq};
use crate::wire::{Delivery, DeliveryView, Properties, PropertiesView, Publication, PublicationView};
use vstd::prelude::*;

verus! {

/// The content type that calls are published with.
pub open spec fn call_content_type() -> Seq<char> {
    "text/plain"@
}

/// The `kind` property that marks a reply as an error.
pub open spec fn error_kind() -> Seq<char> {
    "error"@
}

/// A call, as published on the work queue.
#[derive(Debug, Clone, PartialEq, Eq)]
pub struct CallEnvelope {
    pub correlation_id: String,
    pub reply_to: String,
    pub payload: Vec<u8>,
}

/// The mathematical value of a [`CallEnvelope`].
pub struct CallEnvelopeView {
    pub correlation_id: Seq<char>,
    pub reply_to: Seq<char>,
    pub payload: Seq<u8>,
}

impl View for CallEnvelope {
    type V = CallEnvelopeView;

    open spec fn view(&self) -> CallEnvelopeView {
        CallEnvelopeView {
            correlation_id: self.correlation_id@,
            reply_to: self.reply_to@,
            payload: self.payload@,
        }
    }
}

/// What a reply carries: the result of the call, or the text of an error in
/// UTF-8.
#[derive(Debug, Clone, PartialEq, Eq)]
pub enum ReplyBody {
    Payload(Vec<u8>),
    Error(Vec<u8>),
}

/// The mathematical value of a [`ReplyBody`].
pub enum ReplyBodyView {
    Payload(Seq<u8>),
    Error(Seq<u8>),
}

impl View for ReplyBody {
    type V = ReplyBodyView;

    open spec fn view(&self) -> ReplyBodyView {
        match self {
            ReplyBody::Payload(p) => ReplyBodyView::Payload(p@),
            ReplyBody::Error(e) => ReplyBodyView::Error(e@),
        }
    }
}

/// A reply, as published on the caller's reply destination.
#[derive(Debug, Clone, PartialEq, Eq)]
pub struct ReplyEnvelope {
    pub correlation_id: String,
    pub body: ReplyBody,
}

/// The mathematical value of a [`ReplyEnvelope`].
pub struct ReplyEnvelopeView {
    pub correlation_id: Seq<char>,
    pub body: ReplyBodyView,
}

impl View for ReplyEnvelope {
    type V = ReplyEnvelopeView;

    open spec fn view(&self) -> ReplyEnvelopeView {
        ReplyEnvelopeView { correlation_id: self.correlation_id@, body: self.body@ }
    }
}

/// The publication of a call: on the default exchange, routed to the work
/// queue, with the identifier and the reply destination as properties.
pub open spec fn call_publication(call: CallEnvelopeView, work_queue: Seq<char>) -> PublicationView {
    PublicationView {
        exchange: Seq::empty(),
        routing_key: work_queue,
        properties: PropertiesView {
            content_type: Some(call_content_type()),
            correlation_id: Some(call.correlation_id),
            reply_to: Some(call.reply_to),
            kind: None,
        },
        payload: call.payload,
    }
}

/// The call that a delivery holds: it has one if it names both a correlation
/// identifier and a reply destination.
pub open spec fn parse_call(d: DeliveryView) -> Option<CallEnvelopeView> {
    if d.properties.correlation_id is Some && d.properties.reply_to is Some {
        Some(
            CallEnvelopeView {
                correlation_id: d.properties.correlation_id->0,
                reply_to: d.properties.reply_to->0,
                payload: d.data,
            },
        )
    } else {
        None
    }
}

/// The publication of a reply: on the default exchange, routed to the reply
/// destination, with the identifier of the call; an error is marked by its
/// kind.
pub open spec fn reply_publication(reply: ReplyEnvelopeView, reply_to: Seq<char>) -> PublicationView {
    PublicationView {
        exchange: Seq::empty(),
        routing_key: reply_to,
        properties: PropertiesView {
            content_type: None,
            correlation_id: Some(reply.correlation_id),
            reply_to: None,
            kind: match reply.body {
                ReplyBodyView::Payload(_) => None,
                ReplyBodyView::Error(_) => Some(error_kind()),
            },
        },
        payload: match reply.body {
            ReplyBodyView::Payload(p) => p,
            ReplyBodyView::Error(e) => e,
        },
    }
}

/// The reply that a delivery holds: it has one if it names a correlation
/// identifier.
pub open spec fn parse_reply(d: DeliveryView) -> Option<ReplyEnvelopeView> {
    if d.properties.correlation_id is Some {
        Some(
            ReplyEnvelopeView {
                correlation_id: d.properties.correlation_id->0,
                body: if d.properties.kind == Some(error_kind()) {
                    ReplyBodyView::Error(d.data)
                } else {
                    ReplyBodyView::Payload(d.data)
                },
            },
        )
    } else {
        None
    }
}

/// A call that is published and delivered arrives as it was sent.
pub proof fn lemma_call_survives_delivery(call: CallEnvelopeView, work_queue: Seq<char>, tag: u64)
    ensures
        parse_call(crate::wire::delivered(call_publication(call, work_queue), tag)) == Some(call),
{
}

/// A reply that is published and delivered arrives as it was sent.
pub proof fn lemma_reply_survives_delivery(reply: ReplyEnvelopeView, reply_to: Seq<char>, tag: u64)
    ensures
        parse_reply(crate::wire::delivered(reply_publication(reply, reply_to), tag)) == Some(reply),
{
}

impl ReplyBody {
    /// A copy of the body.
    pub fn duplicate(&self) -> (r: ReplyBody)
        ensures
            r@ == self@,
    {
        match self {
            ReplyBody::Payload(p) => ReplyBody::Payload(clone_bytes(p)),
            ReplyBody::Error(e) => ReplyBody::Error(clone_bytes(e)),
        }
    }
}

impl CallEnvelope {
    /// The message to publish for this call.
    pub fn into_publication(self, work_queue: &str) -> (p: Publication)
        ensures
            p@ == call_publication(self@, work_queue@),
    {
        Publication {
            exchange: String::new(),
            routing_key: work_queue.to_owned(),
            properties: Properties {
                content_type: Some("text/plain".to_owned()),
                correlation_id: Some(self.correlation_id),
                reply_to: Some(self.reply_to),
                kind: None,
            },
            payload: self.payload,
        }
    }

    /// Reads the call out of a delivery from the work queue.
    pub fn parse(d: &Delivery) -> (r: Option<CallEnvelope>)
        ensures
            match r {
                Some(call) => parse_call(d@) == Some(call@),
                None => parse_call(d@) is None,
            },
    {
        match (&d.properties.correlation_id, &d.properties.reply_to) {
            (Some(id), Some(dest)) => Some(
                CallEnvelope {
                    correlation_id: id.clone(),
                    reply_to: dest.clone(),
                    payload: clone_bytes(&d.data),
                },
            ),
            _ => None,
        }
    }
}

impl ReplyEnvelope {
    /// The message to publish for this reply.
    pub fn into_publication(self, reply_to: &str) -> (p: Publication)
        ensures
            p@ == reply_publication(self@, reply_to@),
    {
        let (kind, payload) = match self.body {
            ReplyBody::Payload(p) => (None, p),
            ReplyBody::Error(e) => (Some("error".to_owned()), e),
        };
        Publication {
            exchange: String::new(),
            routing_key: reply_to.to_owned(),
            properties: Properties {
                content_type: None,
                correlation_id: Some(self.correlation_id),
                reply_to: None,
                kind,
            },
            payload,
        }
    }

    /// Reads the reply out of a delivery from a reply destination.
    pub fn parse(d: Delivery) -> (r: Option<ReplyEnvelope>)
        ensures
            match r {
                Some(reply) => parse_reply(d@) == Some(reply@),
                None => parse_reply(d@) is None,
            },
    {
        let is_error = match &d.properties.kind {
            Some(k) => text_eq(k.as_str(), "error"),
            None => false,
        };
        match d.properties.correlation_id {
            Some(id) => Some(
                ReplyEnvelope {
                    correlation_id: id,
                    body: if is_error {
                        ReplyBody::Error(d.data)
                    } else {
                        ReplyBody::Payload(d.data)
                    },
                },
            ),
            None => None,
        }
    }
}

} // verus!
