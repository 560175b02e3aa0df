//! Messages as the broker carries them: what is handed to it for publishing,
//! and what it hands to a consumer.

use crate::text::{clone_bytes, clone_opt_text, opt_text};
use vstd::prelude::*;

verus! {

/// The message properties that calls and replies use.
#[derive(Debug, Clone, PartialEq, Eq)]
pub struct Properties {
    pub content_type: Option<String>,
    pub correlation_id: Option<String>,
    pub reply_to: Option<String>,
    pub kind: Option<String>,
}

/// The mathematical value of [`Properties`].
pub struct PropertiesView {
    pub content_type: Option<Seq<char>>,
    pub correlation_id: Option<Seq<char>>,
    pub reply_to: Option<Seq<char>>,
    pub kind: Option<Seq<char>>,
}

impl View for Properties {
    type V = PropertiesView;

    open spec fn view(&self) -> PropertiesView {
        PropertiesView {
            content_type: opt_text(self.content_type),
            correlation_id: opt_text(self.correlation_id),
            reply_to: opt_text(self.reply_to),
            kind: opt_text(self.kind),
        }
    }
}

impl PropertiesView {
    /// No property set.
    pub open spec fn empty() -> PropertiesView {
        PropertiesView { content_type: None, correlation_id: None, reply_to: None, kind: None }
    }
}

impl Properties {
    /// No property set.
    pub fn new() -> (r: Properties)
        ensures
            r@ == PropertiesView::empty(),
    {
        Properties { content_type: None, correlation_id: None, reply_to: None, kind: None }
    }

    /// A copy of the properties.
    pub fn duplicate(&self) -> (r: Properties)
        ensures
            r@ == self@,
    {
        Properties {
            content_type: clone_opt_text(&self.content_type),
            correlation_id: clone_opt_text(&self.correlation_id),
            reply_to: clone_opt_text(&self.reply_to),
            kind: clone_opt_text(&self.kind),
        }
    }
}

/// A message handed to the broker: where it goes, and what it carries.
#[derive(Debug, Clone, PartialEq, Eq)]
pub struct Publication {
    pub exchange: String,
    pub routing_key: String,
    pub properties: Properties,
    pub payload: Vec<u8>,
}

/// The mathematical value of a [`Publication`].
pub struct PublicationView {
    pub exchange: Seq<char>,
    pub routing_key: Seq<char>,
    pub properties: PropertiesView,
    pub payload: Seq<u8>,
}

impl View for Publication {
    type V = PublicationView;

    open spec fn view(&self) -> PublicationView {
        PublicationView {
            exchange: self.exchange@,
            routing_key: self.routing_key@,
            properties: self.properties@,
            payload: self.payload@,
        }
    }
}

/// A message as a consumer receives it, under the tag by which it is
/// acknowledged.
#[derive(Debug, Clone, PartialEq, Eq)]
pub struct Delivery {
    pub delivery_tag: u64,
    pub properties: Properties,
    pub data: Vec<u8>,
}

/// The mathematical value of a [`Delivery`].
pub struct DeliveryView {
    pub delivery_tag: u64,
    pub properties: PropertiesView,
    pub data: Seq<u8>,
}

impl View for Delivery {
    type V = DeliveryView;

    open spec fn view(&self) -> DeliveryView {
        DeliveryView {
            delivery_tag: self.delivery_tag,
            properties: self.properties@,
            data: self.data@,
        }
    }
}

/// What the consumer of a queue receives for a publication routed to it: the
/// broker hands on the properties and the body as they are, under a tag of
/// its choosing.
pub open spec fn delivered(p: PublicationView, tag: u64) -> DeliveryView {
    DeliveryView { delivery_tag: tag, properties: p.properties, data: p.payload }
}

impl Delivery {
    /// The delivery that a consumer receives for `p` under `tag`.
    pub fn of_publication(p: &Publication, tag: u64) -> (d: Delivery)
        ensures
            d@ == delivered(p@, tag),
    {
        Delivery {
            delivery_tag: tag,
            properties: p.properties.duplicate(),
            data: clone_bytes(&p.payload),
        }
    }
}

/// What a party asks of the broker in answer to a delivery.
#[derive(Debug, Clone, PartialEq, Eq)]
pub enum Action {
    /// Publish a message.
    Publish(Publication),
    /// Acknowledge the delivery with this tag.
    Ack(u64),
}

/// The mathematical value of an [`Action`].
pub enum ActionView {
    Publish(PublicationView),
    Ack(u64),
}

impl View for Action {
    type V = ActionView;

    open spec fn view(&self) -> ActionView {
        match self {
            Action::Publish(p) => ActionView::Publish(p@),
            Action::Ack(tag) => ActionView::Ack(*tag),
        }
    }
}

/// The mathematical value of a list of actions, in order.
pub open spec fn actions_view(actions: Seq<Action>) -> Seq<ActionView> {
    actions.map_values(|a: Action| a@)
}

} // verus!
