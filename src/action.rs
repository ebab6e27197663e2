use vstd::prelude::*;

use crate::properties::{is_json_properties, Properties};

verus! {

/// An outbound message, independent of any channel.
#[derive(Debug, PartialEq)]
pub struct QueueMsg {
    /// The exchange to publish to; `None` stands for the default exchange.
    pub exchange: Option<String>,
    /// The routing key; `None` stands for the empty key.
    pub routing_key: Option<String>,
    pub mandatory: bool,
    pub immediate: bool,
    /// The message's properties; `None` stands for the empty set.
    pub properties: Option<Properties>,
    pub content: Vec<u8>,
}

/// What a job's processing asks of the transport.
#[derive(Debug, PartialEq)]
pub enum Action {
    /// The delivery was consumed: remove it from the queue.
    Ack,
    /// Processing failed transiently: return the delivery to the queue.
    NackRequeue,
    /// Processing failed permanently: discard the delivery.
    NackDump,
    /// Emit an outbound message.
    Publish(QueueMsg),
}

/// The ordered actions that processing one job produces.
pub type Actions = Vec<Action>;

/// An empty response marker.
pub struct Response {}

/// The action that publishes `content` as JSON: the given exchange and
/// routing key, neither mandatory nor immediate, content type
/// `application/json`.
pub open spec fn is_json_publish(
    a: Action,
    exchange: Option<String>,
    routing_key: Option<String>,
    content: Seq<u8>,
) -> bool {
    &&& a matches Action::Publish(m)
    &&& m.exchange == exchange
    &&& m.routing_key == routing_key
    &&& !m.mandatory
    &&& !m.immediate
    &&& m.properties matches Some(p) && is_json_properties(p)
    &&& m.content@ == content
}

/// Builds the action that publishes the already serialised JSON `content`.
pub fn publish_json_action(
    exchange: Option<String>,
    routing_key: Option<String>,
    content: Vec<u8>,
) -> (r: Action)
    ensures
        is_json_publish(r, exchange, routing_key, content@),
{
    Action::Publish(
        QueueMsg {
            exchange,
            routing_key,
            mandatory: false,
            immediate: false,
            properties: Some(Properties::json()),
            content,
        },
    )
}

} // verus!
