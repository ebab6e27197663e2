use vstd::prelude::*;

use crate::action::{Action, Actions, QueueMsg};
use crate::properties::{is_empty_properties, Properties};

verus! {

/// The method data of an incoming delivery.
#[derive(Debug, PartialEq)]
pub struct Delivery {
    pub consumer_tag: String,
    /// The channel-unique identifier that acknowledgments refer to.
    pub delivery_tag: u64,
    pub redelivered: bool,
    pub exchange: String,
    pub routing_key: String,
}

/// One call to make on the channel a delivery came from.
#[derive(Debug, PartialEq)]
pub enum ChannelCall {
    /// Positive acknowledgment.
    Ack { delivery_tag: u64, multiple: bool },
    /// Negative acknowledgment, with or without requeueing.
    Nack { delivery_tag: u64, multiple: bool, requeue: bool },
    /// Publish a message.
    Publish {
        exchange: String,
        routing_key: String,
        mandatory: bool,
        immediate: bool,
        properties: Properties,
        content: Vec<u8>,
    },
}

/// The outcome of handling one delivery: the channel calls to make, in order,
/// and the decode error to report, if decoding failed.
#[derive(Debug, PartialEq)]
pub struct Handled {
    pub calls: Vec<ChannelCall>,
    pub decode_error: Option<String>,
}

/// The positive, single-delivery acknowledgment of `tag`.
pub open spec fn ack_of(tag: u64) -> ChannelCall {
    ChannelCall::Ack { delivery_tag: tag, multiple: false }
}

/// The negative, single-delivery acknowledgment of `tag`.
pub open spec fn nack_of(tag: u64, requeue: bool) -> ChannelCall {
    ChannelCall::Nack { delivery_tag: tag, multiple: false, requeue }
}

/// The text of an optional name, the empty text when it is absent.
pub open spec fn text_or_empty(o: Option<String>) -> Seq<char> {
    match o {
        Some(s) => s@,
        None => Seq::empty(),
    }
}

/// True when `c` publishes `m`, with its absent fields resolved to their
/// defaults: the default exchange, the empty routing key, no properties.
pub open spec fn publishes(m: QueueMsg, c: ChannelCall) -> bool {
    &&& c matches ChannelCall::Publish {
        exchange,
        routing_key,
        mandatory,
        immediate,
        properties,
        content,
    }
    &&& exchange@ == text_or_empty(m.exchange)
    &&& routing_key@ == text_or_empty(m.routing_key)
    &&& mandatory == m.mandatory
    &&& immediate == m.immediate
    &&& match m.properties {
        Some(p) => properties == p,
        None => is_empty_properties(properties),
    }
    &&& content@ == m.content@
}

/// True when `c` is the channel call that carries out `a` for delivery `tag`.
pub open spec fn is_call_for(tag: u64, a: Action, c: ChannelCall) -> bool {
    match a {
        Action::Ack => c == ack_of(tag),
        Action::NackRequeue => c == nack_of(tag, true),
        Action::NackDump => c == nack_of(tag, false),
        Action::Publish(m) => publishes(m, c),
    }
}

/// True when `cs` carries out `acts` for delivery `tag`, one call per action,
/// in the same order.
pub open spec fn are_calls_for(tag: u64, acts: Seq<Action>, cs: Seq<ChannelCall>) -> bool {
    &&& cs.len() == acts.len()
    &&& forall|i: int| 0 <= i < acts.len() ==> #[trigger] is_call_for(tag, acts[i], cs[i])
}

/// The channel call that carries out `action` for delivery `tag`.
pub fn call_for_action(tag: u64, action: Action) -> (c: ChannelCall)
    ensures
        is_call_for(tag, action, c),
{
    match action {
        Action::Ack => ChannelCall::Ack { delivery_tag: tag, multiple: false },
        Action::NackRequeue => ChannelCall::Nack { delivery_tag: tag, multiple: false, requeue: true },
        Action::NackDump => ChannelCall::Nack { delivery_tag: tag, multiple: false, requeue: false },
        Action::Publish(m) => {
            let QueueMsg { exchange, routing_key, mandatory, immediate, properties, content } = m;
            let exchange = match exchange {
                Some(e) => e,
                None => String::new(),
            };
            let routing_key = match routing_key {
                Some(k) => k,
                None => String::new(),
            };
            let properties = match properties {
                Some(p) => p,
                None => Properties::empty(),
            };
            ChannelCall::Publish { exchange, routing_key, mandatory, immediate, properties, content }
        },
    }
}

/// The channel calls that carry out `actions` for delivery `tag`, in order.
pub fn calls_for_actions(tag: u64, actions: Actions) -> (r: Vec<ChannelCall>)
    ensures
        are_calls_for(tag, actions@, r@),
{
    let ghost acts = actions@;
    let mut calls: Vec<ChannelCall> = Vec::new();
    for a in it: actions.into_iter()
        invariant
            it.seq() == acts,
            are_calls_for(tag, acts.take(it.index() as int), calls@),
    {
        let c = call_for_action(tag, a);
        calls.push(c);
    }
    proof {
        assert(acts.take(acts.len() as int) == acts);
    }
    calls
}

/// True when `h` is the handling of delivery `tag` given the outcome of
/// decoding and processing it: a failed decode is reported and acknowledged,
/// a processed job has its actions carried out in order.
pub open spec fn is_handling(tag: u64, outcome: Result<Seq<Action>, String>, h: Handled) -> bool {
    match outcome {
        Err(e) => h.decode_error == Some(e) && h.calls@ == seq![ack_of(tag)],
        Ok(acts) => h.decode_error is None && are_calls_for(tag, acts, h.calls@),
    }
}

/// The outcome of decoding and processing, with the actions as a sequence.
pub open spec fn outcome_view(outcome: Result<Actions, String>) -> Result<Seq<Action>, String> {
    match outcome {
        Ok(acts) => Ok(acts@),
        Err(e) => Err(e),
    }
}

/// The handling of delivery `tag` once decoding and processing are done:
/// `Err` holds the decode error, `Ok` the actions that processing returned.
pub fn handle_outcome(tag: u64, outcome: Result<Actions, String>) -> (r: Handled)
    ensures
        is_handling(tag, outcome_view(outcome), r),
{
    match outcome {
        Err(e) => {
            let mut calls: Vec<ChannelCall> = Vec::new();
            calls.push(ChannelCall::Ack { delivery_tag: tag, multiple: false });
            assert(calls@ == seq![ack_of(tag)]);
            Handled { calls, decode_error: Some(e) }
        },
        Ok(actions) => Handled { calls: calls_for_actions(tag, actions), decode_error: None },
    }
}

/// A job capability: decodes deliveries into jobs and processes jobs into
/// actions.
pub trait SimpleWorker: Send + 'static {
    type J: Send;

    /// Processes `job`, returning the actions to carry out, in order.
    fn consumer(&mut self, job: &Self::J) -> Actions;

    /// Decodes a delivery into a job, or describes why it cannot be decoded.
    fn msg_to_job(
        &mut self,
        method: &Delivery,
        headers: &Properties,
        body: &Vec<u8>,
    ) -> Result<Self::J, String>;
}

/// The dispatcher: drives a job capability over incoming deliveries.
pub struct Worker<T: SimpleWorker> {
    internal: T,
}

impl<T: SimpleWorker> Worker<T> {
    /// The job capability this dispatcher drives.
    pub closed spec fn capability(self) -> T {
        self.internal
    }

    /// Handles one delivery: decodes it, processes the job, and returns the
    /// channel calls that carry out the resulting actions. A delivery that
    /// cannot be decoded is acknowledged, and its decode error is returned for
    /// reporting; it is never processed.
    pub fn handle_delivery(&mut self, method: &Delivery, headers: &Properties, body: &Vec<u8>) -> (r:
        Handled)
        ensures
            exists|outcome: Result<Seq<Action>, String>|
                is_handling(method.delivery_tag, outcome, r),
    {
        let outcome = match self.internal.msg_to_job(method, headers, body) {
            Err(e) => Err(e),
            Ok(job) => Ok(self.internal.consumer(&job)),
        };
        let ghost o = outcome_view(outcome);
        let r = handle_outcome(method.delivery_tag, outcome);
        assert(is_handling(method.delivery_tag, o, r));
        r
    }
}

/// Makes a dispatcher that drives `worker`.
pub fn new<T: SimpleWorker>(worker: T) -> (r: Worker<T>)
    ensures
        r.capability() == worker,
{
    Worker { internal: worker }
}

/// A delivery that cannot be decoded is acknowledged exactly once, under its
/// own identifier, and nothing is published for it.
pub proof fn decode_failure_acknowledged_once(tag: u64, e: String, h: Handled)
    requires
        is_handling(tag, Err(e), h),
    ensures
        h.calls@.len() == 1,
        h.calls@[0] == ack_of(tag),
        forall|i: int| 0 <= i < h.calls@.len() ==> !(#[trigger] h.calls@[i] is Publish),
{
}

/// A job processed into a lone acknowledgment leads to exactly one positive,
/// single-delivery acknowledgment of its delivery, and nothing else.
pub proof fn lone_ack_acknowledges(tag: u64, h: Handled)
    requires
        is_handling(tag, Ok(seq![Action::Ack]), h),
    ensures
        h.calls@ == seq![ack_of(tag)],
{
    assert(is_call_for(tag, seq![Action::Ack][0], h.calls@[0]));
    assert(h.calls@ =~= seq![ack_of(tag)]);
}

/// A job processed into a lone requeue request leads to exactly one negative
/// acknowledgment of its delivery, with requeueing.
pub proof fn lone_requeue_requeues(tag: u64, h: Handled)
    requires
        is_handling(tag, Ok(seq![Action::NackRequeue]), h),
    ensures
        h.calls@ == seq![nack_of(tag, true)],
{
    assert(is_call_for(tag, seq![Action::NackRequeue][0], h.calls@[0]));
    assert(h.calls@ =~= seq![nack_of(tag, true)]);
}

/// A job processed into a lone drop request leads to exactly one negative
/// acknowledgment of its delivery, without requeueing.
pub proof fn lone_drop_drops(tag: u64, h: Handled)
    requires
        is_handling(tag, Ok(seq![Action::NackDump]), h),
    ensures
        h.calls@ == seq![nack_of(tag, false)],
{
    assert(is_call_for(tag, seq![Action::NackDump][0], h.calls@[0]));
    assert(h.calls@ =~= seq![nack_of(tag, false)]);
}

/// Two publishes followed by an acknowledgment lead to exactly three channel
/// calls, in that order: the first publish, the second, the acknowledgment.
pub proof fn publishes_then_ack_in_order(tag: u64, m1: QueueMsg, m2: QueueMsg, h: Handled)
    requires
        is_handling(tag, Ok(seq![Action::Publish(m1), Action::Publish(m2), Action::Ack]), h),
    ensures
        h.calls@.len() == 3,
        publishes(m1, h.calls@[0]),
        publishes(m2, h.calls@[1]),
        h.calls@[2] == ack_of(tag),
{
    let acts = seq![Action::Publish(m1), Action::Publish(m2), Action::Ack];
    assert(is_call_for(tag, acts[0], h.calls@[0]));
    assert(is_call_for(tag, acts[1], h.calls@[1]));
    assert(is_call_for(tag, acts[2], h.calls@[2]));
}

/// Decode failures on two deliveries are handled independently: each is
/// acknowledged exactly once, under its own identifier.
pub proof fn decode_failures_independent(
    tag1: u64,
    tag2: u64,
    e1: String,
    e2: String,
    h1: Handled,
    h2: Handled,
)
    requires
        is_handling(tag1, Err(e1), h1),
        is_handling(tag2, Err(e2), h2),
    ensures
        h1.calls@ == seq![ack_of(tag1)],
        h2.calls@ == seq![ack_of(tag2)],
{
}

} // verus!
