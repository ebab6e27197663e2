use std::collections::HashMap;

use ofborg_worker::action::{Action, Actions, QueueMsg};
use ofborg_worker::dispatch::{
    call_for_action, calls_for_actions, handle_outcome, new, ChannelCall, Delivery, SimpleWorker,
};
use ofborg_worker::properties::Properties;

/// Decodes the body `ok` into a job and fails on any other; every job is
/// processed into the actions that `script` builds.
struct Scripted {
    script: fn() -> Actions,
}

impl SimpleWorker for Scripted {
    type J = Vec<u8>;

    fn consumer(&mut self, _job: &Vec<u8>) -> Actions {
        (self.script)()
    }

    fn msg_to_job(
        &mut self,
        _method: &Delivery,
        _headers: &Properties,
        body: &Vec<u8>,
    ) -> Result<Vec<u8>, String> {
        if body.as_slice() == b"ok" {
            Ok(body.clone())
        } else {
            Err("bad payload".to_owned())
        }
    }
}

fn delivery(tag: u64) -> Delivery {
    Delivery {
        consumer_tag: "ctag".to_owned(),
        delivery_tag: tag,
        redelivered: false,
        exchange: "ex".to_owned(),
        routing_key: "rk".to_owned(),
    }
}

fn msg(exchange: &str, key: &str, content: &[u8]) -> QueueMsg {
    QueueMsg {
        exchange: Some(exchange.to_owned()),
        routing_key: Some(key.to_owned()),
        mandatory: true,
        immediate: false,
        properties: Some(Properties::json()),
        content: content.to_vec(),
    }
}

fn publish_call(exchange: &str, key: &str, content: &[u8]) -> ChannelCall {
    ChannelCall::Publish {
        exchange: exchange.to_owned(),
        routing_key: key.to_owned(),
        mandatory: true,
        immediate: false,
        properties: Properties::json(),
        content: content.to_vec(),
    }
}

fn only_ack() -> Actions {
    vec![Action::Ack]
}

fn only_requeue() -> Actions {
    vec![Action::NackRequeue]
}

fn only_drop() -> Actions {
    vec![Action::NackDump]
}

fn two_publishes_then_ack() -> Actions {
    vec![
        Action::Publish(msg("e1", "k1", b"one")),
        Action::Publish(msg("e2", "k2", b"two")),
        Action::Ack,
    ]
}

fn nothing() -> Actions {
    Vec::new()
}

#[test]
fn decode_failure_is_acked_once() {
    let mut w = new(Scripted { script: two_publishes_then_ack });
    let h = w.handle_delivery(&delivery(42), &Properties::empty(), &b"garbage".to_vec());
    assert_eq!(h.calls, vec![ChannelCall::Ack { delivery_tag: 42, multiple: false }]);
    assert_eq!(h.decode_error, Some("bad payload".to_owned()));
}

#[test]
fn lone_ack_is_one_positive_ack() {
    let mut w = new(Scripted { script: only_ack });
    let h = w.handle_delivery(&delivery(5), &Properties::empty(), &b"ok".to_vec());
    assert_eq!(h.calls, vec![ChannelCall::Ack { delivery_tag: 5, multiple: false }]);
    assert_eq!(h.decode_error, None);
}

#[test]
fn lone_requeue_is_one_requeueing_nack() {
    let mut w = new(Scripted { script: only_requeue });
    let h = w.handle_delivery(&delivery(6), &Properties::empty(), &b"ok".to_vec());
    assert_eq!(
        h.calls,
        vec![ChannelCall::Nack { delivery_tag: 6, multiple: false, requeue: true }]
    );
}

#[test]
fn lone_drop_is_one_dropping_nack() {
    let mut w = new(Scripted { script: only_drop });
    let h = w.handle_delivery(&delivery(7), &Properties::empty(), &b"ok".to_vec());
    assert_eq!(
        h.calls,
        vec![ChannelCall::Nack { delivery_tag: 7, multiple: false, requeue: false }]
    );
}

#[test]
fn publishes_then_ack_keep_their_order() {
    let mut w = new(Scripted { script: two_publishes_then_ack });
    let h = w.handle_delivery(&delivery(9), &Properties::empty(), &b"ok".to_vec());
    assert_eq!(
        h.calls,
        vec![
            publish_call("e1", "k1", b"one"),
            publish_call("e2", "k2", b"two"),
            ChannelCall::Ack { delivery_tag: 9, multiple: false },
        ]
    );
}

#[test]
fn empty_action_list_makes_no_calls() {
    let mut w = new(Scripted { script: nothing });
    let h = w.handle_delivery(&delivery(3), &Properties::empty(), &b"ok".to_vec());
    assert!(h.calls.is_empty());
    assert_eq!(h.decode_error, None);
}

#[test]
fn repeated_decode_failures_are_independent() {
    let mut w = new(Scripted { script: only_ack });
    let body = b"garbage".to_vec();
    let h1 = w.handle_delivery(&delivery(10), &Properties::empty(), &body);
    let h2 = w.handle_delivery(&delivery(11), &Properties::empty(), &body);
    let h3 = w.handle_delivery(&delivery(10), &Properties::empty(), &body);
    assert_eq!(h1.calls, vec![ChannelCall::Ack { delivery_tag: 10, multiple: false }]);
    assert_eq!(h2.calls, vec![ChannelCall::Ack { delivery_tag: 11, multiple: false }]);
    assert_eq!(h3.calls, vec![ChannelCall::Ack { delivery_tag: 10, multiple: false }]);
}

#[test]
fn publish_defaults_resolve_to_empty() {
    let m = QueueMsg {
        exchange: None,
        routing_key: None,
        mandatory: false,
        immediate: true,
        properties: None,
        content: b"[]".to_vec(),
    };
    let c = call_for_action(1, Action::Publish(m));
    assert_eq!(
        c,
        ChannelCall::Publish {
            exchange: String::new(),
            routing_key: String::new(),
            mandatory: false,
            immediate: true,
            properties: Properties::empty(),
            content: b"[]".to_vec(),
        }
    );
}

#[test]
fn publish_keeps_given_properties() {
    let mut headers = HashMap::new();
    headers.insert("attempt".to_owned(), amqp::TableEntry::LongUint(3));
    let mut props = Properties::empty();
    props.headers = Some(headers);
    props.priority = Some(4);
    let m = QueueMsg {
        exchange: Some("x".to_owned()),
        routing_key: None,
        mandatory: false,
        immediate: false,
        properties: Some(props.clone()),
        content: vec![1, 2, 3],
    };
    match call_for_action(2, Action::Publish(m)) {
        ChannelCall::Publish { exchange, routing_key, properties, content, .. } => {
            assert_eq!(exchange, "x");
            assert_eq!(routing_key, "");
            assert_eq!(properties, props);
            assert_eq!(content, vec![1, 2, 3]);
        }
        other => panic!("expected a publish, got {:?}", other),
    }
}

#[test]
fn each_action_maps_to_its_call() {
    let calls = calls_for_actions(
        77,
        vec![Action::NackDump, Action::Ack, Action::NackRequeue, Action::Ack],
    );
    assert_eq!(
        calls,
        vec![
            ChannelCall::Nack { delivery_tag: 77, multiple: false, requeue: false },
            ChannelCall::Ack { delivery_tag: 77, multiple: false },
            ChannelCall::Nack { delivery_tag: 77, multiple: false, requeue: true },
            ChannelCall::Ack { delivery_tag: 77, multiple: false },
        ]
    );
}

#[test]
fn outcome_error_is_reported_and_acked() {
    let h = handle_outcome(u64::MAX, Err("missing field".to_owned()));
    assert_eq!(h.calls, vec![ChannelCall::Ack { delivery_tag: u64::MAX, multiple: false }]);
    assert_eq!(h.decode_error, Some("missing field".to_owned()));
}
