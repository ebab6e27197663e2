use vstd::prelude::*;

use crate::action::{is_json_publish, publish_json_action, Action};

verus! {

/// A payload that has no JSON representation.
#[derive(Debug, Clone, Copy, PartialEq, Eq)]
pub struct SerializeError {}

/// The error of serde_json's serialiser, carried through unread.
#[verifier::external_type_specification]
#[verifier::external_body]
pub struct ExJsonError(serde_json::Error);

/// Relies on serde_json::to_vec: the JSON text of `msg` as bytes, or the
/// serialiser's error.
#[verifier::external_body]
fn json_bytes<T: ?Sized + serde::Serialize>(msg: &T) -> (r: Result<Vec<u8>, serde_json::Error>) {
    serde_json::to_vec(msg)
}

/// Builds the action that publishes the JSON encoding of `msg` to the given
/// exchange and routing key, with content type `application/json`, neither
/// mandatory nor immediate. Fails when `msg` has no JSON representation.
pub fn publish_serde_action<T: ?Sized + serde::Serialize>(
    exchange: Option<String>,
    routing_key: Option<String>,
    msg: &T,
) -> (r: Result<Action, SerializeError>)
    ensures
        r matches Ok(a) ==> exists|c: Seq<u8>| is_json_publish(a, exchange, routing_key, c),
{
    match json_bytes(msg) {
        Ok(content) => Ok(publish_json_action(exchange, routing_key, content)),
        Err(_) => Err(SerializeError {}),
    }
}

} // verus!
