//! The boundary with the transport: the typed request that each operation
//! sends to the registry, and the response that the reply maps to.
//!
//! A response is `Ok(body)` for a plain success with that body, or `Err(status)`
//! for a bare status code.

use crate::bucket::{BucketErrors, Return, ReturnView, Value};
use crate::supervisor::{BidonActorMessages, MsgParams};
use vstd::prelude::*;

verus! {

pub const CREATED: u16 = 201;

pub const NOT_FOUND: u16 = 404;

pub const CONFLICT: u16 = 409;

pub const INTERNAL_SERVER_ERROR: u16 = 500;

/// The request that creates the namespace `ns`.
pub fn createns_request(ns: String, ch: tokio::sync::oneshot::Sender<Return>) -> (msg:
    BidonActorMessages)
    ensures
        msg == BidonActorMessages::CreateNS(MsgParams { ns, key: None, value: None, ch }),
{
    BidonActorMessages::CreateNS(MsgParams { ns, key: None, value: None, ch })
}

/// The request that saves the namespace `ns`.
pub fn savens_request(ns: String, ch: tokio::sync::oneshot::Sender<Return>) -> (msg:
    BidonActorMessages)
    ensures
        msg == BidonActorMessages::SaveNS(MsgParams { ns, key: None, value: None, ch }),
{
    BidonActorMessages::SaveNS(MsgParams { ns, key: None, value: None, ch })
}

/// The request that loads the namespace `ns`.
pub fn loadns_request(ns: String, ch: tokio::sync::oneshot::Sender<Return>) -> (msg:
    BidonActorMessages)
    ensures
        msg == BidonActorMessages::LoadNS(MsgParams { ns, key: None, value: None, ch }),
{
    BidonActorMessages::LoadNS(MsgParams { ns, key: None, value: None, ch })
}

/// The request that reads `key` in the namespace `ns`.
pub fn get_request(ns: String, key: String, ch: tokio::sync::oneshot::Sender<Return>) -> (msg:
    BidonActorMessages)
    ensures
        msg == BidonActorMessages::Get(MsgParams { ns, key: Some(key), value: None, ch }),
{
    BidonActorMessages::Get(MsgParams { ns, key: Some(key), value: None, ch })
}

/// The request that writes `body` under `key` in the namespace `ns`.
pub fn put_request(
    ns: String,
    key: String,
    body: Value,
    ch: tokio::sync::oneshot::Sender<Return>,
) -> (msg: BidonActorMessages)
    ensures
        msg == BidonActorMessages::Put(MsgParams { ns, key: Some(key), value: Some(body), ch }),
{
    BidonActorMessages::Put(MsgParams { ns, key: Some(key), value: Some(body), ch })
}

/// The request that removes `key` from the namespace `ns`.
pub fn delete_request(ns: String, key: String, ch: tokio::sync::oneshot::Sender<Return>) -> (msg:
    BidonActorMessages)
    ensures
        msg == BidonActorMessages::Delete(MsgParams { ns, key: Some(key), value: None, ch }),
{
    BidonActorMessages::Delete(MsgParams { ns, key: Some(key), value: None, ch })
}

/// A response with its body as a sequence of bytes.
pub open spec fn response_view(response: Result<Value, u16>) -> Result<Seq<u8>, u16> {
    match response {
        Ok(body) => Ok(body@),
        Err(status) => Err(status),
    }
}

/// The view of an optional reply.
pub open spec fn outcome_view(reply: Option<Return>) -> Option<ReturnView> {
    match reply {
        Some(r) => Some(r@),
        None => None,
    }
}

/// The status that answers a request to create a namespace. `None` stands for
/// a reply that never came.
pub open spec fn createns_status(reply: Option<ReturnView>) -> u16 {
    match reply {
        Some(r) => match r.err {
            BucketErrors::NoError => CREATED,
            BucketErrors::Conflict => CONFLICT,
            _ => INTERNAL_SERVER_ERROR,
        },
        None => INTERNAL_SERVER_ERROR,
    }
}

/// The status that answers a request to save or load a namespace: both are
/// reserved, and no reply counts as a success.
pub open spec fn reserved_status(reply: Option<ReturnView>) -> u16 {
    match reply {
        Some(r) => match r.err {
            BucketErrors::NotFound => NOT_FOUND,
            _ => INTERNAL_SERVER_ERROR,
        },
        None => INTERNAL_SERVER_ERROR,
    }
}

/// The response to a read: the value found is the body.
pub open spec fn get_outcome(reply: Option<ReturnView>) -> Result<Seq<u8>, u16> {
    match reply {
        Some(r) => match r.err {
            BucketErrors::NoError => match r.val {
                Some(v) => Ok(v),
                None => Err(INTERNAL_SERVER_ERROR),
            },
            BucketErrors::NotFound => Err(NOT_FOUND),
            _ => Err(INTERNAL_SERVER_ERROR),
        },
        None => Err(INTERNAL_SERVER_ERROR),
    }
}

/// The response to a write or a removal: the value that the key held before
/// is the body, which is empty where it held none.
pub open spec fn previous_outcome(reply: Option<ReturnView>) -> Result<Seq<u8>, u16> {
    match reply {
        Some(r) => match r.err {
            BucketErrors::NoError => match r.val {
                Some(v) => Ok(v),
                None => Ok(Seq::<u8>::empty()),
            },
            BucketErrors::NotFound => Err(NOT_FOUND),
            _ => Err(INTERNAL_SERVER_ERROR),
        },
        None => Err(INTERNAL_SERVER_ERROR),
    }
}

/// Maps the reply to a request to create a namespace.
pub fn createns_response(reply: Option<Return>) -> (response: Result<Value, u16>)
    ensures
        response == Err::<Value, u16>(createns_status(outcome_view(reply))),
{
    match reply {
        Some(r) => match r.err {
            BucketErrors::NoError => Err(CREATED),
            BucketErrors::Conflict => Err(CONFLICT),
            _ => Err(INTERNAL_SERVER_ERROR),
        },
        None => Err(INTERNAL_SERVER_ERROR),
    }
}

/// Maps the reply to a request to save a namespace.
pub fn savens_response(reply: Option<Return>) -> (response: Result<Value, u16>)
    ensures
        response == Err::<Value, u16>(reserved_status(outcome_view(reply))),
{
    reserved_response(reply)
}

/// Maps the reply to a request to load a namespace.
pub fn loadns_response(reply: Option<Return>) -> (response: Result<Value, u16>)
    ensures
        response == Err::<Value, u16>(reserved_status(outcome_view(reply))),
{
    reserved_response(reply)
}

fn reserved_response(reply: Option<Return>) -> (response: Result<Value, u16>)
    ensures
        response == Err::<Value, u16>(reserved_status(outcome_view(reply))),
{
    match reply {
        Some(r) => match r.err {
            BucketErrors::NotFound => Err(NOT_FOUND),
            _ => Err(INTERNAL_SERVER_ERROR),
        },
        None => Err(INTERNAL_SERVER_ERROR),
    }
}

/// Maps the reply to a read.
pub fn get_response(reply: Option<Return>) -> (response: Result<Value, u16>)
    ensures
        response_view(response) == get_outcome(outcome_view(reply)),
{
    match reply {
        Some(r) => match r.err {
            BucketErrors::NoError => match r.val {
                Some(v) => Ok(v),
                None => Err(INTERNAL_SERVER_ERROR),
            },
            BucketErrors::NotFound => Err(NOT_FOUND),
            _ => Err(INTERNAL_SERVER_ERROR),
        },
        None => Err(INTERNAL_SERVER_ERROR),
    }
}

/// Maps the reply to a write.
pub fn put_response(reply: Option<Return>) -> (response: Result<Value, u16>)
    ensures
        response_view(response) == previous_outcome(outcome_view(reply)),
{
    previous_response(reply)
}

/// Maps the reply to a removal.
pub fn delete_response(reply: Option<Return>) -> (response: Result<Value, u16>)
    ensures
        response_view(response) == previous_outcome(outcome_view(reply)),
{
    previous_response(reply)
}

fn previous_response(reply: Option<Return>) -> (response: Result<Value, u16>)
    ensures
        response_view(response) == previous_outcome(outcome_view(reply)),
{
    match reply {
        Some(r) => match r.err {
            BucketErrors::NoError => match r.val {
                Some(v) => Ok(v),
                None => Ok(Vec::new()),
            },
            BucketErrors::NotFound => Err(NOT_FOUND),
            _ => Err(INTERNAL_SERVER_ERROR),
        },
        None => Err(INTERNAL_SERVER_ERROR),
    }
}

} // verus!
