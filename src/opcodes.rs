//! The control envelope and the dispatcher that interprets its operation code.
use vstd::prelude::*;

use crate::error::GatewayError;
use crate::text::{decimal, push_decimal};

verus! {

pub const OP_HEARTBEAT: i64 = 1;
pub const OP_IDENTIFY: i64 = 2;
pub const OP_RESUME: i64 = 6;
pub const OP_HELLO: i64 = 10;
pub const OP_HEARTBEAT_ACK: i64 = 11;

/// Milliseconds between heartbeats that the server asks clients for.
pub const HEARTBEAT_INTERVAL_MS: u32 = 30000;

/// One decoded control envelope `{"op": <integer>, "d": <arbitrary>}`.
pub struct Payload {
    pub op: i64,
    pub d: serde_json::Value,
}

/// The closed set of operations a client may send.
#[derive(Debug, Clone, Copy, PartialEq, Eq, Structural)]
pub enum Opcode {
    Heartbeat,
    Identify,
    Resume,
    Unknown(i64),
}

pub open spec fn opcode_of(op: i64) -> Opcode {
    if op == OP_HEARTBEAT {
        Opcode::Heartbeat
    } else if op == OP_IDENTIFY {
        Opcode::Identify
    } else if op == OP_RESUME {
        Opcode::Resume
    } else {
        Opcode::Unknown(op)
    }
}

impl Opcode {
    pub fn decode(op: i64) -> (r: Opcode)
        ensures
            r == opcode_of(op),
    {
        if op == OP_HEARTBEAT {
            Opcode::Heartbeat
        } else if op == OP_IDENTIFY {
            Opcode::Identify
        } else if op == OP_RESUME {
            Opcode::Resume
        } else {
            Opcode::Unknown(op)
        }
    }
}

/// Text of the Hello frame: `{"op":10,"d":{"heartbeat_interval":<ms>}}`.
pub open spec fn hello_text(interval: nat) -> Seq<char> {
    "{\"op\":10,\"d\":{\"heartbeat_interval\":"@ + decimal(interval) + "}}"@
}

/// Text of the Heartbeat-Ack frame.
pub open spec fn ack_text() -> Seq<char> {
    "{\"op\":11}"@
}

pub fn hello_frame(interval: u32) -> (r: String)
    ensures
        r@ == hello_text(interval as nat),
{
    let mut s = String::from_str("{\"op\":10,\"d\":{\"heartbeat_interval\":");
    push_decimal(&mut s, interval as u64);
    s.append("}}");
    s
}

pub fn heartbeat_ack_frame() -> (r: String)
    ensures
        r@ == ack_text(),
{
    String::from_str("{\"op\":11}")
}

/// What the dispatcher does with one operation code: the text frame to send
/// back, if any, or the error that ends the session.
pub open spec fn dispatch_spec(op: i64) -> Result<Option<Seq<char>>, GatewayError> {
    match opcode_of(op) {
        Opcode::Heartbeat => Ok(Some(ack_text())),
        Opcode::Identify => Ok(None),
        Opcode::Resume => Ok(None),
        Opcode::Unknown(c) => Err(GatewayError::UnknownOpcode(c)),
    }
}

pub open spec fn reply_view(r: Result<Option<String>, GatewayError>) -> Result<Option<Seq<char>>, GatewayError> {
    match r {
        Ok(Some(t)) => Ok(Some(t@)),
        Ok(None) => Ok(None),
        Err(e) => Err(e),
    }
}

/// Heartbeat: acknowledge at once.
pub fn heartbeat(_data: &serde_json::Value) -> (r: Result<Option<String>, GatewayError>)
    ensures
        reply_view(r) == Ok::<Option<Seq<char>>, GatewayError>(Some(ack_text())),
{
    Ok(Some(heartbeat_ack_frame()))
}

/// Identify: the identification data is accepted as is; attaching an
/// identity to the session belongs to a surrounding authorization layer.
pub fn identify(_data: &serde_json::Value) -> (r: Result<Option<String>, GatewayError>)
    ensures
        reply_view(r) == Ok::<Option<Seq<char>>, GatewayError>(None),
{
    Ok(None)
}

/// Resume: accepted; no missed events are replayed.
pub fn resume(_data: &serde_json::Value) -> (r: Result<Option<String>, GatewayError>)
    ensures
        reply_view(r) == Ok::<Option<Seq<char>>, GatewayError>(None),
{
    Ok(None)
}

/// Interprets one envelope. Every error it returns is fatal to the session.
pub fn dispatch(payload: &Payload) -> (r: Result<Option<String>, GatewayError>)
    ensures
        reply_view(r) == dispatch_spec(payload.op),
{
    match Opcode::decode(payload.op) {
        Opcode::Heartbeat => heartbeat(&payload.d),
        Opcode::Identify => identify(&payload.d),
        Opcode::Resume => resume(&payload.d),
        Opcode::Unknown(c) => Err(GatewayError::UnknownOpcode(c)),
    }
}

} // verus!
