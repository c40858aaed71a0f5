//! Errors that end a gateway session, and the close frame each one produces.
use vstd::prelude::*;

use crate::text::{push_signed_decimal, signed_decimal};

verus! {

/// Why a session is being terminated by the server.
#[derive(Debug, Clone, Copy, PartialEq, Eq, Structural)]
pub enum GatewayError {
    /// The inbound frame was not a text frame holding a control envelope.
    DecodeError,
    /// Reserved for protocol version negotiation.
    InvalidApiVersion,
    /// A well-formed envelope carried an operation code the server does not know.
    UnknownOpcode(i64),
}

pub const CLOSE_UNKNOWN_OPCODE: u16 = 4001;
pub const CLOSE_DECODE_ERROR: u16 = 4002;
pub const CLOSE_INVALID_API_VERSION: u16 = 4012;

/// The application close code sent for an error.
pub open spec fn close_code_of(e: GatewayError) -> u16 {
    match e {
        GatewayError::DecodeError => CLOSE_DECODE_ERROR,
        GatewayError::InvalidApiVersion => CLOSE_INVALID_API_VERSION,
        GatewayError::UnknownOpcode(_) => CLOSE_UNKNOWN_OPCODE,
    }
}

/// The human-readable reason sent with an error's close code.
pub open spec fn reason_of(e: GatewayError) -> Seq<char> {
    match e {
        GatewayError::DecodeError => "decode error"@,
        GatewayError::InvalidApiVersion => "invalid api version"@,
        GatewayError::UnknownOpcode(op) => "unknown opcode "@ + signed_decimal(op as int),
    }
}

/// A close frame: numeric code and reason text.
#[derive(Debug, Clone, PartialEq, Eq)]
pub struct CloseFrame {
    pub code: u16,
    pub reason: String,
}

impl CloseFrame {
    pub open spec fn matches(&self, e: GatewayError) -> bool {
        self.code == close_code_of(e) && self.reason@ == reason_of(e)
    }
}

impl GatewayError {
    /// The close code of this error.
    pub fn close_code(&self) -> (r: u16)
        ensures
            r == close_code_of(*self),
    {
        match self {
            GatewayError::DecodeError => CLOSE_DECODE_ERROR,
            GatewayError::InvalidApiVersion => CLOSE_INVALID_API_VERSION,
            GatewayError::UnknownOpcode(_) => CLOSE_UNKNOWN_OPCODE,
        }
    }

    /// The reason text of this error.
    pub fn reason(&self) -> (r: String)
        ensures
            r@ == reason_of(*self),
    {
        match self {
            GatewayError::DecodeError => String::from_str("decode error"),
            GatewayError::InvalidApiVersion => String::from_str("invalid api version"),
            GatewayError::UnknownOpcode(op) => {
                let mut s = String::from_str("unknown opcode ");
                push_signed_decimal(&mut s, *op);
                s
            },
        }
    }

    /// The close frame that terminates a session on this error.
    pub fn close_frame(&self) -> (r: CloseFrame)
        ensures
            r.matches(*self),
    {
        CloseFrame { code: self.close_code(), reason: self.reason() }
    }
}

} // verus!
