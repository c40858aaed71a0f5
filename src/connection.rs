//! One client session: opened into the registry with a Hello frame, fed
//! inbound frames one at a time, and closed out of the registry exactly once.
use vstd::prelude::*;

use crate::error::{CloseFrame, GatewayError};
use crate::opcodes::{
    ack_text, dispatch, dispatch_spec, hello_frame, hello_text, opcode_of, Opcode, Payload, HEARTBEAT_INTERVAL_MS,
    OP_HEARTBEAT, OP_IDENTIFY, OP_RESUME,
};
use crate::registry::{ConnectionInfo, SessionRegistry};
use crate::shard::{parse_shard, shard_of, ShardInfo};

verus! {

/// An inbound frame, as the transport delivered it.
pub enum Frame {
    /// A text frame that decoded as a control envelope.
    Envelope(Payload),
    /// A text frame that is not a control envelope.
    Malformed,
    /// A binary frame.
    Binary,
    /// The peer closed the session.
    Close,
    /// Any other frame kind (ping, pong).
    Other,
    /// The transport ended or failed before a frame arrived.
    Ended,
}

/// Where a session stands. A session still being upgraded has no
/// `Connection` yet; it gets one, already open, when the upgrade succeeds.
#[derive(Debug, Clone, Copy, PartialEq, Eq, Structural)]
pub enum ConnState {
    Open,
    Closing,
    Closed,
}

/// A frame the server sends.
pub enum Outbound {
    Text(String),
    Close(CloseFrame),
}

/// The text an outbound frame carries, if it is a text frame.
pub open spec fn sent_text(r: Option<Outbound>) -> Option<Seq<char>> {
    match r {
        Some(Outbound::Text(t)) => Some(t@),
        _ => None,
    }
}

/// `r` is a close frame for `e`.
pub open spec fn sends_close(r: Option<Outbound>, e: GatewayError) -> bool {
    match r {
        Some(Outbound::Close(f)) => f.matches(e),
        _ => false,
    }
}

/// Relies on uuid's `Uuid::new_v4`, shown in its hyphenated form of 36 characters.
#[verifier::external_body]
fn new_session_id() -> (r: String)
    ensures
        r@.len() == 36,
{
    uuid::Uuid::new_v4().to_string()
}

pub open spec fn shard_param(q: Option<&str>) -> Option<ShardInfo> {
    match q {
        Some(s) => shard_of(s@),
        None => None,
    }
}

/// What handling `frame` does: `before` and `after` are the session around
/// the call, `r` the frame sent in answer.
pub open spec fn frame_step(before: Connection, frame: Frame, after: Connection, r: Option<Outbound>) -> bool {
    &&& after.spec_endpoint() == before.spec_endpoint()
    &&& after.spec_info() == before.spec_info()
    &&& before.spec_state() != ConnState::Open ==> r is None && after.spec_state() == before.spec_state()
    &&& before.spec_state() == ConnState::Open ==> match frame {
        Frame::Envelope(p) => match dispatch_spec(p.op) {
            Ok(reply) => after.spec_state() == ConnState::Open && sent_text(r) == reply,
            Err(e) => after.spec_state() == ConnState::Closing && sends_close(r, e),
        },
        Frame::Malformed | Frame::Binary => {
            &&& after.spec_state() == ConnState::Closing
            &&& sends_close(r, GatewayError::DecodeError)
        },
        Frame::Close | Frame::Ended => after.spec_state() == ConnState::Closing && r is None,
        Frame::Other => after.spec_state() == ConnState::Open && r is None,
    }
}

pub struct Connection {
    endpoint: u64,
    info: ConnectionInfo,
    state: ConnState,
}

impl Connection {
    pub closed spec fn spec_endpoint(&self) -> u64 {
        self.endpoint
    }

    pub closed spec fn spec_info(&self) -> ConnectionInfo {
        self.info
    }

    pub closed spec fn spec_state(&self) -> ConnState {
        self.state
    }

    /// Opens the session of a freshly upgraded connection at `endpoint`:
    /// allocates a session id, reads the optional shard descriptor (ignoring
    /// a malformed one), registers the connection, and returns the Hello
    /// frame to send.
    pub fn open(registry: &mut SessionRegistry, endpoint: u64, shard: Option<&str>) -> (r: (Connection, String))
        ensures
            r.0.spec_state() == ConnState::Open,
            r.0.spec_endpoint() == endpoint,
            r.0.spec_info().shard == shard_param(shard),
            r.0.spec_info().session_id@.len() == 36,
            final(registry)@ == old(registry)@.insert(endpoint, r.0.spec_info()),
            r.1@ == hello_text(HEARTBEAT_INTERVAL_MS as nat),
    {
        let session_id = new_session_id();
        let parsed = match shard {
            Some(s) => parse_shard(s),
            None => None,
        };
        let info = ConnectionInfo { session_id: session_id.clone(), shard: parsed };
        registry.insert(endpoint, ConnectionInfo { session_id, shard: parsed });
        let conn = Connection { endpoint, info, state: ConnState::Open };
        (conn, hello_frame(HEARTBEAT_INTERVAL_MS))
    }

    /// Handles one inbound frame of an open session and returns the frame to
    /// send in answer, if any. A session that is no longer open ignores
    /// frames and sends nothing.
    pub fn on_frame(&mut self, frame: Frame) -> (r: Option<Outbound>)
        ensures
            frame_step(*old(self), frame, *final(self), r),
    {
        if self.state != ConnState::Open {
            return None;
        }
        match frame {
            Frame::Envelope(p) => match dispatch(&p) {
                Ok(Some(t)) => Some(Outbound::Text(t)),
                Ok(None) => None,
                Err(e) => {
                    self.state = ConnState::Closing;
                    Some(Outbound::Close(e.close_frame()))
                },
            },
            Frame::Malformed | Frame::Binary => {
                self.state = ConnState::Closing;
                Some(Outbound::Close(GatewayError::DecodeError.close_frame()))
            },
            Frame::Close | Frame::Ended => {
                self.state = ConnState::Closing;
                None
            },
            Frame::Other => None,
        }
    }

    /// Ends the session: removes its registry entry, once, whatever made it
    /// close, and returns the number of live connections left.
    pub fn close(&mut self, registry: &mut SessionRegistry) -> (r: usize)
        ensures
            final(self).spec_state() == ConnState::Closed,
            final(self).spec_endpoint() == old(self).spec_endpoint(),
            final(self).spec_info() == old(self).spec_info(),
            old(self).spec_state() != ConnState::Closed ==> final(registry)@ == old(registry)@.remove(
                old(self).spec_endpoint(),
            ),
            old(self).spec_state() == ConnState::Closed ==> final(registry)@ == old(registry)@,
            r == final(registry)@.len(),
    {
        if self.state != ConnState::Closed {
            registry.remove(self.endpoint);
            self.state = ConnState::Closed;
        }
        registry.len()
    }

    pub fn is_open(&self) -> (r: bool)
        ensures
            r == (self.spec_state() == ConnState::Open),
    {
        self.state == ConnState::Open
    }

    pub fn state(&self) -> (r: ConnState)
        ensures
            r == self.spec_state(),
    {
        self.state
    }

    pub fn endpoint(&self) -> (r: u64)
        ensures
            r == self.spec_endpoint(),
    {
        self.endpoint
    }

    pub fn info(&self) -> (r: &ConnectionInfo)
        ensures
            *r == self.spec_info(),
    {
        &self.info
    }
}

/// A heartbeat on an open session, whatever its payload, is answered with
/// exactly one Heartbeat-Ack text frame, and the session stays open.
pub proof fn lemma_heartbeat_acknowledged(before: Connection, p: Payload, after: Connection, r: Option<Outbound>)
    requires
        before.spec_state() == ConnState::Open,
        p.op == OP_HEARTBEAT,
        frame_step(before, Frame::Envelope(p), after, r),
    ensures
        after.spec_state() == ConnState::Open,
        sent_text(r) == Some(ack_text()),
{
}

/// An envelope whose operation code is not heartbeat, identify or resume
/// closes the session with the unknown-opcode close frame, and nothing is
/// sent on the session after that, whatever arrives next.
pub proof fn lemma_unknown_opcode_closes(
    before: Connection,
    p: Payload,
    after: Connection,
    r: Option<Outbound>,
    next: Frame,
    last: Connection,
    r_next: Option<Outbound>,
)
    requires
        before.spec_state() == ConnState::Open,
        p.op != OP_HEARTBEAT && p.op != OP_IDENTIFY && p.op != OP_RESUME,
        frame_step(before, Frame::Envelope(p), after, r),
        frame_step(after, next, last, r_next),
    ensures
        opcode_of(p.op) == Opcode::Unknown(p.op),
        sends_close(r, GatewayError::UnknownOpcode(p.op)),
        after.spec_state() == ConnState::Closing,
        r_next is None,
{
}

/// A text frame that is not an envelope, or any binary frame, closes an open
/// session with the decode-error close frame.
pub proof fn lemma_undecodable_closes(before: Connection, frame: Frame, after: Connection, r: Option<Outbound>)
    requires
        before.spec_state() == ConnState::Open,
        frame is Malformed || frame is Binary,
        frame_step(before, frame, after, r),
    ensures
        sends_close(r, GatewayError::DecodeError),
        after.spec_state() == ConnState::Closing,
{
}

} // verus!
