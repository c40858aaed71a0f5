//! Real-time gateway of a chat backend: the control-plane protocol spoken over
//! each client session, the registry of live sessions, and the topic-routed
//! event bus that fans domain events out to subscribers.
pub mod config;
pub mod connection;
pub mod error;
pub mod events;
pub mod json;
pub mod models;
pub mod number;
pub mod opcodes;
pub mod registry;
pub mod shard;
pub mod signature;
pub mod storage;
pub mod text;

pub use crate::connection::{ConnState, Connection, Frame, Outbound};
pub use crate::error::{CloseFrame, GatewayError};
pub use crate::events::{Backend, BrokerAttempt, BrokerMessage, Delivery, Event, EventBus, EventError, Received, Route, Subscription};
pub use crate::opcodes::{dispatch, Opcode, Payload};
pub use crate::registry::{ConnectionInfo, SessionRegistry};
pub use crate::shard::{parse_shard, ShardInfo};
