//! Verified core of a realtime chat gateway.
//!
//! The crate models the gateway's decision logic as plain data
//! transformations: connection negotiation, the per-session state machine,
//! presence bookkeeping, broker topology planning, permission filtering and
//! the storage codec for presence records.  The surrounding I/O (sockets,
//! broker, key-value store) drives these functions and carries out the
//! actions they return.

pub mod assoc;
pub mod client;
pub mod codec;
pub mod error;
pub mod events;
pub mod hidden;
pub mod machine;
pub mod model;
pub mod presence;
pub mod ratelimit;
pub mod sendqueue;
pub mod session;
pub mod store_codec;
pub mod text;
pub mod upstream;
