//! Connection-multiplexing core of a TCP-to-subprocess relay.
//!
//! The library holds the dispatcher's state machine: the token/link
//! registry, the connection table, and the per-event decisions (accept,
//! relay one buffer, evict on idle, tear down). The surrounding binary
//! performs the actual socket, timer and child-process I/O and feeds
//! events and byte buffers into these functions.

use vstd::prelude::*;

pub mod laws;
pub mod relay;
pub mod server;

verus! {

/// Token reserved for the listening socket, never used by a connection.
pub const ACCEPTOR_TOKEN: u64 = 0;

/// Token reserved for the timer facility itself, never used by a connection.
pub const TIMER_TOKEN: u64 = 1;

/// First value of the token and link generators; identifiers below it are
/// reserved.
pub const FIRST_ID: u64 = 10;

/// Fixed per-connection idle bound in milliseconds; the sole eviction policy.
pub const IDLE_TIMEOUT_MS: u64 = 5000;

/// Size of the single reusable relay buffer shared by all connections.
pub const BUFFER_SIZE: usize = 9216;

} // verus!
