//! Core of a UDP throughput measurement tool: per-datagram wire framing,
//! sequence accounting (loss, reordering, duplication), per-worker exchange
//! state machines, port multiplexing, and statistics aggregation.
//!
//! Everything here is plain data and decisions; the kernel syscalls that
//! move the datagrams live outside this library.

use vstd::prelude::*;

pub mod cmsg;
pub mod engine;
pub mod history;
pub mod multiplex;
pub mod net;
pub mod parameter;
pub mod ring;
pub mod node;
pub mod packet_buffer;
pub mod statistic;
pub mod util;

verus! {

/// Bytes of the fixed wire header in front of every measurement datagram.
pub const HEADER_SIZE: u64 = 17;

/// Exact wire length of the end-of-test sentinel datagram.
pub const LAST_MESSAGE_SIZE: u64 = 100;

/// Milliseconds to wait between resends of the sentinel datagram.
pub const WAIT_CONTROL_MESSAGE: u64 = 500;

/// How often the sender repeats the sentinel before giving up on an answer.
pub const LAST_MESSAGE_RETRIES: u64 = 3;

/// Largest forward jump of packet ids the receiver will account as loss;
/// a bigger gap is treated as a protocol violation.
pub const MAX_PACKET_ID_LOOKAHEAD: u64 = 1048576;

} // verus!
