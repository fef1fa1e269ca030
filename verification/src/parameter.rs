//! The immutable test configuration a coordinator builds once and every
//! worker reads, with the ranges each field must lie in.

use vstd::prelude::*;

use crate::multiplex::MultiplexPort;
use crate::ring::ring_size_valid;
use crate::ring::UringMode;
use crate::ring::UringSqFillingMode;
use crate::ring::DEFAULT_URING_RING_SIZE;
use crate::util::ExchangeFunction;
use crate::util::IOModel;
use crate::util::NPerfMode;

verus! {

/// Bytes of one send or receive buffer by default, and of one logical
/// datagram.
pub const DEFAULT_MSS: u32 = 1472;

/// Bytes of one logical UDP datagram by default.
pub const DEFAULT_UDP_DATAGRAM_SIZE: u32 = 1472;

/// The smallest logical datagram: an IP header, a UDP header, and room
/// for nothing less than the wire header.
pub const MIN_UDP_DATAGRAM_SIZE: u32 = 28;

/// The largest payload one UDP datagram can carry over IPv4.
pub const MAX_UDP_DATAGRAM_SIZE: u32 = 65507;

/// Bounds of the kernel socket buffer sizes the tool will request.
pub const MIN_SOCKET_BUFFER_SIZE: u32 = 4096;

/// 25 MiB; the kernel doubles what is requested to cover its overhead.
pub const MAX_SOCKET_BUFFER_SIZE: u32 = 26214400;

/// The kernel socket buffer size requested by default.
pub const DEFAULT_SOCKET_BUFFER_SIZE: u32 = 212992;

/// Seconds one test runs by default.
pub const DEFAULT_DURATION: u64 = 10;

/// The receiver's base UDP port by default.
pub const DEFAULT_SERVER_PORT: u16 = 45001;

/// The sender's base source port by default.
pub const DEFAULT_CLIENT_PORT: u16 = 46001;

/// Datagrams per batched syscall by default.
pub const DEFAULT_MMSG_AMOUNT: u32 = 1;

/// The most datagrams one batched syscall may carry.
pub const MAX_MMSG_AMOUNT: u32 = 1024;

/// The completion-ring knobs.
#[derive(PartialEq, Eq, Structural, Clone, Copy, Debug)]
pub struct UringParameter {
    pub ring_size: u32,
    pub sq_filling_mode: UringSqFillingMode,
    pub uring_mode: UringMode,
    pub sqpoll: bool,
    pub sqpoll_shared: bool,
}

/// Everything a test run is configured by. Built once, then read-only.
#[derive(PartialEq, Eq, Structural, Clone, Copy, Debug)]
pub struct Parameter {
    pub mode: NPerfMode,
    pub parallel: u16,
    pub port: u16,
    pub sender_port: u16,
    pub mss: u32,
    pub datagram_size: u32,
    pub exchange_function: ExchangeFunction,
    pub io_model: IOModel,
    pub duration_seconds: u64,
    pub multiplex_sender: MultiplexPort,
    pub multiplex_receiver: MultiplexPort,
    pub gsro_enabled: bool,
    pub socket_send_buf: u32,
    pub socket_recv_buf: u32,
    pub mmsg_batch: u32,
    pub uring: UringParameter,
}

impl Parameter {
    /// The ranges every runnable configuration lies in: at least one
    /// worker with ports left for each, a datagram that fits UDP and its
    /// buffer, a bounded duration, socket buffers and batch sizes inside
    /// their limits, and a ring size the kernel accepts.
    pub open spec fn valid(self) -> bool {
        &&& self.parallel >= 1
        &&& (self.multiplex_receiver is Sharing || self.port + self.parallel - 1 <= u16::MAX)
        &&& (self.multiplex_sender is Sharing || self.sender_port + self.parallel - 1
            <= u16::MAX)
        &&& MIN_UDP_DATAGRAM_SIZE <= self.datagram_size <= MAX_UDP_DATAGRAM_SIZE
        &&& self.mss >= self.datagram_size
        &&& 1 <= self.duration_seconds < 0x1_0000_0000
        &&& MIN_SOCKET_BUFFER_SIZE <= self.socket_send_buf <= MAX_SOCKET_BUFFER_SIZE
        &&& MIN_SOCKET_BUFFER_SIZE <= self.socket_recv_buf <= MAX_SOCKET_BUFFER_SIZE
        &&& 1 <= self.mmsg_batch <= MAX_MMSG_AMOUNT
        &&& ring_size_valid(self.uring.ring_size)
    }

    /// Checks the ranges above.
    pub fn validate(&self) -> (r: bool)
        ensures
            r == self.valid(),
    {
        let ports_ok = match self.multiplex_receiver {
            MultiplexPort::Sharing => true,
            _ => self.parallel >= 1 && self.port as u32 + self.parallel as u32 - 1
                <= u16::MAX as u32,
        };
        let sender_ports_ok = match self.multiplex_sender {
            MultiplexPort::Sharing => true,
            _ => self.parallel >= 1 && self.sender_port as u32 + self.parallel as u32 - 1
                <= u16::MAX as u32,
        };
        self.parallel >= 1 && ports_ok && sender_ports_ok && MIN_UDP_DATAGRAM_SIZE
            <= self.datagram_size && self.datagram_size <= MAX_UDP_DATAGRAM_SIZE && self.mss
            >= self.datagram_size && 1 <= self.duration_seconds && self.duration_seconds
            < 0x1_0000_0000 && MIN_SOCKET_BUFFER_SIZE <= self.socket_send_buf
            && self.socket_send_buf <= MAX_SOCKET_BUFFER_SIZE && MIN_SOCKET_BUFFER_SIZE
            <= self.socket_recv_buf && self.socket_recv_buf <= MAX_SOCKET_BUFFER_SIZE && 1
            <= self.mmsg_batch && self.mmsg_batch <= MAX_MMSG_AMOUNT
            && crate::ring::check_ring_size(self.uring.ring_size)
    }
}

impl Default for Parameter {
    /// The configuration the command line starts from: one sender worker,
    /// the default ports and sizes, per-message sends, busy waiting, no
    /// offload, and a valid configuration throughout.
    fn default() -> (r: Parameter)
        ensures
            r == (Parameter {
                mode: NPerfMode::Client,
                parallel: 1,
                port: DEFAULT_SERVER_PORT,
                sender_port: DEFAULT_CLIENT_PORT,
                mss: DEFAULT_MSS,
                datagram_size: DEFAULT_UDP_DATAGRAM_SIZE,
                exchange_function: ExchangeFunction::Msg,
                io_model: IOModel::BusyWaiting,
                duration_seconds: DEFAULT_DURATION,
                multiplex_sender: MultiplexPort::Individual,
                multiplex_receiver: MultiplexPort::Individual,
                gsro_enabled: false,
                socket_send_buf: DEFAULT_SOCKET_BUFFER_SIZE,
                socket_recv_buf: DEFAULT_SOCKET_BUFFER_SIZE,
                mmsg_batch: DEFAULT_MMSG_AMOUNT,
                uring: UringParameter {
                    ring_size: DEFAULT_URING_RING_SIZE,
                    sq_filling_mode: UringSqFillingMode::Topup,
                    uring_mode: UringMode::Normal,
                    sqpoll: false,
                    sqpoll_shared: false,
                },
            }),
            r.valid(),
    {
        Parameter {
            mode: NPerfMode::Client,
            parallel: 1,
            port: DEFAULT_SERVER_PORT,
            sender_port: DEFAULT_CLIENT_PORT,
            mss: DEFAULT_MSS,
            datagram_size: DEFAULT_UDP_DATAGRAM_SIZE,
            exchange_function: ExchangeFunction::Msg,
            io_model: IOModel::BusyWaiting,
            duration_seconds: DEFAULT_DURATION,
            multiplex_sender: MultiplexPort::Individual,
            multiplex_receiver: MultiplexPort::Individual,
            gsro_enabled: false,
            socket_send_buf: DEFAULT_SOCKET_BUFFER_SIZE,
            socket_recv_buf: DEFAULT_SOCKET_BUFFER_SIZE,
            mmsg_batch: DEFAULT_MMSG_AMOUNT,
            uring: UringParameter {
                ring_size: DEFAULT_URING_RING_SIZE,
                sq_filling_mode: UringSqFillingMode::Topup,
                uring_mode: UringMode::Normal,
                sqpoll: false,
                sqpoll_shared: false,
            },
        }
    }
}

} // verus!
