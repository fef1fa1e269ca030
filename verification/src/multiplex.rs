//! Port multiplexing: how `parallel` workers on one host share or
//! partition UDP endpoints, and how sender workers are paired with
//! receiver workers.

use vstd::prelude::*;

verus! {

/// How the workers of one side spread over UDP ports.
#[derive(PartialEq, Eq, Structural, Clone, Copy, Debug)]
pub enum MultiplexPort {
    /// One worker, one port, paired with the peer worker of the same index.
    Individual,
    /// All workers on one port; the kernel load-balances the flows.
    Sharing,
    /// Each sender worker fires at a distinct receiver port.
    Sharding,
}

/// The port receiver worker `worker` binds: the base port under
/// `Sharing`, the base port offset by the worker index otherwise.
pub fn receiver_bind_port(strategy: MultiplexPort, base_port: u16, worker: u16) -> (r: u16)
    requires
        strategy is Sharing || base_port + worker <= u16::MAX,
    ensures
        strategy is Sharing ==> r == base_port,
        !(strategy is Sharing) ==> r == base_port + worker,
{
    match strategy {
        MultiplexPort::Sharing => base_port,
        _ => base_port + worker,
    }
}

/// The source port sender worker `worker` sends from: one shared source
/// port under `Sharing`, a distinct one per worker otherwise.
pub fn sender_source_port(strategy: MultiplexPort, base_sender_port: u16, worker: u16) -> (r: u16)
    requires
        strategy is Sharing || base_sender_port + worker <= u16::MAX,
    ensures
        strategy is Sharing ==> r == base_sender_port,
        !(strategy is Sharing) ==> r == base_sender_port + worker,
{
    match strategy {
        MultiplexPort::Sharing => base_sender_port,
        _ => base_sender_port + worker,
    }
}

/// The receiver port sender worker `worker` fires at: everything to the
/// single shared port under `Sharing`; the matching receiver worker's
/// port under `Individual`; a distinct port per worker under `Sharding`.
pub fn sender_target_port(strategy: MultiplexPort, base_port: u16, worker: u16) -> (r: u16)
    requires
        strategy is Sharing || base_port + worker <= u16::MAX,
    ensures
        strategy is Sharing ==> r == base_port,
        !(strategy is Sharing) ==> r == base_port + worker,
{
    match strategy {
        MultiplexPort::Sharing => base_port,
        _ => base_port + worker,
    }
}

/// Whether a bind under this strategy must ask the kernel to share the
/// port across sockets.
pub fn needs_reuseport(strategy: MultiplexPort) -> (r: bool)
    ensures
        r == (strategy is Sharing || strategy is Sharding),
{
    match strategy {
        MultiplexPort::Sharing => true,
        MultiplexPort::Sharding => true,
        MultiplexPort::Individual => false,
    }
}

/// The index of the receiver worker paired with sender worker `worker`:
/// pairing is by index.
pub fn paired_receiver_worker(worker: u16) -> (r: u16)
    ensures
        r == worker,
{
    worker
}

} // verus!
