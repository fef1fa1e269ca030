//! The submission-side bookkeeping of one worker's completion ring: how
//! many receives sit armed but unflushed, how many are with the kernel,
//! when the submission ring is flushed, and how big one reap burst may be.
//! The ring itself lives in the kernel; this module only decides.

use vstd::prelude::*;

verus! {

/// The default number of submission slots of one ring.
pub const DEFAULT_URING_RING_SIZE: u32 = 256;

/// The provided-buffer pool holds this many buffers per ring slot.
pub const URING_BUFFER_SIZE_MULTIPLICATOR: u32 = 4;

/// One reap drains at most `capacity / URING_BURST_SIZE_DIVIDEND`
/// completions.
pub const URING_BURST_SIZE_DIVIDEND: u32 = 4;

/// When the submission ring is flushed to the kernel.
#[derive(PartialEq, Eq, Structural, Clone, Copy, Debug)]
pub enum UringSqFillingMode {
    /// Only when the ring would otherwise run empty.
    Topup,
    /// Eagerly, on every submit.
    Syscall,
}

/// How receive buffers are provided to the ring.
#[derive(PartialEq, Eq, Structural, Clone, Copy, Debug)]
pub enum UringMode {
    /// The worker posts one buffer per receive it arms.
    Normal,
    /// The kernel picks the landing buffer from a registered pool.
    ProvidedBuffer,
}

/// The ring sizes the tool accepts: a power of two between 16 and 2048.
pub open spec fn ring_size_valid(n: u32) -> bool {
    n == 16 || n == 32 || n == 64 || n == 128 || n == 256 || n == 512 || n == 1024 || n == 2048
}

/// Checks that a requested ring size is a power of two between 16 and
/// 2048.
pub fn check_ring_size(n: u32) -> (r: bool)
    ensures
        r == ring_size_valid(n),
{
    n == 16 || n == 32 || n == 64 || n == 128 || n == 256 || n == 512 || n == 1024 || n == 2048
}

/// How many receive buffers back a ring of this size.
pub fn buffer_pool_size(ring_size: u32) -> (r: u32)
    requires
        ring_size_valid(ring_size),
    ensures
        r == URING_BUFFER_SIZE_MULTIPLICATOR * ring_size,
{
    URING_BUFFER_SIZE_MULTIPLICATOR * ring_size
}

/// How many completions one reap may drain at most.
pub fn reap_burst_cap(ring_size: u32) -> (r: u32)
    requires
        ring_size_valid(ring_size),
    ensures
        r == ring_size / URING_BURST_SIZE_DIVIDEND,
{
    ring_size / URING_BURST_SIZE_DIVIDEND
}

/// What one worker knows about its ring: `pending` receives armed but not
/// yet flushed to the kernel, `in_flight` flushed and awaiting
/// completion. Together they never exceed the ring's capacity.
#[derive(PartialEq, Eq, Structural, Clone, Copy, Debug)]
pub struct RingState {
    pub capacity: u32,
    pub pending: u32,
    pub in_flight: u32,
}

impl RingState {
    pub open spec fn wf(self) -> bool {
        &&& ring_size_valid(self.capacity)
        &&& self.pending + self.in_flight <= self.capacity
    }

    /// An empty ring of the given capacity.
    pub fn new(capacity: u32) -> (r: RingState)
        requires
            ring_size_valid(capacity),
        ensures
            r == (RingState { capacity, pending: 0, in_flight: 0 }),
            r.wf(),
    {
        RingState { capacity, pending: 0, in_flight: 0 }
    }

    /// How many receives to arm after a reap so the ring is full again;
    /// nothing is armed while it is still at least half full.
    pub fn rearm_amount(&self) -> (r: u32)
        requires
            self.wf(),
        ensures
            self.pending + self.in_flight < self.capacity / 2 ==> r == self.capacity
                - self.pending - self.in_flight,
            self.pending + self.in_flight >= self.capacity / 2 ==> r == 0,
    {
        let occupied = self.pending + self.in_flight;
        if occupied < self.capacity / 2 {
            self.capacity - occupied
        } else {
            0
        }
    }

    /// Arms `n` more receives without flushing them.
    pub fn arm(&mut self, n: u32)
        requires
            old(self).wf(),
            old(self).pending + old(self).in_flight + n <= old(self).capacity,
        ensures
            *final(self) == (RingState { pending: (old(self).pending + n) as u32, ..*old(self) }),
            final(self).wf(),
    {
        self.pending = self.pending + n;
    }

    /// Whether the armed receives go to the kernel now: eagerly whenever
    /// any are armed under `Syscall`, only once nothing is left in flight
    /// under `Topup`.
    pub fn should_flush(&self, mode: UringSqFillingMode) -> (r: bool)
        ensures
            mode is Syscall ==> r == (self.pending > 0),
            mode is Topup ==> r == (self.pending > 0 && self.in_flight == 0),
    {
        match mode {
            UringSqFillingMode::Syscall => self.pending > 0,
            UringSqFillingMode::Topup => self.pending > 0 && self.in_flight == 0,
        }
    }

    /// Hands every armed receive to the kernel.
    pub fn flush(&mut self)
        requires
            old(self).wf(),
        ensures
            *final(self) == (RingState {
                pending: 0,
                in_flight: (old(self).pending + old(self).in_flight) as u32,
                ..*old(self)
            }),
            final(self).wf(),
    {
        self.in_flight = self.in_flight + self.pending;
        self.pending = 0;
    }

    /// Books `completed` reaped completions.
    pub fn reap(&mut self, completed: u32)
        requires
            old(self).wf(),
            completed <= old(self).in_flight,
        ensures
            *final(self) == (RingState {
                in_flight: (old(self).in_flight - completed) as u32,
                ..*old(self)
            }),
            final(self).wf(),
    {
        self.in_flight = self.in_flight - completed;
    }
}

} // verus!
