//! Per-worker counters. Each worker owns one `History`, mutates it alone on
//! its hot path, and seals it when the worker is done; merging sealed
//! histories into a test-level result happens in `statistic`.

use vstd::prelude::*;

verus! {

/// The counters of one worker. Times are in milliseconds from an arbitrary
/// epoch chosen by the caller (the same epoch for `start_time` and
/// `end_time`).
#[derive(PartialEq, Eq, Structural, Clone, Copy, Debug)]
pub struct History {
    pub datagrams_sent: u64,
    pub bytes_sent: u64,
    /// How many datagrams should have arrived: the highest packet id seen
    /// plus one, as maintained by the receiver.
    pub datagrams_expected: u64,
    pub datagrams_received: u64,
    pub bytes_received: u64,
    /// Datagrams tentatively counted as lost: their slot was skipped over.
    pub omitted: u64,
    /// Datagrams that arrived after their slot had been counted omitted.
    pub reordered: u64,
    /// Datagrams whose id arrived again with no omitted slot to reclaim.
    pub duplicated: u64,
    pub start_time: u64,
    pub end_time: u64,
    pub datagram_size: u64,
}

impl History {
    /// A fresh history as a value: every counter zero, the datagram size
    /// recorded.
    pub open spec fn spec_new(datagram_size: u64) -> History {
        History {
            datagrams_sent: 0,
            bytes_sent: 0,
            datagrams_expected: 0,
            datagrams_received: 0,
            bytes_received: 0,
            omitted: 0,
            reordered: 0,
            duplicated: 0,
            start_time: 0,
            end_time: 0,
            datagram_size,
        }
    }

    /// A fresh history: every counter zero, the datagram size recorded.
    pub fn new(datagram_size: u64) -> (r: History)
        ensures
            r == Self::spec_new(datagram_size),
            r == (History {
                datagrams_sent: 0,
                bytes_sent: 0,
                datagrams_expected: 0,
                datagrams_received: 0,
                bytes_received: 0,
                omitted: 0,
                reordered: 0,
                duplicated: 0,
                start_time: 0,
                end_time: 0,
                datagram_size,
            }),
    {
        History {
            datagrams_sent: 0,
            bytes_sent: 0,
            datagrams_expected: 0,
            datagrams_received: 0,
            bytes_received: 0,
            omitted: 0,
            reordered: 0,
            duplicated: 0,
            start_time: 0,
            end_time: 0,
            datagram_size,
        }
    }
}

} // verus!
