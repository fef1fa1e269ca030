//! The test-level result: per-worker histories folded into one record,
//! with duration, throughput and loss derived from it.

use vstd::prelude::*;

use crate::history::History;

verus! {

/// The merge of any number of worker histories. Counters are pointwise
/// sums; the test interval spans from the earliest worker start to the
/// latest worker end.
#[derive(PartialEq, Eq, Structural, Clone, Copy, Debug)]
pub struct Statistic {
    pub datagrams_sent: u64,
    pub bytes_sent: u64,
    pub datagrams_expected: u64,
    pub datagrams_received: u64,
    pub bytes_received: u64,
    pub omitted: u64,
    pub reordered: u64,
    pub duplicated: u64,
    pub start_time: u64,
    pub end_time: u64,
}

/// The pointwise merge: counters add, `start_time` takes the minimum,
/// `end_time` the maximum.
pub open spec fn spec_merge(a: Statistic, b: Statistic) -> Statistic {
    Statistic {
        datagrams_sent: ((a.datagrams_sent + b.datagrams_sent) as u64),
        bytes_sent: ((a.bytes_sent + b.bytes_sent) as u64),
        datagrams_expected: ((a.datagrams_expected + b.datagrams_expected) as u64),
        datagrams_received: ((a.datagrams_received + b.datagrams_received) as u64),
        bytes_received: ((a.bytes_received + b.bytes_received) as u64),
        omitted: ((a.omitted + b.omitted) as u64),
        reordered: ((a.reordered + b.reordered) as u64),
        duplicated: ((a.duplicated + b.duplicated) as u64),
        start_time: if a.start_time <= b.start_time {
            a.start_time
        } else {
            b.start_time
        },
        end_time: if a.end_time >= b.end_time {
            a.end_time
        } else {
            b.end_time
        },
    }
}

/// Whether the counters of `a` and `b` can be added without wrapping.
pub open spec fn merge_fits(a: Statistic, b: Statistic) -> bool {
    &&& a.datagrams_sent + b.datagrams_sent <= u64::MAX
    &&& a.bytes_sent + b.bytes_sent <= u64::MAX
    &&& a.datagrams_expected + b.datagrams_expected <= u64::MAX
    &&& a.datagrams_received + b.datagrams_received <= u64::MAX
    &&& a.bytes_received + b.bytes_received <= u64::MAX
    &&& a.omitted + b.omitted <= u64::MAX
    &&& a.reordered + b.reordered <= u64::MAX
    &&& a.duplicated + b.duplicated <= u64::MAX
}

impl Statistic {
    /// The zero record: merging it changes nothing.
    pub fn zero() -> (r: Statistic)
        ensures
            r == (Statistic {
                datagrams_sent: 0,
                bytes_sent: 0,
                datagrams_expected: 0,
                datagrams_received: 0,
                bytes_received: 0,
                omitted: 0,
                reordered: 0,
                duplicated: 0,
                start_time: u64::MAX,
                end_time: 0,
            }),
    {
        Statistic {
            datagrams_sent: 0,
            bytes_sent: 0,
            datagrams_expected: 0,
            datagrams_received: 0,
            bytes_received: 0,
            omitted: 0,
            reordered: 0,
            duplicated: 0,
            start_time: u64::MAX,
            end_time: 0,
        }
    }

    /// The statistic of a single sealed worker history.
    pub fn from_history(h: &History) -> (r: Statistic)
        ensures
            r == (Statistic {
                datagrams_sent: h.datagrams_sent,
                bytes_sent: h.bytes_sent,
                datagrams_expected: h.datagrams_expected,
                datagrams_received: h.datagrams_received,
                bytes_received: h.bytes_received,
                omitted: h.omitted,
                reordered: h.reordered,
                duplicated: h.duplicated,
                start_time: h.start_time,
                end_time: h.end_time,
            }),
    {
        Statistic {
            datagrams_sent: h.datagrams_sent,
            bytes_sent: h.bytes_sent,
            datagrams_expected: h.datagrams_expected,
            datagrams_received: h.datagrams_received,
            bytes_received: h.bytes_received,
            omitted: h.omitted,
            reordered: h.reordered,
            duplicated: h.duplicated,
            start_time: h.start_time,
            end_time: h.end_time,
        }
    }

    /// Folds another worker's record into this one.
    pub fn merge(&self, other: &Statistic) -> (r: Statistic)
        requires
            merge_fits(*self, *other),
        ensures
            r == spec_merge(*self, *other),
    {
        Statistic {
            datagrams_sent: self.datagrams_sent + other.datagrams_sent,
            bytes_sent: self.bytes_sent + other.bytes_sent,
            datagrams_expected: self.datagrams_expected + other.datagrams_expected,
            datagrams_received: self.datagrams_received + other.datagrams_received,
            bytes_received: self.bytes_received + other.bytes_received,
            omitted: self.omitted + other.omitted,
            reordered: self.reordered + other.reordered,
            duplicated: self.duplicated + other.duplicated,
            start_time: if self.start_time <= other.start_time {
                self.start_time
            } else {
                other.start_time
            },
            end_time: if self.end_time >= other.end_time {
                self.end_time
            } else {
                other.end_time
            },
        }
    }

    /// Pins the measured interval of this record.
    pub fn set_test_duration(&mut self, start_time: u64, end_time: u64)
        requires
            start_time <= end_time,
        ensures
            *final(self) == (Statistic { start_time, end_time, ..*old(self) }),
    {
        self.start_time = start_time;
        self.end_time = end_time;
    }

    /// How long the test ran, in milliseconds.
    pub fn duration_millis(&self) -> (r: u64)
        requires
            self.start_time <= self.end_time,
        ensures
            r == self.end_time - self.start_time,
    {
        self.end_time - self.start_time
    }
}

/// Bits per second moved during the test: eight bits per byte over the
/// duration.
pub fn throughput_bits_per_second(bytes: u64, duration_millis: u64) -> (r: u128)
    requires
        duration_millis > 0,
    ensures
        r == 8 * (bytes as int) * 1000 / (duration_millis as int),
{
    (bytes as u128) * 8000 / (duration_millis as u128)
}

/// The omitted share of everything that should have arrived, in parts per
/// million, clamped to one million.
pub fn loss_ratio_ppm(omitted: u64, received: u64) -> (r: u64)
    requires
        omitted + received > 0,
    ensures
        ({
            let exact = (omitted as int) * 1000000 / (omitted as int + received as int);
            r == if exact <= 1000000 {
                exact
            } else {
                1000000
            }
        }),
{
    let q: u128 = (omitted as u128) * 1000000 / ((omitted as u128) + (received as u128));
    if q > 1000000 {
        1000000
    } else {
        q as u64
    }
}

/// Merging two records is the same in either order.
pub proof fn lemma_merge_commutative(a: Statistic, b: Statistic)
    ensures
        spec_merge(a, b) == spec_merge(b, a),
{
}

/// Merging three records gives the same result however they are grouped.
pub proof fn lemma_merge_associative(a: Statistic, b: Statistic, c: Statistic)
    requires
        merge_fits(a, b),
        merge_fits(b, c),
        merge_fits(spec_merge(a, b), c),
        merge_fits(a, spec_merge(b, c)),
    ensures
        spec_merge(spec_merge(a, b), c) == spec_merge(a, spec_merge(b, c)),
{
}

} // verus!
