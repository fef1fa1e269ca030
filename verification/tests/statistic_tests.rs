use udperf::history::History;
use udperf::statistic::loss_ratio_ppm;
use udperf::statistic::throughput_bits_per_second;
use udperf::statistic::Statistic;

fn sample(received: u64, bytes: u64, start: u64, end: u64) -> Statistic {
    let mut h = History::new(1472);
    h.datagrams_received = received;
    h.bytes_received = bytes;
    h.start_time = start;
    h.end_time = end;
    Statistic::from_history(&h)
}

#[test]
fn merge_sums_counters_and_spans_times() {
    let a = sample(10, 1000, 5, 20);
    let b = sample(4, 400, 3, 18);
    let m = a.merge(&b);
    assert_eq!(m.datagrams_received, 14);
    assert_eq!(m.bytes_received, 1400);
    assert_eq!(m.start_time, 3);
    assert_eq!(m.end_time, 20);
}

#[test]
fn merge_is_commutative_on_values() {
    let a = sample(10, 1000, 5, 20);
    let b = sample(4, 400, 3, 18);
    assert_eq!(a.merge(&b), b.merge(&a));
}

#[test]
fn merge_is_associative_on_values() {
    let a = sample(10, 1000, 5, 20);
    let b = sample(4, 400, 3, 18);
    let c = sample(1, 50, 9, 30);
    assert_eq!(a.merge(&b).merge(&c), a.merge(&b.merge(&c)));
}

#[test]
fn zero_is_a_merge_identity() {
    let a = sample(10, 1000, 5, 20);
    assert_eq!(Statistic::zero().merge(&a), a);
    assert_eq!(a.merge(&Statistic::zero()), a);
}

#[test]
fn duration_is_exactly_end_minus_start() {
    let mut s = sample(0, 0, 0, 0);
    s.set_test_duration(1500, 3700);
    assert_eq!(s.duration_millis(), 2200);
    assert_eq!(s.start_time, 1500);
    assert_eq!(s.end_time, 3700);
}

#[test]
fn throughput_formula() {
    // 1000 bytes over 2 seconds: 8 * 1000 / 2 = 4000 bits per second
    assert_eq!(throughput_bits_per_second(1000, 2000), 4000);
    // sub-second runs scale up
    assert_eq!(throughput_bits_per_second(1000, 500), 16000);
}

#[test]
fn loss_ratio_parts_per_million() {
    // 1 omitted of 4 owed: 250000 ppm
    assert_eq!(loss_ratio_ppm(1, 3), 250_000);
    // nothing omitted
    assert_eq!(loss_ratio_ppm(0, 100), 0);
    // everything omitted clamps at one million
    assert_eq!(loss_ratio_ppm(5, 0), 1_000_000);
}
