use udperf::history::History;
use udperf::util::process_packet;
use udperf::util::process_packet_number;
use udperf::util::ExchangeError;

fn run_ids(ids: &[u64]) -> (u64, History) {
    let mut history = History::new(1472);
    let mut next: u64 = 0;
    for id in ids {
        let advance = process_packet_number(*id, next, &mut history).unwrap();
        next += advance;
        history.datagrams_received += 1;
    }
    (next, history)
}

#[test]
fn strictly_increasing_input() {
    let (expected, h) = run_ids(&[0, 1, 2, 3]);
    assert_eq!(expected, 4);
    assert_eq!(h.omitted, 0);
    assert_eq!(h.reordered, 0);
    assert_eq!(h.duplicated, 0);
}

#[test]
fn gap_input() {
    let (expected, h) = run_ids(&[0, 1, 4]);
    assert_eq!(expected, 5);
    assert_eq!(h.omitted, 2);
    assert_eq!(h.reordered, 0);
    assert_eq!(h.duplicated, 0);
}

#[test]
fn reorder_input() {
    let (expected, h) = run_ids(&[0, 1, 4, 2, 3]);
    assert_eq!(expected, 5);
    assert_eq!(h.omitted, 0);
    assert_eq!(h.reordered, 2);
    assert_eq!(h.duplicated, 0);
}

#[test]
fn duplicate_input() {
    let (expected, h) = run_ids(&[0, 1, 1]);
    assert_eq!(expected, 2);
    assert_eq!(h.omitted, 0);
    assert_eq!(h.reordered, 0);
    assert_eq!(h.duplicated, 1);
}

#[test]
fn late_arrival_reclaims_omitted_slot() {
    // The id 0 arrives again while slot 1 is still booked omitted, so the
    // accounting reclaims an omitted slot rather than counting a duplicate.
    let (expected, h) = run_ids(&[0, 2, 0]);
    assert_eq!(expected, 3);
    assert_eq!(h.omitted, 0);
    assert_eq!(h.reordered, 1);
    assert_eq!(h.duplicated, 0);
}

#[test]
fn conservation_balances_every_run() {
    for ids in [
        vec![0u64, 1, 2, 3],
        vec![0, 1, 4],
        vec![0, 1, 4, 2, 3],
        vec![0, 1, 1],
        vec![0, 2, 0],
        vec![5, 3, 3, 9, 0],
    ] {
        let (expected, h) = run_ids(&ids);
        let max_seen = ids.iter().max().copied().unwrap();
        assert_eq!(
            h.datagrams_received + h.omitted - h.duplicated,
            max_seen + 1,
            "ids {:?}",
            ids
        );
        assert_eq!(expected, max_seen + 1, "ids {:?}", ids);
    }
}

#[test]
fn received_stays_within_sent_plus_reordered() {
    // every id below the sent count of 5, no duplicates
    let (_, h) = run_ids(&[0, 1, 4, 2, 3]);
    assert!(h.datagrams_received <= 5 + h.reordered);
    let (_, h) = run_ids(&[0, 1, 2]);
    assert!(h.datagrams_received <= 3 + h.reordered);
}

#[test]
fn forward_jump_past_lookahead_is_fatal() {
    let mut history = History::new(1472);
    let r = process_packet_number(1048577 + 5, 5, &mut history);
    assert_eq!(r, Err(ExchangeError::SocketFatal));
    assert_eq!(history.omitted, 0);
}

#[test]
fn forward_jump_at_lookahead_is_accounted() {
    let mut history = History::new(1472);
    let r = process_packet_number(1048576 + 5, 5, &mut history);
    assert_eq!(r, Ok(1048577));
    assert_eq!(history.omitted, 1048576);
}

#[test]
fn id_space_exhaustion_is_fatal() {
    let mut history = History::new(1472);
    let r = process_packet_number(u64::MAX, u64::MAX, &mut history);
    assert_eq!(r, Err(ExchangeError::SocketFatal));
}

#[test]
fn process_packet_reads_big_endian_id() {
    let mut history = History::new(1472);
    let mut datagram = vec![0u8; 64];
    datagram[7] = 3; // packet id 3, big-endian at offset 0
    let advance = process_packet(&datagram, 0, &mut history).unwrap();
    assert_eq!(advance, 4);
    assert_eq!(history.omitted, 3);
}

#[test]
fn process_packet_rejects_truncated_datagram() {
    let mut history = History::new(1472);
    let datagram = vec![0u8; 16];
    let r = process_packet(&datagram, 0, &mut history);
    assert_eq!(r, Err(ExchangeError::HeaderTruncated));
    assert_eq!(history.omitted, 0);
}
