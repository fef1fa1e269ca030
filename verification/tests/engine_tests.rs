use udperf::engine::ClientEngine;
use udperf::engine::EngineState;
use udperf::engine::IoAction;
use udperf::engine::ServerEngine;
use udperf::net::MessageHeader;
use udperf::net::MessageType;
use udperf::packet_buffer::PacketBuffer;
use udperf::util::ExchangeError;

fn measurement(packet_id: u64, len: usize) -> Vec<u8> {
    let mut datagram = MessageHeader::new(MessageType::MEASUREMENT, 9, packet_id).serialize();
    datagram.resize(len, 0x30);
    datagram
}

#[test]
fn client_steady_send_cycle() {
    let mut engine = ClientEngine::new(9, 2, 1472);
    assert_eq!(engine.state, EngineState::Init);
    engine.start(1000);
    assert_eq!(engine.state, EngineState::Handshake);
    assert_eq!(engine.history.start_time, 1000);

    let mut buffer = PacketBuffer::new(90, 30).unwrap();
    let stamped = engine.prepare_packets(&mut buffer).unwrap();
    assert_eq!(stamped, 3);
    assert_eq!(engine.next_packet_id, 3);
    let bytes = buffer.get_buffer_pointer();
    for slot in 0..3usize {
        let id = u64::from_be_bytes(bytes[slot * 30..slot * 30 + 8].try_into().unwrap());
        assert_eq!(id, slot as u64);
    }

    engine.record_send_success(3, 90);
    assert_eq!(engine.state, EngineState::Steady);
    assert_eq!(engine.history.datagrams_sent, 3);
    assert_eq!(engine.history.bytes_sent, 90);
}

#[test]
fn client_fails_fast_when_peer_is_down() {
    let mut engine = ClientEngine::new(9, 2, 1472);
    engine.start(0);
    let action = engine.record_send_failure(ExchangeError::ConnectionRefused);
    assert_eq!(action, IoAction::Abort);
    assert_eq!(engine.state, EngineState::Failed);
}

#[test]
fn client_waits_out_a_busy_socket() {
    let mut engine = ClientEngine::new(9, 2, 1472);
    engine.start(0);
    let action = engine.record_send_failure(ExchangeError::TryAgain);
    assert_eq!(action, IoAction::Wait);
    assert_eq!(engine.state, EngineState::Handshake);
}

#[test]
fn client_drains_when_the_duration_elapses() {
    let mut engine = ClientEngine::new(9, 2, 1472);
    engine.start(1000);
    engine.record_send_success(0, 0);
    assert!(!engine.tick(2999));
    assert_eq!(engine.state, EngineState::Steady);
    assert!(engine.tick(3000));
    assert_eq!(engine.state, EngineState::Drain);

    assert!(engine.sentinel_due());
    engine.record_sentinel_attempt();
    engine.record_sentinel_attempt();
    engine.record_sentinel_attempt();
    assert!(!engine.sentinel_due());
    engine.finish(3100);
    assert_eq!(engine.state, EngineState::Done);
    assert_eq!(engine.history.end_time, 3100);
}

#[test]
fn client_sentinel_has_the_wire_shape() {
    let mut engine = ClientEngine::new(9, 2, 1472);
    engine.start(0);
    let sentinel = engine.make_sentinel();
    assert_eq!(sentinel.len(), 100);
    let header = MessageHeader::parse(&sentinel).unwrap();
    assert_eq!(header.mtype, MessageType::LAST);
    assert_eq!(header.test_id, 9);
}

#[test]
fn server_accounts_a_steady_stream() {
    let mut engine = ServerEngine::new(1472);
    engine.start();
    assert_eq!(engine.state, EngineState::Handshake);

    for id in [0u64, 1, 2] {
        engine.on_datagram(&measurement(id, 64), 500 + id).unwrap();
    }
    assert_eq!(engine.state, EngineState::Steady);
    assert_eq!(engine.history.start_time, 500);
    assert_eq!(engine.history.datagrams_received, 3);
    assert_eq!(engine.history.bytes_received, 192);
    assert_eq!(engine.history.datagrams_expected, 3);
    assert_eq!(engine.test_id, Some(9));

    // the sentinel is recognized by its exact length and seals the end time
    engine.on_datagram(&vec![0u8; 100], 2500).unwrap();
    assert_eq!(engine.state, EngineState::Done);
    assert_eq!(engine.history.end_time, 2500);
    assert_eq!(engine.history.end_time - engine.history.start_time, 2000);
}

#[test]
fn server_counts_gaps_and_reorders() {
    let mut engine = ServerEngine::new(1472);
    engine.start();
    for id in [0u64, 1, 4, 2, 3] {
        engine.on_datagram(&measurement(id, 64), 0).unwrap();
    }
    assert_eq!(engine.history.datagrams_received, 5);
    assert_eq!(engine.history.omitted, 0);
    assert_eq!(engine.history.reordered, 2);
    assert_eq!(engine.history.duplicated, 0);
    assert_eq!(engine.history.datagrams_expected, 5);
}

#[test]
fn server_drops_truncated_datagrams() {
    let mut engine = ServerEngine::new(1472);
    engine.start();
    let r = engine.on_datagram(&[1, 2, 3], 0);
    assert_eq!(r, Err(ExchangeError::HeaderTruncated));
    assert_eq!(engine.malformed, 1);
    assert_eq!(engine.history.datagrams_received, 0);

    // sealing folds the dropped datagram into the omitted count
    engine.seal_history(50);
    assert_eq!(engine.history.omitted, 1);
    assert_eq!(engine.malformed, 0);
    assert_eq!(engine.state, EngineState::Done);
    assert_eq!(engine.history.end_time, 50);
}

#[test]
fn server_pins_test_identity_from_the_handshake() {
    let mut engine = ServerEngine::new(1472);
    engine.start();
    let mut init = MessageHeader::new(MessageType::INIT, 1234, 0).serialize();
    init.resize(64, 0);
    engine.on_datagram(&init, 0).unwrap();
    assert_eq!(engine.test_id, Some(1234));
    assert_eq!(engine.state, EngineState::Handshake);
    assert_eq!(engine.history.datagrams_received, 0);
}

#[test]
fn server_fails_on_an_impossible_id_jump() {
    let mut engine = ServerEngine::new(1472);
    engine.start();
    let r = engine.on_datagram(&measurement(99_999_999_999, 64), 0);
    assert_eq!(r, Err(ExchangeError::SocketFatal));
    assert_eq!(engine.state, EngineState::Failed);
}

#[test]
fn server_absorbs_a_batch_in_order() {
    let mut engine = ServerEngine::new(1472);
    engine.start();
    let batch = vec![
        measurement(0, 64),
        measurement(1, 64),
        measurement(3, 64),
        measurement(2, 64),
    ];
    engine.on_batch(&batch, 700).unwrap();
    assert_eq!(engine.history.datagrams_received, 4);
    assert_eq!(engine.history.omitted, 0);
    assert_eq!(engine.history.reordered, 1);
    assert_eq!(engine.history.datagrams_expected, 4);
    assert_eq!(engine.history.bytes_received, 256);
    assert_eq!(engine.history.start_time, 700);
}

#[test]
fn server_stops_a_batch_at_the_sentinel() {
    let mut engine = ServerEngine::new(1472);
    engine.start();
    let batch = vec![measurement(0, 64), vec![0u8; 100], measurement(1, 64)];
    engine.on_batch(&batch, 800).unwrap();
    assert_eq!(engine.state, EngineState::Done);
    // the datagram after the sentinel is not accounted
    assert_eq!(engine.history.datagrams_received, 1);
    assert_eq!(engine.history.end_time, 800);
}

#[test]
fn server_splits_a_superpacket_by_the_reported_unit() {
    // a sender-stamped buffer of three 30-byte slots, received as one
    // coalesced buffer with a 30-byte segmentation unit
    let mut buffer = PacketBuffer::new(90, 30).unwrap();
    buffer.fill_with_repeating_pattern();
    buffer.add_message_header(9, 0).unwrap();
    buffer.add_packet_ids(0).unwrap();

    let mut engine = ServerEngine::new(30);
    engine.start();
    engine.on_superpacket(buffer.get_buffer_pointer(), 30, 900).unwrap();
    assert_eq!(engine.history.datagrams_received, 3);
    assert_eq!(engine.history.omitted, 0);
    assert_eq!(engine.history.datagrams_expected, 3);
    assert_eq!(engine.history.bytes_received, 90);
}

#[test]
fn server_superpacket_keeps_the_short_tail() {
    // 70 bytes at a 30-byte unit: two full segments and a 10-byte tail,
    // which is too short for a header and is dropped as malformed
    let mut data = Vec::new();
    data.extend_from_slice(&measurement(0, 30));
    data.extend_from_slice(&measurement(1, 30));
    data.extend_from_slice(&[0u8; 10]);

    let mut engine = ServerEngine::new(30);
    engine.start();
    engine.on_superpacket(&data, 30, 0).unwrap();
    assert_eq!(engine.history.datagrams_received, 2);
    assert_eq!(engine.malformed, 1);
}

#[test]
fn recv_error_actions() {
    assert_eq!(
        ServerEngine::recv_error_action(ExchangeError::TryAgain),
        IoAction::Wait
    );
    assert_eq!(
        ServerEngine::recv_error_action(ExchangeError::Timeout),
        IoAction::Wait
    );
    assert_eq!(
        ServerEngine::recv_error_action(ExchangeError::LastMessageReceived),
        IoAction::Finish
    );
    assert_eq!(
        ServerEngine::recv_error_action(ExchangeError::HeaderTruncated),
        IoAction::Wait
    );
    assert_eq!(
        ServerEngine::recv_error_action(ExchangeError::SocketFatal),
        IoAction::Abort
    );
}
