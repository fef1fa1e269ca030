use udperf::net::MessageHeader;
use udperf::net::MessageType;
use udperf::net::read_u64_be;
use udperf::net::write_u64_be;
use udperf::util::ExchangeError;

#[test]
fn header_round_trip() {
    let header = MessageHeader::new(MessageType::MEASUREMENT, 42, 0x0102030405060708);
    let wire = header.serialize();
    assert_eq!(wire.len(), 17);
    let parsed = MessageHeader::parse(&wire).unwrap();
    assert_eq!(parsed, header);
}

#[test]
fn header_round_trip_all_types() {
    for mtype in [MessageType::MEASUREMENT, MessageType::LAST, MessageType::INIT] {
        let header = MessageHeader::new(mtype, u64::MAX, 0);
        let parsed = MessageHeader::parse(&header.serialize()).unwrap();
        assert_eq!(parsed, header);
    }
}

#[test]
fn serialize_exact_bytes() {
    let header = MessageHeader::new(MessageType::LAST, 0x1122334455667788, 0x0102030405060708);
    let wire = header.serialize();
    assert_eq!(
        wire,
        vec![
            0x01, 0x02, 0x03, 0x04, 0x05, 0x06, 0x07, 0x08, // packet id, big-endian
            0x11, 0x22, 0x33, 0x44, 0x55, 0x66, 0x77, 0x88, // test id, big-endian
            1, // type code of the sentinel
        ]
    );
}

#[test]
fn parse_truncated_header_fails() {
    let wire = vec![0u8; 16];
    assert_eq!(
        MessageHeader::parse(&wire),
        Err(ExchangeError::HeaderTruncated)
    );
}

#[test]
fn parse_undefined_type_code_fails() {
    let mut wire = vec![0u8; 17];
    wire[16] = 3;
    assert_eq!(
        MessageHeader::parse(&wire),
        Err(ExchangeError::ControlMessageMalformed)
    );
}

#[test]
fn packet_id_overwrite_is_idempotent() {
    let header = MessageHeader::new(MessageType::MEASUREMENT, 7, 1);
    let mut once = header.serialize();
    once.extend_from_slice(&[9, 9, 9]);
    let mut twice = once.clone();
    MessageHeader::set_packet_id_raw(&mut once, 0, 0xdeadbeef);
    MessageHeader::set_packet_id_raw(&mut twice, 0, 0xdeadbeef);
    MessageHeader::set_packet_id_raw(&mut twice, 0, 0xdeadbeef);
    assert_eq!(once, twice);
    assert_eq!(&once[0..8], &twice[0..8]);
}

#[test]
fn set_packet_id_changes_only_the_id() {
    let header = MessageHeader::new(MessageType::MEASUREMENT, 7, 1);
    let mut wire = header.serialize();
    MessageHeader::set_packet_id_raw(&mut wire, 0, 2);
    let parsed = MessageHeader::parse(&wire).unwrap();
    assert_eq!(parsed.packet_id, 2);
    assert_eq!(parsed.test_id, 7);
    assert_eq!(parsed.mtype, MessageType::MEASUREMENT);
}

#[test]
fn u64_big_endian_round_trip() {
    let mut buffer = vec![0u8; 12];
    write_u64_be(&mut buffer, 2, 0xfeedface12345678);
    assert_eq!(read_u64_be(&buffer, 2), 0xfeedface12345678);
    assert_eq!(buffer[0], 0);
    assert_eq!(buffer[1], 0);
    assert_eq!(buffer[2], 0xfe);
    assert_eq!(buffer[9], 0x78);
}
