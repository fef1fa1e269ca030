use udperf::net::MessageHeader;
use udperf::net::MessageType;
use udperf::packet_buffer::PacketBuffer;
use udperf::packet_buffer::PeerAddress;

#[test]
fn new_single_slot_buffer() {
    let buffer = PacketBuffer::new(1472, 1472).unwrap();
    assert_eq!(buffer.get_packet_amount(), 1);
    assert_eq!(buffer.get_buffer_length(), 1472);
    assert_eq!(buffer.get_datagram_size(), 1472);
    assert_eq!(buffer.get_buffer_pointer().len(), 1472);
}

#[test]
fn new_splits_into_slots() {
    // 90 = 3 slots of 30 bytes
    let buffer = PacketBuffer::new(90, 30).unwrap();
    assert_eq!(buffer.get_packet_amount(), 3);
    // 100 = 2 slots of 40 and a 20-byte tail
    let buffer = PacketBuffer::new(100, 40).unwrap();
    assert_eq!(buffer.get_packet_amount(), 3);
}

#[test]
fn new_rejects_slots_too_small_for_a_header() {
    // a datagram smaller than the 17-byte header
    assert!(PacketBuffer::new(1472, 16).is_none());
    // a tail of 10 bytes cannot hold a header
    assert!(PacketBuffer::new(100, 30).is_none());
    // an empty region holds no datagram
    assert!(PacketBuffer::new(0, 1472).is_none());
}

#[test]
fn fill_with_repeating_pattern_writes_digits() {
    let mut buffer = PacketBuffer::new(25, 25).unwrap();
    buffer.fill_with_repeating_pattern();
    let bytes = buffer.get_buffer_pointer();
    for (i, b) in bytes.iter().enumerate() {
        assert_eq!(*b, b'0' + (i % 10) as u8);
    }
    assert_eq!(bytes[0], b'0');
    assert_eq!(bytes[9], b'9');
    assert_eq!(bytes[10], b'0');
}

#[test]
fn add_packet_ids_stamps_consecutive_ids() {
    let mut buffer = PacketBuffer::new(90, 30).unwrap();
    buffer.fill_with_repeating_pattern();
    let used = buffer.add_packet_ids(1000).unwrap();
    assert_eq!(used, 3);
    let bytes = buffer.get_buffer_pointer();
    for slot in 0..3usize {
        let start = slot * 30;
        let id = u64::from_be_bytes(bytes[start..start + 8].try_into().unwrap());
        assert_eq!(id, 1000 + slot as u64);
        // the rest of the slot keeps the fill pattern
        assert_eq!(bytes[start + 8], b'0' + ((start + 8) % 10) as u8);
    }
}

#[test]
fn add_message_header_stamps_full_headers() {
    let mut buffer = PacketBuffer::new(80, 40).unwrap();
    let used = buffer.add_message_header(77, 5).unwrap();
    assert_eq!(used, 2);
    let bytes = buffer.get_buffer_pointer();
    for slot in 0..2usize {
        let start = slot * 40;
        let header = MessageHeader::parse(&bytes[start..start + 17]).unwrap();
        assert_eq!(header.mtype, MessageType::MEASUREMENT);
        assert_eq!(header.test_id, 77);
        assert_eq!(header.packet_id, 5 + slot as u64);
    }
}

#[test]
fn copy_buffer_replaces_front_and_shrinks() {
    let mut buffer = PacketBuffer::new(30, 30).unwrap();
    buffer.fill_with_repeating_pattern();
    buffer.copy_buffer(&[9, 8, 7]);
    assert_eq!(buffer.get_buffer_length(), 3);
    let bytes = buffer.get_buffer_pointer();
    assert_eq!(&bytes[0..3], &[9, 8, 7]);
    // bytes past the copied front keep the pattern
    assert_eq!(bytes[3], b'3');
    // a source longer than the valid region is ignored
    buffer.copy_buffer(&[1, 2, 3, 4]);
    assert_eq!(buffer.get_buffer_length(), 3);
}

#[test]
fn address_and_cmsg_flags() {
    let mut buffer = PacketBuffer::new(30, 30).unwrap();
    assert!(buffer.sockaddr.is_none());
    assert!(!buffer.with_cmsg);
    buffer.set_address(PeerAddress { ip: 0x7f000001, port: 45001 });
    buffer.add_cmsg_buffer();
    assert_eq!(
        buffer.sockaddr,
        Some(PeerAddress { ip: 0x7f000001, port: 45001 })
    );
    assert!(buffer.with_cmsg);
    assert_eq!(buffer.msg_control.len(), 100);
}
