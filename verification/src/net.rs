//! The wire codec: the 17-byte header in front of every measurement
//! datagram, and the big-endian integer fields inside it.
//!
//! Wire layout, first 17 bytes of a datagram:
//! bytes 0..8 the packet id, bytes 8..16 the test id, both unsigned
//! big-endian; byte 16 the message type.

use vstd::prelude::*;

use crate::util::ExchangeError;
use crate::HEADER_SIZE;

verus! {

/// What a datagram is for: a measurement sample, the end-of-test sentinel,
/// or the opening handshake.
#[allow(non_camel_case_types)]
#[derive(PartialEq, Eq, Structural, Clone, Copy, Debug)]
pub enum MessageType {
    MEASUREMENT,
    LAST,
    INIT,
}

/// The wire code of a message type.
pub open spec fn message_type_code(t: MessageType) -> u8 {
    match t {
        MessageType::MEASUREMENT => 0,
        MessageType::LAST => 1,
        MessageType::INIT => 2,
    }
}

/// The message type of a wire code, or `None` for a code the protocol does
/// not define.
pub open spec fn message_type_of_code(c: u8) -> Option<MessageType> {
    if c == 0 {
        Some(MessageType::MEASUREMENT)
    } else if c == 1 {
        Some(MessageType::LAST)
    } else if c == 2 {
        Some(MessageType::INIT)
    } else {
        None
    }
}

/// Byte `k` of the 8-byte big-endian encoding of `x`.
pub open spec fn be_byte(x: u64, k: int) -> u8
    recommends
        0 <= k < 8,
{
    (((x >> (((7 - k) * 8) as u64)) & 0xff) as u8)
}

/// The 8-byte big-endian encoding of `x`.
pub open spec fn u64_be_bytes(x: u64) -> Seq<u8> {
    Seq::new(8, |k: int| be_byte(x, k))
}

/// The value of 8 big-endian bytes.
pub open spec fn u64_of_be_bytes(s: Seq<u8>) -> u64
    recommends
        s.len() >= 8,
{
    (((s[0] as u64) << 56) | ((s[1] as u64) << 48) | ((s[2] as u64) << 40) | ((s[3] as u64) << 32)
        | ((s[4] as u64) << 24) | ((s[5] as u64) << 16) | ((s[6] as u64) << 8) | (s[7] as u64))
}

/// Decoding the 8-byte big-endian encoding of `x` gives back `x`.
pub proof fn lemma_be_round_trip(x: u64)
    ensures
        u64_of_be_bytes(u64_be_bytes(x)) == x,
{
    assert(((((x >> 56) & 0xff) as u8) as u64) << 56
        | ((((x >> 48) & 0xff) as u8) as u64) << 48
        | ((((x >> 40) & 0xff) as u8) as u64) << 40
        | ((((x >> 32) & 0xff) as u8) as u64) << 32
        | ((((x >> 24) & 0xff) as u8) as u64) << 24
        | ((((x >> 16) & 0xff) as u8) as u64) << 16
        | ((((x >> 8) & 0xff) as u8) as u64) << 8
        | ((x & 0xff) as u8) as u64 == x) by (bit_vector);
    assert(be_byte(x, 7) == ((x & 0xff) as u8)) by {
        assert(x >> 0 == x) by (bit_vector);
    }
}

/// `s` with bytes `start .. start + 8` replaced by the big-endian encoding
/// of `x`.
pub open spec fn write_be_at(s: Seq<u8>, start: int, x: u64) -> Seq<u8>
    recommends
        0 <= start,
        start + 8 <= s.len(),
{
    Seq::new(s.len(), |i: int| if start <= i < start + 8 { be_byte(x, i - start) } else { s[i] })
}

/// Reads the big-endian `u64` at `start`.
pub fn read_u64_be(buffer: &[u8], start: usize) -> (r: u64)
    requires
        start + 8 <= buffer.len(),
    ensures
        r == u64_of_be_bytes(buffer@.subrange(start as int, start as int + 8)),
{
    let b0 = buffer[start];
    let b1 = buffer[start + 1];
    let b2 = buffer[start + 2];
    let b3 = buffer[start + 3];
    let b4 = buffer[start + 4];
    let b5 = buffer[start + 5];
    let b6 = buffer[start + 6];
    let b7 = buffer[start + 7];
    ((b0 as u64) << 56) | ((b1 as u64) << 48) | ((b2 as u64) << 40) | ((b3 as u64) << 32) | ((
    b4 as u64) << 24) | ((b5 as u64) << 16) | ((b6 as u64) << 8) | (b7 as u64)
}

/// Writes the big-endian encoding of `x` over bytes `start .. start + 8`.
pub fn write_u64_be(buffer: &mut Vec<u8>, start: usize, x: u64)
    requires
        start + 8 <= old(buffer).len(),
    ensures
        final(buffer)@ == write_be_at(old(buffer)@, start as int, x),
{
    let ghost orig = buffer@;
    buffer[start] = ((x >> 56) & 0xff) as u8;
    buffer[start + 1] = ((x >> 48) & 0xff) as u8;
    buffer[start + 2] = ((x >> 40) & 0xff) as u8;
    buffer[start + 3] = ((x >> 32) & 0xff) as u8;
    buffer[start + 4] = ((x >> 24) & 0xff) as u8;
    buffer[start + 5] = ((x >> 16) & 0xff) as u8;
    buffer[start + 6] = ((x >> 8) & 0xff) as u8;
    buffer[start + 7] = (x & 0xff) as u8;
    proof {
        assert(x >> 0 == x) by (bit_vector);
        assert(buffer@ =~= write_be_at(orig, start as int, x));
    }
}

/// The header carried by the first bytes of every datagram.
#[derive(PartialEq, Eq, Structural, Clone, Copy, Debug)]
pub struct MessageHeader {
    pub mtype: MessageType,
    pub test_id: u64,
    pub packet_id: u64,
}

impl MessageHeader {
    /// The 17 wire bytes of this header.
    pub open spec fn spec_serialize(self) -> Seq<u8> {
        u64_be_bytes(self.packet_id) + u64_be_bytes(self.test_id) + seq![
            message_type_code(self.mtype),
        ]
    }

    /// The header encoded by the first 17 bytes of `s`, or the error a
    /// parse of `s` reports.
    pub open spec fn spec_parse(s: Seq<u8>) -> Result<MessageHeader, ExchangeError> {
        if s.len() < HEADER_SIZE {
            Err(ExchangeError::HeaderTruncated)
        } else {
            match message_type_of_code(s[16]) {
                Option::None => Err(ExchangeError::ControlMessageMalformed),
                Option::Some(t) => Ok(
                    MessageHeader {
                        mtype: t,
                        test_id: u64_of_be_bytes(s.subrange(8, 16)),
                        packet_id: u64_of_be_bytes(s.subrange(0, 8)),
                    },
                ),
            }
        }
    }

    pub fn new(mtype: MessageType, test_id: u64, packet_id: u64) -> (r: MessageHeader)
        ensures
            r == (MessageHeader { mtype, test_id, packet_id }),
    {
        MessageHeader { mtype, test_id, packet_id }
    }

    /// Replaces the packet id, leaving the other fields alone.
    pub fn set_packet_id(&mut self, packet_id: u64)
        ensures
            *final(self) == (MessageHeader { packet_id, ..*old(self) }),
    {
        self.packet_id = packet_id;
    }

    /// Serializes the header into its 17 wire bytes.
    pub fn serialize(&self) -> (r: Vec<u8>)
        ensures
            r@ == self.spec_serialize(),
            r@.len() == HEADER_SIZE,
    {
        let mut v: Vec<u8> = vec![0u8; 17];
        write_u64_be(&mut v, 0, self.packet_id);
        write_u64_be(&mut v, 8, self.test_id);
        let code: u8 = match self.mtype {
            MessageType::MEASUREMENT => 0,
            MessageType::LAST => 1,
            MessageType::INIT => 2,
        };
        v[16] = code;
        proof {
            assert(v@ =~= self.spec_serialize());
        }
        v
    }

    /// Parses the header out of the first 17 bytes; fails on a shorter
    /// input or an undefined type code.
    pub fn parse(buffer: &[u8]) -> (r: Result<MessageHeader, ExchangeError>)
        ensures
            r == Self::spec_parse(buffer@),
    {
        if buffer.len() < 17 {
            return Err(ExchangeError::HeaderTruncated);
        }
        let code = buffer[16];
        let mtype = if code == 0 {
            MessageType::MEASUREMENT
        } else if code == 1 {
            MessageType::LAST
        } else if code == 2 {
            MessageType::INIT
        } else {
            return Err(ExchangeError::ControlMessageMalformed);
        };
        let packet_id = read_u64_be(buffer, 0);
        let test_id = read_u64_be(buffer, 8);
        Ok(MessageHeader { mtype, test_id, packet_id })
    }

    /// Overwrites only the packet id, bytes `start .. start + 8`, of a
    /// serialized header sitting at `start` in `buffer`.
    pub fn set_packet_id_raw(buffer: &mut Vec<u8>, start: usize, packet_id: u64)
        requires
            start + 8 <= old(buffer).len(),
        ensures
            final(buffer)@ == write_be_at(old(buffer)@, start as int, packet_id),
    {
        write_u64_be(buffer, start, packet_id);
    }
}

/// Every header comes back from a parse of its own serialization.
pub proof fn lemma_header_round_trip(h: MessageHeader)
    ensures
        MessageHeader::spec_parse(h.spec_serialize()) == Ok::<MessageHeader, ExchangeError>(h),
{
    lemma_be_round_trip(h.packet_id);
    lemma_be_round_trip(h.test_id);
    assert(h.spec_serialize().subrange(0, 8) =~= u64_be_bytes(h.packet_id));
    assert(h.spec_serialize().subrange(8, 16) =~= u64_be_bytes(h.test_id));
    assert(h.spec_serialize()[16] == message_type_code(h.mtype));
}

/// Stamping the same packet id into the same place twice leaves every byte
/// as one stamp left it.
pub proof fn lemma_packet_id_overwrite_idempotent(s: Seq<u8>, start: int, packet_id: u64)
    requires
        0 <= start,
        start + 8 <= s.len(),
    ensures
        write_be_at(write_be_at(s, start, packet_id), start, packet_id) == write_be_at(
            s,
            start,
            packet_id,
        ),
{
    assert(write_be_at(write_be_at(s, start, packet_id), start, packet_id) =~= write_be_at(
        s,
        start,
        packet_id,
    ));
}

} // verus!
