//! One worker's datagram buffer: a contiguous payload region that holds
//! `packets_amount` datagram slots of `datagram_size` bytes each (the last
//! slot may be shorter), an ancillary-data scratch region, and a peer
//! address slot. The sender stamps consecutive packet ids into the slots
//! before every send.

use vstd::prelude::*;

use vstd::arithmetic::div_mod::lemma_fundamental_div_mod;
use vstd::arithmetic::div_mod::lemma_fundamental_div_mod_converse_div;
use vstd::arithmetic::div_mod::lemma_fundamental_div_mod_converse_mod;
use vstd::arithmetic::mul::lemma_mul_inequality;

use crate::net::be_byte;
use crate::net::u64_be_bytes;
use crate::net::u64_of_be_bytes;
use crate::net::write_u64_be;
use crate::net::lemma_be_round_trip;
use crate::net::MessageHeader;
use crate::net::MessageType;
use crate::HEADER_SIZE;

verus! {

/// Bytes of ancillary-data scratch kept beside the payload region.
pub const LENGTH_CONTROL_MESSAGE_BUFFER: usize = 100;

/// A peer endpoint as plain values: an IPv4 address and a UDP port.
#[derive(PartialEq, Eq, Structural, Clone, Copy, Debug)]
pub struct PeerAddress {
    pub ip: u32,
    pub port: u16,
}

/// The buffer itself. The payload region always keeps its full allocated
/// length; `buffer_length` is how many of its bytes are currently valid.
#[derive(Debug)]
pub struct PacketBuffer {
    pub buffer: Vec<u8>,
    pub buffer_length: usize,
    pub msg_control: Vec<u8>,
    pub with_cmsg: bool,
    pub sockaddr: Option<PeerAddress>,
    pub datagram_size: u32,
    pub last_packet_size: u32,
    pub packets_amount: usize,
}

/// Byte `j` of a payload region of shape `orig` after the first `count`
/// slots of `ds` bytes have had consecutive packet ids stamped over their
/// first 8 bytes, starting from `first_id`.
pub open spec fn id_stamped_byte(orig: Seq<u8>, ds: int, count: int, first_id: u64, j: int) -> u8 {
    if j / ds < count && j % ds < 8 {
        be_byte(((first_id + j / ds) as u64), j % ds)
    } else {
        orig[j]
    }
}

/// Byte `j` of a payload region of shape `orig` after the first `count`
/// slots of `ds` bytes have had full measurement headers stamped over
/// their first 17 bytes, with consecutive packet ids from `first_id`.
pub open spec fn header_stamped_byte(
    orig: Seq<u8>,
    ds: int,
    count: int,
    test_id: u64,
    first_id: u64,
    j: int,
) -> u8 {
    if j / ds < count && j % ds < HEADER_SIZE {
        (MessageHeader {
            mtype: MessageType::MEASUREMENT,
            test_id,
            packet_id: ((first_id + j / ds) as u64),
        }).spec_serialize()[j % ds]
    } else {
        orig[j]
    }
}

/// A position below the `i`th slot belongs to an earlier slot.
proof fn lemma_div_below(j: int, i: int, d: int)
    requires
        d > 0,
        0 <= j,
        j < i * d,
    ensures
        j / d < i,
{
    lemma_fundamental_div_mod(j, d);
    vstd::arithmetic::div_mod::lemma_mod_bound(j, d);
    if j / d >= i {
        lemma_mul_inequality(i, j / d, d);
        assert((j / d) * d == d * (j / d)) by (nonlinear_arith);
        assert(false);
    }
}

/// A position at or past the start of the `i`th slot belongs to it or a
/// later one.
proof fn lemma_div_at_least(j: int, i: int, d: int)
    requires
        d > 0,
        i >= 0,
        j >= i * d,
    ensures
        j / d >= i,
{
    vstd::arithmetic::mul::lemma_mul_nonnegative(i, d);
    lemma_fundamental_div_mod(j, d);
    vstd::arithmetic::div_mod::lemma_mod_bound(j, d);
    if j / d < i {
        lemma_mul_inequality(j / d + 1, i, d);
        assert(d * (j / d) + d == (j / d + 1) * d) by (nonlinear_arith);
        assert(false);
    }
}

/// A position inside the `i`th slot divides out to slot `i` with its
/// offset as remainder.
proof fn lemma_div_in_slot(j: int, i: int, d: int)
    requires
        d > 0,
        0 <= i,
        i * d <= j < i * d + d,
    ensures
        j / d == i,
        j % d == j - i * d,
{
    lemma_fundamental_div_mod_converse_div(j, d, i, j - i * d);
    lemma_fundamental_div_mod_converse_mod(j, d, i, j - i * d);
}

/// The first 17 bytes of every slot lie inside a well-formed region.
proof fn lemma_slot_fits(ds: int, count: int, last: int, len: int, i: int)
    requires
        ds >= 17,
        17 <= last <= ds,
        count >= 1,
        len == (count - 1) * ds + last,
        0 <= i < count,
    ensures
        0 <= i * ds,
        i * ds + 17 <= len,
{
    vstd::arithmetic::mul::lemma_mul_nonnegative(i, ds);
    lemma_mul_inequality(i, count - 1, ds);
}

/// The framing rule the sender relies on: after a stamp of consecutive
/// packet ids, the id field at the front of slot `i` reads back exactly
/// `first_id + i`, so the receiver's accounting sees the very ids the
/// sender advanced its counter by.
pub proof fn lemma_stamped_ids_parse_back(
    orig: Seq<u8>,
    ds: int,
    count: int,
    first_id: u64,
    stamped: Seq<u8>,
    i: int,
)
    requires
        ds >= 17,
        first_id + count <= u64::MAX,
        stamped.len() == orig.len(),
        forall|j: int|
            0 <= j < orig.len() ==> stamped[j] == id_stamped_byte(orig, ds, count, first_id, j),
        0 <= i < count,
        i * ds + 8 <= orig.len(),
    ensures
        u64_of_be_bytes(stamped.subrange(i * ds, i * ds + 8)) == first_id + i,
{
    let pid = ((first_id + i) as u64);
    vstd::arithmetic::mul::lemma_mul_nonnegative(i, ds);
    assert forall|k: int| 0 <= k < 8 implies stamped.subrange(i * ds, i * ds + 8)[k] == be_byte(
        pid,
        k,
    ) by {
        lemma_div_in_slot(i * ds + k, i, ds);
    }
    assert(stamped.subrange(i * ds, i * ds + 8) =~= u64_be_bytes(pid));
    lemma_be_round_trip(pid);
}

impl PacketBuffer {
    /// The shape every constructed buffer has and every method keeps:
    /// the region is `packets_amount` slots of `datagram_size` bytes, the
    /// last slot `last_packet_size` bytes, and every slot can hold at
    /// least one wire header.
    pub open spec fn wf(self) -> bool {
        &&& self.datagram_size as int >= HEADER_SIZE as int
        &&& self.packets_amount >= 1
        &&& HEADER_SIZE as int <= self.last_packet_size as int <= self.datagram_size as int
        &&& self.buffer@.len() == (self.packets_amount - 1) * (self.datagram_size as int)
            + self.last_packet_size as int
        &&& self.buffer_length <= self.buffer@.len()
        &&& self.msg_control@.len() == LENGTH_CONTROL_MESSAGE_BUFFER
    }

    /// Builds a zeroed buffer of `mss` bytes split into datagram slots.
    /// Succeeds exactly when the split leaves every slot, the short tail
    /// included, room for a wire header.
    pub fn new(mss: u32, datagram_size: u32) -> (r: Option<PacketBuffer>)
        ensures
            r is Some <==> (datagram_size >= HEADER_SIZE && mss >= 1 && (mss % datagram_size == 0
                || mss % datagram_size >= HEADER_SIZE)),
            r matches Some(b) ==> ({
                &&& b.wf()
                &&& b.buffer@.len() == mss
                &&& b.buffer_length == mss
                &&& b.datagram_size == datagram_size
                &&& b.packets_amount as int == ((mss + datagram_size - 1) as int) / (
                datagram_size as int)
                &&& b.with_cmsg == false
                &&& b.sockaddr is None
            }),
    {
        if datagram_size < 17 || mss == 0 {
            return None;
        }
        let rest = mss % datagram_size;
        if rest != 0 && rest < 17 {
            return None;
        }
        let last_packet_size = if rest == 0 {
            datagram_size
        } else {
            rest
        };
        let whole = mss / datagram_size;
        proof {
            let m = mss as int;
            let d = datagram_size as int;
            vstd::arithmetic::div_mod::lemma_div_is_ordered_by_denominator(m, 17, d);
            vstd::arithmetic::div_mod::lemma_div_is_ordered(m, 0xffff_ffffint, 17);
            assert(m / d <= 0xffff_ffffint / 17);
        }
        let packets_amount: usize = if rest == 0 {
            whole as usize
        } else {
            whole as usize + 1
        };
        let buffer = vec![0u8; mss as usize];
        let msg_control = vec![0u8; LENGTH_CONTROL_MESSAGE_BUFFER];
        let b = PacketBuffer {
            buffer,
            buffer_length: mss as usize,
            msg_control,
            with_cmsg: false,
            sockaddr: None,
            datagram_size,
            last_packet_size,
            packets_amount,
        };
        proof {
            let m = mss as int;
            let d = datagram_size as int;
            let q = m / d;
            let r = m % d;
            lemma_fundamental_div_mod(m, d);
            vstd::arithmetic::div_mod::lemma_mod_bound(m, d);
            if rest == 0 {
                assert(q >= 1) by (nonlinear_arith)
                    requires
                        m == d * q,
                        m >= 1,
                        d >= 1,
                ;
                assert((q - 1) * d + d == d * q) by (nonlinear_arith);
                assert(d * q == q * d) by (nonlinear_arith);
                assert(m + d - 1 == q * d + (d - 1));
                lemma_fundamental_div_mod_converse_div(m + d - 1, d, q, d - 1);
            } else {
                assert(q >= 0) by (nonlinear_arith)
                    requires
                        m == d * q + r,
                        0 < r < d,
                        m >= 1,
                ;
                assert(q * d == d * q) by (nonlinear_arith);
                assert((q + 1) * d == d * (q + 1)) by (nonlinear_arith);
                assert(d * (q + 1) + (r - 1) == d * q + r + d - 1) by (nonlinear_arith);
                lemma_fundamental_div_mod_converse_div(m + d - 1, d, q + 1, r - 1);
            }
        }
        Some(b)
    }

    /// Stores the peer address in the address slot.
    pub fn set_address(&mut self, sockaddr: PeerAddress)
        ensures
            *final(self) == (PacketBuffer {
                sockaddr: Some(sockaddr),
                ..*old(self)
            }),
    {
        self.sockaddr = Some(sockaddr);
    }

    /// Requests that ancillary data be carried beside the payload. Whoever
    /// hands the buffer to a syscall must publish the scratch region anew
    /// on every use.
    pub fn add_cmsg_buffer(&mut self)
        ensures
            *final(self) == (PacketBuffer { with_cmsg: true, ..*old(self) }),
    {
        self.with_cmsg = true;
    }

    /// Fills the whole payload region with the repeating ASCII digits
    /// `'0'..'9'`.
    pub fn fill_with_repeating_pattern(&mut self)
        ensures
            final(self).buffer@.len() == old(self).buffer@.len(),
            forall|j: int|
                0 <= j < final(self).buffer@.len() ==> final(self).buffer@[j] == 48 + (j % 10),
            *final(self) == (PacketBuffer { buffer: final(self).buffer, ..*old(self) }),
    {
        let len = self.buffer.len();
        let mut counter: u8 = 0;
        let mut i: usize = 0;
        while i < len
            invariant
                i <= len,
                len == self.buffer@.len(),
                counter as int == i as int % 10,
                forall|j: int| 0 <= j < i ==> self.buffer@[j] == 48 + (j % 10),
                *self == (PacketBuffer { buffer: self.buffer, ..*old(self) }),
            decreases len - i,
        {
            self.buffer[i] = 48 + counter;
            if counter >= 9 {
                counter = 0;
            } else {
                counter = counter + 1;
            }
            i = i + 1;
        }
    }

    /// Stamps every slot with a full measurement header carrying
    /// consecutive packet ids `packet_id .. packet_id + packets_amount`,
    /// and returns how many ids were used.
    pub fn add_message_header(&mut self, test_id: u64, packet_id: u64) -> (r: Result<
        u64,
        &'static str,
    >)
        requires
            old(self).wf(),
            packet_id + old(self).packets_amount <= u64::MAX,
        ensures
            r == Ok::<u64, &'static str>(old(self).packets_amount as u64),
            final(self).buffer@.len() == old(self).buffer@.len(),
            forall|j: int|
                0 <= j < old(self).buffer@.len() ==> final(self).buffer@[j] == header_stamped_byte(
                    old(self).buffer@,
                    old(self).datagram_size as int,
                    old(self).packets_amount as int,
                    test_id,
                    packet_id,
                    j,
                ),
            forall|i: int|
                0 <= i < old(self).packets_amount ==> #[trigger] MessageHeader::spec_parse(
                    final(self).buffer@.subrange(
                        i * old(self).datagram_size as int,
                        i * old(self).datagram_size as int + 17,
                    ),
                ) == Ok::<MessageHeader, crate::util::ExchangeError>(
                    MessageHeader {
                        mtype: MessageType::MEASUREMENT,
                        test_id,
                        packet_id: ((packet_id + i) as u64),
                    },
                ),
            *final(self) == (PacketBuffer { buffer: final(self).buffer, ..*old(self) }),
            final(self).wf(),
    {
        let ghost orig_buf = self.buffer@;
        let count = self.packets_amount;
        let ds = self.datagram_size as usize;
        let buf_len = self.buffer.len();
        let mut i: usize = 0;
        while i < count
            invariant
                self.wf(),
                i <= count,
                count == self.packets_amount,
                ds == self.datagram_size,
                packet_id + count <= u64::MAX,
                buf_len == self.buffer@.len(),
                self.buffer@.len() == orig_buf.len(),
                forall|j: int|
                    0 <= j < orig_buf.len() ==> self.buffer@[j] == header_stamped_byte(
                        orig_buf,
                        ds as int,
                        i as int,
                        test_id,
                        packet_id,
                        j,
                    ),
                *self == (PacketBuffer { buffer: self.buffer, ..*old(self) }),
            decreases count - i,
        {
            proof {
                lemma_slot_fits(
                    ds as int,
                    count as int,
                    self.last_packet_size as int,
                    self.buffer@.len() as int,
                    i as int,
                );
            }
            let start = i * ds;
            let ghost prev = self.buffer@;
            let ghost pid = (packet_id + i as int) as u64;
            write_u64_be(&mut self.buffer, start, packet_id + i as u64);
            write_u64_be(&mut self.buffer, start + 8, test_id);
            self.buffer[start + 16] = 0;
            proof {
                let dsi = ds as int;
                let st = start as int;
                let header = (MessageHeader {
                    mtype: MessageType::MEASUREMENT,
                    test_id,
                    packet_id: pid,
                });
                assert((i as int + 1) * dsi == i as int * dsi + dsi) by (nonlinear_arith);
                assert forall|j: int|
                    0 <= j < orig_buf.len() implies self.buffer@[j] == header_stamped_byte(
                    orig_buf,
                    dsi,
                    i as int + 1,
                    test_id,
                    packet_id,
                    j,
                ) by {
                    if st <= j < st + 17 {
                        lemma_div_in_slot(j, i as int, dsi);
                        if j < st + 8 {
                            assert(self.buffer@[j] == be_byte(pid, j - st));
                        } else if j < st + 16 {
                            assert(self.buffer@[j] == be_byte(test_id, j - (st + 8)));
                        } else {
                            assert(self.buffer@[j] == 0);
                        }
                        assert(header.spec_serialize()[j % dsi] == self.buffer@[j]);
                    } else if j < st {
                        lemma_div_below(j, i as int, dsi);
                    } else if j < st + dsi {
                        lemma_div_in_slot(j, i as int, dsi);
                    } else {
                        lemma_div_at_least(j, i as int + 1, dsi);
                    }
                }
            }
            i = i + 1;
        }
        proof {
            assert forall|s: int| 0 <= s < count implies #[trigger] MessageHeader::spec_parse(
                self.buffer@.subrange(s * ds as int, s * ds as int + 17),
            ) == Ok::<MessageHeader, crate::util::ExchangeError>(
                MessageHeader {
                    mtype: MessageType::MEASUREMENT,
                    test_id,
                    packet_id: ((packet_id + s) as u64),
                },
            ) by {
                lemma_slot_fits(
                    ds as int,
                    count as int,
                    self.last_packet_size as int,
                    self.buffer@.len() as int,
                    s,
                );
                let header = (MessageHeader {
                    mtype: MessageType::MEASUREMENT,
                    test_id,
                    packet_id: ((packet_id + s) as u64),
                });
                assert forall|k: int|
                    0 <= k < 17 implies #[trigger] self.buffer@.subrange(
                    s * ds as int,
                    s * ds as int + 17,
                )[k] == header.spec_serialize()[k] by {
                    lemma_div_in_slot(s * ds as int + k, s, ds as int);
                }
                assert(self.buffer@.subrange(s * ds as int, s * ds as int + 17)
                    =~= header.spec_serialize());
                crate::net::lemma_header_round_trip(header);
            }
        }
        Ok(count as u64)
    }

    /// Overwrites only the packet-id field of every slot's header with
    /// consecutive ids `packet_id .. packet_id + packets_amount`, and
    /// returns how many ids were used.
    pub fn add_packet_ids(&mut self, packet_id: u64) -> (r: Result<u64, &'static str>)
        requires
            old(self).wf(),
            packet_id + old(self).packets_amount <= u64::MAX,
        ensures
            r == Ok::<u64, &'static str>(old(self).packets_amount as u64),
            final(self).buffer@.len() == old(self).buffer@.len(),
            forall|j: int|
                0 <= j < old(self).buffer@.len() ==> final(self).buffer@[j] == id_stamped_byte(
                    old(self).buffer@,
                    old(self).datagram_size as int,
                    old(self).packets_amount as int,
                    packet_id,
                    j,
                ),
            forall|i: int|
                0 <= i < old(self).packets_amount ==> #[trigger] u64_of_be_bytes(
                    final(self).buffer@.subrange(
                        i * old(self).datagram_size as int,
                        i * old(self).datagram_size as int + 8,
                    ),
                ) == packet_id + i,
            *final(self) == (PacketBuffer { buffer: final(self).buffer, ..*old(self) }),
            final(self).wf(),
    {
        let ghost orig_buf = self.buffer@;
        let count = self.packets_amount;
        let ds = self.datagram_size as usize;
        let buf_len = self.buffer.len();
        let mut i: usize = 0;
        while i < count
            invariant
                self.wf(),
                i <= count,
                count == self.packets_amount,
                ds == self.datagram_size,
                packet_id + count <= u64::MAX,
                buf_len == self.buffer@.len(),
                self.buffer@.len() == orig_buf.len(),
                forall|j: int|
                    0 <= j < orig_buf.len() ==> self.buffer@[j] == id_stamped_byte(
                        orig_buf,
                        ds as int,
                        i as int,
                        packet_id,
                        j,
                    ),
                *self == (PacketBuffer { buffer: self.buffer, ..*old(self) }),
            decreases count - i,
        {
            proof {
                lemma_slot_fits(
                    ds as int,
                    count as int,
                    self.last_packet_size as int,
                    self.buffer@.len() as int,
                    i as int,
                );
            }
            let start = i * ds;
            let ghost pid = (packet_id + i as int) as u64;
            write_u64_be(&mut self.buffer, start, packet_id + i as u64);
            proof {
                let dsi = ds as int;
                let st = start as int;
                assert((i as int + 1) * dsi == i as int * dsi + dsi) by (nonlinear_arith);
                assert forall|j: int|
                    0 <= j < orig_buf.len() implies self.buffer@[j] == id_stamped_byte(
                    orig_buf,
                    dsi,
                    i as int + 1,
                    packet_id,
                    j,
                ) by {
                    if st <= j < st + 8 {
                        lemma_div_in_slot(j, i as int, dsi);
                    } else if j < st {
                        lemma_div_below(j, i as int, dsi);
                    } else if j < st + dsi {
                        lemma_div_in_slot(j, i as int, dsi);
                    } else {
                        lemma_div_at_least(j, i as int + 1, dsi);
                    }
                }
            }
            i = i + 1;
        }
        proof {
            assert forall|s: int| 0 <= s < count implies #[trigger] u64_of_be_bytes(
                self.buffer@.subrange(s * ds as int, s * ds as int + 8),
            ) == packet_id + s by {
                lemma_slot_fits(
                    ds as int,
                    count as int,
                    self.last_packet_size as int,
                    self.buffer@.len() as int,
                    s,
                );
                lemma_stamped_ids_parse_back(
                    orig_buf,
                    ds as int,
                    count as int,
                    packet_id,
                    self.buffer@,
                    s,
                );
            }
        }
        Ok(count as u64)
    }

    /// A read view of the whole payload region.
    pub fn get_buffer_pointer(&self) -> (r: &[u8])
        ensures
            r@ == self.buffer@,
    {
        self.buffer.as_slice()
    }

    /// Replaces the front of the payload region with `buffer` and marks
    /// only those bytes valid; a source longer than the valid region is
    /// ignored.
    pub fn copy_buffer(&mut self, buffer: &[u8])
        requires
            old(self).buffer_length <= old(self).buffer@.len(),
        ensures
            buffer@.len() > old(self).buffer_length ==> *final(self) == *old(self),
            buffer@.len() <= old(self).buffer_length ==> ({
                &&& final(self).buffer_length == buffer@.len()
                &&& final(self).buffer@.len() == old(self).buffer@.len()
                &&& (forall|j: int|
                    0 <= j < buffer@.len() ==> final(self).buffer@[j] == buffer@[j])
                &&& (forall|j: int|
                    buffer@.len() <= j < old(self).buffer@.len() ==> final(self).buffer@[j]
                        == old(self).buffer@[j])
                &&& *final(self) == (PacketBuffer {
                    buffer: final(self).buffer,
                    buffer_length: buffer@.len() as usize,
                    ..*old(self)
                })
            }),
    {
        if buffer.len() <= self.buffer_length {
            self.buffer_length = buffer.len();
            let mut i: usize = 0;
            while i < buffer.len()
                invariant
                    i <= buffer@.len(),
                    buffer@.len() <= self.buffer@.len(),
                    self.buffer@.len() == old(self).buffer@.len(),
                    forall|j: int| 0 <= j < i ==> self.buffer@[j] == buffer@[j],
                    forall|j: int|
                        i <= j < old(self).buffer@.len() ==> self.buffer@[j] == old(
                            self,
                        ).buffer@[j],
                    *self == (PacketBuffer {
                        buffer: self.buffer,
                        buffer_length: buffer@.len() as usize,
                        ..*old(self)
                    }),
                decreases buffer@.len() - i,
            {
                self.buffer[i] = buffer[i];
                i = i + 1;
            }
        }
    }

    /// How many bytes of the payload region are currently valid.
    pub fn get_buffer_length(&self) -> (r: usize)
        ensures
            r == self.buffer_length,
    {
        self.buffer_length
    }

    /// How many datagram slots the region holds.
    pub fn get_packet_amount(&self) -> (r: usize)
        ensures
            r == self.packets_amount,
    {
        self.packets_amount
    }

    /// The size of one datagram slot.
    pub fn get_datagram_size(&self) -> (r: u32)
        ensures
            r == self.datagram_size,
    {
        self.datagram_size
    }
}

} // verus!
