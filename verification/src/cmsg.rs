//! The ancillary-data codec of the offload path, over plain bytes in the
//! layout of a 64-bit little-endian Linux control buffer: each record is
//! a 16-byte header — an 8-byte record length, a 4-byte level, a 4-byte
//! type — followed by its data, and records step by the length rounded up
//! to 8. The sender builds the record that declares the segmentation
//! unit; the receiver walks a received buffer for the record that reports
//! it.

use vstd::prelude::*;

use vstd::arithmetic::div_mod::lemma_fundamental_div_mod;
use vstd::arithmetic::div_mod::lemma_mod_bound;

verus! {

/// The socket level of the UDP offload records.
pub const SOL_UDP: u32 = 17;

/// The record type declaring the transmit segmentation unit.
pub const UDP_SEGMENT: u32 = 103;

/// The record type reporting the receive segmentation unit.
pub const UDP_GRO: u32 = 104;

/// Bytes of one record header.
pub const CMSG_HEADER_LEN: u64 = 16;

/// The value of 2 little-endian bytes.
pub open spec fn u16_of_le_bytes(s: Seq<u8>) -> u16
    recommends
        s.len() >= 2,
{
    ((s[0] + 256 * s[1]) as u16)
}

/// The value of 4 little-endian bytes.
pub open spec fn u32_of_le_bytes(s: Seq<u8>) -> u32
    recommends
        s.len() >= 4,
{
    ((s[0] + 256 * s[1] + 65536 * s[2] + 16777216 * s[3]) as u32)
}

/// The value of 8 little-endian bytes.
pub open spec fn u64_of_le_bytes(s: Seq<u8>) -> u64
    recommends
        s.len() >= 8,
{
    ((s[0] + 256 * s[1] + 65536 * s[2] + 16777216 * s[3] + 4294967296 * s[4] + 1099511627776 * s[5]
        + 281474976710656 * s[6] + 72057594037927936 * s[7]) as u64)
}

/// A record length rounded up to the 8-byte record alignment.
pub open spec fn cmsg_align(n: int) -> int {
    ((n + 7) / 8) * 8
}

/// Rounding up to the alignment never shrinks a length and keeps a whole
/// header's worth of bytes.
proof fn lemma_align_bounds(n: int)
    requires
        n >= 16,
    ensures
        cmsg_align(n) >= n,
        cmsg_align(n) >= 16,
{
    lemma_fundamental_div_mod(n + 7, 8);
    lemma_mod_bound(n + 7, 8);
    assert(((n + 7) / 8) * 8 == 8 * ((n + 7) / 8)) by (nonlinear_arith);
}

/// The segmentation unit the record at `o` or a later one reports, or
/// `None` where the walk runs off the buffer, meets a record too short to
/// be one, or exhausts the records.
pub open spec fn spec_find_gro(s: Seq<u8>, o: int) -> Option<u32>
    recommends
        0 <= o,
    decreases s.len() - o,
{
    if o < 0 || o + 16 > s.len() {
        None
    } else {
        let l = u64_of_le_bytes(s.subrange(o, o + 8)) as int;
        let level = u32_of_le_bytes(s.subrange(o + 8, o + 12));
        let typ = u32_of_le_bytes(s.subrange(o + 12, o + 16));
        if l < 16 {
            None
        } else if level == SOL_UDP && typ == UDP_GRO {
            if l >= 20 && o + 20 <= s.len() {
                Some(u32_of_le_bytes(s.subrange(o + 16, o + 20)))
            } else {
                None
            }
        } else {
            let step = cmsg_align(l);
            if step < 16 || o + step + 16 > s.len() {
                None
            } else {
                spec_find_gro(s, o + step)
            }
        }
    }
}

/// Reads the little-endian `u32` at `start`.
pub fn read_u32_le(buffer: &[u8], start: usize) -> (r: u32)
    requires
        start + 4 <= buffer.len(),
    ensures
        r == u32_of_le_bytes(buffer@.subrange(start as int, start as int + 4)),
{
    let b0 = buffer[start] as u32;
    let b1 = buffer[start + 1] as u32;
    let b2 = buffer[start + 2] as u32;
    let b3 = buffer[start + 3] as u32;
    b0 + 256 * b1 + 65536 * b2 + 16777216 * b3
}

/// Reads the little-endian `u64` at `start`.
pub fn read_u64_le(buffer: &[u8], start: usize) -> (r: u64)
    requires
        start + 8 <= buffer.len(),
    ensures
        r == u64_of_le_bytes(buffer@.subrange(start as int, start as int + 8)),
{
    let b0 = buffer[start] as u64;
    let b1 = buffer[start + 1] as u64;
    let b2 = buffer[start + 2] as u64;
    let b3 = buffer[start + 3] as u64;
    let b4 = buffer[start + 4] as u64;
    let b5 = buffer[start + 5] as u64;
    let b6 = buffer[start + 6] as u64;
    let b7 = buffer[start + 7] as u64;
    b0 + 256 * b1 + 65536 * b2 + 16777216 * b3 + 4294967296 * b4 + 1099511627776 * b5
        + 281474976710656 * b6 + 72057594037927936 * b7
}

/// Walks a received control buffer for the record that reports the
/// receive segmentation unit, and returns its value.
pub fn parse_gro_size(control: &[u8]) -> (r: Option<u32>)
    ensures
        r == spec_find_gro(control@, 0),
{
    let len = control.len();
    let mut o: usize = 0;
    loop
        invariant
            o <= len,
            len == control@.len(),
            spec_find_gro(control@, o as int) == spec_find_gro(control@, 0),
        decreases len - o,
    {
        if len - o < 16 {
            return None;
        }
        let l = read_u64_le(control, o);
        let level = read_u32_le(control, o + 8);
        let typ = read_u32_le(control, o + 12);
        if l < 16 {
            return None;
        }
        if level == SOL_UDP && typ == UDP_GRO {
            if l >= 20 && len - o >= 20 {
                return Some(read_u32_le(control, o + 16));
            } else {
                return None;
            }
        }
        proof {
            lemma_align_bounds(l as int);
        }
        let step128: u128 = ((l as u128) + 7) / 8 * 8;
        let rem128: u128 = (len - o) as u128;
        if step128 + 16 > rem128 {
            return None;
        }
        o = o + (step128 as usize);
    }
}

/// Builds the outgoing record that asks the kernel to split the buffer
/// into `segment_size`-byte datagrams: one aligned record of level
/// `SOL_UDP` and type `UDP_SEGMENT` whose data is the size.
pub fn build_gso_cmsg(segment_size: u16) -> (r: Vec<u8>)
    ensures
        r@.len() == 24,
        u64_of_le_bytes(r@.subrange(0, 8)) == 18,
        u32_of_le_bytes(r@.subrange(8, 12)) == SOL_UDP,
        u32_of_le_bytes(r@.subrange(12, 16)) == UDP_SEGMENT,
        u16_of_le_bytes(r@.subrange(16, 18)) == segment_size,
        forall|j: int| 18 <= j < 24 ==> r@[j] == 0,
{
    let mut r: Vec<u8> = Vec::new();
    r.push(18);
    let mut i: usize = 1;
    while i < 8
        invariant
            1 <= i <= 8,
            r@.len() == i,
            r@[0] == 18u8,
            forall|j: int| 1 <= j < i ==> r@[j] == 0u8,
        decreases 8 - i,
    {
        r.push(0);
        i = i + 1;
    }
    r.push(17);
    r.push(0);
    r.push(0);
    r.push(0);
    r.push(103);
    r.push(0);
    r.push(0);
    r.push(0);
    r.push((segment_size % 256) as u8);
    r.push((segment_size / 256) as u8);
    let mut k: usize = 18;
    while k < 24
        invariant
            18 <= k <= 24,
            r@.len() == k,
            u64_of_le_bytes(r@.subrange(0, 8)) == 18,
            u32_of_le_bytes(r@.subrange(8, 12)) == SOL_UDP,
            u32_of_le_bytes(r@.subrange(12, 16)) == UDP_SEGMENT,
            u16_of_le_bytes(r@.subrange(16, 18)) == segment_size,
            forall|j: int| 18 <= j < k ==> r@[j] == 0,
        decreases 24 - k,
    {
        let ghost prev = r@;
        r.push(0);
        proof {
            assert(r@.subrange(0, 8) =~= prev.subrange(0, 8));
            assert(r@.subrange(8, 12) =~= prev.subrange(8, 12));
            assert(r@.subrange(12, 16) =~= prev.subrange(12, 16));
            assert(r@.subrange(16, 18) =~= prev.subrange(16, 18));
        }
        k = k + 1;
    }
    r
}

} // verus!
