//! Small shared types — the tool's mode, the syscall batching shapes, the
//! I/O scheduling models, the error taxonomy — and the per-datagram
//! sequence accounting that classifies every received packet id as in
//! order, lost, reordered or duplicated.

use vstd::prelude::*;

use crate::history::History;
use crate::net::u64_of_be_bytes;
use crate::HEADER_SIZE;
use crate::MAX_PACKET_ID_LOOKAHEAD;

verus! {

/// Which side of the measurement this process runs.
#[derive(PartialEq, Eq, Structural, Clone, Copy, Debug)]
pub enum NPerfMode {
    Client,
    Server,
}

/// Which syscall shape a worker uses to move datagrams.
#[derive(PartialEq, Eq, Structural, Clone, Copy, Debug)]
pub enum ExchangeFunction {
    Normal,
    Msg,
    Mmsg,
}

/// The error taxonomy of the exchange: transient conditions the hot loop
/// retries, per-datagram parse failures that drop one datagram, control
/// signals, and fatal socket states.
#[derive(PartialEq, Eq, Structural, Clone, Copy, Debug)]
pub enum ExchangeError {
    /// The peer was not listening at the very first send.
    ConnectionRefused,
    /// The socket was not ready; retry through the I/O driver.
    TryAgain,
    /// The end-of-test sentinel datagram arrived; not a failure.
    LastMessageReceived,
    /// A datagram shorter than the wire header; the datagram is dropped.
    HeaderTruncated,
    /// An ancillary or header field that no rule of the protocol allows.
    ControlMessageMalformed,
    /// An unrecoverable socket or protocol state; the worker fails.
    SocketFatal,
    /// A readiness wait elapsed without the socket becoming ready.
    Timeout,
}

/// How a worker schedules its next attempt when the socket is not ready.
#[derive(PartialEq, Eq, Structural, Clone, Copy, Debug)]
pub enum IOModel {
    BusyWaiting,
    Select,
    Poll,
    IOUring,
}

/// Maps the mode word of the command line to a mode, or `None` for any
/// other word.
pub fn parse_mode(mode: String) -> (r: Option<NPerfMode>)
    ensures
        r == Some(NPerfMode::Client) <==> mode@ == "client"@,
        r == Some(NPerfMode::Server) <==> mode@ == "server"@,
        r is None <==> (mode@ != "client"@ && mode@ != "server"@),
{
    proof {
        reveal_strlit("client");
        reveal_strlit("server");
        assert("client"@[0] != "server"@[0]);
        assert("client"@ != "server"@);
    }
    if mode == "client".to_owned() {
        Some(NPerfMode::Client)
    } else if mode == "server".to_owned() {
        Some(NPerfMode::Server)
    } else {
        None
    }
}

/// The process exit code once every worker has been joined: success needs
/// every sender worker to finish, but on the receiver side one standing
/// worker is enough.
pub fn exit_code(mode: NPerfMode, failed_workers: u64, finished_workers: u64) -> (r: u8)
    ensures
        mode is Client ==> (r == 0 <==> failed_workers == 0),
        mode is Server ==> (r == 0 <==> finished_workers > 0),
        r == 0 || r == 1,
{
    match mode {
        NPerfMode::Client => if failed_workers == 0 {
            0
        } else {
            1
        },
        NPerfMode::Server => if finished_workers > 0 {
            0
        } else {
            1
        },
    }
}

/// Whether a sealed worker history takes part in the aggregate: a failed
/// worker is left out only when it never moved a byte.
pub fn include_in_aggregate(failed: bool, bytes_sent: u64, bytes_received: u64) -> (r: bool)
    ensures
        r == (!failed || bytes_sent > 0 || bytes_received > 0),
{
    !failed || bytes_sent > 0 || bytes_received > 0
}

/// The mathematical state of one receiver's sequence accounting: the next
/// packet id it expects, and how it has classified what arrived so far.
pub ghost struct AccountState {
    pub next_id: int,
    pub received: int,
    pub omitted: int,
    pub reordered: int,
    pub duplicated: int,
}

/// The accounting state before any datagram has arrived.
pub open spec fn account_start() -> AccountState {
    AccountState { next_id: 0, received: 0, omitted: 0, reordered: 0, duplicated: 0 }
}

/// One datagram with packet id `id` arrives: in order advances the
/// expectation; a forward jump books the skipped slots as omitted; a late
/// id reclaims an omitted slot as reordered if one is outstanding, and
/// otherwise counts as duplicated.
pub open spec fn account_step(s: AccountState, id: int) -> AccountState {
    if id == s.next_id {
        AccountState { next_id: s.next_id + 1, received: s.received + 1, ..s }
    } else if id > s.next_id {
        AccountState {
            next_id: id + 1,
            received: s.received + 1,
            omitted: s.omitted + (id - s.next_id),
            ..s
        }
    } else if s.omitted > 0 {
        AccountState {
            received: s.received + 1,
            omitted: s.omitted - 1,
            reordered: s.reordered + 1,
            ..s
        }
    } else {
        AccountState { received: s.received + 1, duplicated: s.duplicated + 1, ..s }
    }
}

/// The accounting state after the packet ids `ids` have arrived in order,
/// starting from `s`.
pub open spec fn account_run(s: AccountState, ids: Seq<u64>) -> AccountState
    decreases ids.len(),
{
    if ids.len() == 0 {
        s
    } else {
        account_step(account_run(s, ids.drop_last()), ids.last() as int)
    }
}

/// One more than the highest packet id in `ids`, or 0 for no ids.
pub open spec fn max_id_plus_one(ids: Seq<u64>) -> int
    decreases ids.len(),
{
    if ids.len() == 0 {
        0
    } else {
        let rest = max_id_plus_one(ids.drop_last());
        if ids.last() as int + 1 > rest {
            ids.last() as int + 1
        } else {
            rest
        }
    }
}

/// What every run of the accounting from a fresh state maintains: each
/// datagram is classified exactly once, no class goes negative, the
/// outstanding omitted count never exceeds the expectation, the
/// expectation tracks the highest id seen, and classifications balance:
/// `received + omitted == next_id + duplicated`.
pub proof fn lemma_account_run_invariants(ids: Seq<u64>)
    ensures
        ({
            let r = account_run(account_start(), ids);
            &&& r.received == ids.len()
            &&& r.omitted >= 0
            &&& r.reordered >= 0
            &&& r.duplicated >= 0
            &&& r.omitted <= r.next_id
            &&& r.next_id == max_id_plus_one(ids)
            &&& r.received + r.omitted == r.next_id + r.duplicated
        }),
    decreases ids.len(),
{
    if ids.len() > 0 {
        lemma_account_run_invariants(ids.drop_last());
    }
}

/// The count of datagrams tentatively booked as lost is never negative,
/// at every moment of every run: after any prefix of the arrivals.
pub proof fn lemma_omitted_never_negative(ids: Seq<u64>, k: int)
    requires
        0 <= k <= ids.len(),
    ensures
        account_run(account_start(), ids.take(k)).omitted >= 0,
{
    lemma_account_run_invariants(ids.take(k));
}

/// Per sender stream, the received count plus the outstanding omitted
/// count, less the duplicates, equals the highest packet id seen plus one.
pub proof fn lemma_accounting_conservation(ids: Seq<u64>)
    ensures
        ({
            let r = account_run(account_start(), ids);
            r.received + r.omitted - r.duplicated == max_id_plus_one(ids)
        }),
{
    lemma_account_run_invariants(ids);
}

/// On runs whose reordered and duplicated counts agree — in particular on
/// any run without late arrivals — the received count plus the omitted
/// count, less the reordered count, equals the highest id seen plus one.
pub proof fn lemma_received_omitted_reordered(ids: Seq<u64>)
    requires
        account_run(account_start(), ids).duplicated == account_run(
            account_start(),
            ids,
        ).reordered,
    ensures
        ({
            let r = account_run(account_start(), ids);
            r.received + r.omitted - r.reordered == max_id_plus_one(ids)
        }),
{
    lemma_account_run_invariants(ids);
}

/// No id in `ids` reaches `bound`, so the highest id seen plus one does
/// not exceed `bound` either.
pub proof fn lemma_max_id_bound(ids: Seq<u64>, bound: int)
    requires
        bound >= 0,
        forall|i: int| 0 <= i < ids.len() ==> (ids[i] as int) < bound,
    ensures
        max_id_plus_one(ids) <= bound,
    decreases ids.len(),
{
    if ids.len() > 0 {
        assert(ids.last() == ids[ids.len() - 1]);
        lemma_max_id_bound(ids.drop_last(), bound);
    }
}

/// A receiver never counts more datagrams than the sender put on the wire
/// plus its own reordered count, as long as every id on the wire is below
/// the sent count and duplicate deliveries do not outnumber the omitted
/// and reordered slots together.
pub proof fn lemma_received_bounded_by_sent(ids: Seq<u64>, sent: u64)
    requires
        forall|i: int| 0 <= i < ids.len() ==> (ids[i] as int) < sent as int,
        ({
            let r = account_run(account_start(), ids);
            r.duplicated <= r.omitted + r.reordered
        }),
    ensures
        ({
            let r = account_run(account_start(), ids);
            r.received <= sent + r.reordered
        }),
{
    lemma_account_run_invariants(ids);
    lemma_max_id_bound(ids, sent as int);
}

/// The accounting view of a history paired with the id its owner expects
/// next.
pub open spec fn account_of(h: History, next_packet_id: u64) -> AccountState {
    AccountState {
        next_id: next_packet_id as int,
        received: h.datagrams_received as int,
        omitted: h.omitted as int,
        reordered: h.reordered as int,
        duplicated: h.duplicated as int,
    }
}

/// Classifies one received packet id against the expected one and books it
/// into the history's omitted / reordered / duplicated counters; the
/// received count itself is the caller's to advance. Returns how far the
/// caller must advance its expected id. A forward jump past the look-ahead
/// window, or an id that would exhaust the id space, is a protocol
/// violation and changes nothing.
pub fn process_packet_number(packet_id: u64, next_packet_id: u64, history: &mut History) -> (r:
    Result<u64, ExchangeError>)
    requires
        old(history).omitted <= next_packet_id,
        old(history).reordered < u64::MAX,
        old(history).duplicated < u64::MAX,
    ensures
        r is Err <==> (packet_id == u64::MAX || (packet_id > next_packet_id && packet_id
            - next_packet_id > MAX_PACKET_ID_LOOKAHEAD)),
        r is Err ==> r == Err::<u64, ExchangeError>(ExchangeError::SocketFatal) && *final(history)
            == *old(history),
        r matches Ok(advance) ==> ({
            let s = account_step(account_of(*old(history), next_packet_id), packet_id as int);
            &&& next_packet_id + advance == s.next_id
            &&& s.next_id <= u64::MAX
            &&& final(history).omitted == s.omitted
            &&& final(history).reordered == s.reordered
            &&& final(history).duplicated == s.duplicated
            &&& *final(history) == (History {
                omitted: final(history).omitted,
                reordered: final(history).reordered,
                duplicated: final(history).duplicated,
                ..*old(history)
            })
        }),
{
    if packet_id == u64::MAX {
        return Err(ExchangeError::SocketFatal);
    }
    if packet_id == next_packet_id {
        Ok(1)
    } else if packet_id > next_packet_id {
        let gap = packet_id - next_packet_id;
        if gap > MAX_PACKET_ID_LOOKAHEAD {
            return Err(ExchangeError::SocketFatal);
        }
        history.omitted = history.omitted + gap;
        Ok(gap + 1)
    } else {
        if history.omitted > 0 {
            history.omitted = history.omitted - 1;
            history.reordered = history.reordered + 1;
        } else {
            history.duplicated = history.duplicated + 1;
        }
        Ok(0)
    }
}

/// Reads the packet id out of a datagram's wire header and accounts for
/// it as `process_packet_number` does. A datagram shorter than the header
/// is dropped unbooked.
pub fn process_packet(buffer: &[u8], next_packet_id: u64, history: &mut History) -> (r: Result<
    u64,
    ExchangeError,
>)
    requires
        old(history).omitted <= next_packet_id,
        old(history).reordered < u64::MAX,
        old(history).duplicated < u64::MAX,
    ensures
        buffer.len() < HEADER_SIZE ==> r == Err::<u64, ExchangeError>(
            ExchangeError::HeaderTruncated,
        ) && *final(history) == *old(history),
        buffer.len() >= HEADER_SIZE ==> ({
            let packet_id = u64_of_be_bytes(buffer@.subrange(0, 8));
            &&& (r is Err <==> (packet_id == u64::MAX || (packet_id > next_packet_id && packet_id
                - next_packet_id > MAX_PACKET_ID_LOOKAHEAD)))
            &&& (r is Err ==> r == Err::<u64, ExchangeError>(ExchangeError::SocketFatal)
                && *final(history) == *old(history))
            &&& (r matches Ok(advance) ==> ({
                let s = account_step(account_of(*old(history), next_packet_id), packet_id as int);
                &&& next_packet_id + advance == s.next_id
                &&& *final(history) == (History {
                    omitted: s.omitted as u64,
                    reordered: s.reordered as u64,
                    duplicated: s.duplicated as u64,
                    ..*old(history)
                })
            }))
        }),
{
    if buffer.len() < 17 {
        return Err(ExchangeError::HeaderTruncated);
    }
    let packet_id = crate::net::read_u64_be(buffer, 0);
    process_packet_number(packet_id, next_packet_id, history)
}

} // verus!
