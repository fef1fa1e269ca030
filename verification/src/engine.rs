//! The per-worker exchange engines: the state machines that drive one
//! sender or receiver worker. The engines own every decision — framing,
//! sequencing, loss accounting, end-of-test signalling, error
//! classification — while the syscalls that move the datagrams stay with
//! the caller, which feeds every outcome back in as an event.

use vstd::prelude::*;

use vstd::arithmetic::div_mod::lemma_fundamental_div_mod;
use vstd::arithmetic::div_mod::lemma_fundamental_div_mod_converse_div;

use crate::history::History;
use crate::packet_buffer::id_stamped_byte;
use crate::packet_buffer::PacketBuffer;
use crate::util::account_of;
use crate::util::account_step;
use crate::util::process_packet_number;
use crate::util::ExchangeError;
use crate::net::MessageHeader;
use crate::net::MessageType;
use crate::HEADER_SIZE;
use crate::LAST_MESSAGE_RETRIES;
use crate::LAST_MESSAGE_SIZE;
use crate::MAX_PACKET_ID_LOOKAHEAD;

verus! {

/// Where a worker stands: from construction through the handshake and the
/// steady exchange to the drain of the sentinel; `Failed` from anywhere.
#[derive(PartialEq, Eq, Structural, Clone, Copy, Debug)]
pub enum EngineState {
    Init,
    Handshake,
    Steady,
    Drain,
    Done,
    Failed,
}

/// What the caller's hot loop does next after an error.
#[derive(PartialEq, Eq, Structural, Clone, Copy, Debug)]
pub enum IoAction {
    /// Wait through the I/O driver, then retry.
    Wait,
    /// The test is over; seal and report.
    Finish,
    /// The worker has failed; stop and propagate.
    Abort,
}

/// The sender side of one worker.
pub struct ClientEngine {
    pub state: EngineState,
    pub test_id: u64,
    pub next_packet_id: u64,
    pub history: History,
    pub duration_seconds: u64,
    pub sentinel_attempts: u64,
}

impl ClientEngine {
    /// What construction establishes and every event preserves: no more
    /// datagrams counted sent than packet ids handed out, a bounded
    /// duration, and a bounded sentinel retry count.
    pub open spec fn wf(self) -> bool {
        &&& self.history.datagrams_sent <= self.next_packet_id
        &&& 1 <= self.duration_seconds < 0x1_0000_0000
        &&& self.sentinel_attempts <= LAST_MESSAGE_RETRIES
    }

    /// A fresh sender worker.
    pub fn new(test_id: u64, duration_seconds: u64, datagram_size: u64) -> (r: ClientEngine)
        requires
            1 <= duration_seconds < 0x1_0000_0000,
        ensures
            r == (ClientEngine {
                state: EngineState::Init,
                test_id,
                next_packet_id: 0,
                history: History::spec_new(datagram_size),
                duration_seconds,
                sentinel_attempts: 0,
            }),
            r.wf(),
    {
        ClientEngine {
            state: EngineState::Init,
            test_id,
            next_packet_id: 0,
            history: History::new(datagram_size),
            duration_seconds,
            sentinel_attempts: 0,
        }
    }

    /// The socket is connected; the measurement clock starts now.
    pub fn start(&mut self, now_millis: u64)
        requires
            old(self).wf(),
            old(self).state is Init,
        ensures
            *final(self) == (ClientEngine {
                state: EngineState::Handshake,
                history: (History { start_time: now_millis, ..old(self).history }),
                ..*old(self)
            }),
            final(self).wf(),
    {
        self.state = EngineState::Handshake;
        self.history.start_time = now_millis;
    }

    /// Stamps the buffer's slots with the next consecutive packet ids and
    /// advances the id counter by the count used — the framing step in
    /// front of every send. Runs out of ids only after `2^64` datagrams,
    /// which the engine treats as a fatal protocol state.
    pub fn prepare_packets(&mut self, buffer: &mut PacketBuffer) -> (r: Result<u64, ExchangeError>)
        requires
            old(self).wf(),
            old(self).state is Handshake || old(self).state is Steady,
            old(buffer).wf(),
        ensures
            final(self).wf(),
            r is Err <==> old(self).next_packet_id + old(buffer).packets_amount > u64::MAX,
            r is Err ==> ({
                &&& r == Err::<u64, ExchangeError>(ExchangeError::SocketFatal)
                &&& *final(self) == (ClientEngine { state: EngineState::Failed, ..*old(self) })
                &&& *final(buffer) == *old(buffer)
            }),
            r matches Ok(count) ==> ({
                &&& count == old(buffer).packets_amount
                &&& *final(self) == (ClientEngine {
                    next_packet_id: (old(self).next_packet_id + count) as u64,
                    ..*old(self)
                })
                &&& final(buffer).wf()
                &&& final(buffer).buffer@.len() == old(buffer).buffer@.len()
                &&& (forall|j: int|
                    0 <= j < old(buffer).buffer@.len() ==> final(buffer).buffer@[j]
                        == id_stamped_byte(
                        old(buffer).buffer@,
                        old(buffer).datagram_size as int,
                        old(buffer).packets_amount as int,
                        old(self).next_packet_id,
                        j,
                    ))
                &&& (forall|i: int|
                    0 <= i < old(buffer).packets_amount
                        ==> #[trigger] crate::net::u64_of_be_bytes(
                        final(buffer).buffer@.subrange(
                            i * old(buffer).datagram_size as int,
                            i * old(buffer).datagram_size as int + 8,
                        ),
                    ) == old(self).next_packet_id + i)
                &&& *final(buffer) == (PacketBuffer {
                    buffer: final(buffer).buffer,
                    ..*old(buffer)
                })
            }),
    {
        let count = buffer.get_packet_amount() as u64;
        if self.next_packet_id > u64::MAX - count {
            self.state = EngineState::Failed;
            return Err(ExchangeError::SocketFatal);
        }
        let r = buffer.add_packet_ids(self.next_packet_id);
        match r {
            Ok(used) => {
                self.next_packet_id = self.next_packet_id + used;
                Ok(used)
            },
            Err(_) => Err(ExchangeError::SocketFatal),
        }
    }

    /// A send went through: `datagrams` datagrams and `bytes` bytes are on
    /// the wire, and the handshake, if still open, is over.
    pub fn record_send_success(&mut self, datagrams: u64, bytes: u64)
        requires
            old(self).wf(),
            old(self).state is Handshake || old(self).state is Steady,
            old(self).history.datagrams_sent + datagrams <= old(self).next_packet_id,
            old(self).history.bytes_sent + bytes <= u64::MAX,
        ensures
            *final(self) == (ClientEngine {
                state: EngineState::Steady,
                history: (History {
                    datagrams_sent: (old(self).history.datagrams_sent + datagrams) as u64,
                    bytes_sent: (old(self).history.bytes_sent + bytes) as u64,
                    ..old(self).history
                }),
                ..*old(self)
            }),
            final(self).wf(),
    {
        self.state = EngineState::Steady;
        self.history.datagrams_sent = self.history.datagrams_sent + datagrams;
        self.history.bytes_sent = self.history.bytes_sent + bytes;
    }

    /// A send failed. A refused connection means the peer is not up: the
    /// worker fails at once, as it does on any fatal socket state. A
    /// not-ready socket or an elapsed wait is handed to the I/O driver.
    pub fn record_send_failure(&mut self, error: ExchangeError) -> (r: IoAction)
        requires
            old(self).wf(),
            old(self).state is Handshake || old(self).state is Steady,
        ensures
            final(self).wf(),
            (error is TryAgain || error is Timeout) ==> r == IoAction::Wait && *final(self)
                == *old(self),
            !(error is TryAgain || error is Timeout) ==> r == IoAction::Abort && *final(self)
                == (ClientEngine { state: EngineState::Failed, ..*old(self) }),
    {
        match error {
            ExchangeError::TryAgain => IoAction::Wait,
            ExchangeError::Timeout => IoAction::Wait,
            _ => {
                self.state = EngineState::Failed;
                IoAction::Abort
            },
        }
    }

    /// The clock check in front of every send: once the duration has
    /// elapsed the steady exchange ends and the drain begins.
    pub fn tick(&mut self, now_millis: u64) -> (r: bool)
        requires
            old(self).wf(),
            old(self).state is Steady,
            now_millis >= old(self).history.start_time,
        ensures
            final(self).wf(),
            r == (now_millis - old(self).history.start_time >= old(self).duration_seconds * 1000),
            r ==> *final(self) == (ClientEngine { state: EngineState::Drain, ..*old(self) }),
            !r ==> *final(self) == *old(self),
    {
        if now_millis - self.history.start_time >= self.duration_seconds * 1000 {
            self.state = EngineState::Drain;
            true
        } else {
            false
        }
    }

    /// The sentinel datagram that ends the test: a buffer of exactly
    /// `LAST_MESSAGE_SIZE` bytes whose header carries the `LAST` type.
    pub fn make_sentinel(&self) -> (r: Vec<u8>)
        ensures
            r@.len() == LAST_MESSAGE_SIZE,
            r@.subrange(0, HEADER_SIZE as int) == (MessageHeader {
                mtype: MessageType::LAST,
                test_id: self.test_id,
                packet_id: self.next_packet_id,
            }).spec_serialize(),
            forall|j: int| HEADER_SIZE <= j < LAST_MESSAGE_SIZE ==> r@[j] == 0,
    {
        let header = MessageHeader::new(MessageType::LAST, self.test_id, self.next_packet_id);
        let mut r = header.serialize();
        proof {
            assert(r@.subrange(0, 17) =~= header.spec_serialize());
        }
        let mut i: usize = r.len();
        while i < LAST_MESSAGE_SIZE as usize
            invariant
                17 <= i <= LAST_MESSAGE_SIZE,
                r@.len() == i,
                r@.subrange(0, 17) == header.spec_serialize(),
                forall|j: int| 17 <= j < i ==> r@[j] == 0,
            decreases LAST_MESSAGE_SIZE - i,
        {
            r.push(0);
            proof {
                assert(r@.subrange(0, 17) =~= header.spec_serialize());
            }
            i = i + 1;
        }
        r
    }

    /// Whether the drain still owes the peer a sentinel datagram.
    pub fn sentinel_due(&self) -> (r: bool)
        ensures
            r == (self.state is Drain && self.sentinel_attempts < LAST_MESSAGE_RETRIES),
    {
        match self.state {
            EngineState::Drain => self.sentinel_attempts < LAST_MESSAGE_RETRIES,
            _ => false,
        }
    }

    /// Books one attempt to put the sentinel on the wire.
    pub fn record_sentinel_attempt(&mut self)
        requires
            old(self).wf(),
            old(self).state is Drain,
            old(self).sentinel_attempts < LAST_MESSAGE_RETRIES,
        ensures
            *final(self) == (ClientEngine {
                sentinel_attempts: (old(self).sentinel_attempts + 1) as u64,
                ..*old(self)
            }),
            final(self).wf(),
    {
        self.sentinel_attempts = self.sentinel_attempts + 1;
    }

    /// Seals the worker: the sentinel went out, the retries ran out, or
    /// the run was cancelled. The end time freezes the history.
    pub fn finish(&mut self, now_millis: u64)
        requires
            old(self).wf(),
            !(old(self).state is Done) && !(old(self).state is Failed),
        ensures
            *final(self) == (ClientEngine {
                state: EngineState::Done,
                history: (History { end_time: now_millis, ..old(self).history }),
                ..*old(self)
            }),
            final(self).wf(),
    {
        self.state = EngineState::Done;
        self.history.end_time = now_millis;
    }
}

/// Bytes of all datagrams of a batch together.
pub open spec fn seq_total_len(batch: Seq<Seq<u8>>) -> int
    decreases batch.len(),
{
    if batch.len() == 0 {
        0
    } else {
        seq_total_len(batch.drop_last()) + batch.last().len()
    }
}

/// A batch never holds a negative number of bytes.
proof fn lemma_total_len_nonneg(batch: Seq<Seq<u8>>)
    ensures
        seq_total_len(batch) >= 0,
    decreases batch.len(),
{
    if batch.len() > 0 {
        lemma_total_len_nonneg(batch.drop_last());
    }
}

/// One more datagram adds its own bytes to a prefix's total.
proof fn lemma_total_len_take_succ(batch: Seq<Seq<u8>>, i: int)
    requires
        0 <= i < batch.len(),
    ensures
        seq_total_len(batch.take(i + 1)) == seq_total_len(batch.take(i)) + batch[i].len(),
{
    assert(batch.take(i + 1).drop_last() =~= batch.take(i));
    assert(batch.take(i + 1).last() == batch[i]);
}

/// A prefix never holds more bytes than the whole batch.
proof fn lemma_total_len_take_le(batch: Seq<Seq<u8>>, i: int)
    requires
        0 <= i <= batch.len(),
    ensures
        seq_total_len(batch.take(i)) <= seq_total_len(batch),
    decreases batch.len() - i,
{
    if i == batch.len() {
        assert(batch.take(i) =~= batch);
    } else {
        lemma_total_len_take_succ(batch, i);
        lemma_total_len_take_le(batch, i + 1);
    }
}

/// The logical datagrams the kernel coalesced into one received buffer:
/// `data` split into segments of `g` bytes, the last possibly shorter.
pub open spec fn gro_segments(data: Seq<u8>, g: int) -> Seq<Seq<u8>>
    recommends
        g >= 1,
{
    Seq::new(
        (((data.len() + g - 1) / g) as nat),
        |i: int|
            data.subrange(
                i * g,
                if (i + 1) * g <= data.len() {
                    (i + 1) * g
                } else {
                    data.len() as int
                },
            ),
    )
}

/// The receiver side of one worker.
pub struct ServerEngine {
    pub state: EngineState,
    pub test_id: Option<u64>,
    pub next_packet_id: u64,
    pub history: History,
    /// Datagrams dropped for a truncated or undefined header; folded into
    /// the omitted count when the history is sealed.
    pub malformed: u64,
}

impl ServerEngine {
    /// What holds while the worker is live: the outstanding omitted count
    /// never exceeds the expected id, and every received datagram is
    /// classified exactly once — `received + omitted == next_id +
    /// duplicated`.
    pub open spec fn wf(self) -> bool {
        (self.state is Init || self.state is Handshake || self.state is Steady) ==> ({
            &&& self.history.omitted <= self.next_packet_id
            &&& self.history.datagrams_received + self.history.omitted == self.next_packet_id
                + self.history.duplicated
        })
    }

    /// A fresh receiver worker.
    pub fn new(datagram_size: u64) -> (r: ServerEngine)
        ensures
            r == (ServerEngine {
                state: EngineState::Init,
                test_id: None,
                next_packet_id: 0,
                history: History::spec_new(datagram_size),
                malformed: 0,
            }),
            r.wf(),
    {
        ServerEngine {
            state: EngineState::Init,
            test_id: None,
            next_packet_id: 0,
            history: History::new(datagram_size),
            malformed: 0,
        }
    }

    /// The socket is bound; the worker now waits for the opening datagram.
    pub fn start(&mut self)
        requires
            old(self).wf(),
            old(self).state is Init,
        ensures
            *final(self) == (ServerEngine { state: EngineState::Handshake, ..*old(self) }),
            final(self).wf(),
    {
        self.state = EngineState::Handshake;
    }

    /// The engine after one datagram of `data` arrives at `now_millis`:
    /// a sentinel-sized datagram ends the test; a datagram too short for
    /// a header, or with an undefined type code, is dropped as malformed;
    /// an init datagram pins the test identity; a measurement datagram
    /// runs through the sequence accounting, pinning the start time if it
    /// is the first. Outside the live states nothing changes.
    pub open spec fn spec_on_datagram(e: ServerEngine, data: Seq<u8>, now_millis: u64) -> ServerEngine {
        if !(e.state is Handshake || e.state is Steady) {
            e
        } else if data.len() == LAST_MESSAGE_SIZE {
            ServerEngine {
                state: EngineState::Done,
                history: (History { end_time: now_millis, ..e.history }),
                ..e
            }
        } else {
            match MessageHeader::spec_parse(data) {
                Err(_) => ServerEngine { malformed: ((e.malformed + 1) as u64), ..e },
                Ok(h) => match h.mtype {
                    MessageType::INIT => ServerEngine { test_id: Some(h.test_id), ..e },
                    MessageType::LAST => ServerEngine {
                        state: EngineState::Done,
                        history: (History { end_time: now_millis, ..e.history }),
                        ..e
                    },
                    MessageType::MEASUREMENT => {
                        if h.packet_id == u64::MAX || (h.packet_id > e.next_packet_id
                            && h.packet_id - e.next_packet_id > MAX_PACKET_ID_LOOKAHEAD) {
                            ServerEngine { state: EngineState::Failed, ..e }
                        } else {
                            let s = account_step(
                                account_of(e.history, e.next_packet_id),
                                h.packet_id as int,
                            );
                            ServerEngine {
                                state: EngineState::Steady,
                                test_id: if e.test_id is Some {
                                    e.test_id
                                } else {
                                    Some(h.test_id)
                                },
                                next_packet_id: (s.next_id as u64),
                                history: (History {
                                    datagrams_received: ((e.history.datagrams_received + 1) as u64),
                                    bytes_received: ((e.history.bytes_received + data.len()) as u64),
                                    omitted: (s.omitted as u64),
                                    reordered: (s.reordered as u64),
                                    duplicated: (s.duplicated as u64),
                                    datagrams_expected: (s.next_id as u64),
                                    start_time: if e.state is Handshake {
                                        now_millis
                                    } else {
                                        e.history.start_time
                                    },
                                    ..e.history
                                }),
                                malformed: e.malformed,
                            }
                        }
                    },
                },
            }
        }
    }

    /// What the datagram handler reports: the parse failure of a dropped
    /// datagram, the protocol violation of an impossible id jump, and
    /// `Ok` for everything the engine absorbs.
    pub open spec fn spec_datagram_result(e: ServerEngine, data: Seq<u8>) -> Result<
        (),
        ExchangeError,
    > {
        if !(e.state is Handshake || e.state is Steady) {
            Ok(())
        } else if data.len() == LAST_MESSAGE_SIZE {
            Ok(())
        } else {
            match MessageHeader::spec_parse(data) {
                Err(err) => Err(err),
                Ok(h) => match h.mtype {
                    MessageType::MEASUREMENT => {
                        if h.packet_id == u64::MAX || (h.packet_id > e.next_packet_id
                            && h.packet_id - e.next_packet_id > MAX_PACKET_ID_LOOKAHEAD) {
                            Err(ExchangeError::SocketFatal)
                        } else {
                            Ok(())
                        }
                    },
                    _ => Ok(()),
                },
            }
        }
    }

    /// Absorbs one datagram.
    pub fn on_datagram(&mut self, data: &[u8], now_millis: u64) -> (r: Result<(), ExchangeError>)
        requires
            old(self).wf(),
            old(self).state is Handshake || old(self).state is Steady,
            old(self).history.datagrams_received < u64::MAX,
            old(self).history.reordered < u64::MAX,
            old(self).history.duplicated < u64::MAX,
            old(self).malformed < u64::MAX,
            old(self).history.bytes_received + data.len() <= u64::MAX,
        ensures
            *final(self) == Self::spec_on_datagram(*old(self), data@, now_millis),
            r == Self::spec_datagram_result(*old(self), data@),
            final(self).wf(),
    {
        if data.len() as u64 == LAST_MESSAGE_SIZE {
            self.state = EngineState::Done;
            self.history.end_time = now_millis;
            return Ok(());
        }
        let header = match MessageHeader::parse(data) {
            Ok(h) => h,
            Err(err) => {
                self.malformed = self.malformed + 1;
                return Err(err);
            },
        };
        match header.mtype {
            MessageType::INIT => {
                self.test_id = Some(header.test_id);
                Ok(())
            },
            MessageType::LAST => {
                self.state = EngineState::Done;
                self.history.end_time = now_millis;
                Ok(())
            },
            MessageType::MEASUREMENT => {
                let was_handshake = match self.state {
                    EngineState::Handshake => true,
                    _ => false,
                };
                match process_packet_number(
                    header.packet_id,
                    self.next_packet_id,
                    &mut self.history,
                ) {
                    Err(err) => {
                        self.state = EngineState::Failed;
                        Err(err)
                    },
                    Ok(advance) => {
                        self.next_packet_id = self.next_packet_id + advance;
                        self.history.datagrams_received = self.history.datagrams_received + 1;
                        self.history.bytes_received = self.history.bytes_received + data.len()
                            as u64;
                        self.history.datagrams_expected = self.next_packet_id;
                        if was_handshake {
                            self.history.start_time = now_millis;
                        }
                        if self.test_id.is_none() {
                            self.test_id = Some(header.test_id);
                        }
                        self.state = EngineState::Steady;
                        Ok(())
                    },
                }
            },
        }
    }

    /// The engine after the datagrams of `batch` arrive in order; once a
    /// sentinel or a protocol violation stops the run, the rest of the
    /// batch changes nothing.
    pub open spec fn spec_on_batch(e: ServerEngine, batch: Seq<Seq<u8>>, now_millis: u64) -> ServerEngine
        decreases batch.len(),
    {
        if batch.len() == 0 {
            e
        } else {
            Self::spec_on_datagram(
                Self::spec_on_batch(e, batch.drop_last(), now_millis),
                batch.last(),
                now_millis,
            )
        }
    }

    /// Absorbs one batch of datagrams, as a batched receive hands them
    /// over, in order. Reports the protocol violation if one stops the
    /// run mid-batch.
    pub fn on_batch(&mut self, datagrams: &Vec<Vec<u8>>, now_millis: u64) -> (r: Result<
        (),
        ExchangeError,
    >)
        requires
            old(self).wf(),
            old(self).history.datagrams_received + datagrams@.len() <= u64::MAX,
            old(self).history.reordered + datagrams@.len() <= u64::MAX,
            old(self).history.duplicated + datagrams@.len() <= u64::MAX,
            old(self).malformed + datagrams@.len() <= u64::MAX,
            old(self).history.bytes_received + seq_total_len(datagrams.deep_view()) <= u64::MAX,
        ensures
            *final(self) == Self::spec_on_batch(*old(self), datagrams.deep_view(), now_millis),
            final(self).wf(),
            r == (if final(self).state is Failed {
                Err::<(), ExchangeError>(ExchangeError::SocketFatal)
            } else {
                Ok::<(), ExchangeError>(())
            }),
    {
        let ghost orig = *old(self);
        let ghost batch = datagrams.deep_view();
        let n = datagrams.len();
        proof {
            assert(batch.take(0) =~= Seq::<Seq<u8>>::empty());
        }
        let mut i: usize = 0;
        while i < n
            invariant
                i <= n,
                n == datagrams@.len(),
                batch == datagrams.deep_view(),
                orig.wf(),
                self.wf(),
                *self == Self::spec_on_batch(orig, batch.take(i as int), now_millis),
                self.history.datagrams_received <= orig.history.datagrams_received + i,
                self.history.reordered <= orig.history.reordered + i,
                self.history.duplicated <= orig.history.duplicated + i,
                self.malformed <= orig.malformed + i,
                self.history.bytes_received <= orig.history.bytes_received + seq_total_len(
                    batch.take(i as int),
                ),
                orig.history.datagrams_received + n <= u64::MAX,
                orig.history.reordered + n <= u64::MAX,
                orig.history.duplicated + n <= u64::MAX,
                orig.malformed + n <= u64::MAX,
                orig.history.bytes_received + seq_total_len(batch) <= u64::MAX,
            decreases n - i,
        {
            proof {
                assert(batch[i as int] =~= datagrams@[i as int]@);
                lemma_total_len_take_succ(batch, i as int);
                lemma_total_len_take_le(batch, i as int + 1);
                lemma_total_len_nonneg(batch.take(i as int));
            }
            let live = match self.state {
                EngineState::Handshake => true,
                EngineState::Steady => true,
                _ => false,
            };
            if live {
                let _ = self.on_datagram(datagrams[i].as_slice(), now_millis);
            }
            proof {
                assert(batch.take(i as int + 1).drop_last() =~= batch.take(i as int));
                assert(batch.take(i as int + 1).last() == batch[i as int]);
            }
            i = i + 1;
        }
        proof {
            assert(batch.take(n as int) =~= batch);
        }
        match self.state {
            EngineState::Failed => Err(ExchangeError::SocketFatal),
            _ => Ok(()),
        }
    }

    /// Absorbs one receive-offload superpacket: the kernel coalesced
    /// several wire datagrams into one buffer and reported their
    /// segmentation unit, so every `gso_size`-byte segment — the last
    /// possibly shorter — is one logical datagram.
    pub fn on_superpacket(&mut self, data: &[u8], gso_size: usize, now_millis: u64) -> (r: Result<
        (),
        ExchangeError,
    >)
        requires
            old(self).wf(),
            gso_size >= 1,
            old(self).history.datagrams_received + gro_segments(data@, gso_size as int).len()
                <= u64::MAX,
            old(self).history.reordered + gro_segments(data@, gso_size as int).len() <= u64::MAX,
            old(self).history.duplicated + gro_segments(data@, gso_size as int).len() <= u64::MAX,
            old(self).malformed + gro_segments(data@, gso_size as int).len() <= u64::MAX,
            old(self).history.bytes_received + data.len() <= u64::MAX,
        ensures
            *final(self) == Self::spec_on_batch(
                *old(self),
                gro_segments(data@, gso_size as int),
                now_millis,
            ),
            final(self).wf(),
            r == (if final(self).state is Failed {
                Err::<(), ExchangeError>(ExchangeError::SocketFatal)
            } else {
                Ok::<(), ExchangeError>(())
            }),
    {
        let ghost orig = *old(self);
        let ghost g = gso_size as int;
        let ghost segs = gro_segments(data@, g);
        let amount = data.len();
        let ghost n = segs.len() as int;
        proof {
            lemma_fundamental_div_mod(amount + g - 1, g);
            vstd::arithmetic::div_mod::lemma_mod_bound(amount + g - 1, g);
            assert(g * n == n * g) by (nonlinear_arith);
            if amount == 0 {
                lemma_fundamental_div_mod_converse_div(g - 1, g, 0, g - 1);
            }
            assert(segs.take(0) =~= Seq::<Seq<u8>>::empty());
        }
        let mut offset: usize = 0;
        let mut i: usize = 0;
        while offset < amount
            invariant
                orig.wf(),
                self.wf(),
                g == gso_size as int,
                g >= 1,
                amount == data@.len(),
                segs == gro_segments(data@, g),
                n == segs.len(),
                amount <= n * g,
                0 <= i <= n,
                i <= offset,
                offset <= amount,
                offset < amount ==> offset == i as int * g,
                offset == amount ==> i as int == n,
                *self == Self::spec_on_batch(orig, segs.take(i as int), now_millis),
                self.history.datagrams_received <= orig.history.datagrams_received + i,
                self.history.reordered <= orig.history.reordered + i,
                self.history.duplicated <= orig.history.duplicated + i,
                self.malformed <= orig.malformed + i,
                self.history.bytes_received <= orig.history.bytes_received + offset,
                orig.history.datagrams_received + n <= u64::MAX,
                orig.history.reordered + n <= u64::MAX,
                orig.history.duplicated + n <= u64::MAX,
                orig.malformed + n <= u64::MAX,
                orig.history.bytes_received + amount <= u64::MAX,
            decreases amount - offset,
        {
            proof {
                assert(i < n) by (nonlinear_arith)
                    requires
                        i as int * g < amount,
                        amount <= n * g,
                        g >= 1,
                ;
                assert((i as int + 1) * g == i as int * g + g) by (nonlinear_arith);
            }
            let remaining = amount - offset;
            let end = if remaining > gso_size {
                offset + gso_size
            } else {
                amount
            };
            let seg = vstd::slice::slice_subrange(data, offset, end);
            proof {
                assert(seg@ == segs[i as int]);
            }
            let live = match self.state {
                EngineState::Handshake => true,
                EngineState::Steady => true,
                _ => false,
            };
            if live {
                let _ = self.on_datagram(seg, now_millis);
            }
            proof {
                assert(segs.take(i as int + 1).drop_last() =~= segs.take(i as int));
                assert(segs.take(i as int + 1).last() == segs[i as int]);
                if end == amount {
                    assert(amount + g - 1 == (i as int + 1) * g + (amount - 1 - i as int * g));
                    lemma_fundamental_div_mod_converse_div(
                        amount + g - 1,
                        g,
                        i as int + 1,
                        amount - 1 - i as int * g,
                    );
                }
            }
            offset = end;
            i = i + 1;
        }
        proof {
            assert(segs.take(i as int) =~= segs);
        }
        match self.state {
            EngineState::Failed => Err(ExchangeError::SocketFatal),
            _ => Ok(()),
        }
    }

    /// What the hot loop does after a receive error: a not-ready socket
    /// or an elapsed wait goes to the I/O driver, the sentinel signal
    /// finishes the test, a dropped datagram is skipped and the loop goes
    /// on, and anything else fails the worker.
    pub fn recv_error_action(error: ExchangeError) -> (r: IoAction)
        ensures
            (error is TryAgain || error is Timeout) ==> r == IoAction::Wait,
            (error is LastMessageReceived) ==> r == IoAction::Finish,
            (error is HeaderTruncated || error is ControlMessageMalformed) ==> r
                == IoAction::Wait,
            !(error is TryAgain || error is Timeout || error is LastMessageReceived || error
                is HeaderTruncated || error is ControlMessageMalformed) ==> r == IoAction::Abort,
    {
        match error {
            ExchangeError::TryAgain => IoAction::Wait,
            ExchangeError::Timeout => IoAction::Wait,
            ExchangeError::LastMessageReceived => IoAction::Finish,
            ExchangeError::HeaderTruncated => IoAction::Wait,
            ExchangeError::ControlMessageMalformed => IoAction::Wait,
            _ => IoAction::Abort,
        }
    }

    /// Seals the worker after the test: folds the malformed datagrams
    /// into the omitted count, as the report counts them, and freezes the
    /// end time if the sentinel never arrived.
    pub fn seal_history(&mut self, now_millis: u64)
        requires
            old(self).wf(),
            old(self).history.omitted + old(self).malformed <= u64::MAX,
        ensures
            *final(self) == (ServerEngine {
                state: if old(self).state is Failed {
                    EngineState::Failed
                } else {
                    EngineState::Done
                },
                history: (History {
                    omitted: ((old(self).history.omitted + old(self).malformed) as u64),
                    end_time: if old(self).state is Done {
                        old(self).history.end_time
                    } else {
                        now_millis
                    },
                    ..old(self).history
                }),
                malformed: 0,
                ..*old(self)
            }),
            final(self).wf(),
    {
        self.history.omitted = self.history.omitted + self.malformed;
        self.malformed = 0;
        match self.state {
            EngineState::Done => {},
            EngineState::Failed => {
                self.history.end_time = now_millis;
            },
            _ => {
                self.history.end_time = now_millis;
                self.state = EngineState::Done;
            },
        }
    }
}

} // verus!
