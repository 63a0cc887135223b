//! The relay pump: one direction of byte copying between two connections.
//!
//! A pump alternates between reading a chunk from one connection and writing
//! that chunk to the other. The driver performs the I/O; the pump decides what
//! comes next. Its model records every byte it has read (`received`) and every
//! byte whose write completed (`delivered`).
use vstd::prelude::*;

verus! {

/// Largest number of bytes moved in one read cycle.
pub const CHUNK_SIZE: usize = 65536;

/// Which way a pump moves bytes.
#[derive(PartialEq, Eq, Structural, Clone, Copy, Debug)]
pub enum Direction {
    /// Reads the client connection, writes the upstream connection.
    ClientToServer,
    /// Reads the upstream connection, writes the client connection.
    ServerToClient,
}

impl Direction {
    /// The tag under which forwarded chunks of this direction are recorded.
    pub fn label(&self) -> (r: &'static str)
        ensures
            *self == Direction::ClientToServer ==> r@ == "client -> server"@,
            *self == Direction::ServerToClient ==> r@ == "server -> client"@,
    {
        match self {
            Direction::ClientToServer => "client -> server",
            Direction::ServerToClient => "server -> client",
        }
    }
}

/// How a pump ended.
#[derive(PartialEq, Eq, Structural, Clone, Copy, Debug)]
pub enum PumpEnd {
    /// The read side reported end of stream.
    Eof,
    /// A read failed.
    ReadFailed,
    /// A write failed.
    WriteFailed,
}

/// Where a pump stands in its cycle.
#[derive(PartialEq, Eq, Structural, Clone, Copy, Debug)]
pub enum PumpPhase {
    /// Waiting for the next read to complete.
    Reading,
    /// Waiting for the write of the last chunk read to complete.
    Writing,
    /// Finished; the peer's write side has been asked to shut down.
    Closed(PumpEnd),
}

/// The result of one read from the pump's source.
#[derive(PartialEq, Eq, Structural, Clone, Copy, Debug)]
pub enum ReadOutcome {
    /// The read placed this many bytes at the start of the buffer; zero
    /// means end of stream.
    Received(usize),
    /// The read reported an error.
    Failed,
}

/// The result of writing a whole chunk to the pump's destination.
#[derive(PartialEq, Eq, Structural, Clone, Copy, Debug)]
pub enum WriteOutcome {
    Written,
    Failed,
}

/// What the driver must do next for a pump.
#[derive(Debug)]
pub enum PumpAction {
    /// Read the next chunk from the source.
    Read,
    /// Record these bytes in the packet log, then write them all to the destination.
    Write(Vec<u8>),
    /// Shut down the destination's write side; the pump is finished.
    ShutdownPeer,
}

/// The meaning of a `PumpAction`.
pub enum ActionModel {
    Read,
    Write(Seq<u8>),
    ShutdownPeer,
}

impl View for PumpAction {
    type V = ActionModel;

    open spec fn view(&self) -> ActionModel {
        match self {
            PumpAction::Read => ActionModel::Read,
            PumpAction::Write(v) => ActionModel::Write(v@),
            PumpAction::ShutdownPeer => ActionModel::ShutdownPeer,
        }
    }
}

/// The abstract state of a pump.
pub struct PumpModel {
    pub direction: Direction,
    pub phase: PumpPhase,
    /// Every byte read from the source, in order.
    pub received: Seq<u8>,
    /// Every byte whose write to the destination completed, in order.
    pub delivered: Seq<u8>,
}

impl PumpModel {
    /// A pump that has not read anything yet.
    pub open spec fn fresh(direction: Direction) -> PumpModel {
        PumpModel { direction, phase: PumpPhase::Reading, received: Seq::empty(), delivered: Seq::empty() }
    }

    /// What a pump's state always satisfies: between cycles nothing is
    /// outstanding; while writing, exactly the last chunk is, and it is not
    /// empty; once a write fails, the failed chunk stays outstanding.
    pub open spec fn consistent(self) -> bool {
        match self.phase {
            PumpPhase::Reading => self.delivered == self.received,
            PumpPhase::Closed(PumpEnd::Eof) => self.delivered == self.received,
            PumpPhase::Closed(PumpEnd::ReadFailed) => self.delivered == self.received,
            PumpPhase::Writing => self.delivered.is_prefix_of(self.received) && self.delivered.len()
                < self.received.len() <= self.delivered.len() + CHUNK_SIZE,
            PumpPhase::Closed(PumpEnd::WriteFailed) => self.delivered.is_prefix_of(self.received)
                && self.delivered.len() < self.received.len() <= self.delivered.len()
                + CHUNK_SIZE,
        }
    }

    /// Whether the pump has finished.
    pub open spec fn is_closed(self) -> bool {
        self.phase is Closed
    }
}

/// Whether a read outcome fits a buffer: a read never reports more bytes
/// than the buffer holds, and a buffer is at most one chunk long.
pub open spec fn read_fits(buf: Seq<u8>, outcome: ReadOutcome) -> bool {
    buf.len() <= CHUNK_SIZE && (outcome matches ReadOutcome::Received(n) ==> n <= buf.len())
}

/// The state of a reading pump after a read completes.
pub open spec fn after_read(m: PumpModel, buf: Seq<u8>, outcome: ReadOutcome) -> PumpModel {
    match outcome {
        ReadOutcome::Received(n) => if n == 0 {
            PumpModel { phase: PumpPhase::Closed(PumpEnd::Eof), ..m }
        } else {
            PumpModel {
                phase: PumpPhase::Writing,
                received: m.received + buf.subrange(0, n as int),
                ..m
            }
        },
        ReadOutcome::Failed => PumpModel { phase: PumpPhase::Closed(PumpEnd::ReadFailed), ..m },
    }
}

/// What a reading pump asks for after a read completes.
pub open spec fn read_action(buf: Seq<u8>, outcome: ReadOutcome) -> ActionModel {
    match outcome {
        ReadOutcome::Received(n) => if n == 0 {
            ActionModel::ShutdownPeer
        } else {
            ActionModel::Write(buf.subrange(0, n as int))
        },
        ReadOutcome::Failed => ActionModel::ShutdownPeer,
    }
}

/// The state of a writing pump after its write completes.
pub open spec fn after_write(m: PumpModel, outcome: WriteOutcome) -> PumpModel {
    match outcome {
        WriteOutcome::Written => PumpModel { phase: PumpPhase::Reading, delivered: m.received, ..m },
        WriteOutcome::Failed => PumpModel { phase: PumpPhase::Closed(PumpEnd::WriteFailed), ..m },
    }
}

/// What a writing pump asks for after its write completes.
pub open spec fn write_action(outcome: WriteOutcome) -> ActionModel {
    match outcome {
        WriteOutcome::Written => ActionModel::Read,
        WriteOutcome::Failed => ActionModel::ShutdownPeer,
    }
}

/// The state of a pump after it has read each of `chunks` in turn, each in
/// one read, and written each of them completely.
pub open spec fn relay_chunks(m: PumpModel, chunks: Seq<Seq<u8>>) -> PumpModel
    decreases chunks.len(),
{
    if chunks.len() == 0 {
        m
    } else {
        let c = chunks.last();
        let before = relay_chunks(m, chunks.drop_last());
        after_write(after_read(before, c, ReadOutcome::Received(c.len() as usize)), WriteOutcome::Written)
    }
}

/// Every read and every write keeps a pump consistent, and never takes back
/// or reorders a byte already received or delivered: both streams only grow
/// at their ends.
pub proof fn lemma_steps_keep_order(m: PumpModel, buf: Seq<u8>, r: ReadOutcome, w: WriteOutcome)
    requires
        m.consistent(),
    ensures
        m.phase == PumpPhase::Reading && read_fits(buf, r) ==> {
            let n = after_read(m, buf, r);
            &&& n.consistent()
            &&& m.received.is_prefix_of(n.received)
            &&& n.delivered == m.delivered
        },
        m.phase == PumpPhase::Writing ==> {
            let n = after_write(m, w);
            &&& n.consistent()
            &&& n.received == m.received
            &&& m.delivered.is_prefix_of(n.delivered)
        },
{
    if m.phase == PumpPhase::Reading && read_fits(buf, r) {
        let n = after_read(m, buf, r);
        assert(m.received.is_prefix_of(n.received));
    }
    if m.phase == PumpPhase::Writing {
        assert(m.delivered.is_prefix_of(after_write(m, w).delivered));
    }
}

/// Byte fidelity: whatever chunks a pump reads, the bytes it has delivered
/// once their writes complete are exactly those chunks joined in order, and
/// each write hands out exactly the chunk just read. At end of stream
/// nothing is left undelivered.
pub proof fn lemma_byte_fidelity(direction: Direction, chunks: Seq<Seq<u8>>)
    requires
        forall|i: int| 0 <= i < chunks.len() ==> 0 < (#[trigger] chunks[i]).len() <= CHUNK_SIZE,
    ensures
        ({
            let m = relay_chunks(PumpModel::fresh(direction), chunks);
            &&& m.consistent()
            &&& m.phase == PumpPhase::Reading
            &&& m.received == chunks.flatten()
            &&& m.delivered == chunks.flatten()
            &&& after_read(m, Seq::empty(), ReadOutcome::Received(0)).delivered == chunks.flatten()
            &&& after_read(m, Seq::empty(), ReadOutcome::Received(0)).phase == PumpPhase::Closed(PumpEnd::Eof)
        }),
        forall|i: int| 0 <= i < chunks.len() ==> read_action(#[trigger] chunks[i], ReadOutcome::Received(chunks[i].len() as usize))
            == ActionModel::Write(chunks[i]),
    decreases chunks.len(),
{
    if chunks.len() > 0 {
        let rest = chunks.drop_last();
        let c = chunks.last();
        assert forall|i: int| 0 <= i < rest.len() implies 0 < (#[trigger] rest[i]).len() <= CHUNK_SIZE by {
            assert(rest[i] == chunks[i]);
        }
        lemma_byte_fidelity(direction, rest);
        assert(chunks =~= rest.push(c));
        rest.lemma_flatten_push(c);
        assert(c.subrange(0, c.len() as int) =~= c);
    }
    assert forall|i: int| 0 <= i < chunks.len() implies read_action(#[trigger] chunks[i], ReadOutcome::Received(chunks[i].len() as usize))
        == ActionModel::Write(chunks[i]) by {
        assert(chunks[i].subrange(0, chunks[i].len() as int) =~= chunks[i]);
    }
}

/// Half-close: a step ends a pump exactly when it asks for the peer's write
/// side to be shut down, and a pump asks for that on end of stream and on
/// every failure. Nothing else is ever closed by a pump.
pub proof fn lemma_half_close(m: PumpModel, buf: Seq<u8>, r: ReadOutcome, w: WriteOutcome)
    ensures
        after_read(m, buf, r).is_closed() <==> read_action(buf, r) is ShutdownPeer,
        after_write(m, w).is_closed() <==> write_action(w) is ShutdownPeer,
        r == ReadOutcome::Received(0) ==> read_action(buf, r) is ShutdownPeer,
        r == ReadOutcome::Failed ==> read_action(buf, r) is ShutdownPeer,
        w == WriteOutcome::Failed ==> write_action(w) is ShutdownPeer,
        after_read(m, buf, r).direction == m.direction,
        after_write(m, w).direction == m.direction,
{
}

/// One direction of a relay.
pub struct Pump {
    direction: Direction,
    phase: PumpPhase,
    received: Ghost<Seq<u8>>,
    delivered: Ghost<Seq<u8>>,
}

impl View for Pump {
    type V = PumpModel;

    closed spec fn view(&self) -> PumpModel {
        PumpModel {
            direction: self.direction,
            phase: self.phase,
            received: self.received@,
            delivered: self.delivered@,
        }
    }
}

impl Pump {
    /// A pump about to make its first read.
    pub fn new(direction: Direction) -> (r: Pump)
        ensures
            r@ == PumpModel::fresh(direction),
    {
        Pump {
            direction,
            phase: PumpPhase::Reading,
            received: Ghost(Seq::empty()),
            delivered: Ghost(Seq::empty()),
        }
    }

    /// A zeroed buffer of one chunk, for the next read.
    pub fn read_buffer() -> (r: Vec<u8>)
        ensures
            r@.len() == CHUNK_SIZE,
    {
        vec![0u8; CHUNK_SIZE]
    }

    pub fn direction(&self) -> (r: Direction)
        ensures
            r == self@.direction,
    {
        self.direction
    }

    pub fn phase(&self) -> (r: PumpPhase)
        ensures
            r == self@.phase,
    {
        self.phase
    }

    pub fn is_closed(&self) -> (r: bool)
        ensures
            r == self@.is_closed(),
    {
        match self.phase {
            PumpPhase::Closed(_) => true,
            _ => false,
        }
    }

    /// Takes the result of a read into `buf`. Data is handed back to be
    /// written verbatim; end of stream or a read error ends the pump and asks
    /// for the peer's write side to be shut down.
    pub fn on_read(&mut self, buf: &[u8], outcome: ReadOutcome) -> (action: PumpAction)
        requires
            old(self)@.phase == PumpPhase::Reading,
            read_fits(buf@, outcome),
        ensures
            final(self)@ == after_read(old(self)@, buf@, outcome),
            action@ == read_action(buf@, outcome),
    {
        match outcome {
            ReadOutcome::Received(n) => {
                if n == 0 {
                    self.phase = PumpPhase::Closed(PumpEnd::Eof);
                    PumpAction::ShutdownPeer
                } else {
                    let mut chunk: Vec<u8> = Vec::with_capacity(n);
                    let mut i: usize = 0;
                    while i < n
                        invariant
                            i <= n <= buf@.len(),
                            chunk@ == buf@.subrange(0, i as int),
                        decreases n - i,
                    {
                        chunk.push(buf[i]);
                        i = i + 1;
                    }
                    self.received = Ghost(self.received@ + chunk@);
                    self.phase = PumpPhase::Writing;
                    PumpAction::Write(chunk)
                }
            },
            ReadOutcome::Failed => {
                self.phase = PumpPhase::Closed(PumpEnd::ReadFailed);
                PumpAction::ShutdownPeer
            },
        }
    }

    /// Takes the result of writing the chunk last handed out. After a
    /// complete write the pump reads again; a failed write ends the pump
    /// and asks for the peer's write side to be shut down.
    pub fn on_write(&mut self, outcome: WriteOutcome) -> (action: PumpAction)
        requires
            old(self)@.phase == PumpPhase::Writing,
        ensures
            final(self)@ == after_write(old(self)@, outcome),
            action@ == write_action(outcome),
    {
        match outcome {
            WriteOutcome::Written => {
                self.delivered = Ghost(self.received@);
                self.phase = PumpPhase::Reading;
                PumpAction::Read
            },
            WriteOutcome::Failed => {
                self.phase = PumpPhase::Closed(PumpEnd::WriteFailed);
                PumpAction::ShutdownPeer
            },
        }
    }
}

} // verus!
