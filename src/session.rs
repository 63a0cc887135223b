//! A session: one client connection, its upstream connection, and the two
//! pumps that relay between them.
use vstd::prelude::*;
use crate::acceptor::{accept_action, AcceptAction, AcceptOutcome};
use crate::pump::{
    after_read, after_write, read_action, read_fits, write_action, Direction, Pump,
    PumpAction, PumpModel, PumpPhase, ReadOutcome, WriteOutcome,
};

verus! {

/// Where a session stands.
#[derive(PartialEq, Eq, Structural, Clone, Copy, Debug)]
pub enum SessionPhase {
    /// Waiting for the upstream dial to complete.
    Dialing,
    /// Both connections are open and at least one pump is still running.
    Relaying,
    /// The dial failed; no pump ran and the client connection is dropped.
    Aborted,
    /// Both pumps have ended; the connection pair may be torn down.
    Finished,
}

/// The result of dialling the upstream address.
#[derive(PartialEq, Eq, Structural, Clone, Copy, Debug)]
pub enum DialOutcome {
    Connected,
    Failed,
}

/// What the driver must do after the dial.
#[derive(PartialEq, Eq, Structural, Clone, Copy, Debug)]
pub enum SessionAction {
    /// Split both connections and run the two pumps concurrently.
    StartPumps,
    /// Close the client connection and end the session.
    CloseClient,
}

/// The abstract state of a session.
pub struct SessionModel {
    pub phase: SessionPhase,
    /// The pump that reads the client and writes upstream.
    pub to_server: PumpModel,
    /// The pump that reads upstream and writes the client.
    pub to_client: PumpModel,
}

impl SessionModel {
    /// A session whose dial has not completed.
    pub open spec fn fresh() -> SessionModel {
        SessionModel {
            phase: SessionPhase::Dialing,
            to_server: PumpModel::fresh(Direction::ClientToServer),
            to_client: PumpModel::fresh(Direction::ServerToClient),
        }
    }

    /// The pump that moves bytes in direction `d`.
    pub open spec fn pump_of(self, d: Direction) -> PumpModel {
        match d {
            Direction::ClientToServer => self.to_server,
            Direction::ServerToClient => self.to_client,
        }
    }

    /// Whether both pumps have ended.
    pub open spec fn both_closed(self) -> bool {
        self.to_server.is_closed() && self.to_client.is_closed()
    }

    /// Whether the session is over.
    pub open spec fn is_complete(self) -> bool {
        self.phase == SessionPhase::Aborted || self.phase == SessionPhase::Finished
    }

    /// What a session's state always satisfies: each pump keeps its
    /// direction and is consistent; no pump runs before a successful dial
    /// or after a failed one; and the session finishes exactly when both
    /// pumps have ended.
    pub open spec fn consistent(self) -> bool {
        &&& self.to_server.direction == Direction::ClientToServer
        &&& self.to_client.direction == Direction::ServerToClient
        &&& self.to_server.consistent()
        &&& self.to_client.consistent()
        &&& (self.phase == SessionPhase::Dialing || self.phase == SessionPhase::Aborted) ==> (
        self.to_server == PumpModel::fresh(Direction::ClientToServer) && self.to_client
            == PumpModel::fresh(Direction::ServerToClient))
        &&& self.phase == SessionPhase::Relaying ==> !self.both_closed()
        &&& self.phase == SessionPhase::Finished ==> self.both_closed()
    }

    /// This session with the pump of direction `d` replaced by `p`, and
    /// finished if both pumps have then ended.
    pub open spec fn with_pump(self, d: Direction, p: PumpModel) -> SessionModel {
        let s = match d {
            Direction::ClientToServer => SessionModel { to_server: p, ..self },
            Direction::ServerToClient => SessionModel { to_client: p, ..self },
        };
        if s.both_closed() {
            SessionModel { phase: SessionPhase::Finished, ..s }
        } else {
            s
        }
    }
}

/// The state of a dialling session once the dial completes.
pub open spec fn after_dial(m: SessionModel, outcome: DialOutcome) -> SessionModel {
    match outcome {
        DialOutcome::Connected => SessionModel { phase: SessionPhase::Relaying, ..m },
        DialOutcome::Failed => SessionModel { phase: SessionPhase::Aborted, ..m },
    }
}

/// What a dialling session asks for once the dial completes.
pub open spec fn dial_action(outcome: DialOutcome) -> SessionAction {
    match outcome {
        DialOutcome::Connected => SessionAction::StartPumps,
        DialOutcome::Failed => SessionAction::CloseClient,
    }
}

/// The state of a relaying session after a read by the pump of direction `d`.
pub open spec fn session_after_read(
    m: SessionModel,
    d: Direction,
    buf: Seq<u8>,
    outcome: ReadOutcome,
) -> SessionModel {
    m.with_pump(d, after_read(m.pump_of(d), buf, outcome))
}

/// The state of a relaying session after a write by the pump of direction `d`.
pub open spec fn session_after_write(m: SessionModel, d: Direction, outcome: WriteOutcome) -> SessionModel {
    m.with_pump(d, after_write(m.pump_of(d), outcome))
}

/// Isolation of the two directions: a step of one pump leaves the other
/// pump exactly as it was, and what the stepped pump becomes depends only on
/// its own state and the step's inputs. A session holds no state shared with
/// any other session, so the same holds between sessions.
pub proof fn lemma_directions_isolated(
    m: SessionModel,
    d: Direction,
    e: Direction,
    buf: Seq<u8>,
    r: ReadOutcome,
    w: WriteOutcome,
)
    requires
        m.consistent(),
        m.phase == SessionPhase::Relaying,
        d != e,
    ensures
        session_after_read(m, d, buf, r).pump_of(e) == m.pump_of(e),
        session_after_write(m, d, w).pump_of(e) == m.pump_of(e),
        session_after_read(m, d, buf, r).pump_of(d) == after_read(m.pump_of(d), buf, r),
        session_after_write(m, d, w).pump_of(d) == after_write(m.pump_of(d), w),
{
}

/// Half-close at the session level: when one pump ends (and asks for its
/// peer's write side to be shut down), the other pump keeps running until
/// its own end of stream or failure, and the session completes, allowing
/// teardown, only once both pumps have ended.
pub proof fn lemma_teardown_waits_for_both(
    m: SessionModel,
    d: Direction,
    buf: Seq<u8>,
    r: ReadOutcome,
    w: WriteOutcome,
)
    requires
        m.consistent(),
        m.phase == SessionPhase::Relaying,
    ensures
        m.pump_of(d).phase == PumpPhase::Reading && read_fits(buf, r) ==> {
            let n = session_after_read(m, d, buf, r);
            &&& n.consistent()
            &&& (n.is_complete() <==> n.both_closed())
            &&& (n.pump_of(d).is_closed() <==> read_action(buf, r) is ShutdownPeer)
        },
        m.pump_of(d).phase == PumpPhase::Writing ==> {
            let n = session_after_write(m, d, w);
            &&& n.consistent()
            &&& (n.is_complete() <==> n.both_closed())
            &&& (n.pump_of(d).is_closed() <==> write_action(w) is ShutdownPeer)
        },
{
    crate::pump::lemma_steps_keep_order(m.pump_of(d), buf, r, w);
}

/// Dial failure isolation: a failed dial completes the session at once,
/// closes the client connection, and runs no pump; the acceptor carries on
/// after any accept result.
pub proof fn lemma_dial_failure(m: SessionModel, a: AcceptOutcome)
    requires
        m.consistent(),
        m.phase == SessionPhase::Dialing,
    ensures
        after_dial(m, DialOutcome::Failed).is_complete(),
        after_dial(m, DialOutcome::Failed).consistent(),
        after_dial(m, DialOutcome::Failed).to_server == PumpModel::fresh(Direction::ClientToServer),
        after_dial(m, DialOutcome::Failed).to_client == PumpModel::fresh(Direction::ServerToClient),
        dial_action(DialOutcome::Failed) == SessionAction::CloseClient,
        accept_action(a) == AcceptAction::SpawnSession || accept_action(a)
            == AcceptAction::LogAndContinue,
{
}

/// One client connection paired with its upstream connection.
pub struct Session {
    phase: SessionPhase,
    to_server: Pump,
    to_client: Pump,
}

impl View for Session {
    type V = SessionModel;

    closed spec fn view(&self) -> SessionModel {
        SessionModel { phase: self.phase, to_server: self.to_server@, to_client: self.to_client@ }
    }
}

impl Session {
    /// A session for a newly accepted client, about to dial upstream.
    pub fn new() -> (r: Session)
        ensures
            r@ == SessionModel::fresh(),
            r@.consistent(),
    {
        Session {
            phase: SessionPhase::Dialing,
            to_server: Pump::new(Direction::ClientToServer),
            to_client: Pump::new(Direction::ServerToClient),
        }
    }

    pub fn phase(&self) -> (r: SessionPhase)
        ensures
            r == self@.phase,
    {
        self.phase
    }

    /// Whether the session is over: its dial failed, or both pumps ended.
    pub fn is_complete(&self) -> (r: bool)
        ensures
            r == self@.is_complete(),
    {
        match self.phase {
            SessionPhase::Aborted => true,
            SessionPhase::Finished => true,
            _ => false,
        }
    }

    /// The pump that moves bytes in direction `d`.
    pub fn pump(&self, d: Direction) -> (r: &Pump)
        ensures
            r@ == self@.pump_of(d),
    {
        match d {
            Direction::ClientToServer => &self.to_server,
            Direction::ServerToClient => &self.to_client,
        }
    }

    /// Takes the result of the upstream dial: on success both pumps start;
    /// on failure the client connection is closed and no pump ever runs.
    pub fn on_dial(&mut self, outcome: DialOutcome) -> (action: SessionAction)
        requires
            old(self)@.phase == SessionPhase::Dialing,
            old(self)@.consistent(),
        ensures
            final(self)@ == after_dial(old(self)@, outcome),
            final(self)@.consistent(),
            action == dial_action(outcome),
    {
        match outcome {
            DialOutcome::Connected => {
                self.phase = SessionPhase::Relaying;
                SessionAction::StartPumps
            },
            DialOutcome::Failed => {
                self.phase = SessionPhase::Aborted;
                SessionAction::CloseClient
            },
        }
    }

    fn settle(&mut self)
        requires
            old(self)@.phase == SessionPhase::Relaying,
        ensures
            final(self)@ == (if old(self)@.both_closed() {
                SessionModel { phase: SessionPhase::Finished, ..old(self)@ }
            } else {
                old(self)@
            }),
    {
        if self.to_server.is_closed() && self.to_client.is_closed() {
            self.phase = SessionPhase::Finished;
        }
    }

    /// Hands the result of a read to the pump of direction `d`; the session
    /// finishes once both pumps have ended.
    pub fn on_read(&mut self, d: Direction, buf: &[u8], outcome: ReadOutcome) -> (action: PumpAction)
        requires
            old(self)@.phase == SessionPhase::Relaying,
            old(self)@.consistent(),
            old(self)@.pump_of(d).phase == PumpPhase::Reading,
            read_fits(buf@, outcome),
        ensures
            final(self)@ == session_after_read(old(self)@, d, buf@, outcome),
            final(self)@.consistent(),
            action@ == read_action(buf@, outcome),
    {
        proof {
            crate::pump::lemma_steps_keep_order(
                self@.pump_of(d),
                buf@,
                outcome,
                WriteOutcome::Written,
            );
        }
        let action = match d {
            Direction::ClientToServer => self.to_server.on_read(buf, outcome),
            Direction::ServerToClient => self.to_client.on_read(buf, outcome),
        };
        self.settle();
        action
    }

    /// Hands the result of a write to the pump of direction `d`; the session
    /// finishes once both pumps have ended.
    pub fn on_write(&mut self, d: Direction, outcome: WriteOutcome) -> (action: PumpAction)
        requires
            old(self)@.phase == SessionPhase::Relaying,
            old(self)@.consistent(),
            old(self)@.pump_of(d).phase == PumpPhase::Writing,
        ensures
            final(self)@ == session_after_write(old(self)@, d, outcome),
            final(self)@.consistent(),
            action@ == write_action(outcome),
    {
        proof {
            crate::pump::lemma_steps_keep_order(
                self@.pump_of(d),
                Seq::empty(),
                ReadOutcome::Failed,
                outcome,
            );
        }
        let action = match d {
            Direction::ClientToServer => self.to_server.on_write(outcome),
            Direction::ServerToClient => self.to_client.on_write(outcome),
        };
        self.settle();
        action
    }
}

} // verus!
