use railroute::acceptor::{on_accept, AcceptAction, AcceptOutcome};
use railroute::pump::{Direction, PumpAction, PumpPhase, ReadOutcome, WriteOutcome};
use railroute::session::{DialOutcome, Session, SessionAction, SessionPhase};

fn read_into(session: &mut Session, d: Direction, data: &[u8]) -> PumpAction {
    let mut buf = vec![0u8; 65536];
    buf[..data.len()].copy_from_slice(data);
    session.on_read(d, &buf, ReadOutcome::Received(data.len()))
}

fn relay(session: &mut Session, d: Direction, data: &[u8]) -> Vec<u8> {
    let bytes = match read_into(session, d, data) {
        PumpAction::Write(bytes) => bytes,
        other => panic!("expected a write, got {:?}", other),
    };
    assert!(matches!(session.on_write(d, WriteOutcome::Written), PumpAction::Read));
    bytes
}

#[test]
fn ping_round_trip_then_close() {
    let mut s = Session::new();
    assert_eq!(s.phase(), SessionPhase::Dialing);
    assert_eq!(s.on_dial(DialOutcome::Connected), SessionAction::StartPumps);
    assert_eq!(s.phase(), SessionPhase::Relaying);
    // client sends "ping"; upstream receives it
    assert_eq!(relay(&mut s, Direction::ClientToServer, b"ping"), b"ping".to_vec());
    // echo server replies "ping"; the client receives it
    assert_eq!(relay(&mut s, Direction::ServerToClient, b"ping"), b"ping".to_vec());
    // the client closes: upstream's write side is shut down
    assert!(matches!(read_into(&mut s, Direction::ClientToServer, b""), PumpAction::ShutdownPeer));
    assert!(!s.is_complete());
    // upstream then closes its side too
    assert!(matches!(read_into(&mut s, Direction::ServerToClient, b""), PumpAction::ShutdownPeer));
    assert!(s.is_complete());
    assert_eq!(s.phase(), SessionPhase::Finished);
    // the acceptor is still ready for the next client
    assert_eq!(on_accept(AcceptOutcome::Accepted), AcceptAction::SpawnSession);
}

#[test]
fn half_close_keeps_other_direction_running() {
    let mut s = Session::new();
    s.on_dial(DialOutcome::Connected);
    assert!(matches!(read_into(&mut s, Direction::ClientToServer, b""), PumpAction::ShutdownPeer));
    assert!(s.pump(Direction::ClientToServer).is_closed());
    assert_eq!(s.pump(Direction::ServerToClient).phase(), PumpPhase::Reading);
    assert!(!s.is_complete());
    // trailing data from upstream still reaches the client
    assert_eq!(relay(&mut s, Direction::ServerToClient, b"tail"), b"tail".to_vec());
    assert!(!s.is_complete());
    assert!(matches!(
        s.on_read(Direction::ServerToClient, &[0u8; 4], ReadOutcome::Failed),
        PumpAction::ShutdownPeer
    ));
    assert!(s.is_complete());
}

#[test]
fn write_failure_ends_only_that_pump() {
    let mut s = Session::new();
    s.on_dial(DialOutcome::Connected);
    let _ = read_into(&mut s, Direction::ServerToClient, b"abc");
    assert!(matches!(
        s.on_write(Direction::ServerToClient, WriteOutcome::Failed),
        PumpAction::ShutdownPeer
    ));
    assert_eq!(s.phase(), SessionPhase::Relaying);
    assert_eq!(relay(&mut s, Direction::ClientToServer, b"xyz"), b"xyz".to_vec());
}

#[test]
fn dial_failure_closes_client() {
    let mut s = Session::new();
    assert_eq!(s.on_dial(DialOutcome::Failed), SessionAction::CloseClient);
    assert_eq!(s.phase(), SessionPhase::Aborted);
    assert!(s.is_complete());
    assert_eq!(s.pump(Direction::ClientToServer).phase(), PumpPhase::Reading);
    assert!(!s.pump(Direction::ServerToClient).is_closed());
    // the next client is still served
    assert_eq!(on_accept(AcceptOutcome::Accepted), AcceptAction::SpawnSession);
    let mut next = Session::new();
    assert_eq!(next.on_dial(DialOutcome::Connected), SessionAction::StartPumps);
}

#[test]
fn accept_failure_is_not_fatal() {
    assert_eq!(on_accept(AcceptOutcome::Failed), AcceptAction::LogAndContinue);
    assert_eq!(on_accept(AcceptOutcome::Accepted), AcceptAction::SpawnSession);
}

#[test]
fn two_sessions_do_not_share_bytes() {
    let mut a = Session::new();
    let mut b = Session::new();
    a.on_dial(DialOutcome::Connected);
    b.on_dial(DialOutcome::Connected);
    let a1 = relay(&mut a, Direction::ClientToServer, b"alpha");
    let b1 = relay(&mut b, Direction::ClientToServer, b"beta");
    let a2 = relay(&mut a, Direction::ServerToClient, b"ALPHA");
    assert!(matches!(read_into(&mut b, Direction::ClientToServer, b""), PumpAction::ShutdownPeer));
    assert_eq!(a1, b"alpha".to_vec());
    assert_eq!(b1, b"beta".to_vec());
    assert_eq!(a2, b"ALPHA".to_vec());
    assert!(!a.pump(Direction::ClientToServer).is_closed());
    assert!(b.pump(Direction::ClientToServer).is_closed());
}
