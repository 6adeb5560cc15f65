use lsp_on_demand::relay::{RelayAction, RelayDirection, RelayEvent, RelayPhase, RELAY_BUFFER_SIZE};
use lsp_on_demand::session::{Session, SessionAction, SessionEvent, SessionState};

/// Runs one relay direction over `input`, delivered in reads of at most the
/// buffer size, into a peer that accepts every write.
fn relay_bytes(input: &[u8]) -> (Vec<u8>, RelayDirection) {
    let mut relay = RelayDirection::new();
    let mut out = Vec::new();
    let mut pos = 0;
    let mut buf = [0u8; RELAY_BUFFER_SIZE];
    let mut action = RelayAction::Read;
    loop {
        let event = match action {
            RelayAction::Read => {
                let n = (input.len() - pos).min(RELAY_BUFFER_SIZE);
                buf[..n].copy_from_slice(&input[pos..pos + n]);
                pos += n;
                RelayEvent::Received(n)
            }
            RelayAction::Send(n) => {
                out.extend_from_slice(&buf[..n]);
                RelayEvent::Sent
            }
            RelayAction::ShutDownBoth | RelayAction::Nothing => break,
        };
        action = relay.handle(event);
    }
    (out, relay)
}

#[test]
fn relay_forwards_every_byte_once() {
    let input: Vec<u8> = (0..5000u32).map(|i| (i % 251) as u8).collect();
    let (out, relay) = relay_bytes(&input);
    assert_eq!(out, input);
    assert_eq!(relay.phase(), RelayPhase::Finished);
}

#[test]
fn relay_of_empty_stream_finishes_at_once() {
    let mut relay = RelayDirection::new();
    assert_eq!(relay.handle(RelayEvent::Received(0)), RelayAction::ShutDownBoth);
    assert_eq!(relay.phase(), RelayPhase::Finished);
}

#[test]
fn relay_steps() {
    let mut relay = RelayDirection::new();
    assert_eq!(relay.phase(), RelayPhase::Reading);
    assert_eq!(relay.handle(RelayEvent::Received(17)), RelayAction::Send(17));
    assert_eq!(relay.phase(), RelayPhase::Writing(17));
    assert_eq!(relay.handle(RelayEvent::Sent), RelayAction::Read);
    assert_eq!(relay.handle(RelayEvent::ReadFailed), RelayAction::ShutDownBoth);
    assert_eq!(relay.handle(RelayEvent::Received(3)), RelayAction::Nothing);
    assert_eq!(relay.phase(), RelayPhase::Finished);
}

#[test]
fn relay_ends_on_write_failure() {
    let mut relay = RelayDirection::new();
    relay.handle(RelayEvent::Received(5));
    assert_eq!(relay.handle(RelayEvent::SendFailed), RelayAction::ShutDownBoth);
    assert_eq!(relay.phase(), RelayPhase::Finished);
}

#[test]
fn shutdown_of_one_side_ends_the_other() {
    // one direction waits on a read, the other on a write, when the peer closes
    let mut reading = RelayDirection::new();
    let mut writing = RelayDirection::new();
    writing.handle(RelayEvent::Received(8));
    assert_eq!(reading.handle(RelayEvent::Received(0)), RelayAction::ShutDownBoth);
    assert_eq!(writing.handle(RelayEvent::SendFailed), RelayAction::ShutDownBoth);
    assert_eq!(reading.phase(), RelayPhase::Finished);
    assert_eq!(writing.phase(), RelayPhase::Finished);
}

#[test]
fn relay_ignores_events_out_of_turn() {
    let mut relay = RelayDirection::new();
    assert_eq!(relay.handle(RelayEvent::Sent), RelayAction::Nothing);
    assert_eq!(relay.phase(), RelayPhase::Reading);
}

#[test]
fn session_runs_to_done() {
    let mut s = Session::new();
    assert_eq!(s.state(), SessionState::Acquiring);
    assert_eq!(s.advance(SessionEvent::Acquired), SessionAction::ConnectBackend);
    assert_eq!(s.advance(SessionEvent::Connected), SessionAction::StartRelay);
    assert_eq!(s.state(), SessionState::Relaying);
    assert_eq!(s.advance(SessionEvent::RelayFinished), SessionAction::ReturnBackend);
    assert!(!s.is_over());
    assert_eq!(s.advance(SessionEvent::Released), SessionAction::Nothing);
    assert_eq!(s.state(), SessionState::Done);
    assert!(s.is_over());
}

#[test]
fn session_fails_without_backend() {
    let mut s = Session::new();
    assert_eq!(s.advance(SessionEvent::AcquireFailed), SessionAction::CloseClient);
    assert_eq!(s.state(), SessionState::Failed);
    assert_eq!(s.advance(SessionEvent::Acquired), SessionAction::Nothing);
    assert_eq!(s.state(), SessionState::Failed);
}

#[test]
fn session_discards_unreachable_backend() {
    let mut s = Session::new();
    s.advance(SessionEvent::Acquired);
    assert_eq!(s.advance(SessionEvent::ConnectFailed), SessionAction::DiscardBackend);
    assert_eq!(s.state(), SessionState::Failed);
    assert_eq!(s.advance(SessionEvent::RelayFinished), SessionAction::Nothing);
}

#[test]
fn session_lets_go_of_backend_once() {
    let mut s = Session::new();
    let events = [
        SessionEvent::Acquired,
        SessionEvent::Connected,
        SessionEvent::RelayFinished,
        SessionEvent::RelayFinished,
        SessionEvent::ConnectFailed,
        SessionEvent::Released,
        SessionEvent::RelayFinished,
    ];
    let let_go = events
        .iter()
        .map(|e| s.advance(*e))
        .filter(|a| matches!(a, SessionAction::ReturnBackend | SessionAction::DiscardBackend))
        .count();
    assert_eq!(let_go, 1);
}
