use simple_proxy::copier::{CopyEvent, Operation};
use simple_proxy::fleet::{accept, AcceptAction, AcceptEvent};
use simple_proxy::outcome::{CopyOutcome, Direction, RelayOutcome, StepError};
use simple_proxy::relay::{Relay, RelayAction, RelayEvent, RelayPhase};

type Answer = Result<RelayAction<&'static str>, StepError>;

fn launch() -> Relay {
    let event: AcceptEvent<&'static str> = AcceptEvent::Connection;
    match accept(event) {
        AcceptAction::Launch(relay) => relay,
        AcceptAction::Report(cause) => panic!("unexpected report: {}", cause),
    }
}

/// Feeds `bytes` through one direction of `relay`, in chunks of three bytes,
/// and returns what the sink of that direction took.
fn feed(relay: &mut Relay, direction: Direction, bytes: &[u8]) -> Vec<u8> {
    let mut sink: Vec<u8> = Vec::new();
    for piece in bytes.chunks(3) {
        let answer: Answer =
            relay.step(RelayEvent::Copy(direction, CopyEvent::Chunk(piece.to_vec())));
        assert_eq!(answer, Ok(RelayAction::Perform(direction, Operation::Write)));
        sink.extend_from_slice(relay.pending(direction));
        let answer: Answer =
            relay.step(RelayEvent::Copy(direction, CopyEvent::Wrote(piece.len())));
        assert_eq!(answer, Ok(RelayAction::Perform(direction, Operation::Read)));
    }
    sink
}

#[test]
fn connection_gets_a_new_relay() {
    let relay = launch();
    assert_eq!(relay.phase(), RelayPhase::Dialing);
    assert!(relay.client_open());
    assert!(!relay.remote_open());
    assert_eq!(relay.transferred(Direction::Sending), 0);
    assert_eq!(relay.transferred(Direction::Receiving), 0);
}

#[test]
fn accept_failure_is_reported() {
    match accept(AcceptEvent::Failed("too many open files")) {
        AcceptAction::Report(cause) => assert_eq!(cause, "too many open files"),
        AcceptAction::Launch(_) => panic!("a failure launched a relay"),
    }
    // The loop goes on: the next connection is served as any other.
    let relay = launch();
    assert_eq!(relay.phase(), RelayPhase::Dialing);
}

#[test]
fn second_connection_is_served_while_the_first_hangs() {
    // The remote of the first relay never answers the dial.
    let first = launch();
    let mut second = launch();
    let _: Answer = second.step(RelayEvent::Dialed);
    let sink = feed(&mut second, Direction::Sending, b"hello");
    assert_eq!(sink, b"hello");
    let _: Answer =
        second.step(RelayEvent::Copy(Direction::Sending, CopyEvent::Chunk(Vec::new())));
    let answer: Answer = second.step(RelayEvent::Copy(Direction::Sending, CopyEvent::Closed));
    assert_eq!(
        answer,
        Ok(RelayAction::Teardown {
            remote: true,
            outcome: RelayOutcome::Completed {
                winner: Direction::Sending,
                outcome: CopyOutcome::Transferred(5),
            },
        })
    );
    assert_eq!(first.phase(), RelayPhase::Dialing);
    assert!(first.client_open());
}

#[test]
fn failing_relay_leaves_the_others_alone() {
    let mut relays: Vec<Relay> = (0..5).map(|_| launch()).collect();
    let payloads: Vec<Vec<u8>> =
        (0..5u8).map(|k| (0..40u8).map(|i| i.wrapping_mul(k + 3)).collect()).collect();
    let mut sinks: Vec<Vec<u8>> = vec![Vec::new(); 5];

    // Relay 1 fails to dial; the others connect.
    for (k, relay) in relays.iter_mut().enumerate() {
        let answer: Answer = if k == 1 {
            relay.step(RelayEvent::DialFailed("connection refused"))
        } else {
            relay.step(RelayEvent::Dialed)
        };
        assert!(answer.is_ok());
    }
    // First half of every payload, relay by relay.
    for k in [0usize, 2, 3, 4] {
        let part = feed(&mut relays[k], Direction::Sending, &payloads[k][..20]);
        sinks[k].extend_from_slice(&part);
    }
    // Relay 3 fails in the middle of its copy.
    let answer: Answer =
        relays[3].step(RelayEvent::Copy(Direction::Receiving, CopyEvent::ReadFailed("reset")));
    assert!(matches!(answer, Ok(RelayAction::Teardown { remote: true, .. })));
    // The others go on to the end.
    for k in [0usize, 2, 4] {
        let part = feed(&mut relays[k], Direction::Sending, &payloads[k][20..]);
        sinks[k].extend_from_slice(&part);
        let _: Answer =
            relays[k].step(RelayEvent::Copy(Direction::Sending, CopyEvent::Chunk(Vec::new())));
        let answer: Answer =
            relays[k].step(RelayEvent::Copy(Direction::Sending, CopyEvent::Closed));
        assert_eq!(
            answer,
            Ok(RelayAction::Teardown {
                remote: true,
                outcome: RelayOutcome::Completed {
                    winner: Direction::Sending,
                    outcome: CopyOutcome::Transferred(40),
                },
            })
        );
        assert_eq!(sinks[k], payloads[k]);
    }
    assert_eq!(relays[1].phase(), RelayPhase::Finished);
    assert_eq!(relays[3].phase(), RelayPhase::Finished);
    assert_eq!(relays[3].transferred(Direction::Sending), 20);
    assert_eq!(sinks[3], &payloads[3][..20]);
}
