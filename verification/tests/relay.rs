use simple_proxy::copier::{CopyEvent, Operation};
use simple_proxy::outcome::{Cause, CopyOutcome, Direction, RelayOutcome, Side, StepError};
use simple_proxy::relay::{Relay, RelayAction, RelayEvent, RelayPhase};

type Event = RelayEvent<&'static str>;
type Answer = Result<RelayAction<&'static str>, StepError>;

fn chunk(direction: Direction, bytes: &[u8]) -> Event {
    RelayEvent::Copy(direction, CopyEvent::Chunk(bytes.to_vec()))
}

fn wrote(direction: Direction, n: usize) -> Event {
    RelayEvent::Copy(direction, CopyEvent::Wrote(n))
}

fn closed(direction: Direction) -> Event {
    RelayEvent::Copy(direction, CopyEvent::Closed)
}

fn dialed() -> Relay {
    let mut relay = Relay::new();
    let answer: Answer = relay.step(RelayEvent::Dialed);
    assert_eq!(answer, Ok(RelayAction::Start));
    relay
}

#[test]
fn new_relay_is_dialing() {
    let relay = Relay::new();
    assert_eq!(relay.phase(), RelayPhase::Dialing);
    assert!(relay.client_open());
    assert!(!relay.remote_open());
    assert_eq!(relay.awaits(Direction::Sending), None);
    assert_eq!(relay.awaits(Direction::Receiving), None);
    assert_eq!(relay.transferred(Direction::Sending), 0);
    assert_eq!(relay.transferred(Direction::Receiving), 0);
}

#[test]
fn dial_success_starts_both_copies() {
    let relay = dialed();
    assert_eq!(relay.phase(), RelayPhase::Relaying);
    assert!(relay.client_open());
    assert!(relay.remote_open());
    assert_eq!(relay.awaits(Direction::Sending), Some(Operation::Read));
    assert_eq!(relay.awaits(Direction::Receiving), Some(Operation::Read));
}

#[test]
fn refused_dial_closes_the_client_connection() {
    let mut relay = Relay::new();
    let answer: Answer = relay.step(RelayEvent::DialFailed("connection refused"));
    assert_eq!(
        answer,
        Ok(RelayAction::Teardown {
            remote: false,
            outcome: RelayOutcome::DialFailed("connection refused"),
        })
    );
    assert_eq!(relay.phase(), RelayPhase::Finished);
    assert!(!relay.client_open());
    assert!(!relay.remote_open());
    assert_eq!(relay.awaits(Direction::Sending), None);
    assert_eq!(relay.awaits(Direction::Receiving), None);
}

#[test]
fn dial_is_not_tried_again() {
    let mut relay = Relay::new();
    let _: Answer = relay.step(RelayEvent::DialFailed("connection refused"));
    let answer: Answer = relay.step(RelayEvent::Dialed);
    assert_eq!(answer, Err(StepError::OutOfTurn));
    let answer: Answer = relay.step(RelayEvent::DialFailed("again"));
    assert_eq!(answer, Err(StepError::OutOfTurn));
    assert_eq!(relay.phase(), RelayPhase::Finished);
    assert!(!relay.remote_open());
}

#[test]
fn copy_event_before_the_dial_is_refused() {
    let mut relay = Relay::new();
    let answer: Answer = relay.step(chunk(Direction::Sending, b"early"));
    assert_eq!(answer, Err(StepError::OutOfTurn));
    assert_eq!(relay.phase(), RelayPhase::Dialing);
    assert_eq!(relay.transferred(Direction::Sending), 0);
}

#[test]
fn second_dial_result_is_refused() {
    let mut relay = dialed();
    let answer: Answer = relay.step(RelayEvent::Dialed);
    assert_eq!(answer, Err(StepError::OutOfTurn));
    let answer: Answer = relay.step(RelayEvent::DialFailed("late"));
    assert_eq!(answer, Err(StepError::OutOfTurn));
    assert_eq!(relay.phase(), RelayPhase::Relaying);
}

#[test]
fn ping_is_echoed_and_both_connections_are_closed() {
    let mut relay = dialed();
    let answer: Answer = relay.step(chunk(Direction::Sending, b"PING"));
    assert_eq!(answer, Ok(RelayAction::Perform(Direction::Sending, Operation::Write)));
    assert_eq!(relay.pending(Direction::Sending), b"PING");
    let answer: Answer = relay.step(wrote(Direction::Sending, 4));
    assert_eq!(answer, Ok(RelayAction::Perform(Direction::Sending, Operation::Read)));

    let answer: Answer = relay.step(chunk(Direction::Receiving, b"PING"));
    assert_eq!(answer, Ok(RelayAction::Perform(Direction::Receiving, Operation::Write)));
    assert_eq!(relay.pending(Direction::Receiving), b"PING");
    let answer: Answer = relay.step(wrote(Direction::Receiving, 4));
    assert_eq!(answer, Ok(RelayAction::Perform(Direction::Receiving, Operation::Read)));

    let answer: Answer = relay.step(chunk(Direction::Sending, b""));
    assert_eq!(answer, Ok(RelayAction::Perform(Direction::Sending, Operation::CloseSink)));
    let answer: Answer = relay.step(closed(Direction::Sending));
    assert_eq!(
        answer,
        Ok(RelayAction::Teardown {
            remote: true,
            outcome: RelayOutcome::Completed {
                winner: Direction::Sending,
                outcome: CopyOutcome::Transferred(4),
            },
        })
    );
    assert_eq!(relay.transferred(Direction::Sending), 4);
    assert_eq!(relay.transferred(Direction::Receiving), 4);
    assert_eq!(relay.phase(), RelayPhase::Finished);
    assert!(!relay.client_open());
    assert!(!relay.remote_open());

    let answer: Answer = relay.step(chunk(Direction::Receiving, b""));
    assert_eq!(answer, Ok(RelayAction::Discard));
}

#[test]
fn remote_closing_first_wins_the_race() {
    let mut relay = dialed();
    let _: Answer = relay.step(chunk(Direction::Sending, b"PING"));
    let _: Answer = relay.step(wrote(Direction::Sending, 4));
    let _: Answer = relay.step(chunk(Direction::Receiving, b"PING"));
    let _: Answer = relay.step(wrote(Direction::Receiving, 4));
    let _: Answer = relay.step(chunk(Direction::Receiving, b""));
    let answer: Answer = relay.step(closed(Direction::Receiving));
    assert_eq!(
        answer,
        Ok(RelayAction::Teardown {
            remote: true,
            outcome: RelayOutcome::Completed {
                winner: Direction::Receiving,
                outcome: CopyOutcome::Transferred(4),
            },
        })
    );
    assert_eq!(relay.transferred(Direction::Sending), 4);
    assert_eq!(relay.transferred(Direction::Receiving), 4);
    assert!(!relay.client_open());
    assert!(!relay.remote_open());
}

#[test]
fn relay_ends_while_the_other_copy_is_blocked() {
    // Receiving has a chunk in flight and never gets its write through.
    let mut relay = dialed();
    let _: Answer = relay.step(chunk(Direction::Receiving, b"stuck"));
    assert_eq!(relay.awaits(Direction::Receiving), Some(Operation::Write));
    let _: Answer = relay.step(chunk(Direction::Sending, b""));
    let answer: Answer = relay.step(closed(Direction::Sending));
    assert_eq!(
        answer,
        Ok(RelayAction::Teardown {
            remote: true,
            outcome: RelayOutcome::Completed {
                winner: Direction::Sending,
                outcome: CopyOutcome::Transferred(0),
            },
        })
    );
    assert_eq!(relay.phase(), RelayPhase::Finished);
    assert!(!relay.client_open());
    assert!(!relay.remote_open());
    assert_eq!(relay.awaits(Direction::Receiving), None);
    assert_eq!(relay.awaits(Direction::Sending), None);
    assert_eq!(relay.transferred(Direction::Receiving), 0);
}

#[test]
fn failed_copy_ends_the_relay_at_once() {
    let mut relay = dialed();
    let _: Answer = relay.step(chunk(Direction::Sending, b"half"));
    let _: Answer = relay.step(wrote(Direction::Sending, 2));
    let answer: Answer =
        relay.step(RelayEvent::Copy(Direction::Receiving, CopyEvent::ReadFailed("reset")));
    assert_eq!(
        answer,
        Ok(RelayAction::Teardown {
            remote: true,
            outcome: RelayOutcome::Completed {
                winner: Direction::Receiving,
                outcome: CopyOutcome::Failed { side: Side::Read, cause: Cause::Io("reset") },
            },
        })
    );
    assert_eq!(relay.phase(), RelayPhase::Finished);
    assert!(!relay.client_open());
    assert!(!relay.remote_open());
    assert_eq!(relay.transferred(Direction::Sending), 2);
}

#[test]
fn write_failure_names_the_write_side() {
    let mut relay = dialed();
    let _: Answer = relay.step(chunk(Direction::Sending, b"data"));
    let answer: Answer =
        relay.step(RelayEvent::Copy(Direction::Sending, CopyEvent::WriteFailed("broken pipe")));
    assert_eq!(
        answer,
        Ok(RelayAction::Teardown {
            remote: true,
            outcome: RelayOutcome::Completed {
                winner: Direction::Sending,
                outcome: CopyOutcome::Failed {
                    side: Side::Write,
                    cause: Cause::Io("broken pipe"),
                },
            },
        })
    );
}

#[test]
fn stalled_sink_ends_the_relay() {
    let mut relay = dialed();
    let _: Answer = relay.step(chunk(Direction::Receiving, b"data"));
    let answer: Answer = relay.step(wrote(Direction::Receiving, 0));
    assert_eq!(
        answer,
        Ok(RelayAction::Teardown {
            remote: true,
            outcome: RelayOutcome::Completed {
                winner: Direction::Receiving,
                outcome: CopyOutcome::Failed { side: Side::Write, cause: Cause::WriteZero },
            },
        })
    );
    assert!(!relay.client_open());
    assert!(!relay.remote_open());
}

#[test]
fn events_after_the_end_are_discarded() {
    let mut relay = dialed();
    let _: Answer = relay.step(chunk(Direction::Receiving, b"pending"));
    let _: Answer =
        relay.step(RelayEvent::Copy(Direction::Sending, CopyEvent::ReadFailed("reset")));
    let late: Vec<Event> = vec![
        wrote(Direction::Receiving, 7),
        RelayEvent::Copy(Direction::Receiving, CopyEvent::WriteFailed("closed")),
        chunk(Direction::Receiving, b""),
        chunk(Direction::Sending, b"more"),
        closed(Direction::Sending),
        wrote(Direction::Receiving, 100),
    ];
    for event in late {
        assert_eq!(relay.step(event), Ok(RelayAction::Discard));
        assert_eq!(relay.phase(), RelayPhase::Finished);
        assert_eq!(relay.transferred(Direction::Receiving), 0);
        assert_eq!(relay.transferred(Direction::Sending), 0);
        assert_eq!(relay.pending(Direction::Receiving), b"pending");
    }
}

#[test]
fn refused_copy_event_changes_nothing() {
    let mut relay = dialed();
    let _: Answer = relay.step(chunk(Direction::Sending, b"abc"));
    let answer: Answer = relay.step(wrote(Direction::Sending, 9));
    assert_eq!(answer, Err(StepError::BadLength));
    let answer: Answer = relay.step(chunk(Direction::Sending, b"def"));
    assert_eq!(answer, Err(StepError::OutOfTurn));
    let answer: Answer = relay.step(wrote(Direction::Receiving, 1));
    assert_eq!(answer, Err(StepError::OutOfTurn));
    assert_eq!(relay.phase(), RelayPhase::Relaying);
    assert_eq!(relay.pending(Direction::Sending), b"abc");
    assert_eq!(relay.awaits(Direction::Sending), Some(Operation::Write));
    assert_eq!(relay.awaits(Direction::Receiving), Some(Operation::Read));
}

#[test]
fn directions_do_not_mix_their_bytes() {
    let mut relay = dialed();
    let mut to_remote: Vec<u8> = Vec::new();
    let mut to_client: Vec<u8> = Vec::new();
    let _: Answer = relay.step(chunk(Direction::Sending, b"GET /"));
    let _: Answer = relay.step(chunk(Direction::Receiving, b"200 OK"));
    to_remote.extend_from_slice(&relay.pending(Direction::Sending)[..3]);
    let _: Answer = relay.step(wrote(Direction::Sending, 3));
    to_client.extend_from_slice(relay.pending(Direction::Receiving));
    let _: Answer = relay.step(wrote(Direction::Receiving, 6));
    to_remote.extend_from_slice(relay.pending(Direction::Sending));
    let _: Answer = relay.step(wrote(Direction::Sending, 2));
    assert_eq!(to_remote, b"GET /");
    assert_eq!(to_client, b"200 OK");
    assert_eq!(relay.transferred(Direction::Sending), 5);
    assert_eq!(relay.transferred(Direction::Receiving), 6);
}

#[test]
fn ordinary_relay_events_fit() {
    let mut relay = Relay::new();
    let event: Event = RelayEvent::Dialed;
    assert!(relay.fits(&event));
    let _: Answer = relay.step(event);
    let event = chunk(Direction::Sending, &[0u8; 2048]);
    assert!(relay.fits(&event));
    let _: Answer = relay.step(event);
    let event = wrote(Direction::Sending, 2048);
    assert!(relay.fits(&event));
}
