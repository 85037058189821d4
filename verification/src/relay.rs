//! The byte relay: one client connection, one dial, two copies, one teardown.
//!
//! A relay owns the pair of connections of one proxied session. It dials the
//! remote target once; on success it copies in both directions at once, and it
//! ends as soon as either copy ends. Whatever way it ends, the step that ends it
//! asks for every open connection to be closed.

use vstd::prelude::*;
use crate::copier::{Copier, CopierView, CopyAction, CopyEvent, Operation};
use crate::outcome::{CopyOutcome, Direction, RelayOutcome, StepError};

verus! {

/// Where a relay stands.
#[derive(Clone, Copy, Debug, PartialEq, Eq, Structural)]
pub enum RelayPhase {
    /// The client connection is open; the dial of the remote target is under way.
    Dialing,
    /// Both connections are open, and both copies run.
    Relaying,
    /// The relay has ended, and its connections are released.
    Finished,
}

/// What happened, as the driver reports it.
#[derive(Debug, PartialEq, Eq)]
pub enum RelayEvent<E> {
    /// The remote target accepted the connection.
    Dialed,
    /// The remote target could not be reached.
    DialFailed(E),
    /// The result of an operation of the copy in the given direction.
    Copy(Direction, CopyEvent<E>),
}

/// What a relay wants next.
#[derive(Debug, PartialEq, Eq)]
pub enum RelayAction<E> {
    /// Both connections are up: read from both of them.
    Start,
    /// Perform this operation for the copy in the given direction.
    Perform(Direction, Operation),
    /// The relay has ended with `outcome`. Close the client connection, and
    /// the remote connection if `remote` says that there is one.
    Teardown { remote: bool, outcome: RelayOutcome<E> },
    /// The event came from the copy that lost the race: nothing is to be done.
    Discard,
}

/// The mathematical model of a relay: its phase and its two copiers.
pub struct RelayView {
    pub phase: RelayPhase,
    /// The copy from the client to the remote target.
    pub sending: CopierView,
    /// The copy from the remote target to the client.
    pub receiving: CopierView,
}

impl RelayView {
    /// A relay that has just been handed its client connection.
    pub open spec fn fresh() -> RelayView {
        RelayView {
            phase: RelayPhase::Dialing,
            sending: CopierView::fresh(),
            receiving: CopierView::fresh(),
        }
    }

    /// The copier of the given direction.
    pub open spec fn copier(self, direction: Direction) -> CopierView {
        match direction {
            Direction::Sending => self.sending,
            Direction::Receiving => self.receiving,
        }
    }

    /// This relay with `copier` in the given direction.
    pub open spec fn with_copier(self, direction: Direction, copier: CopierView) -> RelayView {
        match direction {
            Direction::Sending => RelayView { sending: copier, ..self },
            Direction::Receiving => RelayView { receiving: copier, ..self },
        }
    }

    /// The relay holds the client connection.
    pub open spec fn client_open(self) -> bool {
        !(self.phase is Finished)
    }

    /// The relay holds a connection to the remote target.
    pub open spec fn remote_open(self) -> bool {
        self.phase is Relaying
    }

    /// Both copiers are well formed; before the dial has succeeded neither has
    /// seen an event; while the relay runs neither has ended; and at no time
    /// have both ended.
    pub open spec fn wf(self) -> bool {
        &&& self.sending.wf()
        &&& self.receiving.wf()
        &&& self.phase is Dialing ==> self.sending == CopierView::fresh() && self.receiving
            == CopierView::fresh()
        &&& self.phase is Relaying ==> !self.sending.ended() && !self.receiving.ended()
        &&& !(self.sending.ended() && self.receiving.ended())
    }

    /// The operation that the copy in the given direction waits for. A copy
    /// waits for nothing before the dial has succeeded and after the relay has ended.
    pub open spec fn awaits(self, direction: Direction) -> Option<Operation> {
        if self.phase is Relaying {
            self.copier(direction).awaits()
        } else {
            None
        }
    }

    /// The count of bytes of each copy stays within `u64` after `event`.
    pub open spec fn fits<E>(self, event: RelayEvent<E>) -> bool {
        self.phase is Relaying ==> (event matches RelayEvent::Copy(direction, inner)
            ==> self.copier(direction).fits(inner))
    }

    /// The relay's answer to `event`.
    pub open spec fn react<E>(self, event: RelayEvent<E>) -> Result<RelayAction<E>, StepError> {
        match self.phase {
            RelayPhase::Dialing => match event {
                RelayEvent::Dialed => Ok(RelayAction::Start),
                RelayEvent::DialFailed(cause) => Ok(
                    RelayAction::Teardown {
                        remote: false,
                        outcome: RelayOutcome::DialFailed(cause),
                    },
                ),
                RelayEvent::Copy(_, _) => Err(StepError::OutOfTurn),
            },
            RelayPhase::Relaying => match event {
                RelayEvent::Copy(direction, inner) => match self.copier(direction).react(inner) {
                    Ok(CopyAction::Perform(operation)) => Ok(
                        RelayAction::Perform(direction, operation),
                    ),
                    Ok(CopyAction::Finish(outcome)) => Ok(
                        RelayAction::Teardown {
                            remote: true,
                            outcome: RelayOutcome::Completed { winner: direction, outcome },
                        },
                    ),
                    Err(error) => Err(error),
                },
                _ => Err(StepError::OutOfTurn),
            },
            RelayPhase::Finished => match event {
                RelayEvent::Copy(_, _) => Ok(RelayAction::Discard),
                _ => Err(StepError::OutOfTurn),
            },
        }
    }

    /// The relay after `event`. A refused or discarded event changes nothing.
    pub open spec fn next<E>(self, event: RelayEvent<E>) -> RelayView {
        match self.phase {
            RelayPhase::Dialing => match event {
                RelayEvent::Dialed => RelayView { phase: RelayPhase::Relaying, ..self },
                RelayEvent::DialFailed(_) => RelayView { phase: RelayPhase::Finished, ..self },
                RelayEvent::Copy(_, _) => self,
            },
            RelayPhase::Relaying => match event {
                RelayEvent::Copy(direction, inner) => {
                    let copier = self.copier(direction).next(inner);
                    let phase = if copier.ended() {
                        RelayPhase::Finished
                    } else {
                        RelayPhase::Relaying
                    };
                    RelayView { phase, ..self.with_copier(direction, copier) }
                },
                _ => self,
            },
            RelayPhase::Finished => self,
        }
    }
}

/// The pair of connections of one proxied session.
pub struct Relay {
    phase: RelayPhase,
    sending: Copier,
    receiving: Copier,
}

impl View for Relay {
    type V = RelayView;

    closed spec fn view(&self) -> RelayView {
        RelayView { phase: self.phase, sending: self.sending@, receiving: self.receiving@ }
    }
}

impl Relay {
    /// The fields of both copiers hold what their views say.
    pub closed spec fn coherent(&self) -> bool {
        self.sending.coherent() && self.receiving.coherent()
    }

    /// The view is well formed, and the fields agree with it.
    pub open spec fn wf(&self) -> bool {
        self@.wf() && self.coherent()
    }

    /// A relay for a client connection that has just been accepted. The driver
    /// dials the remote target once and reports `Dialed` or `DialFailed`.
    pub fn new() -> (relay: Relay)
        ensures
            relay.wf(),
            relay@ == RelayView::fresh(),
    {
        Relay { phase: RelayPhase::Dialing, sending: Copier::new(), receiving: Copier::new() }
    }

    /// Whether `event` keeps the count of bytes of each copy within `u64`.
    /// `step` asks for it.
    pub fn fits<E>(&self, event: &RelayEvent<E>) -> (ok: bool)
        requires
            self.wf(),
        ensures
            ok == self@.fits(*event),
    {
        match (self.phase, event) {
            (RelayPhase::Relaying, RelayEvent::Copy(Direction::Sending, inner)) => {
                self.sending.fits(inner)
            },
            (RelayPhase::Relaying, RelayEvent::Copy(Direction::Receiving, inner)) => {
                self.receiving.fits(inner)
            },
            _ => true,
        }
    }

    /// Takes what happened and says what comes next.
    ///
    /// While dialing, `Dialed` starts both copies and `DialFailed` ends the
    /// relay, and its teardown closes the client connection alone. While
    /// relaying, an event of a copy goes to the copier of its direction; when
    /// that copy ends, cleanly or not, the relay ends in the same step with that
    /// copy's outcome, and the teardown closes both connections without a look
    /// at the other copy. After the end, the events of the other copy are
    /// discarded. Any other event is refused and changes nothing.
    pub fn step<E>(&mut self, event: RelayEvent<E>) -> (result: Result<RelayAction<E>, StepError>)
        requires
            old(self).wf(),
            old(self)@.fits(event),
        ensures
            final(self).wf(),
            final(self)@ == old(self)@.next(event),
            result == old(self)@.react(event),
    {
        match self.phase {
            RelayPhase::Dialing => match event {
                RelayEvent::Dialed => {
                    self.phase = RelayPhase::Relaying;
                    Ok(RelayAction::Start)
                },
                RelayEvent::DialFailed(cause) => {
                    self.phase = RelayPhase::Finished;
                    Ok(
                        RelayAction::Teardown {
                            remote: false,
                            outcome: RelayOutcome::DialFailed(cause),
                        },
                    )
                },
                RelayEvent::Copy(_, _) => Err(StepError::OutOfTurn),
            },
            RelayPhase::Relaying => match event {
                RelayEvent::Copy(direction, inner) => {
                    proof {
                        crate::copier::lemma_action_matches_phase(
                            self@.copier(direction),
                            inner,
                        );
                    }
                    let answer = match direction {
                        Direction::Sending => self.sending.step(inner),
                        Direction::Receiving => self.receiving.step(inner),
                    };
                    match answer {
                        Ok(CopyAction::Perform(operation)) => Ok(
                            RelayAction::Perform(direction, operation),
                        ),
                        Ok(CopyAction::Finish(outcome)) => {
                            self.phase = RelayPhase::Finished;
                            Ok(
                                RelayAction::Teardown {
                                    remote: true,
                                    outcome: RelayOutcome::Completed { winner: direction, outcome },
                                },
                            )
                        },
                        Err(error) => Err(error),
                    }
                },
                _ => Err(StepError::OutOfTurn),
            },
            RelayPhase::Finished => match event {
                RelayEvent::Copy(_, _) => Ok(RelayAction::Discard),
                _ => Err(StepError::OutOfTurn),
            },
        }
    }

    /// Where the relay stands.
    pub fn phase(&self) -> (phase: RelayPhase)
        ensures
            phase == self@.phase,
    {
        self.phase
    }

    /// Whether the relay holds the client connection.
    pub fn client_open(&self) -> (open: bool)
        ensures
            open == self@.client_open(),
    {
        match self.phase {
            RelayPhase::Finished => false,
            _ => true,
        }
    }

    /// Whether the relay holds a connection to the remote target.
    pub fn remote_open(&self) -> (open: bool)
        ensures
            open == self@.remote_open(),
    {
        match self.phase {
            RelayPhase::Relaying => true,
            _ => false,
        }
    }

    /// The operation that the copy in the given direction waits for, if any.
    pub fn awaits(&self, direction: Direction) -> (operation: Option<Operation>)
        ensures
            operation == self@.awaits(direction),
    {
        match self.phase {
            RelayPhase::Relaying => match direction {
                Direction::Sending => self.sending.awaits(),
                Direction::Receiving => self.receiving.awaits(),
            },
            _ => None,
        }
    }

    /// The bytes that the copy in the given direction has to write next.
    pub fn pending(&self, direction: Direction) -> (bytes: &[u8])
        requires
            self.wf(),
        ensures
            bytes@ == self@.copier(direction).pending(),
    {
        match direction {
            Direction::Sending => self.sending.pending(),
            Direction::Receiving => self.receiving.pending(),
        }
    }

    /// The number of bytes that the copy in the given direction has handed over.
    pub fn transferred(&self, direction: Direction) -> (count: u64)
        requires
            self.wf(),
        ensures
            count == self@.copier(direction).delivered.len(),
    {
        match direction {
            Direction::Sending => self.sending.transferred(),
            Direction::Receiving => self.receiving.transferred(),
        }
    }
}

/// The relay that `events`, taken in order, lead to from `start`.
pub open spec fn run<E>(start: RelayView, events: Seq<RelayEvent<E>>) -> RelayView
    decreases events.len(),
{
    if events.len() == 0 {
        start
    } else {
        run(start.next(events[0]), events.drop_first())
    }
}

/// Every event of `events` keeps the counts of bytes within `u64` when its turn comes.
pub open spec fn run_fits<E>(start: RelayView, events: Seq<RelayEvent<E>>) -> bool
    decreases events.len(),
{
    events.len() > 0 ==> start.fits(events[0]) && run_fits(
        start.next(events[0]),
        events.drop_first(),
    )
}

/// A step keeps a relay well formed.
pub proof fn lemma_next_wf<E>(relay: RelayView, event: RelayEvent<E>)
    requires
        relay.wf(),
        relay.fits(event),
    ensures
        relay.next(event).wf(),
{
    if relay.phase is Relaying {
        if let RelayEvent::Copy(direction, inner) = event {
            crate::copier::lemma_next_wf(relay.copier(direction), inner);
        }
    }
}

/// A run keeps a relay well formed.
pub proof fn lemma_run_wf<E>(start: RelayView, events: Seq<RelayEvent<E>>)
    requires
        start.wf(),
        run_fits(start, events),
    ensures
        run(start, events).wf(),
    decreases events.len(),
{
    if events.len() > 0 {
        lemma_next_wf(start, events[0]);
        lemma_run_wf(start.next(events[0]), events.drop_first());
    }
}

/// The life of a relay. Whatever events a new relay is given, it is well
/// formed: it has dialed at most once, it runs only while both copies run,
/// and in each direction the sink has taken the start of what the source gave.
pub proof fn lemma_life_of_a_relay<E>(events: Seq<RelayEvent<E>>)
    requires
        run_fits(RelayView::fresh(), events),
    ensures
        run(RelayView::fresh(), events).wf(),
        forall|direction: Direction| #[trigger]
            run(RelayView::fresh(), events).copier(direction).delivered.is_prefix_of(
                run(RelayView::fresh(), events).copier(direction).received,
            ),
{
    lemma_run_wf(RelayView::fresh(), events);
}

/// A relay only moves forward: from dialing to relaying or to its end, from
/// relaying to its end. It dials once, and a connection that it has released
/// is never held again.
pub proof fn lemma_phase_moves_forward<E>(relay: RelayView, event: RelayEvent<E>)
    ensures
        relay.next(event).phase is Dialing ==> relay.phase is Dialing,
        relay.phase is Finished ==> relay.next(event).phase is Finished,
        !relay.client_open() ==> !relay.next(event).client_open(),
        relay.next(event).remote_open() && !relay.remote_open() ==> relay.phase is Dialing
            && event is Dialed,
{
}

/// Race termination. When the copy in one direction ends, cleanly or not, the
/// relay ends in that very step, whatever the copy in the other direction
/// waits for: the step asks for both connections to be closed, reports the
/// outcome of the copy that ended, and leaves the other copier untouched.
pub proof fn lemma_first_end_finishes<E>(
    relay: RelayView,
    direction: Direction,
    event: CopyEvent<E>,
    outcome: CopyOutcome<E>,
)
    requires
        relay.wf(),
        relay.phase is Relaying,
        relay.copier(direction).react(event) == Ok::<CopyAction<E>, StepError>(
            CopyAction::Finish(outcome),
        ),
    ensures
        relay.react(RelayEvent::Copy(direction, event)) == Ok::<RelayAction<E>, StepError>(
            RelayAction::Teardown {
                remote: true,
                outcome: RelayOutcome::Completed { winner: direction, outcome },
            },
        ),
        relay.next(RelayEvent::Copy(direction, event)).phase is Finished,
        !relay.next(RelayEvent::Copy(direction, event)).client_open(),
        !relay.next(RelayEvent::Copy(direction, event)).remote_open(),
        forall|other: Direction|
            other != direction ==> relay.next(RelayEvent::Copy(direction, event)).copier(other)
                == relay.copier(other),
{
    crate::copier::lemma_action_matches_phase(relay.copier(direction), event);
}

/// Dial-failure cleanup. A failed dial ends the relay at once, with no second
/// attempt: the step asks for the client connection to be closed, and there is
/// no remote connection, before the step or after it.
pub proof fn lemma_dial_failure_releases_client<E>(relay: RelayView, cause: E)
    requires
        relay.phase is Dialing,
    ensures
        relay.react(RelayEvent::DialFailed(cause)) == Ok::<RelayAction<E>, StepError>(
            RelayAction::Teardown { remote: false, outcome: RelayOutcome::DialFailed(cause) },
        ),
        relay.client_open(),
        !relay.remote_open(),
        relay.next(RelayEvent::DialFailed(cause)).phase is Finished,
        !relay.next(RelayEvent::DialFailed(cause)).client_open(),
        !relay.next(RelayEvent::DialFailed(cause)).remote_open(),
{
}

/// Release on every way out. A step answers with a teardown exactly when it
/// ends the relay, and the teardown names the remote connection exactly when
/// the relay held one. After it the relay holds no connection.
pub proof fn lemma_teardown_releases_all<E>(relay: RelayView, event: RelayEvent<E>)
    requires
        relay.wf(),
    ensures
        relay.react(event) is Ok && relay.react(event)->Ok_0 is Teardown <==> relay.client_open()
            && !relay.next(event).client_open(),
        relay.react(event) matches Ok(RelayAction::Teardown { remote, .. }) ==> remote
            == relay.remote_open() && !relay.next(event).remote_open(),
        relay.next(event).remote_open() ==> relay.next(event).client_open(),
{
    if relay.phase is Relaying {
        if let RelayEvent::Copy(direction, inner) = event {
            crate::copier::lemma_action_matches_phase(relay.copier(direction), inner);
        }
    }
}

/// A refused event changes nothing, and so does a discarded one.
pub proof fn lemma_refusal_changes_nothing<E>(relay: RelayView, event: RelayEvent<E>)
    requires
        relay.wf(),
        relay.react(event) is Err || relay.react(event) == Ok::<RelayAction<E>, StepError>(
            RelayAction::Discard,
        ),
    ensures
        relay.next(event) == relay,
{
    if relay.phase is Relaying {
        if let RelayEvent::Copy(direction, inner) = event {
            crate::copier::lemma_action_matches_phase(relay.copier(direction), inner);
        }
    }
}

/// A relay that has ended stays as it is: it holds no connection, starts no
/// operation, and discards the events of the copy that lost the race.
pub proof fn lemma_finished_is_final<E>(relay: RelayView, event: RelayEvent<E>)
    requires
        relay.phase is Finished,
    ensures
        relay.next(event) == relay,
        event is Copy ==> relay.react(event) == Ok::<RelayAction<E>, StepError>(
            RelayAction::Discard,
        ),
        !(event is Copy) ==> relay.react(event) == Err::<RelayAction<E>, StepError>(
            StepError::OutOfTurn,
        ),
        forall|direction: Direction| relay.awaits(direction) is None,
{
}

/// Byte fidelity, in both directions. In a well-formed relay each sink has
/// taken the start of what its source gave. When the relay ends because a copy
/// reports a count, the sink of that copy has taken every byte that its source
/// gave before it ended, and the count is their number.
pub proof fn lemma_relay_fidelity<E>(relay: RelayView, event: RelayEvent<E>)
    requires
        relay.wf(),
        relay.fits(event),
    ensures
        forall|direction: Direction| #[trigger]
            relay.next(event).copier(direction).delivered.is_prefix_of(
                relay.next(event).copier(direction).received,
            ),
        relay.react(event) matches Ok(
            RelayAction::Teardown {
                outcome: RelayOutcome::Completed {
                    winner,
                    outcome: CopyOutcome::Transferred(count),
                },
                ..
            },
        ) ==> relay.next(event).copier(winner).delivered == relay.next(event).copier(
            winner,
        ).received && count == relay.next(event).copier(winner).received.len(),
{
    lemma_next_wf(relay, event);
    if relay.phase is Relaying {
        if let RelayEvent::Copy(direction, inner) = event {
            crate::copier::lemma_step_fidelity(relay.copier(direction), inner);
        }
    }
}

} // verus!
