//! Many relays side by side, and the accept loop that starts them.
//!
//! The accept loop hands every connection to a relay of its own and goes on
//! accepting. It keeps no handle on a relay and never waits for one. The model
//! below puts the relays of a proxy next to each other, as the tasks of an
//! executor are, and states what that independence means.

use vstd::prelude::*;
use crate::relay::{Relay, RelayEvent, RelayView};

verus! {

/// What the listener reports.
#[derive(Debug, PartialEq, Eq)]
pub enum AcceptEvent<E> {
    /// A client has connected.
    Connection,
    /// Accepting a connection failed.
    Failed(E),
}

/// What the accept loop does about it. In both cases it goes on accepting.
pub enum AcceptAction<E> {
    /// Run this relay for the connection, as a unit of work of its own.
    Launch(Relay),
    /// Log the failure.
    Report(E),
}

/// The decision of the accept loop. A connection gets a new relay at once,
/// whatever the relays before it are doing; a failure to accept is reported and
/// ends nothing.
pub fn accept<E>(event: AcceptEvent<E>) -> (action: AcceptAction<E>)
    ensures
        match event {
            AcceptEvent::Connection => action matches AcceptAction::Launch(relay) && relay.wf()
                && relay@ == RelayView::fresh(),
            AcceptEvent::Failed(cause) => action == AcceptAction::Report(cause),
        },
{
    match event {
        AcceptEvent::Connection => AcceptAction::Launch(Relay::new()),
        AcceptEvent::Failed(cause) => AcceptAction::Report(cause),
    }
}

/// The relays of a proxy, in the order in which their connections came.
pub struct FleetView {
    pub relays: Seq<RelayView>,
}

/// What happens to a proxy: the listener reports, or one relay gets an event.
pub enum FleetEvent<E> {
    Accept(AcceptEvent<E>),
    /// An event for the relay at this place among the relays.
    Relay(int, RelayEvent<E>),
}

impl FleetView {
    /// A proxy that has accepted nothing yet.
    pub open spec fn empty() -> FleetView {
        FleetView { relays: Seq::empty() }
    }

    /// The proxy after `event`. A connection adds a new relay; a failure to
    /// accept changes nothing; an event for a relay goes to that relay alone.
    pub open spec fn next<E>(self, event: FleetEvent<E>) -> FleetView {
        match event {
            FleetEvent::Accept(AcceptEvent::Connection) => FleetView {
                relays: self.relays.push(RelayView::fresh()),
            },
            FleetEvent::Accept(AcceptEvent::Failed(_)) => self,
            FleetEvent::Relay(place, inner) => if 0 <= place < self.relays.len() {
                FleetView { relays: self.relays.update(place, self.relays[place].next(inner)) }
            } else {
                self
            },
        }
    }
}

/// The proxy that `events`, taken in order, lead to from `start`.
pub open spec fn run<E>(start: FleetView, events: Seq<FleetEvent<E>>) -> FleetView
    decreases events.len(),
{
    if events.len() == 0 {
        start
    } else {
        run(start.next(events[0]), events.drop_first())
    }
}

/// The events among `events` that are for the relay at `place`, in order.
pub open spec fn events_for<E>(events: Seq<FleetEvent<E>>, place: int) -> Seq<RelayEvent<E>>
    decreases events.len(),
{
    if events.len() == 0 {
        Seq::empty()
    } else {
        let rest = events_for(events.drop_first(), place);
        match events[0] {
            FleetEvent::Relay(at, inner) => if at == place {
                seq![inner] + rest
            } else {
                rest
            },
            FleetEvent::Accept(_) => rest,
        }
    }
}

/// Isolation, step by step. An event for one relay, be it a failed dial or a
/// failed copy, changes that relay as its own step says and changes no other.
pub proof fn lemma_step_touches_one_relay<E>(
    fleet: FleetView,
    place: int,
    event: RelayEvent<E>,
    other: int,
)
    requires
        0 <= place < fleet.relays.len(),
        0 <= other < fleet.relays.len(),
        other != place,
    ensures
        fleet.next(FleetEvent::Relay(place, event)).relays.len() == fleet.relays.len(),
        fleet.next(FleetEvent::Relay(place, event)).relays[place] == fleet.relays[place].next(
            event,
        ),
        fleet.next(FleetEvent::Relay(place, event)).relays[other] == fleet.relays[other],
{
}

/// Isolation, over any interleaving. Whatever the other relays do or suffer,
/// and whatever the listener reports meanwhile, a relay ends where its own
/// events alone lead it.
pub proof fn lemma_relays_are_isolated<E>(
    fleet: FleetView,
    events: Seq<FleetEvent<E>>,
    place: int,
)
    requires
        0 <= place < fleet.relays.len(),
    ensures
        place < run(fleet, events).relays.len(),
        run(fleet, events).relays[place] == crate::relay::run(
            fleet.relays[place],
            events_for(events, place),
        ),
    decreases events.len(),
{
    if events.len() > 0 {
        let rest = events.drop_first();
        lemma_relays_are_isolated(fleet.next(events[0]), rest, place);
        if let FleetEvent::Relay(at, inner) = events[0] {
            if at == place {
                let own = seq![inner] + events_for(rest, place);
                assert(own[0] == inner);
                assert(own.drop_first() =~= events_for(rest, place));
            }
        }
    }
}

/// Accepting never waits. In every state of the proxy, whatever its relays
/// are waiting for, a connection is taken in one step: it gets a new relay,
/// and no relay that was there is changed.
pub proof fn lemma_accept_never_waits<E>(fleet: FleetView)
    ensures
        fleet.next(FleetEvent::<E>::Accept(AcceptEvent::Connection)).relays.len()
            == fleet.relays.len() + 1,
        fleet.next(FleetEvent::<E>::Accept(AcceptEvent::Connection)).relays.last()
            == RelayView::fresh(),
        forall|place: int|
            0 <= place < fleet.relays.len() ==> fleet.next(
                FleetEvent::<E>::Accept(AcceptEvent::Connection),
            ).relays[place] == fleet.relays[place],
{
}

/// A failure to accept ends nothing: every relay stays as it is, and the
/// next connection is taken as any other.
pub proof fn lemma_accept_failure_is_harmless<E>(fleet: FleetView, cause: E)
    ensures
        fleet.next(FleetEvent::Accept(AcceptEvent::Failed(cause))) == fleet,
{
}

} // verus!
