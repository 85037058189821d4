//! The directional copier: bytes from a source to a sink, one chunk in flight.
//!
//! The copier performs no I/O. It tells its driver which operation to perform
//! next, and the driver reports the operation's result as a [`CopyEvent`].

use vstd::prelude::*;
use vstd::slice::slice_subrange;
use crate::outcome::{Cause, CopyOutcome, Side, StepError};

verus! {

/// Where a copier stands.
#[derive(Clone, Copy, Debug, PartialEq, Eq, Structural)]
pub enum CopyPhase {
    /// Waiting for the next chunk of the source.
    Reading,
    /// A chunk is in flight: the sink has not taken all of it yet.
    Writing,
    /// The source has ended; the sink's write side is being closed.
    Closing,
    /// The copy ended cleanly.
    Completed,
    /// The copy ended with a failure on the given side.
    Failed(Side),
}

/// An I/O operation that a copier asks its driver to perform.
#[derive(Clone, Copy, Debug, PartialEq, Eq, Structural)]
pub enum Operation {
    /// Read a chunk from the source.
    Read,
    /// Write the pending bytes to the sink.
    Write,
    /// Flush the sink and close its write side, so that the peer sees the end
    /// of input. A driver whose transport has no half-close flushes and
    /// reports `Closed`.
    CloseSink,
}

/// The result of an operation, as the driver reports it.
#[derive(Debug, PartialEq, Eq)]
pub enum CopyEvent<E> {
    /// The source gave these bytes. No bytes: the source has ended.
    Chunk(Vec<u8>),
    /// Reading from the source failed.
    ReadFailed(E),
    /// The sink took this many of the pending bytes, from their start.
    /// A sink that takes none of them has stalled, and the copy fails.
    Wrote(usize),
    /// Writing to the sink failed.
    WriteFailed(E),
    /// The write side of the sink is closed.
    Closed,
    /// Closing the write side of the sink failed.
    CloseFailed(E),
}

/// What a copier wants next.
#[derive(Debug, PartialEq, Eq)]
pub enum CopyAction<E> {
    /// Perform this operation and report its result.
    Perform(Operation),
    /// The copy has ended with this outcome.
    Finish(CopyOutcome<E>),
}

/// The mathematical model of a copier: its phase and its history.
pub struct CopierView {
    pub phase: CopyPhase,
    /// All bytes that the source has given, in order.
    pub received: Seq<u8>,
    /// All bytes that the sink has taken, in order.
    pub delivered: Seq<u8>,
}

impl CopierView {
    /// A copier that has seen no event.
    pub open spec fn fresh() -> CopierView {
        CopierView { phase: CopyPhase::Reading, received: Seq::empty(), delivered: Seq::empty() }
    }

    /// The bytes that the source has given and the sink has not taken.
    pub open spec fn pending(self) -> Seq<u8> {
        self.received.skip(self.delivered.len() as int)
    }

    /// The sink has taken a prefix of what the source gave, and all of it
    /// whenever no chunk is in flight.
    pub open spec fn wf(self) -> bool {
        &&& self.delivered.is_prefix_of(self.received)
        &&& self.received.len() <= u64::MAX
        &&& match self.phase {
            CopyPhase::Reading | CopyPhase::Closing | CopyPhase::Completed => {
                self.delivered == self.received
            },
            CopyPhase::Writing => self.delivered.len() < self.received.len(),
            CopyPhase::Failed(_) => true,
        }
    }

    /// True once the copy has ended, cleanly or not.
    pub open spec fn ended(self) -> bool {
        self.phase is Completed || self.phase is Failed
    }

    /// The operation whose result the copier waits for; none once it has ended.
    pub open spec fn awaits(self) -> Option<Operation> {
        match self.phase {
            CopyPhase::Reading => Some(Operation::Read),
            CopyPhase::Writing => Some(Operation::Write),
            CopyPhase::Closing => Some(Operation::CloseSink),
            CopyPhase::Completed | CopyPhase::Failed(_) => None,
        }
    }

    /// True if `event` reports the operation that the copier waits for.
    pub open spec fn in_turn<E>(self, event: CopyEvent<E>) -> bool {
        match self.phase {
            CopyPhase::Reading => event is Chunk || event is ReadFailed,
            CopyPhase::Writing => event is Wrote || event is WriteFailed,
            CopyPhase::Closing => event is Closed || event is CloseFailed,
            CopyPhase::Completed | CopyPhase::Failed(_) => false,
        }
    }

    /// The count of bytes stays within `u64` after `event`.
    pub open spec fn fits<E>(self, event: CopyEvent<E>) -> bool {
        self.phase is Reading && event is Chunk ==> self.received.len() + event->Chunk_0@.len()
            <= u64::MAX
    }

    /// The copier's answer to `event`.
    pub open spec fn react<E>(self, event: CopyEvent<E>) -> Result<CopyAction<E>, StepError> {
        if !self.in_turn(event) {
            Err(StepError::OutOfTurn)
        } else {
            match event {
                CopyEvent::Chunk(bytes) => if bytes@.len() == 0 {
                    Ok(CopyAction::Perform(Operation::CloseSink))
                } else {
                    Ok(CopyAction::Perform(Operation::Write))
                },
                CopyEvent::ReadFailed(error) => Ok(
                    CopyAction::Finish(
                        CopyOutcome::Failed { side: Side::Read, cause: Cause::Io(error) },
                    ),
                ),
                CopyEvent::Wrote(n) => if n > self.pending().len() {
                    Err(StepError::BadLength)
                } else if n == 0 {
                    Ok(
                        CopyAction::Finish(
                            CopyOutcome::Failed { side: Side::Write, cause: Cause::WriteZero },
                        ),
                    )
                } else if n == self.pending().len() {
                    Ok(CopyAction::Perform(Operation::Read))
                } else {
                    Ok(CopyAction::Perform(Operation::Write))
                },
                CopyEvent::WriteFailed(error) | CopyEvent::CloseFailed(error) => Ok(
                    CopyAction::Finish(
                        CopyOutcome::Failed { side: Side::Write, cause: Cause::Io(error) },
                    ),
                ),
                CopyEvent::Closed => Ok(
                    CopyAction::Finish(CopyOutcome::Transferred(self.delivered.len() as u64)),
                ),
            }
        }
    }

    /// The copier after `event`. A refused event changes nothing.
    pub open spec fn next<E>(self, event: CopyEvent<E>) -> CopierView {
        if self.react(event) is Err {
            self
        } else {
            match event {
                CopyEvent::Chunk(bytes) => if bytes@.len() == 0 {
                    CopierView { phase: CopyPhase::Closing, ..self }
                } else {
                    CopierView {
                        phase: CopyPhase::Writing,
                        received: self.received + bytes@,
                        ..self
                    }
                },
                CopyEvent::ReadFailed(_) => CopierView {
                    phase: CopyPhase::Failed(Side::Read),
                    ..self
                },
                CopyEvent::Wrote(n) => if n == 0 {
                    CopierView { phase: CopyPhase::Failed(Side::Write), ..self }
                } else {
                    CopierView {
                        phase: if n == self.pending().len() {
                            CopyPhase::Reading
                        } else {
                            CopyPhase::Writing
                        },
                        delivered: self.delivered + self.pending().take(n as int),
                        ..self
                    }
                },
                CopyEvent::WriteFailed(_) | CopyEvent::CloseFailed(_) => CopierView {
                    phase: CopyPhase::Failed(Side::Write),
                    ..self
                },
                CopyEvent::Closed => CopierView { phase: CopyPhase::Completed, ..self },
            }
        }
    }
}

/// The copier that `events`, taken in order, lead to from `start`.
pub open spec fn run<E>(start: CopierView, events: Seq<CopyEvent<E>>) -> CopierView
    decreases events.len(),
{
    if events.len() == 0 {
        start
    } else {
        run(start.next(events[0]), events.drop_first())
    }
}

/// Every event of `events` keeps the count of bytes within `u64` when its turn comes.
pub open spec fn run_fits<E>(start: CopierView, events: Seq<CopyEvent<E>>) -> bool
    decreases events.len(),
{
    events.len() > 0 ==> start.fits(events[0]) && run_fits(
        start.next(events[0]),
        events.drop_first(),
    )
}

/// A step keeps a copier well formed.
pub proof fn lemma_next_wf<E>(copier: CopierView, event: CopyEvent<E>)
    requires
        copier.wf(),
        copier.fits(event),
    ensures
        copier.next(event).wf(),
{
    let after = copier.next(event);
    match event {
        CopyEvent::Chunk(bytes) => {
            if copier.react(event) is Ok && bytes@.len() > 0 {
                assert(copier.delivered =~= after.received.subrange(
                    0,
                    copier.delivered.len() as int,
                ));
            }
        },
        CopyEvent::Wrote(n) => {
            if copier.react(event) is Ok && n > 0 {
                assert(after.delivered =~= copier.received.subrange(
                    0,
                    after.delivered.len() as int,
                ));
                assert(n == copier.pending().len() ==> after.delivered =~= copier.received);
            }
        },
        _ => {},
    }
}

/// Byte fidelity, step by step. A step hands the sink nothing but the bytes
/// that the source gave, in their order, without a gap and without a repeat:
/// what the sink has taken is always the start of what the source has given.
/// When the copy reports a count, the sink has taken all of it, and the count
/// is its length.
pub proof fn lemma_step_fidelity<E>(copier: CopierView, event: CopyEvent<E>)
    requires
        copier.wf(),
        copier.fits(event),
    ensures
        copier.next(event).delivered.is_prefix_of(copier.next(event).received),
        copier.delivered.is_prefix_of(copier.next(event).delivered),
        copier.received.is_prefix_of(copier.next(event).received),
        copier.react(event) matches Ok(CopyAction::Finish(CopyOutcome::Transferred(count)))
            ==> copier.next(event).delivered == copier.next(event).received && count
            == copier.next(event).received.len(),
{
    lemma_next_wf(copier, event);
    let after = copier.next(event);
    assert(copier.delivered =~= after.delivered.subrange(0, copier.delivered.len() as int));
    assert(copier.received =~= after.received.subrange(0, copier.received.len() as int));
}

/// Byte fidelity, over a whole copy. Whatever events a new copier is given,
/// the sink has taken the start of what the source has given; and once the
/// copy has ended cleanly, the sink has taken exactly what the source gave.
pub proof fn lemma_run_fidelity<E>(events: Seq<CopyEvent<E>>)
    requires
        run_fits(CopierView::fresh(), events),
    ensures
        run(CopierView::fresh(), events).wf(),
        run(CopierView::fresh(), events).delivered.is_prefix_of(
            run(CopierView::fresh(), events).received,
        ),
        run(CopierView::fresh(), events).phase is Completed ==> run(
            CopierView::fresh(),
            events,
        ).delivered == run(CopierView::fresh(), events).received,
{
    lemma_run_wf(CopierView::fresh(), events);
}

/// A run keeps a copier well formed.
pub proof fn lemma_run_wf<E>(start: CopierView, events: Seq<CopyEvent<E>>)
    requires
        start.wf(),
        run_fits(start, events),
    ensures
        run(start, events).wf(),
    decreases events.len(),
{
    if events.len() > 0 {
        lemma_next_wf(start, events[0]);
        lemma_run_wf(start.next(events[0]), events.drop_first());
    }
}

/// A copier that has ended stays as it is: it refuses every event, so that
/// the outcome of a copy is reported once.
pub proof fn lemma_ended_is_final<E>(copier: CopierView, event: CopyEvent<E>)
    requires
        copier.ended(),
    ensures
        copier.react(event) == Err::<CopyAction<E>, StepError>(StepError::OutOfTurn),
        copier.next(event) == copier,
{
}

/// The action of a step names the operation that the copier waits for next,
/// and a copy ends exactly when the step says so.
pub proof fn lemma_action_matches_phase<E>(copier: CopierView, event: CopyEvent<E>)
    requires
        !copier.ended(),
    ensures
        copier.react(event) matches Ok(CopyAction::Perform(operation)) ==> copier.next(
            event,
        ).awaits() == Some(operation),
        copier.react(event) matches Ok(CopyAction::Finish(_)) <==> copier.next(event).ended(),
{
}

/// One direction of a relay.
///
/// The copier keeps the chunk in flight and the count of bytes that the sink
/// has taken. Its view also records every byte that went in and out.
pub struct Copier {
    phase: CopyPhase,
    chunk: Vec<u8>,
    taken: usize,
    count: u64,
    received: Ghost<Seq<u8>>,
    delivered: Ghost<Seq<u8>>,
}

impl View for Copier {
    type V = CopierView;

    closed spec fn view(&self) -> CopierView {
        CopierView { phase: self.phase, received: self.received@, delivered: self.delivered@ }
    }
}

impl Copier {
    /// The fields hold what the view says: the chunk in flight and the count.
    pub closed spec fn coherent(&self) -> bool {
        &&& self.taken <= self.chunk@.len()
        &&& self.chunk@.skip(self.taken as int) == self@.pending()
        &&& self.count == self.delivered@.len()
    }

    /// The view is well formed, and the fields agree with it.
    pub open spec fn wf(&self) -> bool {
        self@.wf() && self.coherent()
    }

    /// A copier that waits for the first chunk of its source.
    pub fn new() -> (copier: Copier)
        ensures
            copier.wf(),
            copier@ == CopierView::fresh(),
    {
        Copier {
            phase: CopyPhase::Reading,
            chunk: Vec::new(),
            taken: 0,
            count: 0,
            received: Ghost(Seq::empty()),
            delivered: Ghost(Seq::empty()),
        }
    }

    /// Whether `event` keeps the count of bytes within `u64`. `step` asks for it.
    pub fn fits<E>(&self, event: &CopyEvent<E>) -> (ok: bool)
        requires
            self.wf(),
        ensures
            ok == self@.fits(*event),
    {
        match (self.phase, event) {
            (CopyPhase::Reading, CopyEvent::Chunk(bytes)) => {
                let room: u64 = u64::MAX - self.count;
                bytes.len() as u64 <= room
            },
            _ => true,
        }
    }

    /// Takes the result of the operation that the copier asked for, and says
    /// what comes next.
    ///
    /// A chunk of the source becomes the pending bytes, and `Write` is asked
    /// until the sink has taken them all; an empty chunk ends the source, and
    /// the sink's write side is closed before the copy reports its count. A
    /// failed operation, or a write that took no bytes, ends the copy with the
    /// side that failed. An event that the copier was not waiting for, or a
    /// write of more bytes than were pending, is refused and changes nothing.
    pub fn step<E>(&mut self, event: CopyEvent<E>) -> (result: Result<CopyAction<E>, StepError>)
        requires
            old(self).wf(),
            old(self)@.fits(event),
        ensures
            final(self).wf(),
            final(self)@ == old(self)@.next(event),
            result == old(self)@.react(event),
    {
        match self.phase {
            CopyPhase::Reading => match event {
                CopyEvent::Chunk(bytes) => {
                    if bytes.len() == 0 {
                        self.phase = CopyPhase::Closing;
                        Ok(CopyAction::Perform(Operation::CloseSink))
                    } else {
                        proof {
                            assert((self.received@ + bytes@).skip(self.delivered@.len() as int)
                                =~= bytes@);
                            assert(self.delivered@ =~= (self.received@ + bytes@).subrange(
                                0,
                                self.delivered@.len() as int,
                            ));
                            assert(bytes@.skip(0) =~= bytes@);
                        }
                        self.received = Ghost(self.received@ + bytes@);
                        self.chunk = bytes;
                        self.taken = 0;
                        self.phase = CopyPhase::Writing;
                        Ok(CopyAction::Perform(Operation::Write))
                    }
                },
                CopyEvent::ReadFailed(error) => {
                    self.phase = CopyPhase::Failed(Side::Read);
                    Ok(
                        CopyAction::Finish(
                            CopyOutcome::Failed { side: Side::Read, cause: Cause::Io(error) },
                        ),
                    )
                },
                _ => Err(StepError::OutOfTurn),
            },
            CopyPhase::Writing => match event {
                CopyEvent::Wrote(n) => {
                    let left: usize = self.chunk.len() - self.taken;
                    if n > left {
                        Err(StepError::BadLength)
                    } else if n == 0 {
                        self.phase = CopyPhase::Failed(Side::Write);
                        Ok(
                            CopyAction::Finish(
                                CopyOutcome::Failed { side: Side::Write, cause: Cause::WriteZero },
                            ),
                        )
                    } else {
                        proof {
                            let pending = self@.pending();
                            let grown = self.delivered@ + pending.take(n as int);
                            assert(grown =~= self.received@.subrange(0, grown.len() as int));
                            assert(self.chunk@.skip(self.taken as int) == pending);
                            assert(self.chunk@.skip(self.taken + n) =~= pending.skip(n as int));
                            assert(self.received@.skip(grown.len() as int) =~= pending.skip(
                                n as int,
                            ));
                            assert(n == left ==> grown =~= self.received@);
                        }
                        self.delivered = Ghost(self.delivered@ + self@.pending().take(n as int));
                        self.taken = self.taken + n;
                        self.count = self.count + n as u64;
                        if n == left {
                            self.phase = CopyPhase::Reading;
                            Ok(CopyAction::Perform(Operation::Read))
                        } else {
                            Ok(CopyAction::Perform(Operation::Write))
                        }
                    }
                },
                CopyEvent::WriteFailed(error) => {
                    self.phase = CopyPhase::Failed(Side::Write);
                    Ok(
                        CopyAction::Finish(
                            CopyOutcome::Failed { side: Side::Write, cause: Cause::Io(error) },
                        ),
                    )
                },
                _ => Err(StepError::OutOfTurn),
            },
            CopyPhase::Closing => match event {
                CopyEvent::Closed => {
                    self.phase = CopyPhase::Completed;
                    Ok(CopyAction::Finish(CopyOutcome::Transferred(self.count)))
                },
                CopyEvent::CloseFailed(error) => {
                    self.phase = CopyPhase::Failed(Side::Write);
                    Ok(
                        CopyAction::Finish(
                            CopyOutcome::Failed { side: Side::Write, cause: Cause::Io(error) },
                        ),
                    )
                },
                _ => Err(StepError::OutOfTurn),
            },
            CopyPhase::Completed | CopyPhase::Failed(_) => Err(StepError::OutOfTurn),
        }
    }

    /// Where the copier stands.
    pub fn phase(&self) -> (phase: CopyPhase)
        ensures
            phase == self@.phase,
    {
        self.phase
    }

    /// The operation whose result the copier waits for; none once it has ended.
    pub fn awaits(&self) -> (operation: Option<Operation>)
        ensures
            operation == self@.awaits(),
    {
        match self.phase {
            CopyPhase::Reading => Some(Operation::Read),
            CopyPhase::Writing => Some(Operation::Write),
            CopyPhase::Closing => Some(Operation::CloseSink),
            CopyPhase::Completed | CopyPhase::Failed(_) => None,
        }
    }

    /// The bytes to write next: what the source gave and the sink has not taken.
    pub fn pending(&self) -> (bytes: &[u8])
        requires
            self.wf(),
        ensures
            bytes@ == self@.pending(),
    {
        slice_subrange(self.chunk.as_slice(), self.taken, self.chunk.len())
    }

    /// The number of bytes that the sink has taken so far.
    pub fn transferred(&self) -> (count: u64)
        requires
            self.wf(),
        ensures
            count == self@.delivered.len(),
    {
        self.count
    }
}

} // verus!
