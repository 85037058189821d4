//! What a directional copy and a relay report when they end.

use vstd::prelude::*;

verus! {

/// The side of a directional copy on which an operation failed.
#[derive(Clone, Copy, Debug, PartialEq, Eq, Structural)]
pub enum Side {
    /// Reading from the source.
    Read,
    /// Writing to the sink, or closing its write side.
    Write,
}

/// One of the two ways in which a relay copies.
#[derive(Clone, Copy, Debug, PartialEq, Eq, Structural)]
pub enum Direction {
    /// From the client to the remote target.
    Sending,
    /// From the remote target to the client.
    Receiving,
}

/// Why a directional copy failed. `E` is the driver's I/O error.
#[derive(Debug, PartialEq, Eq)]
pub enum Cause<E> {
    /// The operation itself reported this error.
    Io(E),
    /// The sink took none of the bytes that it was offered.
    WriteZero,
}

/// The result of one directional copy.
#[derive(Debug, PartialEq, Eq)]
pub enum CopyOutcome<E> {
    /// The source reached its end; the sink took this many bytes.
    Transferred(u64),
    /// An operation on `side` failed with `cause`.
    Failed { side: Side, cause: Cause<E> },
}

/// The result of one relay.
#[derive(Debug, PartialEq, Eq)]
pub enum RelayOutcome<E> {
    /// The remote target could not be reached.
    DialFailed(E),
    /// The copy in direction `winner` ended first, with `outcome`.
    Completed { winner: Direction, outcome: CopyOutcome<E> },
}

/// Why a machine refused an event. A refused event changes nothing.
#[derive(Clone, Copy, Debug, PartialEq, Eq, Structural)]
pub enum StepError {
    /// The machine was not waiting for an event of this kind.
    OutOfTurn,
    /// A write reported more bytes than were pending.
    BadLength,
}

} // verus!
