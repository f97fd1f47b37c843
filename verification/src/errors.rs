//! Channel-state error taxonomy.
//!
//! Every variant here is an ordinary, expected outcome that calling code
//! handles explicitly; none of them is an unrecoverable failure.  `Closed`
//! variants are the normal termination signal for consumer loops.

use vstd::prelude::*;

verus! {

/// Error of a blocking send: the channel is disconnected because every
/// receiver has been released.
#[derive(Clone, Copy, Debug, PartialEq, Eq, Structural)]
pub enum SendError {
    Closed,
}

/// Error of a non-blocking send on a bounded channel.
#[derive(Clone, Copy, Debug, PartialEq, Eq, Structural)]
pub enum TrySendError {
    /// The buffer already holds as many values as the capacity allows;
    /// a blocking send would wait here.
    Full,
    /// Every receiver has been released.
    Closed,
}

/// Error of a blocking receive: the queue is empty and every sender has
/// been released, so no value can ever arrive again.
#[derive(Clone, Copy, Debug, PartialEq, Eq, Structural)]
pub enum RecvError {
    Closed,
}

/// Error of a non-blocking receive: distinguishes "try again later"
/// from "never again".
#[derive(Clone, Copy, Debug, PartialEq, Eq, Structural)]
pub enum TryRecvError {
    /// No value is available right now, but at least one sender remains.
    Empty,
    /// No value is available and every sender has been released.
    Closed,
}

/// Error of a receive bounded by a deadline: distinguishes "try again
/// later" from "never again", under a deadline.
#[derive(Clone, Copy, Debug, PartialEq, Eq, Structural)]
pub enum RecvTimeoutError {
    /// The deadline passed before a value became available.  The channel
    /// is still open; a value may yet arrive.
    Timeout,
    /// Every sender has been released and the queue is drained.
    Closed,
}

} // verus!
