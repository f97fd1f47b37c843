//! The threaded transport: crossbeam's MPMC channel behind trusted
//! wrappers, and the verified loops that consume it.
//!
//! The state machine in [`crate::channel`] says exactly what each
//! channel operation does; this module is where the library actually
//! lives with the real transport.  `crossbeam::channel` provides the
//! multi-producer multi-consumer FIFO with cloneable senders *and*
//! cloneable receivers, which is what fan-out needs: every consumer
//! clone draws from the same stream, each value going to exactly one of
//! them.  Each outside call stands behind one trusted wrapper whose
//! contract states only what holds of every outcome — what a call
//! returns here depends on what other threads do, so the exact
//! semantics live in the model, and the verified loops below state what
//! they do with whatever came back.
//!
//! Senders and receivers are created and cloned by the embedding code
//! (`crossbeam::channel::unbounded` / `bounded`, and `clone`); the
//! functions here take the handles and run the verified consumer,
//! producer, stage and polling loops over them.

use vstd::prelude::*;

use crossbeam::channel::Receiver;
use crossbeam::channel::Sender;

use crate::errors::RecvTimeoutError;
use crate::errors::SendError;
use crate::errors::TryRecvError;
use crate::errors::TrySendError;
use crate::pipeline::StageOp;
use crate::pipeline::apply_op;
use crate::pipeline::apply_stage;
use crate::pipeline::fits;
use crate::poll::RoundRobinPoll;

verus! {

#[verifier::external_type_specification]
#[verifier::external_body]
#[verifier::reject_recursive_types(T)]
pub struct ExSender<T>(Sender<T>);

#[verifier::external_type_specification]
#[verifier::external_body]
#[verifier::reject_recursive_types(T)]
pub struct ExReceiver<T>(Receiver<T>);

/// Relies on crossbeam_channel's `Sender::send`: it blocks while a
/// bounded channel is full, succeeds once there is room (backpressure),
/// and fails exactly when the channel is disconnected, returning the
/// undeliverable message inside the error so nothing is lost silently.
#[verifier::external_body]
fn send_into<T>(tx: &Sender<T>, v: T) -> (r: Result<(), T>)
    ensures
        r matches Err(t) ==> t == v,
{
    match tx.send(v) {
        Ok(()) => Ok(()),
        Err(crossbeam::channel::SendError(t)) => Err(t),
    }
}

/// Relies on crossbeam_channel's `Sender::try_send`: it never blocks,
/// reports `Full` when a bounded buffer is at capacity (for capacity
/// zero: when no receiver is ready to rendezvous), `Disconnected` when
/// every receiver is gone, and returns the message inside the error.
#[verifier::external_body]
fn try_send_into<T>(tx: &Sender<T>, v: T) -> (r: Result<
    (),
    (TrySendError, T),
>)
    ensures
        r matches Err(p) ==> p.1 == v,
{
    match tx.try_send(v) {
        Ok(()) => Ok(()),
        Err(crossbeam::channel::TrySendError::Full(t)) => Err((TrySendError::Full, t)),
        Err(crossbeam::channel::TrySendError::Disconnected(t)) => Err((TrySendError::Closed, t)),
    }
}

/// Relies on crossbeam_channel's `Receiver::recv`: it blocks until a
/// message is available or the channel is empty and disconnected, and
/// still drains buffered messages after disconnection — `None` here
/// means empty with every sender gone.
#[verifier::external_body]
fn recv_from<T>(rx: &Receiver<T>) -> (r: Option<T>) {
    match rx.recv() {
        Ok(v) => Some(v),
        Err(crossbeam::channel::RecvError) => None,
    }
}

/// Relies on crossbeam_channel's `Receiver::try_recv`: it never blocks
/// and tells an empty-but-connected channel apart from a disconnected
/// one.
#[verifier::external_body]
fn try_recv_from<T>(rx: &Receiver<T>) -> (r: Result<T, TryRecvError>) {
    match rx.try_recv() {
        Ok(v) => Ok(v),
        Err(crossbeam::channel::TryRecvError::Empty) => Err(TryRecvError::Empty),
        Err(crossbeam::channel::TryRecvError::Disconnected) => Err(TryRecvError::Closed),
    }
}

/// Relies on crossbeam_channel's `Receiver::recv_timeout`: it waits at
/// most the given duration and tells the deadline passing apart from
/// disconnection; a message that merely arrived late stays claimable by
/// the next call.
#[verifier::external_body]
fn recv_timeout_from<T>(rx: &Receiver<T>, timeout_ms: u64) -> (r: Result<
    T,
    RecvTimeoutError,
>) {
    match rx.recv_timeout(std::time::Duration::from_millis(timeout_ms)) {
        Ok(v) => Ok(v),
        Err(crossbeam::channel::RecvTimeoutError::Timeout) => Err(RecvTimeoutError::Timeout),
        Err(crossbeam::channel::RecvTimeoutError::Disconnected) => Err(RecvTimeoutError::Closed),
    }
}

/// A producer's blocking send of one value, with the undeliverable
/// message discarded in favour of the channel-state error: `Closed` is
/// the only way this fails, and only because every receiver is gone.
pub fn send_value<T>(tx: &Sender<T>, v: T) -> (r: Result<(), SendError>)
    ensures
        r is Ok || r == Err::<(), SendError>(SendError::Closed),
{
    match send_into(tx, v) {
        Ok(()) => Ok(()),
        Err(_undelivered) => Err(SendError::Closed),
    }
}

/// A producer's non-blocking send of one value: `Full` names the state
/// in which the blocking send would wait, `Closed` the state in which
/// it would fail, and the error hands the value back to the caller.
pub fn offer_value<T>(tx: &Sender<T>, v: T) -> (r: Result<
    (),
    (TrySendError, T),
>)
    ensures
        r matches Err(p) ==> p.1 == v,
{
    try_send_into(tx, v)
}

/// A producer's whole run: sends every value, in order — the per-sender
/// FIFO order of the transport is exactly this call order — and reports
/// how many were accepted.  On a closed channel the remaining values
/// are dropped with the loud error, never silently.
pub fn send_all<T>(tx: &Sender<T>, values: Vec<T>) -> (r: Result<
    usize,
    SendError,
>)
    ensures
        r matches Ok(n) ==> n == values@.len(),
        r matches Err(e) ==> e == SendError::Closed,
{
    let total = values.len();
    let mut vs = values;
    let mut sent: usize = 0;
    while vs.len() > 0
        invariant
            total == values@.len(),
            sent + vs@.len() == total,
        decreases vs@.len(),
    {
        let v = vs.remove(0);
        match send_value(tx, v) {
            Ok(()) => {
                sent = sent + 1;
            },
            Err(e) => {
                return Err(e);
            },
        }
    }
    Ok(sent)
}

/// The fan-in consumer's loop: blocks for message after message and
/// returns them in delivery order, ending — per the `recv` contract —
/// exactly when the queue is drained and every sender clone has been
/// released.
pub fn drain<T>(rx: &Receiver<T>) -> (vs: Vec<T>) {
    let mut vs: Vec<T> = Vec::new();
    loop
        invariant
            vs@.len() <= usize::MAX,
        decreases usize::MAX - vs@.len(),
    {
        if vs.len() >= usize::MAX {
            return vs;
        }
        match recv_from(rx) {
            Some(v) => {
                vs.push(v);
            },
            None => {
                return vs;
            },
        }
    }
}

/// The non-blocking drain: takes whatever is available right now, in
/// delivery order, and reports whether the channel is closed (`true`)
/// or merely empty for the moment (`false`).
pub fn drain_now<T>(rx: &Receiver<T>) -> (r: (Vec<T>, bool)) {
    let mut vs: Vec<T> = Vec::new();
    loop
        invariant
            vs@.len() <= usize::MAX,
        decreases usize::MAX - vs@.len(),
    {
        if vs.len() >= usize::MAX {
            return (vs, false);
        }
        match try_recv_from(rx) {
            Ok(v) => {
                vs.push(v);
            },
            Err(TryRecvError::Empty) => {
                return (vs, false);
            },
            Err(TryRecvError::Closed) => {
                return (vs, true);
            },
        }
    }
}

/// One receive under a deadline.  A zero deadline is decided here as an
/// instant poll: `Empty` becomes `Timeout`, so the caller sees the same
/// two-way outcome — "try again later" or "never again".
pub fn recv_within<T>(rx: &Receiver<T>, timeout_ms: u64) -> (r: Result<
    T,
    RecvTimeoutError,
>) {
    if timeout_ms == 0 {
        match try_recv_from(rx) {
            Ok(v) => Ok(v),
            Err(TryRecvError::Empty) => Err(RecvTimeoutError::Timeout),
            Err(TryRecvError::Closed) => Err(RecvTimeoutError::Closed),
        }
    } else {
        recv_timeout_from(rx, timeout_ms)
    }
}

/// A worker's loop: block for the next job value, execute it, repeat
/// until the channel reports closure, then return how many were
/// executed.  Each received value is executed exactly once, by this
/// worker, before the next receive; the executor must accept any value,
/// since what arrives is decided by the producers.
pub fn worker_loop<T, F: Fn(T)>(rx: &Receiver<T>, job: F) -> (n: usize)
    requires
        forall|v: T| call_requires(job, (v,)),
{
    let mut n: usize = 0;
    loop
        invariant
            forall|v: T| call_requires(job, (v,)),
        decreases usize::MAX - n,
    {
        if n >= usize::MAX {
            return n;
        }
        match recv_from(rx) {
            Some(v) => {
                job(v);
                n = n + 1;
            },
            None => {
                return n;
            },
        }
    }
}

/// One pipeline stage on the real transport: receive, transform by
/// `op`, forward, until the upstream closes or the downstream is gone.
/// The returned log pins the stage's work down: every forwarded value
/// is exactly the stage's transform of the value received with it, in
/// order.  A value whose transform would leave the representable range
/// is dropped, not forwarded — the stage's explicit drop policy.
pub fn run_stage(
    rx: &Receiver<i64>,
    tx: &Sender<i64>,
    op: StageOp,
) -> (log: Vec<(i64, i64)>)
    ensures
        forall|k: int|
            0 <= k < log@.len() ==> (#[trigger] log@[k]).1 as int == apply_op(
                op,
                log@[k].0 as int,
            ) && fits(apply_op(op, log@[k].0 as int)),
{
    let mut log: Vec<(i64, i64)> = Vec::new();
    let mut received: usize = 0;
    loop
        invariant
            forall|k: int|
                0 <= k < log@.len() ==> (#[trigger] log@[k]).1 as int == apply_op(
                    op,
                    log@[k].0 as int,
                ) && fits(apply_op(op, log@[k].0 as int)),
        ensures
            forall|k: int|
                0 <= k < log@.len() ==> (#[trigger] log@[k]).1 as int == apply_op(
                    op,
                    log@[k].0 as int,
                ) && fits(apply_op(op, log@[k].0 as int)),
        decreases usize::MAX - received,
    {
        if received >= usize::MAX {
            break ;
        }
        received = received + 1;
        match recv_from(rx) {
            Some(x) => {
                match apply_stage(op, x) {
                    Some(y) => {
                        match send_into(tx, y) {
                            Ok(()) => {
                                log.push((x, y));
                            },
                            Err(_undelivered) => {
                                break ;
                            },
                        }
                    },
                    None => {},
                }
            },
            None => {
                break ;
            },
        }
    }
    log
}

/// What a bounded timeout-poll select ended with.
#[derive(Debug, PartialEq, Eq)]
pub enum PollOutcome<T> {
    /// Some receiver yielded this value.
    Value(T),
    /// Every receiver reported closure: nothing can ever arrive again.
    AllClosed,
    /// The poll budget ran out while at least one receiver stayed open
    /// and silent; a later poll may still find a value.
    Exhausted,
}

/// The timeout-poll select over several receivers: poll each in
/// round-robin order with a short slice, skipping those that reported
/// closure, until one yields a value, every receiver has closed, or
/// `max_polls` receive attempts have been spent.  The round-robin
/// state's contracts guarantee the polled receiver is always a live one
/// and that no live receiver is starved; closure of each receiver is
/// honoured permanently.
pub fn poll_select<T>(rxs: &Vec<Receiver<T>>, slice_ms: u64, max_polls: usize) -> (r: PollOutcome<
    T,
>)
    requires
        rxs@.len() >= 1,
{
    let mut poll = RoundRobinPoll::new(rxs.len());
    let mut left = max_polls;
    loop
        invariant
            poll.wf(),
            poll.sources() == rxs@.len(),
        decreases left,
    {
        if left == 0 {
            return PollOutcome::Exhausted;
        }
        left = left - 1;
        match poll.current() {
            None => {
                return PollOutcome::AllClosed;
            },
            Some(i) => {
                match recv_within(&rxs[i], slice_ms) {
                    Ok(v) => {
                        return PollOutcome::Value(v);
                    },
                    Err(RecvTimeoutError::Timeout) => {
                        poll.advance();
                    },
                    Err(RecvTimeoutError::Closed) => {
                        poll.mark_closed(i);
                        poll.advance();
                    },
                }
            },
        }
    }
}

} // verus!
