//! The logical channel: a thread-safe FIFO transport's state and its exact
//! transition rules, as one verified state machine.
//!
//! A [`Channel`] value holds everything the transport's behaviour depends
//! on: the queue of values enqueued but not yet delivered (oldest first),
//! the optional capacity bound, and the number of live sender and receiver
//! handles.  Each operation of the real transport corresponds to one
//! transition here, and the contract of each transition pins the outcome
//! down exactly: when a send is accepted, when it would block, when it
//! fails, which value a receive hands out, and when a receive reports
//! closure.
//!
//! Two ghost logs record the full history: every value whose send was
//! accepted, and every value handed to a receive, each in order.  The
//! well-formedness invariant ties them together — the accepted values are
//! exactly the delivered values followed by the pending ones — which is
//! the delivery-order guarantee of the channel.
//!
//! Blocking is represented, never performed: `send` and `recv` require
//! that the state they would block in is not the current one, and
//! `try_send` / `try_recv` name the blocking states in their results
//! (`Full`, `Empty`).  The loop that actually waits belongs to the
//! threaded runtime around the library.

use vstd::prelude::*;

use crate::errors::RecvError;
use crate::errors::SendError;
use crate::errors::TryRecvError;
use crate::errors::TrySendError;

verus! {

/// The state of one FIFO channel: pending values, capacity bound, and
/// live handle counts, together with the ghost history of accepted and
/// delivered values.
pub struct Channel<T> {
    queue: Vec<T>,
    cap: Option<usize>,
    senders: usize,
    receivers: usize,
    sent: Ghost<Seq<T>>,
    delivered: Ghost<Seq<T>>,
}

impl<T> Channel<T> {
    /// Values enqueued but not yet delivered, oldest first.
    pub closed spec fn pending(&self) -> Seq<T> {
        self.queue@
    }

    /// `None` for an unbounded channel, `Some(c)` for a bounded one.
    pub closed spec fn capacity(&self) -> Option<usize> {
        self.cap
    }

    /// Number of live sender handles.
    pub closed spec fn sender_count(&self) -> nat {
        self.senders as nat
    }

    /// Number of live receiver handles.
    pub closed spec fn receiver_count(&self) -> nat {
        self.receivers as nat
    }

    /// Every value whose send was accepted, in acceptance order.
    pub closed spec fn sent_log(&self) -> Seq<T> {
        self.sent@
    }

    /// Every value handed to a receive, in delivery order.
    pub closed spec fn delivered_log(&self) -> Seq<T> {
        self.delivered@
    }

    /// A channel is closed exactly when the last sender has been
    /// released.  Closing is irreversible: no transition adds a sender
    /// to a closed channel, since cloning requires a live one.
    pub open spec fn is_closed(&self) -> bool {
        self.sender_count() == 0
    }

    /// The state in which a blocking send waits: the channel is bounded
    /// and the buffer already holds as many values as the capacity
    /// allows.  On a zero-capacity (rendezvous) channel every send must
    /// wait for a matching receive, so this holds always.
    pub open spec fn send_would_block(&self) -> bool {
        match self.capacity() {
            Some(c) => self.pending().len() >= c,
            None => false,
        }
    }

    /// Well-formedness: the accepted values are exactly the delivered
    /// values followed by the pending ones, and a bounded buffer never
    /// exceeds its capacity.
    pub open spec fn wf(&self) -> bool {
        &&& self.sent_log() == self.delivered_log() + self.pending()
        &&& match self.capacity() {
            Some(c) => self.pending().len() <= c,
            None => true,
        }
    }

    /// Enqueues `v` if the channel accepts it now, and otherwise reports
    /// why not, without blocking.  The outcome is decided exactly by the
    /// prior state: `Closed` when every receiver is gone, `Full` in the
    /// state where a blocking send would wait, success otherwise.
    pub fn try_send(&mut self, v: T) -> (r: Result<(), TrySendError>)
        requires
            old(self).wf(),
            old(self).sender_count() >= 1,
        ensures
            final(self).wf(),
            final(self).capacity() == old(self).capacity(),
            final(self).sender_count() == old(self).sender_count(),
            final(self).receiver_count() == old(self).receiver_count(),
            final(self).delivered_log() == old(self).delivered_log(),
            r == Ok::<(), TrySendError>(()) <==> (old(self).receiver_count() > 0
                && !old(self).send_would_block()),
            r == Err::<(), TrySendError>(TrySendError::Closed) <==> old(self).receiver_count() == 0,
            r == Err::<(), TrySendError>(TrySendError::Full) <==> (old(self).receiver_count() > 0
                && old(self).send_would_block()),
            r is Ok ==> final(self).pending() == old(self).pending().push(v) && final(self).sent_log() == old(self).sent_log().push(v),
            r is Err ==> final(self).pending() == old(self).pending() && final(self).sent_log()
                == old(self).sent_log(),
    {
        if self.receivers == 0 {
            Err(TrySendError::Closed)
        } else {
            let full = match self.cap {
                Some(c) => self.queue.len() >= c,
                None => false,
            };
            if full {
                Err(TrySendError::Full)
            } else {
                self.sent = Ghost(self.sent@.push(v));
                self.queue.push(v);
                Ok(())
            }
        }
    }

    /// Dequeues the oldest pending value if one exists, and otherwise
    /// reports why not, without blocking.  `Closed` is returned exactly
    /// when the queue is empty *and* every sender has been released: a
    /// closed-but-nonempty channel still drains its pending values, and
    /// `Empty` says a value may yet arrive.
    pub fn try_recv(&mut self) -> (r: Result<T, TryRecvError>)
        requires
            old(self).wf(),
            old(self).receiver_count() >= 1,
        ensures
            final(self).wf(),
            final(self).capacity() == old(self).capacity(),
            final(self).sender_count() == old(self).sender_count(),
            final(self).receiver_count() == old(self).receiver_count(),
            final(self).sent_log() == old(self).sent_log(),
            old(self).pending().len() > 0 ==> r == Ok::<T, TryRecvError>(old(self).pending()[0])
                && final(self).pending() == old(self).pending().drop_first() && final(self).delivered_log() == old(self).delivered_log().push(old(self).pending()[0]),
            old(self).pending().len() == 0 ==> final(self).pending() == old(self).pending()
                && final(self).delivered_log() == old(self).delivered_log(),
            (old(self).pending().len() == 0 && old(self).is_closed()) <==> r == Err::<
                T,
                TryRecvError,
            >(TryRecvError::Closed),
            (old(self).pending().len() == 0 && !old(self).is_closed()) <==> r == Err::<
                T,
                TryRecvError,
            >(TryRecvError::Empty),
    {
        if self.queue.len() > 0 {
            let v = self.queue.remove(0);
            self.delivered = Ghost(self.delivered@.push(v));
            proof {
                assert(self.queue@ =~= old(self).queue@.drop_first());
                assert(self.delivered@ + self.queue@ =~= old(self).delivered@
                    + old(self).queue@);
            }
            Ok(v)
        } else if self.senders == 0 {
            Err(TryRecvError::Closed)
        } else {
            Err(TryRecvError::Empty)
        }
    }

    /// The blocking send, in the state where it does not block (the
    /// caller's wait loop has already left `send_would_block`).  It
    /// succeeds exactly while a receiver remains, and fails with
    /// `Closed` — never silently — once every receiver is gone.
    pub fn send(&mut self, v: T) -> (r: Result<(), SendError>)
        requires
            old(self).wf(),
            old(self).sender_count() >= 1,
            !old(self).send_would_block(),
        ensures
            final(self).wf(),
            final(self).capacity() == old(self).capacity(),
            final(self).sender_count() == old(self).sender_count(),
            final(self).receiver_count() == old(self).receiver_count(),
            final(self).delivered_log() == old(self).delivered_log(),
            r == Ok::<(), SendError>(()) <==> old(self).receiver_count() > 0,
            r == Err::<(), SendError>(SendError::Closed) <==> old(self).receiver_count() == 0,
            r is Ok ==> final(self).pending() == old(self).pending().push(v) && final(self).sent_log() == old(self).sent_log().push(v),
            r is Err ==> final(self).pending() == old(self).pending() && final(self).sent_log()
                == old(self).sent_log(),
    {
        match self.try_send(v) {
            Ok(()) => Ok(()),
            Err(_) => Err(SendError::Closed),
        }
    }

    /// The blocking receive, in the state where it does not block: a
    /// value is pending, or the channel is closed.  It returns the
    /// oldest pending value, and `Closed` only once the queue is empty
    /// and every sender has been released.
    pub fn recv(&mut self) -> (r: Result<T, RecvError>)
        requires
            old(self).wf(),
            old(self).receiver_count() >= 1,
            old(self).pending().len() > 0 || old(self).is_closed(),
        ensures
            final(self).wf(),
            final(self).capacity() == old(self).capacity(),
            final(self).sender_count() == old(self).sender_count(),
            final(self).receiver_count() == old(self).receiver_count(),
            final(self).sent_log() == old(self).sent_log(),
            old(self).pending().len() > 0 ==> r == Ok::<T, RecvError>(old(self).pending()[0])
                && final(self).pending() == old(self).pending().drop_first() && final(self).delivered_log() == old(self).delivered_log().push(old(self).pending()[0]),
            old(self).pending().len() == 0 ==> r == Err::<T, RecvError>(RecvError::Closed)
                && final(self).pending() == old(self).pending() && final(self).delivered_log()
                == old(self).delivered_log(),
    {
        match self.try_recv() {
            Ok(v) => Ok(v),
            Err(_) => Err(RecvError::Closed),
        }
    }

    /// Clones a sender handle: one more live sender, nothing else moves.
    pub fn clone_sender(&mut self)
        requires
            old(self).wf(),
            1 <= old(self).sender_count() < usize::MAX,
        ensures
            final(self).wf(),
            final(self).sender_count() == old(self).sender_count() + 1,
            final(self).capacity() == old(self).capacity(),
            final(self).receiver_count() == old(self).receiver_count(),
            final(self).pending() == old(self).pending(),
            final(self).sent_log() == old(self).sent_log(),
            final(self).delivered_log() == old(self).delivered_log(),
    {
        self.senders = self.senders + 1;
    }

    /// Releases a sender handle.  When the last one goes, the channel is
    /// closed — irreversibly, since cloning requires a live sender —
    /// and the pending values stay claimable: close discards no work.
    pub fn drop_sender(&mut self)
        requires
            old(self).wf(),
            old(self).sender_count() >= 1,
        ensures
            final(self).wf(),
            final(self).sender_count() == old(self).sender_count() - 1,
            final(self).capacity() == old(self).capacity(),
            final(self).receiver_count() == old(self).receiver_count(),
            final(self).pending() == old(self).pending(),
            final(self).sent_log() == old(self).sent_log(),
            final(self).delivered_log() == old(self).delivered_log(),
    {
        self.senders = self.senders - 1;
    }

    /// Releases a receiver handle.  Once every receiver is gone, every
    /// further send fails with `Closed`.
    pub fn drop_receiver(&mut self)
        requires
            old(self).wf(),
            old(self).receiver_count() >= 1,
        ensures
            final(self).wf(),
            final(self).receiver_count() == old(self).receiver_count() - 1,
            final(self).capacity() == old(self).capacity(),
            final(self).sender_count() == old(self).sender_count(),
            final(self).pending() == old(self).pending(),
            final(self).sent_log() == old(self).sent_log(),
            final(self).delivered_log() == old(self).delivered_log(),
    {
        self.receivers = self.receivers - 1;
    }

    /// Number of values enqueued but not yet delivered.
    pub fn queued(&self) -> (n: usize)
        ensures
            n == self.pending().len(),
    {
        self.queue.len()
    }

    /// Whether no value is pending.
    pub fn is_empty(&self) -> (b: bool)
        ensures
            b == (self.pending().len() == 0),
    {
        self.queue.len() == 0
    }

    /// The capacity bound the channel was created with, if any.
    pub fn bound(&self) -> (c: Option<usize>)
        ensures
            c == self.capacity(),
    {
        self.cap
    }

    /// Whether the last sender has been released.
    pub fn closed(&self) -> (b: bool)
        ensures
            b == self.is_closed(),
    {
        self.senders == 0
    }

    /// Number of live sender handles.
    pub fn sender_handles(&self) -> (n: usize)
        ensures
            n == self.sender_count(),
    {
        self.senders
    }

    /// Number of live receiver handles.
    pub fn receiver_handles(&self) -> (n: usize)
        ensures
            n == self.receiver_count(),
    {
        self.receivers
    }
}

/// A fresh unbounded channel: one sender, one receiver, nothing pending.
pub fn channel<T>() -> (c: Channel<T>)
    ensures
        c.wf(),
        c.pending() == Seq::<T>::empty(),
        c.capacity() is None,
        c.sender_count() == 1,
        c.receiver_count() == 1,
        c.sent_log() == Seq::<T>::empty(),
        c.delivered_log() == Seq::<T>::empty(),
{
    let c = Channel {
        queue: Vec::new(),
        cap: None,
        senders: 1,
        receivers: 1,
        sent: Ghost(Seq::empty()),
        delivered: Ghost(Seq::empty()),
    };
    proof {
        assert(c.sent_log() =~= c.delivered_log() + c.pending());
    }
    c
}

/// A fresh bounded channel of capacity `cap`.  With `cap == 0` every
/// send must rendezvous with a matching receive: nothing is buffered.
pub fn bounded_channel<T>(cap: usize) -> (c: Channel<T>)
    ensures
        c.wf(),
        c.pending() == Seq::<T>::empty(),
        c.capacity() == Some(cap),
        c.sender_count() == 1,
        c.receiver_count() == 1,
        c.sent_log() == Seq::<T>::empty(),
        c.delivered_log() == Seq::<T>::empty(),
{
    let c = Channel {
        queue: Vec::new(),
        cap: Some(cap),
        senders: 1,
        receivers: 1,
        sent: Ghost(Seq::empty()),
        delivered: Ghost(Seq::empty()),
    };
    proof {
        assert(c.sent_log() =~= c.delivered_log() + c.pending());
    }
    c
}

/// Delivery preserves acceptance order: in every well-formed channel
/// state, the values handed out so far are exactly the first accepted
/// values, in acceptance order.  In particular, of two values accepted
/// by sends in some order, neither can be delivered before one accepted
/// earlier is delivered.
pub proof fn lemma_fifo_delivery<T>(c: &Channel<T>)
    requires
        c.wf(),
    ensures
        c.delivered_log().len() <= c.sent_log().len(),
        forall|k: int|
            0 <= k < c.delivered_log().len() ==> c.delivered_log()[k] == c.sent_log()[k],
{
    assert(c.sent_log() == c.delivered_log() + c.pending());
}

/// The backpressure boundary: in a well-formed bounded channel a send
/// blocks if and only if the number of values enqueued but undelivered
/// already equals the capacity.
pub proof fn lemma_backpressure<T>(c: &Channel<T>, cap: usize)
    requires
        c.wf(),
        c.capacity() == Some(cap),
    ensures
        c.send_would_block() <==> c.pending().len() == cap,
{
}

} // verus!
