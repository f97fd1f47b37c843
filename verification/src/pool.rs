//! The worker pool: a fixed set of workers draining one shared job
//! channel, as a verified state machine.
//!
//! A [`WorkerPool`] owns one unbounded [`Channel`](crate::channel::Channel)
//! of jobs and the bookkeeping of a fixed number of workers.  `submit`
//! enqueues through the retained sender; each worker turn takes the next
//! queued job, and a ghost log records which worker took which job, in
//! order.  The threaded runtime around the library spawns one thread per
//! worker, drives its turns, and performs the actual waiting and joining;
//! every decision — what `submit` does after shutdown, which job the next
//! turn hands out, what remains to drain at shutdown — is made and proved
//! here.
//!
//! A job is handed out by move: once a worker turn has taken it, it is
//! gone from the queue and can never be handed out again.  Executing a
//! job is the worker's business; a failure inside one execution is
//! confined to that worker's turn and never touches the queue, so it is
//! invisible to this state machine by design.

use vstd::prelude::*;

use crate::channel::Channel;
use crate::channel::channel;
use crate::errors::SendError;

verus! {

/// The jobs of an execution log, in log order.
pub open spec fn jobs_of<J>(log: Seq<(usize, J)>) -> Seq<J> {
    log.map_values(|e: (usize, J)| e.1)
}

/// Taking one more job appends exactly that job to the jobs of the log.
pub proof fn lemma_jobs_of_push<J>(log: Seq<(usize, J)>, e: (usize, J))
    ensures
        jobs_of(log.push(e)) == jobs_of(log).push(e.1),
{
    assert(jobs_of(log.push(e)) =~= jobs_of(log).push(e.1));
}

/// A fixed-size pool: one shared job channel, `size` workers, and the
/// ghost log of which worker took which job.
pub struct WorkerPool<J> {
    chan: Channel<J>,
    size: usize,
    executed: Ghost<Seq<(usize, J)>>,
}

impl<J> WorkerPool<J> {
    /// Number of workers, fixed at construction.
    pub closed spec fn worker_count(&self) -> nat {
        self.size as nat
    }

    /// Every job accepted by `submit`, in submission order.
    pub closed spec fn submitted(&self) -> Seq<J> {
        self.chan.sent_log()
    }

    /// Jobs accepted but not yet taken by any worker, oldest first.
    pub closed spec fn queued_jobs(&self) -> Seq<J> {
        self.chan.pending()
    }

    /// The execution log: which worker took which job, in the order the
    /// jobs were taken.
    pub closed spec fn executed_log(&self) -> Seq<(usize, J)> {
        self.executed@
    }

    /// The jobs of the execution log, in the order they were taken.
    pub open spec fn executed_jobs(&self) -> Seq<J> {
        jobs_of(self.executed_log())
    }

    /// The pool is shut down once the retained sender is released.
    pub closed spec fn is_shut_down(&self) -> bool {
        self.chan.is_closed()
    }

    /// Well-formedness: the channel is the pool's unbounded job channel
    /// with its single shared receiver, at most the one retained sender,
    /// at least one worker, and an execution log that mirrors the
    /// channel's delivery log with a valid worker index per entry.
    pub closed spec fn wf(&self) -> bool {
        &&& self.chan.wf()
        &&& self.worker_count() >= 1
        &&& self.chan.receiver_count() == 1
        &&& self.chan.sender_count() <= 1
        &&& self.chan.capacity() is None
        &&& self.executed@.len() == self.chan.delivered_log().len()
        &&& forall|k: int|
            0 <= k < self.executed@.len() ==> (#[trigger] self.executed@[k]).0
                < self.worker_count() && self.executed@[k].1 == self.chan.delivered_log()[k]
    }

    /// A pool of `size` workers sharing one fresh job channel.  A pool
    /// of zero workers could never drain its queue, so zero is excluded
    /// outright; the embedding program checks and fails fast instead of
    /// constructing such a pool.
    pub fn new(size: usize) -> (p: WorkerPool<J>)
        requires
            size >= 1,
        ensures
            p.wf(),
            p.worker_count() == size,
            p.submitted() == Seq::<J>::empty(),
            p.queued_jobs() == Seq::<J>::empty(),
            p.executed_log() == Seq::<(usize, J)>::empty(),
            !p.is_shut_down(),
    {
        WorkerPool { chan: channel(), size, executed: Ghost(Seq::empty()) }
    }

    /// Accepts a job while the pool is open, and fails loudly — never
    /// silently — once `shutdown` has begun: a submit that loses the
    /// race against shutdown observes `Closed`, so no job is ever
    /// dropped without its submitter learning of it.
    pub fn submit(&mut self, job: J) -> (r: Result<(), SendError>)
        requires
            old(self).wf(),
        ensures
            final(self).wf(),
            final(self).worker_count() == old(self).worker_count(),
            final(self).is_shut_down() == old(self).is_shut_down(),
            final(self).executed_log() == old(self).executed_log(),
            r == Ok::<(), SendError>(()) <==> !old(self).is_shut_down(),
            r == Err::<(), SendError>(SendError::Closed) <==> old(self).is_shut_down(),
            r is Ok ==> final(self).submitted() == old(self).submitted().push(job) && final(self).queued_jobs() == old(self).queued_jobs().push(job),
            r is Err ==> final(self).submitted() == old(self).submitted() && final(self).queued_jobs() == old(self).queued_jobs(),
    {
        if self.chan.sender_handles() == 0 {
            Err(SendError::Closed)
        } else {
            match self.chan.try_send(job) {
                Ok(()) => Ok(()),
                Err(_) => Err(SendError::Closed),
            }
        }
    }

    /// One worker turn: worker `worker` takes the oldest queued job, by
    /// move, and the turn is logged.  `None` means the queue is empty
    /// right now — the worker's thread then either waits for more work
    /// or, once the pool is shut down, terminates.
    pub fn take_next(&mut self, worker: usize) -> (r: Option<J>)
        requires
            old(self).wf(),
            worker < old(self).worker_count(),
        ensures
            final(self).wf(),
            final(self).worker_count() == old(self).worker_count(),
            final(self).is_shut_down() == old(self).is_shut_down(),
            final(self).submitted() == old(self).submitted(),
            old(self).queued_jobs().len() > 0 ==> r == Some(old(self).queued_jobs()[0]) && final(self).queued_jobs() == old(self).queued_jobs().drop_first() && final(self).executed_log()
                == old(self).executed_log().push((worker, old(self).queued_jobs()[0])),
            old(self).queued_jobs().len() == 0 ==> r is None && final(self).queued_jobs() == old(self).queued_jobs() && final(self).executed_log() == old(self).executed_log(),
    {
        match self.chan.try_recv() {
            Ok(job) => {
                self.executed = Ghost(self.executed@.push((worker, job)));
                Some(job)
            },
            Err(_) => None,
        }
    }

    /// Releases the retained sender, closing the job channel.  Queued
    /// jobs stay queued — closing discards no work — and closing an
    /// already shut-down pool is a no-op.
    pub fn close(&mut self)
        requires
            old(self).wf(),
        ensures
            final(self).wf(),
            final(self).worker_count() == old(self).worker_count(),
            final(self).is_shut_down(),
            final(self).submitted() == old(self).submitted(),
            final(self).queued_jobs() == old(self).queued_jobs(),
            final(self).executed_log() == old(self).executed_log(),
    {
        if self.chan.sender_handles() >= 1 {
            self.chan.drop_sender();
        }
    }

    /// Graceful shutdown: closes the channel, then hands out every job
    /// still queued, one worker turn at a time in round-robin order.
    /// The returned jobs are the ones the workers still execute while
    /// the pool is joined; afterwards nothing is queued, so every job
    /// submitted strictly before the shutdown has been taken by exactly
    /// one worker turn.
    pub fn shutdown(&mut self) -> (drained: Vec<J>)
        requires
            old(self).wf(),
        ensures
            final(self).wf(),
            final(self).worker_count() == old(self).worker_count(),
            final(self).is_shut_down(),
            final(self).queued_jobs().len() == 0,
            final(self).submitted() == old(self).submitted(),
            drained@ == old(self).queued_jobs(),
            final(self).executed_jobs() == old(self).executed_jobs() + old(self).queued_jobs(),
    {
        self.close();
        let mut drained: Vec<J> = Vec::new();
        proof {
            assert(self.executed_jobs() =~= old(self).executed_jobs() + drained@);
            assert(drained@ =~= old(self).queued_jobs().take(0));
            assert(self.queued_jobs() =~= old(self).queued_jobs().skip(0));
        }
        let mut w: usize = 0;
        loop
            invariant
                self.wf(),
                w < self.worker_count(),
                self.worker_count() == old(self).worker_count(),
                self.is_shut_down(),
                self.submitted() == old(self).submitted(),
                drained@.len() <= old(self).queued_jobs().len(),
                drained@ == old(self).queued_jobs().take(drained@.len() as int),
                self.queued_jobs() == old(self).queued_jobs().skip(drained@.len() as int),
                self.executed_jobs() == old(self).executed_jobs() + drained@,
            ensures
                self.wf(),
                self.worker_count() == old(self).worker_count(),
                self.is_shut_down(),
                self.submitted() == old(self).submitted(),
                self.queued_jobs().len() == 0,
                drained@ == old(self).queued_jobs(),
                self.executed_jobs() == old(self).executed_jobs() + drained@,
            decreases self.queued_jobs().len(),
        {
            let ghost prior_log = self.executed_log();
            match self.take_next(w) {
                Some(job) => {
                    proof {
                        lemma_jobs_of_push(prior_log, (w, job));
                    }
                    drained.push(job);
                    w = if w + 1 < self.size {
                        w + 1
                    } else {
                        0
                    };
                    proof {
                        assert(drained@ =~= old(self).queued_jobs().take(drained@.len() as int));
                        assert(self.queued_jobs() =~= old(self).queued_jobs().skip(
                            drained@.len() as int,
                        ));
                        assert(self.executed_jobs() =~= old(self).executed_jobs() + drained@);
                    }
                },
                None => {
                    proof {
                        assert(self.queued_jobs().len() == 0);
                        assert(old(self).queued_jobs().skip(drained@.len() as int).len()
                            == old(self).queued_jobs().len() - drained@.len());
                        assert(drained@.len() == old(self).queued_jobs().len());
                        assert(drained@ =~= old(self).queued_jobs());
                    }
                    break ;
                },
            }
        }
        drained
    }

    /// Number of workers.
    pub fn workers(&self) -> (n: usize)
        ensures
            n == self.worker_count(),
    {
        self.size
    }

    /// Number of jobs accepted but not yet taken by any worker.
    pub fn queued_count(&self) -> (n: usize)
        ensures
            n == self.queued_jobs().len(),
    {
        self.chan.queued()
    }

    /// Whether the retained sender has been released.
    pub fn shut_down(&self) -> (b: bool)
        ensures
            b == self.is_shut_down(),
    {
        self.chan.closed()
    }
}

/// No double delivery: in every well-formed pool the jobs taken so far
/// are exactly the first submitted jobs, in submission order — each by
/// one worker turn with a valid worker index.  A job, once taken, left
/// the queue by move, so no later turn can take it again.
pub proof fn lemma_no_double_delivery<J>(p: &WorkerPool<J>)
    requires
        p.wf(),
    ensures
        p.executed_jobs().len() <= p.submitted().len(),
        forall|k: int|
            0 <= k < p.executed_jobs().len() ==> p.executed_jobs()[k] == p.submitted()[k],
        forall|k: int|
            0 <= k < p.executed_log().len() ==> (#[trigger] p.executed_log()[k]).0
                < p.worker_count(),
{
    crate::channel::lemma_fifo_delivery(&p.chan)
}

/// Graceful-shutdown completeness: once the pool is shut down and its
/// queue is drained, the execution log holds every submitted job,
/// exactly once each, in submission order.
pub proof fn lemma_shutdown_completeness<J>(p: &WorkerPool<J>)
    requires
        p.wf(),
        p.is_shut_down(),
        p.queued_jobs().len() == 0,
    ensures
        p.executed_jobs() == p.submitted(),
{
    lemma_no_double_delivery(p);
    assert(p.executed_jobs() =~= p.submitted());
}

} // verus!
