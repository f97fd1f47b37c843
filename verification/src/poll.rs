//! Timeout polling over several receivers: the round-robin decision
//! state.
//!
//! With no native multi-way wait, the coordination pattern is to call a
//! short-deadline receive on each receiver in turn, round-robin, until
//! one yields a value or every receiver has reported closure.  This is
//! an explicit, documented approximation of a multi-way wait: callers
//! tolerate added latency of up to one polling slice.
//!
//! [`RoundRobinPoll`] holds the decision state of that loop — which
//! receivers are still live, and whose turn it is — and its contracts
//! pin the decisions down: the chosen receiver is always a live one at
//! or cyclically after the cursor (no live receiver is skipped past, so
//! none is starved), and the loop is told to stop exactly when every
//! receiver has closed.

use vstd::prelude::*;

verus! {

/// The decision state of a round-robin timeout poll over `n` receivers.
pub struct RoundRobinPoll {
    live: Vec<bool>,
    cursor: usize,
}

impl RoundRobinPoll {
    /// Number of receivers being polled.
    pub closed spec fn sources(&self) -> nat {
        self.live@.len()
    }

    /// Whether receiver `i` has not yet reported closure.
    pub closed spec fn live_at(&self, i: int) -> bool {
        self.live@[i]
    }

    /// Whose turn it is.
    pub closed spec fn cursor_at(&self) -> nat {
        self.cursor as nat
    }

    /// Whether any receiver is still live.
    pub open spec fn any_live(&self) -> bool {
        exists|i: int| 0 <= i < self.sources() && self.live_at(i)
    }

    /// Well-formedness: at least one receiver, cursor in range.
    pub open spec fn wf(&self) -> bool {
        &&& self.sources() >= 1
        &&& self.cursor_at() < self.sources()
    }

    /// A fresh poll over `n` receivers, all live, starting at the first.
    pub fn new(n: usize) -> (p: RoundRobinPoll)
        requires
            n >= 1,
        ensures
            p.wf(),
            p.sources() == n,
            p.cursor_at() == 0,
            forall|i: int| 0 <= i < n ==> p.live_at(i),
    {
        let mut live: Vec<bool> = Vec::new();
        let mut i: usize = 0;
        while i < n
            invariant
                i <= n,
                live@.len() == i,
                forall|j: int| 0 <= j < i ==> live@[j],
            decreases n - i,
        {
            live.push(true);
            i = i + 1;
        }
        RoundRobinPoll { live, cursor: 0 }
    }

    /// The receiver to poll next: the first live one at or cyclically
    /// after the cursor, so no live receiver is passed over for longer
    /// than one full round.  `None` exactly when every receiver has
    /// reported closure — the signal to stop the loop.
    pub fn current(&self) -> (r: Option<usize>)
        requires
            self.wf(),
        ensures
            r is Some <==> self.any_live(),
            r matches Some(i) ==> i < self.sources() && self.live_at(i as int),
            r matches Some(i) ==> (i >= self.cursor_at() ==> forall|j: int|
                self.cursor_at() <= j < i ==> !self.live_at(j)),
            r matches Some(i) ==> (i < self.cursor_at() ==> (forall|j: int|
                self.cursor_at() <= j < self.sources() ==> !self.live_at(j)) && (forall|j: int|
                0 <= j < i ==> !self.live_at(j))),
    {
        let n = self.live.len();
        let mut j: usize = self.cursor;
        while j < n
            invariant
                self.cursor <= j <= n,
                n == self.sources(),
                self.wf(),
                forall|t: int| self.cursor_at() <= t < j ==> !self.live_at(t),
            decreases n - j,
        {
            if self.live[j] {
                proof {
                    assert(self.live_at(j as int));
                }
                return Some(j);
            }
            j = j + 1;
        }
        let mut i: usize = 0;
        while i < self.cursor
            invariant
                i <= self.cursor,
                n == self.sources(),
                self.wf(),
                forall|t: int| self.cursor_at() <= t < n ==> !self.live_at(t),
                forall|t: int| 0 <= t < i ==> !self.live_at(t),
            decreases self.cursor - i,
        {
            if self.live[i] {
                proof {
                    assert(self.live_at(i as int));
                }
                return Some(i);
            }
            i = i + 1;
        }
        proof {
            assert(forall|t: int| 0 <= t < self.sources() ==> !self.live_at(t));
        }
        None
    }

    /// Passes the turn to the next receiver, cyclically.
    pub fn advance(&mut self)
        requires
            old(self).wf(),
        ensures
            final(self).wf(),
            final(self).sources() == old(self).sources(),
            forall|i: int|
                0 <= i < old(self).sources() ==> final(self).live_at(i) == old(self).live_at(i),
            final(self).cursor_at() == if old(self).cursor_at() + 1 < old(self).sources() {
                old(self).cursor_at() + 1
            } else {
                0
            },
    {
        let n = self.live.len();
        self.cursor = if self.cursor < n - 1 {
            self.cursor + 1
        } else {
            0
        };
    }

    /// Records that receiver `i` reported closure; it is never polled
    /// again.
    pub fn mark_closed(&mut self, i: usize)
        requires
            old(self).wf(),
            i < old(self).sources(),
        ensures
            final(self).wf(),
            final(self).sources() == old(self).sources(),
            final(self).cursor_at() == old(self).cursor_at(),
            !final(self).live_at(i as int),
            forall|j: int|
                0 <= j < old(self).sources() && j != i ==> final(self).live_at(j) == old(
                    self,
                ).live_at(j),
    {
        self.live.set(i, false);
    }

    /// How many receivers are still live.
    pub fn live_count(&self) -> (n: usize)
        ensures
            n <= self.sources(),
            n > 0 <==> self.any_live(),
    {
        let mut n: usize = 0;
        let mut i: usize = 0;
        while i < self.live.len()
            invariant
                i <= self.sources(),
                n <= i,
                n > 0 <==> exists|j: int| 0 <= j < i && self.live_at(j),
            decreases self.sources() - i,
        {
            if self.live[i] {
                proof {
                    assert(self.live_at(i as int));
                }
                n = n + 1;
            }
            i = i + 1;
        }
        n
    }
}

} // verus!
