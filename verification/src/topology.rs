//! Fan-in and fan-out: many producers into one consumer, and one
//! producer across many consumers, verified for every interleaving.
//!
//! The order in which independent threads interact with one channel is
//! decided by the scheduler, not by this library.  Here that order is an
//! explicit argument — a *schedule* naming, step by step, which producer
//! hands over the next value (fan-in), or which consumer takes the next
//! value (fan-out) — and the functions are verified for **all** schedules.
//! Whatever interleaving the scheduler picks at run time, the proved
//! properties hold for it.
//!
//! [`count_in_prefix`] is the bookkeeping both directions share: how many
//! of the first `k` schedule steps belong to participant `i`.  It turns
//! "the j-th value of producer i" and "the j-th value consumer c takes"
//! into exact positions.

use vstd::prelude::*;

verus! {

/// How many of the first `k` entries of `sched` equal `i`.
pub open spec fn count_in_prefix(sched: Seq<usize>, i: int, k: int) -> nat
    decreases k,
{
    if k <= 0 {
        0
    } else {
        count_in_prefix(sched, i, k - 1) + if sched[k - 1] as int == i {
            1nat
        } else {
            0nat
        }
    }
}

/// The per-element views of a vector of vectors.
pub open spec fn views_of<T>(sources: Seq<Vec<T>>) -> Seq<Seq<T>> {
    sources.map_values(|v: Vec<T>| v@)
}

/// A fan-in schedule is valid when every step names an existing producer
/// that still has a value left, and, at the end, every producer's values
/// have all been handed over — the consumer stops exactly when all
/// producers have finished.
pub open spec fn fan_in_valid<T>(srcs: Seq<Seq<T>>, sched: Seq<usize>) -> bool {
    &&& forall|k: int|
        0 <= k < sched.len() ==> (#[trigger] sched[k]) < srcs.len() && count_in_prefix(
            sched,
            sched[k] as int,
            k,
        ) < srcs[sched[k] as int].len()
    &&& forall|i: int|
        0 <= i < srcs.len() ==> count_in_prefix(sched, i, sched.len() as int) == (
        #[trigger] srcs[i]).len()
}

/// The merged stream determined by a valid fan-in schedule: step `k`
/// delivers the next undelivered value of producer `sched[k]`.
pub open spec fn fan_in_output<T>(srcs: Seq<Seq<T>>, sched: Seq<usize>, out: Seq<T>) -> bool {
    &&& out.len() == sched.len()
    &&& forall|k: int|
        0 <= k < sched.len() ==> #[trigger] out[k] == srcs[sched[k] as int][count_in_prefix(
            sched,
            sched[k] as int,
            k,
        ) as int]
}

/// Fan-in: `sources.len()` producers each hold their own FIFO stream of
/// values; `schedule` is the interleaving the scheduler happened to pick.
/// Returns the stream the single consumer observes, or `None` exactly
/// when the schedule is not a complete interleaving of the sources —
/// a step naming a finished or unknown producer, or a producer whose
/// values are not all consumed (the consumer's loop would still be
/// waiting, not terminating).
pub fn fan_in_merge<T: Copy>(sources: &Vec<Vec<T>>, schedule: &Vec<usize>) -> (r: Option<Vec<T>>)
    ensures
        r is Some <==> fan_in_valid(views_of(sources@), schedule@),
        r matches Some(out) ==> fan_in_output(views_of(sources@), schedule@, out@),
{
    let ghost srcs = views_of(sources@);
    let n = sources.len();
    let mut pos: Vec<usize> = Vec::new();
    let mut i: usize = 0;
    while i < n
        invariant
            i <= n,
            pos@.len() == i,
            forall|j: int| 0 <= j < i ==> pos@[j] == 0,
        decreases n - i,
    {
        pos.push(0);
        i = i + 1;
    }
    let mut out: Vec<T> = Vec::new();
    let mut k: usize = 0;
    while k < schedule.len()
        invariant
            k <= schedule@.len(),
            n == sources@.len(),
            srcs == views_of(sources@),
            pos@.len() == n,
            forall|j: int| 0 <= j < n ==> pos@[j] == count_in_prefix(schedule@, j, k as int),
            forall|j: int|
                0 <= j < k ==> (#[trigger] schedule@[j]) < n && count_in_prefix(
                    schedule@,
                    schedule@[j] as int,
                    j,
                ) < srcs[schedule@[j] as int].len(),
            out@.len() == k,
            forall|j: int|
                0 <= j < k ==> #[trigger] out@[j] == srcs[schedule@[j] as int][count_in_prefix(
                    schedule@,
                    schedule@[j] as int,
                    j,
                ) as int],
        decreases schedule@.len() - k,
    {
        let s = schedule[k];
        if s >= n {
            return None;
        }
        let p = pos[s];
        if p >= sources[s].len() {
            return None;
        }
        out.push(sources[s][p]);
        pos.set(s, p + 1);
        k = k + 1;
    }
    let mut c: usize = 0;
    while c < n
        invariant
            c <= n,
            n == sources@.len(),
            srcs == views_of(sources@),
            pos@.len() == n,
            forall|j: int|
                0 <= j < n ==> pos@[j] == count_in_prefix(schedule@, j, schedule@.len() as int),
            forall|j: int| 0 <= j < c ==> count_in_prefix(
                schedule@,
                j,
                schedule@.len() as int,
            ) == srcs[j].len(),
            forall|j: int|
                0 <= j < schedule@.len() ==> (#[trigger] schedule@[j]) < n && count_in_prefix(
                    schedule@,
                    schedule@[j] as int,
                    j,
                ) < srcs[schedule@[j] as int].len(),
            out@.len() == schedule@.len(),
            forall|j: int|
                0 <= j < schedule@.len() ==> #[trigger] out@[j] == srcs[schedule@[j] as int][count_in_prefix(
                    schedule@,
                    schedule@[j] as int,
                    j,
                ) as int],
        decreases n - c,
    {
        if pos[c] != sources[c].len() {
            proof {
                assert(srcs[c as int] == sources@[c as int]@);
                assert(count_in_prefix(schedule@, c as int, schedule@.len() as int)
                    != srcs[c as int].len());
            }
            return None;
        }
        c = c + 1;
    }
    proof {
        assert(forall|j: int| 0 <= j < n ==> #[trigger] srcs[j] == sources@[j]@);
    }
    Some(out)
}

/// Occurrence counts never decrease along the schedule.
pub proof fn lemma_count_monotone(sched: Seq<usize>, i: int, a: int, b: int)
    requires
        0 <= a <= b,
    ensures
        count_in_prefix(sched, i, a) <= count_in_prefix(sched, i, b),
    decreases b - a,
{
    if a < b {
        lemma_count_monotone(sched, i, a, b - 1);
    }
}

/// Between two prefix counts there is a step for every count in between:
/// if producer `i` has been counted at most `m` times by step `a` and
/// more than `m` times by step `b`, some step in between is exactly its
/// `m`-th occurrence.
pub proof fn lemma_count_hits(sched: Seq<usize>, i: int, m: nat, a: int, b: int)
    requires
        0 <= a <= b,
        count_in_prefix(sched, i, a) <= m,
        m < count_in_prefix(sched, i, b),
    ensures
        exists|k: int|
            a <= k < b && sched[k] as int == i && count_in_prefix(sched, i, k) == m,
    decreases b - a,
{
    if a < b {
        if count_in_prefix(sched, i, b - 1) <= m {
            assert(sched[b - 1] as int == i && count_in_prefix(sched, i, b - 1) == m);
        } else {
            lemma_count_hits(sched, i, m, a, b - 1);
        }
    }
}

/// Per-producer delivery order is preserved through fan-in (the FIFO
/// guarantee under any interleaving): whenever two consumer steps `k1 <
/// k2` both take from producer `i`, they deliver two of `i`'s values in
/// `i`'s own send order — an earlier send of one producer is never
/// overtaken by a later send of the same producer.
pub proof fn lemma_fan_in_source_order<T>(
    srcs: Seq<Seq<T>>,
    sched: Seq<usize>,
    out: Seq<T>,
    i: int,
    k1: int,
    k2: int,
)
    requires
        fan_in_output(srcs, sched, out),
        0 <= k1 < k2 < sched.len(),
        sched[k1] as int == i,
        sched[k2] as int == i,
    ensures
        count_in_prefix(sched, i, k1) < count_in_prefix(sched, i, k2),
        out[k1] == srcs[i][count_in_prefix(sched, i, k1) as int],
        out[k2] == srcs[i][count_in_prefix(sched, i, k2) as int],
{
    lemma_count_monotone(sched, i, k1 + 1, k2);
}

/// Fan-in loses and invents nothing: under a valid schedule, every value
/// of every producer is delivered at exactly one consumer step — the
/// step of its occurrence number — so the union of what the consumer
/// observes is exactly what the producers sent.
pub proof fn lemma_fan_in_complete<T>(srcs: Seq<Seq<T>>, sched: Seq<usize>, out: Seq<T>, i: int, m: int)
    requires
        fan_in_valid(srcs, sched),
        fan_in_output(srcs, sched, out),
        0 <= i < srcs.len(),
        0 <= m < srcs[i].len(),
    ensures
        exists|k: int|
            0 <= k < sched.len() && sched[k] as int == i && count_in_prefix(sched, i, k) == m
                && out[k] == srcs[i][m],
{
    lemma_count_hits(sched, i, m as nat, 0, sched.len() as int);
    let k = choose|k: int|
        0 <= k < sched.len() && sched[k] as int == i && count_in_prefix(sched, i, k) == m as nat;
    assert(out[k] == srcs[i][m]);
}

/// A fan-out assignment is valid when it names, for each of the
/// producer's values in order, which of the `consumers` consumers takes
/// it.
pub open spec fn fan_out_valid<T>(values: Seq<T>, assign: Seq<usize>, consumers: int) -> bool {
    &&& assign.len() == values.len()
    &&& forall|k: int| 0 <= k < assign.len() ==> (#[trigger] assign[k]) < consumers
}

/// The per-consumer streams determined by a fan-out assignment: value
/// `k` becomes the next value of consumer `assign[k]`, and nothing else
/// is delivered to anybody.
pub open spec fn fan_out_output<T>(
    values: Seq<T>,
    assign: Seq<usize>,
    bins: Seq<Seq<T>>,
    consumers: int,
) -> bool {
    &&& bins.len() == consumers
    &&& forall|c: int|
        0 <= c < consumers ==> (#[trigger] bins[c]).len() == count_in_prefix(
            assign,
            c,
            assign.len() as int,
        )
    &&& forall|k: int|
        0 <= k < values.len() ==> #[trigger] bins[assign[k] as int][count_in_prefix(
            assign,
            assign[k] as int,
            k,
        ) as int] == values[k]
}

/// Fan-out: one producer's values, work-stealing-distributed over
/// `consumers` consumers sharing the one receiver; `assign` is the
/// distribution the scheduler happened to pick.  Each value goes to
/// exactly one consumer, in the producer's order from each consumer's
/// point of view.  `None` exactly when the assignment does not cover
/// the values one-to-one with known consumers.
pub fn fan_out_distribute<T: Copy>(values: &Vec<T>, assign: &Vec<usize>, consumers: usize) -> (r:
    Option<Vec<Vec<T>>>)
    requires
        consumers >= 1,
    ensures
        r is Some <==> fan_out_valid(values@, assign@, consumers as int),
        r matches Some(bins) ==> fan_out_output(
            values@,
            assign@,
            views_of(bins@),
            consumers as int,
        ),
{
    if assign.len() != values.len() {
        return None;
    }
    let mut bins: Vec<Vec<T>> = Vec::new();
    let mut c: usize = 0;
    while c < consumers
        invariant
            c <= consumers,
            bins@.len() == c,
            forall|j: int| 0 <= j < c ==> (#[trigger] bins@[j])@.len() == 0,
        decreases consumers - c,
    {
        bins.push(Vec::new());
        c = c + 1;
    }
    let mut k: usize = 0;
    while k < values.len()
        invariant
            k <= values@.len(),
            assign@.len() == values@.len(),
            bins@.len() == consumers,
            forall|j: int| 0 <= j < k ==> (#[trigger] assign@[j]) < consumers,
            forall|j: int|
                0 <= j < consumers ==> (#[trigger] bins@[j])@.len() == count_in_prefix(
                    assign@,
                    j,
                    k as int,
                ),
            forall|j: int|
                0 <= j < k ==> #[trigger] views_of(bins@)[assign@[j] as int][count_in_prefix(
                    assign@,
                    assign@[j] as int,
                    j,
                ) as int] == values@[j],
        decreases values@.len() - k,
    {
        let a = assign[k];
        if a >= consumers {
            return None;
        }
        let ghost prev = bins@;
        let v = values[k];
        let bin = &mut bins[a];
        bin.push(v);
        proof {
            assert(bins@[a as int]@ =~= prev[a as int]@.push(values@[k as int]));
            assert(forall|j: int| 0 <= j < consumers && j != a ==> bins@[j] == prev[j]);
            assert(forall|j: int|
                0 <= j < consumers ==> #[trigger] views_of(bins@)[j] == bins@[j]@);
            assert(forall|j: int|
                0 <= j < consumers ==> #[trigger] views_of(prev)[j] == prev[j]@);
            assert forall|j: int| 0 <= j < k + 1 implies #[trigger] views_of(
                bins@,
            )[assign@[j] as int][count_in_prefix(assign@, assign@[j] as int, j) as int]
                == values@[j] by {
                let cj = assign@[j] as int;
                if j < k {
                    lemma_count_monotone(assign@, cj, j + 1, k as int);
                    if cj == a as int {
                        assert(bins@[cj]@[count_in_prefix(assign@, cj, j) as int] == prev[cj]@[count_in_prefix(
                            assign@,
                            cj,
                            j,
                        ) as int]);
                    } else {
                        assert(bins@[cj] == prev[cj]);
                    }
                    assert(views_of(prev)[cj][count_in_prefix(assign@, cj, j) as int]
                        == values@[j]);
                } else {
                    assert(count_in_prefix(assign@, cj, k as int) == prev[cj]@.len());
                    assert(bins@[cj]@[prev[cj]@.len() as int] == values@[k as int]);
                }
            }
        }
        k = k + 1;
    }
    proof {
        assert(forall|j: int|
            0 <= j < consumers ==> #[trigger] views_of(bins@)[j] == bins@[j]@);
    }
    Some(bins)
}

/// The total of the per-consumer counts over the first `m` consumers.
pub open spec fn sum_counts(assign: Seq<usize>, m: int, k: int) -> nat
    decreases m,
{
    if m <= 0 {
        0
    } else {
        sum_counts(assign, m - 1, k) + count_in_prefix(assign, m - 1, k)
    }
}

/// Extending the prefix by one step raises exactly one consumer's count.
proof fn lemma_sum_counts_step(assign: Seq<usize>, m: int, k: int)
    requires
        k >= 1,
    ensures
        sum_counts(assign, m, k) == sum_counts(assign, m, k - 1) + if 0 <= (
        assign[k - 1] as int) < m {
            1nat
        } else {
            0nat
        },
    decreases m,
{
    if m > 0 {
        lemma_sum_counts_step(assign, m - 1, k);
    }
}

/// An empty prefix contributes nothing, whatever the consumer count.
proof fn lemma_sum_counts_zero(assign: Seq<usize>, m: int)
    ensures
        sum_counts(assign, m, 0) == 0,
    decreases m,
{
    if m > 0 {
        lemma_sum_counts_zero(assign, m - 1);
    }
}

/// With every step assigned below `m`, the counts add up to the number
/// of steps: nothing is delivered twice and nothing is left out.
pub proof fn lemma_sum_counts_total(assign: Seq<usize>, m: int, k: int)
    requires
        0 <= k <= assign.len(),
        forall|j: int| 0 <= j < k ==> (#[trigger] assign[j]) < m,
        m >= 0,
    ensures
        sum_counts(assign, m, k) == k,
    decreases k,
{
    if k == 0 {
        lemma_sum_counts_zero(assign, m);
    } else {
        lemma_sum_counts_total(assign, m, k - 1);
        lemma_sum_counts_step(assign, m, k);
        assert((assign[k - 1] as int) < m);
    }
}

/// Consumer `c`'s slot `j` was filled by exactly one producer step: the
/// step whose value is `c`'s `j`-th.
pub open spec fn slot_filled_from<T>(
    values: Seq<T>,
    assign: Seq<usize>,
    bins: Seq<Seq<T>>,
    c: int,
    j: int,
) -> bool {
    exists|k: int|
        0 <= k < values.len() && assign[k] as int == c && count_in_prefix(assign, c, k) == j
            && bins[c][j] == values[k]
}

/// Fan-out partitions the producer's values: the consumers' stream
/// lengths add up to exactly the number of values sent, and every slot
/// of every consumer holds the value of exactly one producer step — no
/// duplicates, no omissions.
pub proof fn lemma_fan_out_partition<T>(
    values: Seq<T>,
    assign: Seq<usize>,
    bins: Seq<Seq<T>>,
    consumers: int,
)
    requires
        fan_out_valid(values, assign, consumers),
        fan_out_output(values, assign, bins, consumers),
    ensures
        sum_counts(assign, consumers, assign.len() as int) == values.len(),
        forall|c: int, j: int|
            0 <= c < consumers && 0 <= j < bins[c].len() ==> #[trigger] slot_filled_from(
                values,
                assign,
                bins,
                c,
                j,
            ),
{
    lemma_sum_counts_total(assign, consumers, assign.len() as int);
    assert forall|c: int, j: int|
        0 <= c < consumers && 0 <= j < bins[c].len() implies #[trigger] slot_filled_from(
        values,
        assign,
        bins,
        c,
        j,
    ) by {
        lemma_count_hits(assign, c, j as nat, 0, assign.len() as int);
        let k = choose|k: int|
            0 <= k < assign.len() && assign[k] as int == c && count_in_prefix(assign, c, k)
                == j as nat;
        assert(bins[assign[k] as int][count_in_prefix(assign, assign[k] as int, k) as int]
            == values[k]);
        assert(0 <= k < values.len() && assign[k] as int == c && count_in_prefix(assign, c, k)
            == j && bins[c][j] == values[k]);
    }
}

} // verus!
