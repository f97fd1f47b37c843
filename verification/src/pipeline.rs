//! Pipelines: a linear chain of stages, each transforming and
//! forwarding values.
//!
//! A stage is one of a tagged union of known transforms ([`StageOp`]),
//! and a pipeline is the chain of its stages' transforms, applied in
//! stage order.  Because every stage is a single producer into the next
//! stage's channel and a single consumer of its own, per-sender FIFO
//! makes the whole chain order-preserving: the `i`-th output is the
//! fully transformed `i`-th input, never duplicated and never skipped.
//!
//! The drop policy of these stages is explicit: a value whose transform
//! would leave the machine representation's range is not forwarded, and
//! [`pipeline_run`] reports that for the whole batch by returning
//! `None`, stating exactly when that happens.

use vstd::prelude::*;

verus! {

/// One pipeline stage's transform.
#[derive(Clone, Copy, Debug, PartialEq, Eq, Structural)]
pub enum StageOp {
    /// Forward each value increased by the given amount.
    Add(i64),
    /// Forward each value multiplied by the given factor.
    Mul(i64),
}

/// The mathematical transform of one stage.
pub open spec fn apply_op(op: StageOp, x: int) -> int {
    match op {
        StageOp::Add(d) => x + d,
        StageOp::Mul(f) => x * f,
    }
}

/// Whether a mathematical value fits the machine representation.
pub open spec fn fits(x: int) -> bool {
    i64::MIN <= x <= i64::MAX
}

/// The transform of a whole chain of stages, first stage first.
pub open spec fn chain(ops: Seq<StageOp>, x: int) -> int
    decreases ops.len(),
{
    if ops.len() == 0 {
        x
    } else {
        chain(ops.drop_first(), apply_op(ops[0], x))
    }
}

/// Whether every intermediate value of the chain stays representable.
pub open spec fn chain_fits(ops: Seq<StageOp>, x: int) -> bool
    decreases ops.len(),
{
    if ops.len() == 0 {
        true
    } else {
        fits(apply_op(ops[0], x)) && chain_fits(ops.drop_first(), apply_op(ops[0], x))
    }
}

/// One stage's work on one value: the exact transform, or `None` exactly
/// when the result would not be representable (the stage's drop case).
pub fn apply_stage(op: StageOp, x: i64) -> (r: Option<i64>)
    ensures
        r is Some <==> fits(apply_op(op, x as int)),
        r matches Some(y) ==> y as int == apply_op(op, x as int),
{
    match op {
        StageOp::Add(d) => {
            let wide: i128 = x as i128 + d as i128;
            if wide < i64::MIN as i128 || wide > i64::MAX as i128 {
                None
            } else {
                Some(wide as i64)
            }
        },
        StageOp::Mul(f) => {
            proof {
                assert((x as int) * (f as int) <= i128::MAX && (x as int) * (f as int)
                    >= i128::MIN) by (nonlinear_arith)
                    requires
                        i64::MIN <= x <= i64::MAX,
                        i64::MIN <= f <= i64::MAX,
                ;
            }
            let wide: i128 = (x as i128) * (f as i128);
            if wide < i64::MIN as i128 || wide > i64::MAX as i128 {
                None
            } else {
                Some(wide as i64)
            }
        },
    }
}

/// One value through the whole chain: the exact chained transform, or
/// `None` exactly when some intermediate value of this input would not
/// be representable.
pub fn pipeline_value(ops: &Vec<StageOp>, x: i64) -> (r: Option<i64>)
    ensures
        r is Some <==> chain_fits(ops@, x as int),
        r matches Some(y) ==> y as int == chain(ops@, x as int),
{
    let mut cur = x;
    let mut i: usize = 0;
    proof {
        assert(ops@.skip(0) =~= ops@);
    }
    while i < ops.len()
        invariant
            i <= ops@.len(),
            chain(ops@, x as int) == chain(ops@.skip(i as int), cur as int),
            chain_fits(ops@, x as int) <==> chain_fits(ops@.skip(i as int), cur as int),
        decreases ops@.len() - i,
    {
        proof {
            assert(ops@.skip(i as int)[0] == ops@[i as int]);
            assert(ops@.skip(i as int).drop_first() =~= ops@.skip(i as int + 1));
        }
        match apply_stage(ops[i], cur) {
            Some(y) => {
                cur = y;
            },
            None => {
                return None;
            },
        }
        i = i + 1;
    }
    proof {
        assert(ops@.skip(i as int) =~= Seq::<StageOp>::empty());
    }
    Some(cur)
}

/// A batch through the whole chain, order preserved: output `i` is the
/// fully transformed input `i`.  `None` exactly when some input's chain
/// leaves the representable range somewhere.
pub fn pipeline_run(ops: &Vec<StageOp>, inputs: &Vec<i64>) -> (r: Option<Vec<i64>>)
    ensures
        r is Some <==> (forall|i: int|
            0 <= i < inputs@.len() ==> #[trigger] chain_fits(ops@, inputs@[i] as int)),
        r matches Some(out) ==> out@.len() == inputs@.len() && (forall|i: int|
            0 <= i < inputs@.len() ==> #[trigger] out@[i] as int == chain(
                ops@,
                inputs@[i] as int,
            )),
{
    let mut out: Vec<i64> = Vec::new();
    let mut i: usize = 0;
    while i < inputs.len()
        invariant
            i <= inputs@.len(),
            out@.len() == i,
            forall|j: int| 0 <= j < i ==> #[trigger] chain_fits(ops@, inputs@[j] as int),
            forall|j: int|
                0 <= j < i ==> #[trigger] out@[j] as int == chain(ops@, inputs@[j] as int),
        decreases inputs@.len() - i,
    {
        match pipeline_value(ops, inputs[i]) {
            Some(y) => {
                out.push(y);
            },
            None => {
                assert(!chain_fits(ops@, inputs@[i as int] as int));
                return None;
            },
        }
        i = i + 1;
    }
    Some(out)
}

} // verus!
