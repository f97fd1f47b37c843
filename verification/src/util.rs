//! Small pure helpers: sample workloads for jobs and stages, and a few
//! general-purpose functions over numbers, collections and orderings.
//!
//! Everything here is a plain function from values to values with an
//! exact contract; the pool and pipeline tests use them as job bodies
//! and payload transforms.

use vstd::prelude::*;

use core::cmp::Ordering;

use vstd::std_specs::cmp::PartialOrdSpec;

verus! {

/// Sum of two numbers.
pub fn add(a: i32, b: i32) -> (r: i32)
    requires
        i32::MIN <= a + b <= i32::MAX,
    ensures
        r == a + b,
{
    a + b
}

/// The successor.
pub fn plus_one(x: i32) -> (r: i32)
    requires
        x < i32::MAX,
    ensures
        r == x + 1,
{
    x + 1
}

/// Doubles anything above five, returns the rest unchanged.
pub fn early_return(x: i32) -> (r: i32)
    requires
        x > 5 ==> 2 * x <= i32::MAX,
    ensures
        r == if x > 5 {
            2 * x
        } else {
            x as int
        },
{
    if x > 5 {
        return x * 2;
    }
    x
}

/// Sum and product at once.
pub fn calculate(a: i32, b: i32) -> (r: (i32, i32))
    requires
        i32::MIN <= a + b <= i32::MAX,
        i32::MIN <= a * b <= i32::MAX,
    ensures
        r.0 == a + b,
        r.1 == a * b,
{
    (a + b, a * b)
}

/// Applies a binary operation to two numbers; the result is whatever
/// the operation's own contract promises of these arguments.
pub fn apply_operation<F: Fn(i32, i32) -> i32>(a: i32, b: i32, op: F) -> (r: i32)
    requires
        call_requires(op, (a, b)),
    ensures
        call_ensures(op, (a, b), r),
{
    op(a, b)
}

/// A captured offset waiting to be added: what [`create_adder`] hands
/// out in place of a boxed closure.
pub struct Adder {
    offset: i32,
}

impl Adder {
    /// The captured offset.
    pub closed spec fn offset_spec(&self) -> int {
        self.offset as int
    }

    /// Adds the captured offset.
    pub fn apply(&self, y: i32) -> (z: i32)
        requires
            i32::MIN <= self.offset_spec() + y <= i32::MAX,
        ensures
            z == self.offset_spec() + y,
    {
        self.offset + y
    }
}

/// An adder that adds `x` to whatever it is given.
pub fn create_adder(x: i32) -> (f: Adder)
    ensures
        f.offset_spec() == x,
{
    Adder { offset: x }
}

/// The factorial, mathematically.
pub open spec fn fact(n: nat) -> nat
    decreases n,
{
    if n <= 1 {
        1
    } else {
        n * fact((n - 1) as nat)
    }
}

/// The factorial never shrinks as its argument grows.
proof fn lemma_fact_mono(i: nat, j: nat)
    requires
        i <= j,
    ensures
        fact(i) <= fact(j),
    decreases j,
{
    if i < j {
        lemma_fact_mono(i, (j - 1) as nat);
        assert(fact(j) == j * fact((j - 1) as nat));
        assert(j * fact((j - 1) as nat) >= 1 * fact((j - 1) as nat)) by (nonlinear_arith)
            requires
                j >= 1,
                fact((j - 1) as nat) >= 0,
        ;
    }
}

/// The factorial of twenty, step by step.
proof fn lemma_fact_twenty()
    ensures
        fact(20) == 2432902008176640000,
{
    assert(fact(0) == 1);
    assert(fact(1) == 1);
    assert(fact(2) == 2);
    assert(fact(3) == 6);
    assert(fact(4) == 24);
    assert(fact(5) == 120);
    assert(fact(6) == 720);
    assert(fact(7) == 5040);
    assert(fact(8) == 40320);
    assert(fact(9) == 362880);
    assert(fact(10) == 3628800);
    assert(fact(11) == 39916800);
    assert(fact(12) == 479001600);
    assert(fact(13) == 6227020800);
    assert(fact(14) == 87178291200);
    assert(fact(15) == 1307674368000);
    assert(fact(16) == 20922789888000);
    assert(fact(17) == 355687428096000);
    assert(fact(18) == 6402373705728000);
    assert(fact(19) == 121645100408832000);
    assert(fact(20) == 2432902008176640000);
}

/// The factorial.  Arguments past twenty are excluded: their factorial
/// does not fit the result type, and the recursion would fail loudly
/// rather than return a wrong value.
pub fn factorial(n: u64) -> (r: u64)
    requires
        n <= 20,
    ensures
        r == fact(n as nat),
    decreases n,
{
    proof {
        lemma_fact_mono(n as nat, 20);
        lemma_fact_twenty();
    }
    match n {
        0 | 1 => 1,
        _ => n * factorial(n - 1),
    }
}

/// The Fibonacci numbers, mathematically.
pub open spec fn fib(n: nat) -> nat
    decreases n,
{
    if n == 0 {
        0
    } else if n == 1 {
        1
    } else {
        fib((n - 1) as nat) + fib((n - 2) as nat)
    }
}

/// The Fibonacci numbers never shrink as the index grows.
proof fn lemma_fib_mono(i: nat, j: nat)
    requires
        i <= j,
    ensures
        fib(i) <= fib(j),
    decreases j,
{
    if i < j {
        lemma_fib_mono(i, (j - 1) as nat);
    }
}

/// The Fibonacci number at forty-seven, step by step.
proof fn lemma_fib_forty_seven()
    ensures
        fib(47) == 2971215073,
{
    assert(fib(0) == 0);
    assert(fib(1) == 1);
    assert(fib(2) == 1);
    assert(fib(3) == 2);
    assert(fib(4) == 3);
    assert(fib(5) == 5);
    assert(fib(6) == 8);
    assert(fib(7) == 13);
    assert(fib(8) == 21);
    assert(fib(9) == 34);
    assert(fib(10) == 55);
    assert(fib(11) == 89);
    assert(fib(12) == 144);
    assert(fib(13) == 233);
    assert(fib(14) == 377);
    assert(fib(15) == 610);
    assert(fib(16) == 987);
    assert(fib(17) == 1597);
    assert(fib(18) == 2584);
    assert(fib(19) == 4181);
    assert(fib(20) == 6765);
    assert(fib(21) == 10946);
    assert(fib(22) == 17711);
    assert(fib(23) == 28657);
    assert(fib(24) == 46368);
    assert(fib(25) == 75025);
    assert(fib(26) == 121393);
    assert(fib(27) == 196418);
    assert(fib(28) == 317811);
    assert(fib(29) == 514229);
    assert(fib(30) == 832040);
    assert(fib(31) == 1346269);
    assert(fib(32) == 2178309);
    assert(fib(33) == 3524578);
    assert(fib(34) == 5702887);
    assert(fib(35) == 9227465);
    assert(fib(36) == 14930352);
    assert(fib(37) == 24157817);
    assert(fib(38) == 39088169);
    assert(fib(39) == 63245986);
    assert(fib(40) == 102334155);
    assert(fib(41) == 165580141);
    assert(fib(42) == 267914296);
    assert(fib(43) == 433494437);
    assert(fib(44) == 701408733);
    assert(fib(45) == 1134903170);
    assert(fib(46) == 1836311903);
    assert(fib(47) == 2971215073);
}

/// The Fibonacci number at `n`.  Indices past forty-seven are excluded:
/// their value does not fit the result type.
pub fn fibonacci(n: u32) -> (r: u32)
    requires
        n <= 47,
    ensures
        r == fib(n as nat),
    decreases n,
{
    proof {
        lemma_fib_mono(n as nat, 47);
        lemma_fib_forty_seven();
    }
    match n {
        0 => 0,
        1 => 1,
        _ => fibonacci(n - 1) + fibonacci(n - 2),
    }
}

/// An ordering that behaves like a total order: every comparison is
/// decided, `Less` and `Greater` mirror each other, and "not above"
/// carries over chains.  The derived orderings of the number types all
/// qualify.
pub open spec fn lawful_order<T: PartialOrd>() -> bool {
    &&& T::obeys_partial_cmp_spec()
    &&& forall|a: T, b: T| (#[trigger] a.partial_cmp_spec(&b)) is Some
    &&& forall|a: T, b: T|
        (#[trigger] a.partial_cmp_spec(&b)) == Some(Ordering::Greater) <==> (
        #[trigger] b.partial_cmp_spec(&a)) == Some(Ordering::Less)
    &&& forall|a: T, b: T, c: T|
        ((#[trigger] a.partial_cmp_spec(&b)) matches Some(Ordering::Less | Ordering::Equal)
            && (#[trigger] b.partial_cmp_spec(&c)) matches Some(
            Ordering::Less
            | Ordering::Equal,
        )) ==> a.partial_cmp_spec(&c) matches Some(Ordering::Less | Ordering::Equal)
}

/// A reference to the greatest element of a non-empty slice: one of its
/// elements, with — under a lawful order — no element above it.
pub fn largest<T: PartialOrd>(list: &[T]) -> (r: &T)
    requires
        list@.len() > 0,
    ensures
        exists|j: int| 0 <= j < list@.len() && *r == list@[j],
        lawful_order::<T>() ==> forall|i: int|
            0 <= i < list@.len() ==> (#[trigger] list@[i].partial_cmp_spec(r)) matches Some(
                Ordering::Less
                | Ordering::Equal,
            ),
{
    let mut best: &T = &list[0];
    let ghost mut bidx: int = 0;
    let mut i: usize = 1;
    while i < list.len()
        invariant
            1 <= i <= list@.len(),
            0 <= bidx < list@.len(),
            *best == list@[bidx],
            lawful_order::<T>() ==> forall|j: int|
                0 <= j < i ==> (#[trigger] list@[j].partial_cmp_spec(best)) matches Some(
                    Ordering::Less
                    | Ordering::Equal,
                ),
        decreases list@.len() - i,
    {
        let ghost old_best = *best;
        let is_gt = list[i] > *best;
        if is_gt {
            best = &list[i];
            proof {
                bidx = i as int;
            }
        }
        proof {
            if lawful_order::<T>() {
                if is_gt {
                    assert(list@[i as int].partial_cmp_spec(&old_best) == Some(
                        Ordering::Greater,
                    ));
                    assert(old_best.partial_cmp_spec(&list@[i as int]) == Some(Ordering::Less));
                    assert forall|j: int| 0 <= j <= i implies (
                    #[trigger] list@[j].partial_cmp_spec(best)) matches Some(
                        Ordering::Less
                        | Ordering::Equal,
                    ) by {
                        if j < i {
                            assert(list@[j].partial_cmp_spec(&old_best) matches Some(
                                Ordering::Less
                                | Ordering::Equal,
                            ));
                        } else {
                            let c = list@[i as int].partial_cmp_spec(&list@[i as int]);
                            assert(c is Some);
                            assert(c == Some(Ordering::Greater) <==> c == Some(Ordering::Less));
                        }
                    }
                } else {
                    assert forall|j: int| 0 <= j <= i implies (
                    #[trigger] list@[j].partial_cmp_spec(best)) matches Some(
                        Ordering::Less
                        | Ordering::Equal,
                    ) by {
                        if j == i {
                            assert(list@[i as int].partial_cmp_spec(best) is Some);
                            assert(list@[i as int].partial_cmp_spec(best) != Some(
                                Ordering::Greater,
                            ));
                        }
                    }
                }
            }
        }
        i = i + 1;
    }
    best
}

/// Hands the data on with one more element: an explicit-ownership
/// processing step.
pub fn process_data(data: Vec<i32>) -> (r: Vec<i32>)
    ensures
        r@ == data@.push(4),
{
    let mut data = data;
    data.push(4);
    data
}

/// Default page number when paging through drained results.
pub fn default_page() -> (r: u32)
    ensures
        r == 1,
{
    1
}

/// Default page size when paging through drained results.
pub fn default_limit() -> (r: u32)
    ensures
        r == 20,
{
    20
}

} // verus!
