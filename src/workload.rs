//! The workload generator: the Fibonacci recurrence evaluated by plain double
//! recursion, which is deliberately exponential in time.
use vstd::prelude::*;

verus! {

/// The Fibonacci numbers: `F(0) = 0`, `F(1) = 1`, `F(k) = F(k - 1) + F(k - 2)`.
pub open spec fn fib_spec(n: nat) -> nat
    decreases n,
{
    if n < 2 {
        n
    } else {
        fib_spec((n - 1) as nat) + fib_spec((n - 2) as nat)
    }
}

/// The largest index whose Fibonacci number fits in an `i64`.
pub const FIB_MAX_INDEX: i64 = 92;

/// The index that the workload computes: large enough for a long CPU burn.
pub const WORKLOAD_INDEX: i64 = 51;

/// Walks the recurrence forward `k` steps from the pair `(a, b)`.
spec fn fib_walk(a: nat, b: nat, k: nat) -> nat
    decreases k,
{
    if k == 0 {
        a
    } else {
        fib_walk(b, a + b, (k - 1) as nat)
    }
}

proof fn lemma_fib_walk(i: nat, k: nat)
    ensures
        fib_walk(fib_spec(i), fib_spec(i + 1), k) == fib_spec(i + k),
    decreases k,
{
    if k > 0 {
        assert(fib_spec(i + 2) == fib_spec(i + 1) + fib_spec(i));
        lemma_fib_walk(i + 1, (k - 1) as nat);
        assert(i + 1 + (k - 1) == i + k);
    }
}

/// The Fibonacci numbers never decrease.
pub proof fn lemma_fib_monotone(i: nat, j: nat)
    requires
        i <= j,
    ensures
        fib_spec(i) <= fib_spec(j),
    decreases j - i,
{
    if i < j {
        lemma_fib_monotone(i, (j - 1) as nat);
        if j >= 2 {
            assert(fib_spec(j) == fib_spec((j - 1) as nat) + fib_spec((j - 2) as nat));
        }
    }
}

/// Every Fibonacci number up to `FIB_MAX_INDEX` fits in an `i64`.
pub proof fn lemma_fib_fits_i64(n: nat)
    requires
        n <= FIB_MAX_INDEX,
    ensures
        fib_spec(n) <= i64::MAX,
{
    // Walk from F(0) to F(92) ten steps at a time.
    lemma_fib_walk(0, 92);
    reveal_with_fuel(fib_walk, 11);
    assert(fib_walk(0, 1, 92) == fib_walk(55, 89, 82));
    assert(fib_walk(55, 89, 82) == fib_walk(6765, 10946, 72));
    assert(fib_walk(6765, 10946, 72) == fib_walk(832040, 1346269, 62));
    assert(fib_walk(832040, 1346269, 62) == fib_walk(102334155, 165580141, 52));
    assert(fib_walk(102334155, 165580141, 52) == fib_walk(12586269025, 20365011074, 42));
    assert(fib_walk(12586269025, 20365011074, 42) == fib_walk(1548008755920, 2504730781961, 32));
    assert(fib_walk(1548008755920, 2504730781961, 32) == fib_walk(190392490709135, 308061521170129, 22));
    assert(fib_walk(190392490709135, 308061521170129, 22) == fib_walk(23416728348467685, 37889062373143906, 12));
    assert(fib_walk(23416728348467685, 37889062373143906, 12) == fib_walk(2880067194370816120, 4660046610375530309, 2));
    assert(fib_walk(2880067194370816120, 4660046610375530309, 2) == fib_walk(7540113804746346429, 12200160415121876738, 0));
    assert(fib_walk(7540113804746346429, 12200160415121876738, 0) == 7540113804746346429);
    lemma_fib_monotone(n, 92);
}

/// The `n`-th Fibonacci number, by direct double recursion.
pub fn fib(n: i64) -> (r: i64)
    requires
        0 <= n <= FIB_MAX_INDEX,
    ensures
        r == fib_spec(n as nat),
    decreases n,
{
    if n < 2 {
        n
    } else {
        proof {
            lemma_fib_fits_i64(n as nat);
        }
        fib(n - 1) + fib(n - 2)
    }
}

/// Runs the workload once, discarding its value.
pub fn run() {
    fib(WORKLOAD_INDEX);
}

/// The recurrence holds at every index from two on.
pub proof fn lemma_fib_recurrence(k: nat)
    requires
        k >= 2,
    ensures
        fib_spec(k) == fib_spec((k - 1) as nat) + fib_spec((k - 2) as nat),
{
}

/// Two calls of `fib` on the same index return the same value.
pub proof fn lemma_fib_deterministic(n: i64, r1: i64, r2: i64)
    requires
        fib.ensures((n,), r1),
        fib.ensures((n,), r2),
    ensures
        r1 == r2,
{
}

} // verus!
