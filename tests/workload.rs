use fibonacci_rust_cpu_push::workload::{fib, FIB_MAX_INDEX, WORKLOAD_INDEX};

fn fib_iterative(n: i64) -> i64 {
    let (mut a, mut b) = (0i64, 1i64);
    for _ in 0..n {
        let c = a + b;
        a = b;
        b = c;
    }
    a
}

#[test]
fn fib_small_values() {
    assert_eq!(fib(0), 0);
    assert_eq!(fib(1), 1);
    assert_eq!(fib(2), 1);
    assert_eq!(fib(10), 55);
}

#[test]
fn fib_matches_iterative_reference() {
    for k in 0..=30 {
        assert_eq!(fib(k), fib_iterative(k), "index {}", k);
    }
}

#[test]
fn fib_recurrence_holds() {
    for k in 2..=30 {
        assert_eq!(fib(k), fib(k - 1) + fib(k - 2), "index {}", k);
    }
}

#[test]
fn fib_is_deterministic() {
    let first = fib(25);
    let second = fib(25);
    assert_eq!(first, second);
    assert_eq!(first, 75025);
}

#[test]
fn fib_exact_at_thirty() {
    assert_eq!(fib(30), 832040);
}

#[test]
fn index_bounds() {
    assert_eq!(FIB_MAX_INDEX, 92);
    assert_eq!(fib_iterative(FIB_MAX_INDEX), 7540113804746346429);
    assert!(WORKLOAD_INDEX >= 0 && WORKLOAD_INDEX <= FIB_MAX_INDEX);
}
