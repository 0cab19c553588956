//! Fibonacci numbers in 32 bits.

use vstd::prelude::*;

verus! {

/// The Fibonacci number of index `n`: 0, 1, 1, 2, 3, 5, and so on.
pub open spec fn fib(n: nat) -> nat
    decreases n,
{
    if n < 2 {
        n
    } else {
        fib((n - 1) as nat) + fib((n - 2) as nat)
    }
}

/// The Fibonacci numbers do not decrease.
pub proof fn lemma_fib_monotonic(i: nat, j: nat)
    requires
        i <= j,
    ensures
        fib(i) <= fib(j),
    decreases j,
{
    if i < j {
        if j >= 2 {
            lemma_fib_monotonic(i, (j - 1) as nat);
        }
    }
}

/// The Fibonacci number of index `n`, or `None` if it does not fit 32 bits.
pub fn fibo(n: u32) -> (value: Option<u32>)
    ensures
        fib(n as nat) <= u32::MAX ==> value == Some(fib(n as nat) as u32),
        fib(n as nat) > u32::MAX ==> value.is_none(),
{
    if n < 2 {
        return Some(n);
    }
    let mut a: u32 = 0;
    let mut b: u32 = 1;
    let mut i: u32 = 1;
    while i < n
        invariant
            1 <= i <= n,
            a == fib((i - 1) as nat),
            b == fib(i as nat),
        decreases n - i,
    {
        let temp = b;
        match a.checked_add(b) {
            Some(sum) => {
                b = sum;
            },
            None => {
                proof {
                    lemma_fib_monotonic((i + 1) as nat, n as nat);
                }
                return None;
            },
        }
        a = temp;
        i = i + 1;
    }
    Some(b)
}

} // verus!
