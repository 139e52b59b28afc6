//! Small numeric functions: successor, a constant, and an iterative
//! Fibonacci computation proved against its recursive definition.

use vstd::prelude::*;
use vstd::arithmetic::power2::pow2;
use vstd::arithmetic::power2::lemma_pow2_adds;
use vstd::arithmetic::power2::lemma_pow2_strictly_increases;
use vstd::arithmetic::power2::lemma2_to64;
use vstd::arithmetic::power2::lemma2_to64_rest;

verus! {

/// The successor of `x`; the result must fit.
pub fn plus_one(x: i32) -> (r: i32)
    requires
        x < i32::MAX,
    ensures
        r == x + 1,
{
    x + 1
}

/// The constant five.
pub fn five() -> (r: i32)
    ensures
        r == 5,
{
    5
}

/// The Fibonacci numbers as this module counts them: one at positions one
/// and two, and each later value the sum of the previous two.
pub open spec fn fib(n: nat) -> nat
    decreases n,
{
    if n <= 2 {
        1
    } else {
        fib((n - 1) as nat) + fib((n - 2) as nat)
    }
}

/// The sequence never decreases.
pub proof fn lemma_fib_nondecreasing(m: nat, n: nat)
    requires
        m <= n,
    ensures
        fib(m) <= fib(n),
    decreases n,
{
    if m < n && n > 2 {
        lemma_fib_nondecreasing(m, (n - 1) as nat);
    }
}

/// Each value is bounded by the matching power of two.
pub proof fn lemma_fib_bound(n: nat)
    ensures
        fib(n) <= pow2(n),
    decreases n,
{
    lemma2_to64();
    if n > 2 {
        lemma_fib_bound((n - 1) as nat);
        lemma_fib_bound((n - 2) as nat);
        lemma_pow2_adds((n - 2) as nat, 1);
        lemma_pow2_adds((n - 1) as nat, 1);
        assert(pow2(1) == 2);
        assert(pow2((n - 1) as nat) + pow2((n - 2) as nat) <= pow2(n));
    }
}

/// Every value up to the 127th fits a 128-bit word.
pub proof fn lemma_fib_fits(n: nat)
    requires
        n <= 127,
    ensures
        fib(n) <= u128::MAX,
{
    lemma_fib_bound(n);
    lemma2_to64();
    lemma2_to64_rest();
    lemma_pow2_adds(64, 63);
    if n < 127 {
        lemma_pow2_strictly_increases(n, 127);
    }
    assert(pow2(127) == 0x10000000000000000 * 0x8000000000000000) by {
        assert(pow2(127) == pow2(64) * pow2(63));
    }
    assert(pow2(127) <= u128::MAX);
}

/// The `n`th value of the sequence as this iterative loop computes it:
/// one below position two, zero exactly at position two (the running sum
/// has not been touched yet there), and the true Fibonacci value beyond.
pub fn fibonacci(n: usize) -> (r: u128)
    requires
        fib(n as nat) <= u128::MAX,
    ensures
        n < 2 ==> r == 1,
        n == 2 ==> r == 0,
        n >= 3 ==> r == fib(n as nat),
{
    if n < 2 {
        return 1;
    }
    let mut a: u128 = 1;
    let mut b: u128 = 1;
    let mut c: u128 = 0;
    let mut i: usize = 2;
    while i < n
        invariant
            2 <= i <= n || (i == 2 && n == 2),
            i <= n,
            fib(n as nat) <= u128::MAX,
            a == fib((i - 1) as nat),
            b == fib(i as nat),
            i == 2 ==> c == 0,
            i > 2 ==> c == fib(i as nat),
        decreases n - i,
    {
        proof {
            lemma_fib_nondecreasing((i + 1) as nat, n as nat);
        }
        c = a + b;
        a = b;
        b = c;
        i += 1;
    }
    c
}

} // verus!
