//! The Fibonacci sequence, generated iteratively with a pair of running
//! values and proved against the usual recursive definition.

use vstd::prelude::*;

verus! {

use vstd::arithmetic::power2::{pow2, lemma_pow2_adds, lemma_pow2_strictly_increases, lemma2_to64,
    lemma2_to64_rest};

/// The Fibonacci sequence: 0, 1, 1, 2, 3, 5, 8, ...
pub open spec fn fib(n: nat) -> nat
    decreases n,
{
    if n == 0 {
        0
    } else if n == 1 {
        1
    } else {
        fib((n - 1) as nat) + fib((n - 2) as nat)
    }
}

/// The sequence never goes down.
pub proof fn lemma_fib_monotonic(i: nat, j: nat)
    requires
        i <= j,
    ensures
        fib(i) <= fib(j),
    decreases j,
{
    if i < j && j >= 2 {
        lemma_fib_monotonic(i, (j - 1) as nat);
    }
}

/// Each Fibonacci number is at most the power of two of its index.
pub proof fn lemma_fib_le_pow2(n: nat)
    ensures
        fib(n) <= pow2(n),
    decreases n,
{
    if n >= 2 {
        lemma_fib_le_pow2((n - 1) as nat);
        lemma_fib_le_pow2((n - 2) as nat);
        lemma_pow2_strictly_increases((n - 2) as nat, (n - 1) as nat);
        lemma_pow2_adds((n - 1) as nat, 1);
        lemma2_to64();
    } else {
        lemma2_to64();
    }
}

/// Up to the 127th number the sequence fits comfortably in a `u128`,
/// which covers every index the demonstrations ask for.
pub proof fn lemma_fib_fits_u128(n: nat)
    requires
        n <= 127,
    ensures
        fib(n) <= u128::MAX,
{
    lemma_fib_le_pow2(n);
    if n < 127 {
        lemma_pow2_strictly_increases(n, 127);
    }
    lemma_pow2_adds(63, 64);
    lemma2_to64();
    lemma2_to64_rest();
}

/// Generates the Fibonacci numbers up to the nth one, keeping only the
/// previous and current values as the loop walks forward. An input of
/// 0 or 1 is answered directly with a single entry; any other input
/// gives the whole sequence from 0 to the nth number.
pub fn generate_fibonacci(n: u16) -> (sequence: Vec<u128>)
    requires
        fib(n as nat + 1) <= u128::MAX,
    ensures
        sequence@.len() == if n <= 1 { 1int } else { n + 1int },
        n <= 1 ==> sequence@[0] == n as u128,
        n >= 2 ==> forall|i: int| 0 <= i <= n ==> sequence@[i] == fib(i as nat),
{
    let mut sequence: Vec<u128> = Vec::new();
    if n == 0 || n == 1 {
        sequence.push(n as u128);
        return sequence;
    }
    let mut previous_number: u128 = 0;
    let mut current_number: u128 = 0;
    let mut count: u32 = 0;
    while count <= n as u32
        invariant
            count <= n + 1,
            n >= 2,
            fib(n as nat + 1) <= u128::MAX,
            sequence@.len() == count,
            forall|i: int| 0 <= i < count ==> sequence@[i] == fib(i as nat),
            count == 0 ==> previous_number == 0 && current_number == 0,
            count >= 1 ==> previous_number == fib((count - 1) as nat) && current_number == fib(
                count as nat,
            ),
        decreases n + 1 - count,
    {
        if count < 1 {
            current_number = current_number + 1;
        } else {
            proof {
                lemma_fib_monotonic((count + 1) as nat, (n + 1) as nat);
            }
            current_number = current_number + previous_number;
            previous_number = current_number - previous_number;
        }
        sequence.push(previous_number);
        count = count + 1;
    }
    sequence
}

} // verus!
