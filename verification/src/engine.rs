//! The computation engine: the n-th Fibonacci number on the domain on which
//! it fits a signed 64-bit integer.

use vstd::prelude::*;

verus! {

/// The smallest index the engine accepts.
pub const MIN_N: i64 = 1;

/// The largest index the engine accepts; the value at this index is the
/// last one that fits in an `i64` with room for the recurrence's additions.
pub const MAX_N: i64 = 90;

/// The Fibonacci sequence: 0, 1, 1, 2, 3, 5, ...
pub open spec fn fib_spec(n: nat) -> nat
    decreases n,
{
    if n == 0 {
        0
    } else if n == 1 {
        1
    } else {
        fib_spec((n - 1) as nat) + fib_spec((n - 2) as nat)
    }
}

/// Whether `n` lies in the engine's domain.
pub open spec fn in_domain(n: int) -> bool {
    MIN_N <= n <= MAX_N
}

/// The text every validation failure carries.
pub open spec fn validation_message() -> Seq<char> {
    "n must be between 1 and 90"@
}

/// The one way a request can fail: its index lies outside the domain.
#[derive(Debug, Clone, Copy, PartialEq, Eq, Structural)]
pub enum ValidationError {
    /// The index was below `MIN_N` or above `MAX_N`.
    OutOfRange,
}

impl ValidationError {
    /// The message shown to the caller and recorded on the span.
    pub fn message(&self) -> (text: String)
        ensures
            text@ == validation_message(),
    {
        "n must be between 1 and 90".to_owned()
    }
}

/// What the engine owes for the index `n`: the sequence's value inside the
/// domain, the validation error outside it.
pub open spec fn fib_outcome(n: int) -> Result<i64, ValidationError> {
    if in_domain(n) {
        Ok(fib_spec(n as nat) as i64)
    } else {
        Err(ValidationError::OutOfRange)
    }
}

/// The sequence never decreases.
pub proof fn lemma_fib_monotonic(i: nat, j: nat)
    requires
        i <= j,
    ensures
        fib_spec(i) <= fib_spec(j),
    decreases j,
{
    if i < j {
        lemma_fib_monotonic(i, (j - 1) as nat);
    }
}

/// Ten steps of the recurrence at once.
proof fn lemma_fib_ten_steps(n: nat)
    ensures
        fib_spec(n + 10) == 55 * fib_spec(n + 1) + 34 * fib_spec(n),
        fib_spec(n + 11) == 89 * fib_spec(n + 1) + 55 * fib_spec(n),
{
    reveal_with_fuel(fib_spec, 12);
}

/// The value at the top of the domain.
pub proof fn lemma_fib_at_max()
    ensures
        fib_spec(90) == 2880067194370816120,
        fib_spec(90) <= i64::MAX,
{
    reveal_with_fuel(fib_spec, 3);
    assert(fib_spec(0) == 0 && fib_spec(1) == 1);
    lemma_fib_ten_steps(0);
    lemma_fib_ten_steps(10);
    lemma_fib_ten_steps(20);
    lemma_fib_ten_steps(30);
    lemma_fib_ten_steps(40);
    lemma_fib_ten_steps(50);
    lemma_fib_ten_steps(60);
    lemma_fib_ten_steps(70);
    lemma_fib_ten_steps(80);
}

/// Inside the domain the value is positive and fits an `i64`.
pub proof fn lemma_fib_in_domain(n: int)
    requires
        in_domain(n),
    ensures
        1 <= fib_spec(n as nat) <= i64::MAX,
{
    lemma_fib_at_max();
    lemma_fib_monotonic(n as nat, 90);
    lemma_fib_monotonic(1, n as nat);
}

/// Computes the n-th Fibonacci number by the linear recurrence, or rejects
/// an index outside the domain without computing anything.
pub fn fib(n: i64) -> (outcome: Result<i64, ValidationError>)
    ensures
        outcome == fib_outcome(n as int),
        in_domain(n as int) <==> outcome.is_ok(),
        outcome matches Ok(value) ==> value == fib_spec(n as nat),
{
    if n < MIN_N || n > MAX_N {
        return Err(ValidationError::OutOfRange);
    }
    let mut result: i64 = 1;
    if n > 2 {
        let mut a: i64 = 0;
        let mut b: i64 = 1;
        let mut i: i64 = 1;
        while i < n
            invariant
                1 <= i <= n <= MAX_N,
                a == fib_spec((i - 1) as nat),
                b == fib_spec(i as nat),
                result == b,
            decreases n - i,
        {
            proof {
                lemma_fib_in_domain(i + 1);
            }
            result = a + b;
            a = b;
            b = result;
            i = i + 1;
        }
    }
    proof {
        reveal_with_fuel(fib_spec, 3);
        lemma_fib_in_domain(n as int);
    }
    Ok(result)
}

} // verus!
