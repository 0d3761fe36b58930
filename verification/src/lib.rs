//! A lightweight solver for Lambert's problem: given two positions on a
//! Keplerian orbit and the time of flight between them, find the two orbital
//! velocity vectors consistent with that transfer.
//!
//! This crate holds the discrete heart of the solver: the factorial helper
//! behind the Stumpff series coefficients, and the decision logic of the
//! bounded Newton-Raphson iteration (iteration budget, the ceiling on the
//! universal variable, and the shrinking reset offset used to recover from
//! overshoot). The floating-point evaluation of the Stumpff functions and of
//! the time-of-flight residual drives this logic from outside through
//! [`newton::NewtonControl`].

use vstd::prelude::*;

pub mod newton;

pub use newton::LambertError;
pub use newton::NewtonControl;
pub use newton::StepCommand;
pub use newton::StepOutcome;

verus! {

/// `n!` as a mathematical function: the product `1 * 2 * ... * n`.
pub open spec fn spec_factorial(n: nat) -> nat
    decreases n,
{
    if n == 0 {
        1
    } else {
        n * spec_factorial((n - 1) as nat)
    }
}

/// The factorial never shrinks as its argument grows.
proof fn lemma_factorial_monotone(m: nat, n: nat)
    requires
        m <= n,
    ensures
        spec_factorial(m) <= spec_factorial(n),
    decreases n,
{
    if m < n {
        lemma_factorial_monotone(m, (n - 1) as nat);
        let f = spec_factorial((n - 1) as nat);
        assert(f <= n * f) by (nonlinear_arith)
            requires
                n >= 1,
                f >= 0,
        ;
    }
}

/// Every factorial up to `20!` fits in a `u64`.
proof fn lemma_factorial_fits_u64(n: nat)
    requires
        n <= 20,
    ensures
        spec_factorial(n) <= 2432902008176640000,
{
    lemma_factorial_monotone(n, 20);
    assert(spec_factorial(20) == 2432902008176640000) by {
        reveal_with_fuel(spec_factorial, 21);
    }
}

/// The factorial of `num`, used for the reciprocal coefficients of the Taylor
/// series of the Stumpff functions near `z = 0`. Arguments are capped at 20,
/// the largest factorial a `u64` can hold.
pub fn factorial(num: u64) -> (r: u64)
    requires
        num <= 20,
    ensures
        r == spec_factorial(num as nat),
    decreases num,
{
    if num == 0 {
        1
    } else {
        let prev = factorial(num - 1);
        proof {
            lemma_factorial_fits_u64(num as nat);
        }
        num * prev
    }
}

} // verus!
