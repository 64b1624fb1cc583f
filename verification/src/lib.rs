//! Core logic of an HTTP request-tracing interceptor.
//!
//! The interceptor sits between an inbound HTTP pipeline and the handler
//! that produces the response.  For every request it opens one span,
//! annotates it with protocol-level metadata (method, URL, scheme, headers,
//! bodies, status code), and ends the span exactly once when the response
//! is ready, all while leaving the request/response contract unchanged for
//! downstream code.  The asynchronous plumbing that feeds bytes in and out
//! lives outside this crate; everything here is plain, verified logic over
//! plain values.

use vstd::prelude::*;

pub mod body;
pub mod config;
pub mod gate;
pub mod headers;
pub mod interceptor;
pub mod semantic_conventions;
pub mod span;
pub mod text;

verus! {

/// Factorial of `n` as a mathematical function.
pub open spec fn spec_factorial(n: nat) -> nat
    decreases n,
{
    if n <= 1 {
        1
    } else {
        n * spec_factorial((n - 1) as nat)
    }
}

/// The factorial of any number is at least one.
pub proof fn lemma_factorial_at_least_one(n: nat)
    ensures
        spec_factorial(n) >= 1,
    decreases n,
{
    if n > 1 {
        lemma_factorial_at_least_one((n - 1) as nat);
        assert(spec_factorial(n) == n * spec_factorial((n - 1) as nat));
        assert(n * spec_factorial((n - 1) as nat) >= 1 * spec_factorial((n - 1) as nat))
            by (nonlinear_arith)
            requires n >= 1 && spec_factorial((n - 1) as nat) >= 1;
    }
}

/// Computes the factorial of `num`.
pub fn factorial(num: u32) -> (r: u32)
    requires
        spec_factorial(num as nat) <= u32::MAX,
    ensures
        r == spec_factorial(num as nat),
    decreases num,
{
    match num {
        0 => 1,
        1 => 1,
        _ => {
            proof {
                lemma_factorial_at_least_one((num - 1) as nat);
                assert(spec_factorial(num as nat)
                    == num * spec_factorial((num - 1) as nat));
                assert(spec_factorial((num - 1) as nat)
                    <= num * spec_factorial((num - 1) as nat))
                    by (nonlinear_arith)
                    requires num >= 2 && spec_factorial((num - 1) as nat) >= 1;
            }
            let prev = factorial(num - 1);
            num * prev
        },
    }
}

} // verus!
