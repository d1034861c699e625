//! # Number theory
//!
//! Functions on the integers.

use vstd::prelude::*;

verus! {

/// Stand-in for a primality test: true for the number 2 alone.
pub fn is_prime_placeholder(n: u64) -> (r: bool)
    ensures
        r == (n == 2),
{
    n == 2
}

} // verus!
