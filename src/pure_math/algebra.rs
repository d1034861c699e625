//! # Algebra
//!
//! Operations on algebraic structures; for now, addition of naturals.

use vstd::prelude::*;

verus! {

/// Adds two unsigned 64-bit integers.
///
/// The sum must fit in a `u64`.
pub fn placeholder_add(a: u64, b: u64) -> (r: u64)
    requires
        a + b <= u64::MAX,
    ensures
        r == a + b,
{
    a + b
}

} // verus!
