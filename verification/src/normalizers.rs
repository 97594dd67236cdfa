//! Scalar normalization functions applied to a perceptron's raw output.
//!
//! The choice of normalizer is made per call, never baked into the data
//! model.  On the integer scalars of this library the normalizer family
//! holds the identity; the floating-point sigmoid family lives outside the
//! verified core, in the application layer.

use vstd::prelude::*;

verus! {

/// Returns its argument unchanged, for any type.
pub fn identity<T>(x: T) -> (r: T)
    ensures
        r == x,
{
    x
}

/// A scalar normalizer, passed per call to the forward-pass operations.
#[derive(Clone, Copy, Debug, PartialEq, Eq, Structural)]
pub enum Normalizer {
    /// Leaves the raw output unchanged.
    Identity,
}

impl Normalizer {
    /// What the normalizer computes, as a function on mathematical integers.
    pub open spec fn apply_spec(self, x: int) -> int {
        match self {
            Normalizer::Identity => x,
        }
    }

    /// Applies the normalizer to one scalar.
    pub fn apply(self, x: i64) -> (r: i64)
        ensures
            r == self.apply_spec(x as int),
    {
        match self {
            Normalizer::Identity => identity(x),
        }
    }
}

} // verus!
