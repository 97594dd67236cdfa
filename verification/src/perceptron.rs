//! A single weighted-sum-plus-bias unit over a fixed-size input.

use vstd::prelude::*;

use crate::arr::{as_ints, fits_i64, Arr};
use crate::normalizers::Normalizer;

verus! {

/// The dot product of the first `k` positions of `a` and `b`, folded left to
/// right.
pub open spec fn dot_prefix(a: Seq<int>, b: Seq<int>, k: int) -> int
    decreases k,
{
    if k <= 0 {
        0
    } else {
        dot_prefix(a, b, k - 1) + a[k - 1] * b[k - 1]
    }
}

/// The dot product of two equally long sequences.
pub open spec fn dot(a: Seq<int>, b: Seq<int>) -> int {
    dot_prefix(a, b, a.len() as int)
}

/// The raw output of one unit: the dot product of the input with the unit's
/// weights, minus its bias, before any normalization.
pub open spec fn raw_of(weights: Seq<i64>, bias: i64, input: Seq<i64>) -> int {
    dot(as_ints(input), as_ints(weights)) - bias
}

/// Every machine value of a unit's forward computation stays within `i64`:
/// each pairwise product, each left-to-right partial sum, and the final
/// dot-minus-bias result.
pub open spec fn raw_fits(weights: Seq<i64>, bias: i64, input: Seq<i64>) -> bool {
    &&& forall|i: int| 0 <= i < input.len() ==> fits_i64(input[i] * weights[i])
    &&& forall|k: int|
        0 <= k <= input.len() ==> fits_i64(dot_prefix(as_ints(input), as_ints(weights), k))
    &&& fits_i64(raw_of(weights, bias, input))
}

/// One computational unit: a weight for each input position and a bias.
#[derive(Debug, Clone)]
pub struct Perceptron<T, const SIZE: usize> {
    weights: Arr<T, SIZE>,
    bias: T,
}

impl<T, const SIZE: usize> Perceptron<T, SIZE> {
    /// The unit's stored weights, as they stand in contracts.
    pub closed spec fn spec_weights(&self) -> Seq<T> {
        self.weights@
    }

    /// The unit's stored bias, as it stands in contracts.
    pub closed spec fn spec_bias(&self) -> T {
        self.bias
    }

    /// The unit's invariant: it holds exactly one weight per input position.
    pub open spec fn wf(&self) -> bool {
        self.spec_weights().len() == SIZE
    }

    /// Builds a unit from an explicit (weights, bias) pair.
    pub fn new(weights: Arr<T, SIZE>, bias: T) -> (r: Perceptron<T, SIZE>)
        requires
            weights.wf(),
        ensures
            r.wf(),
            r.spec_weights() == weights@,
            r.spec_bias() == bias,
    {
        Perceptron { weights, bias }
    }

    /// Read access to the bias.
    pub fn bias(&self) -> (r: &T)
        ensures
            *r == self.spec_bias(),
    {
        &self.bias
    }

    /// Read access to the weights.
    pub fn weights(&self) -> (r: &Arr<T, SIZE>)
        ensures
            r@ == self.spec_weights(),
            self.wf() ==> r.wf(),
    {
        &self.weights
    }

    /// Write access to the bias; the weights stay as they were.
    pub fn bias_mut(&mut self) -> (r: &mut T)
        ensures
            *r == old(self).spec_bias(),
            final(self).spec_bias() == *final(r),
            final(self).spec_weights() == old(self).spec_weights(),
            final(self).wf() == old(self).wf(),
    {
        &mut self.bias
    }

    /// Write access to the weights; the bias stays as it was.
    pub fn weights_mut(&mut self) -> (r: &mut Arr<T, SIZE>)
        ensures
            r@ == old(self).spec_weights(),
            final(self).spec_weights() == final(r)@,
            final(self).spec_bias() == old(self).spec_bias(),
            final(self).wf() == final(r).wf(),
    {
        &mut self.weights
    }
}

impl<const SIZE: usize> Perceptron<i64, SIZE> {
    /// The raw output of this unit on `activations`, before normalization.
    pub open spec fn raw_output(&self, activations: Seq<i64>) -> int {
        raw_of(self.spec_weights(), self.spec_bias(), activations)
    }

    /// Every machine value of `proceed` on `activations` stays within `i64`.
    pub open spec fn proceed_fits(&self, activations: Seq<i64>) -> bool {
        raw_fits(self.spec_weights(), self.spec_bias(), activations)
    }

    /// The forward pass of one unit: the normalizer applied to the dot
    /// product of the input with the weights (left to right), minus the bias.
    pub fn proceed(&self, activations: &Arr<i64, SIZE>, normalizer: Normalizer) -> (r: i64)
        requires
            self.wf(),
            activations.wf(),
            self.proceed_fits(activations@),
        ensures
            r == normalizer.apply_spec(self.raw_output(activations@)),
    {
        let ghost a = as_ints(activations@);
        let ghost w = as_ints(self.spec_weights());
        let mut acc: i64 = 0;
        let mut i: usize = 0;
        while i < SIZE
            invariant
                self.wf(),
                activations.wf(),
                self.proceed_fits(activations@),
                a == as_ints(activations@),
                w == as_ints(self.spec_weights()),
                i <= SIZE,
                acc == dot_prefix(a, w, i as int),
            decreases SIZE - i,
        {
            proof {
                let j = i as int;
                assert(dot_prefix(a, w, j + 1) == dot_prefix(a, w, j) + a[j] * w[j]);
            }
            acc = acc + *activations.index(i) * *self.weights.index(i);
            i += 1;
        }
        let raw: i64 = acc - self.bias;
        normalizer.apply(raw)
    }
}

} // verus!
