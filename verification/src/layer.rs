//! A fixed-width collection of perceptrons sharing one input width.

use vstd::prelude::*;

use crate::arr::Arr;
use crate::normalizers::Normalizer;
use crate::perceptron::Perceptron;

verus! {

/// A forward-pass stage with statically known input and output widths.
pub trait Layer<const INPUT_SIZE: usize, const OUTPUT_SIZE: usize> {
    /// The stage's invariant.
    spec fn layer_wf(&self) -> bool;

    /// The raw per-position outputs on `input`, before normalization.
    spec fn raw_outputs(&self, input: Seq<i64>) -> Seq<int>;

    /// Every machine value of a forward pass on `input` stays within `i64`.
    spec fn layer_fits(&self, input: Seq<i64>) -> bool;

    /// The forward pass: one normalized raw output per output position.
    fn proceed(&self, input: &Arr<i64, INPUT_SIZE>, normalizer: Normalizer) -> (r: Arr<
        i64,
        OUTPUT_SIZE,
    >)
        requires
            self.layer_wf(),
            input.wf(),
            self.layer_fits(input@),
        ensures
            r.wf(),
            self.raw_outputs(input@).len() == OUTPUT_SIZE,
            forall|j: int|
                0 <= j < OUTPUT_SIZE ==> r@[j] == normalizer.apply_spec(
                    self.raw_outputs(input@)[j],
                ),
    ;
}

/// An ordered collection of `OUTPUT_SIZE` perceptrons, each with
/// `INPUT_SIZE` weights; position `j` of the output comes from perceptron
/// `j` applied to the shared input.
#[derive(Debug, Clone)]
pub struct PerceptronLayer<T, const INPUT_SIZE: usize, const OUTPUT_SIZE: usize> {
    perceptrons: Arr<Perceptron<T, INPUT_SIZE>, OUTPUT_SIZE>,
}

impl<T, const INPUT_SIZE: usize, const OUTPUT_SIZE: usize> PerceptronLayer<
    T,
    INPUT_SIZE,
    OUTPUT_SIZE,
> {
    /// The stored perceptrons, as they stand in contracts.
    pub closed spec fn spec_perceptrons(&self) -> Seq<Perceptron<T, INPUT_SIZE>> {
        self.perceptrons@
    }

    /// The collection's invariant: exactly `OUTPUT_SIZE` perceptrons, each
    /// holding exactly `INPUT_SIZE` weights.
    pub open spec fn wf(&self) -> bool {
        &&& self.spec_perceptrons().len() == OUTPUT_SIZE
        &&& forall|j: int| 0 <= j < OUTPUT_SIZE ==> self.spec_perceptrons()[j].wf()
    }

    /// Builds a layer from an explicit collection of perceptrons.
    pub fn new(perceptrons: Arr<Perceptron<T, INPUT_SIZE>, OUTPUT_SIZE>) -> (r: PerceptronLayer<
        T,
        INPUT_SIZE,
        OUTPUT_SIZE,
    >)
        requires
            perceptrons.wf(),
            forall|j: int| 0 <= j < OUTPUT_SIZE ==> perceptrons@[j].wf(),
        ensures
            r.wf(),
            r.spec_perceptrons() == perceptrons@,
    {
        PerceptronLayer { perceptrons }
    }

    /// Read access to the contained perceptrons.
    pub fn perceptrons(&self) -> (r: &Arr<Perceptron<T, INPUT_SIZE>, OUTPUT_SIZE>)
        ensures
            r@ == self.spec_perceptrons(),
            self.wf() ==> r.wf(),
    {
        &self.perceptrons
    }
}

impl<const INPUT_SIZE: usize, const OUTPUT_SIZE: usize> Layer<
    INPUT_SIZE,
    OUTPUT_SIZE,
> for PerceptronLayer<i64, INPUT_SIZE, OUTPUT_SIZE> {
    open spec fn layer_wf(&self) -> bool {
        self.wf()
    }

    open spec fn raw_outputs(&self, input: Seq<i64>) -> Seq<int> {
        Seq::new(OUTPUT_SIZE as nat, |j: int| self.spec_perceptrons()[j].raw_output(input))
    }

    open spec fn layer_fits(&self, input: Seq<i64>) -> bool {
        forall|j: int| 0 <= j < OUTPUT_SIZE ==> self.spec_perceptrons()[j].proceed_fits(input)
    }

    /// The forward pass: each perceptron runs against the same input, in
    /// index order, and its normalized output fills its own output slot.
    fn proceed(&self, input: &Arr<i64, INPUT_SIZE>, normalizer: Normalizer) -> (r: Arr<
        i64,
        OUTPUT_SIZE,
    >) {
        let mut elems: Vec<i64> = Vec::new();
        let mut j: usize = 0;
        while j < OUTPUT_SIZE
            invariant
                self.wf(),
                input.wf(),
                self.layer_fits(input@),
                j <= OUTPUT_SIZE,
                elems@.len() == j,
                forall|k: int|
                    0 <= k < j ==> elems@[k] == normalizer.apply_spec(
                        self.raw_outputs(input@)[k],
                    ),
            decreases OUTPUT_SIZE - j,
        {
            elems.push(self.perceptrons.index(j).proceed(input, normalizer));
            j += 1;
        }
        Arr::from_exact_vec(elems)
    }
}

} // verus!
