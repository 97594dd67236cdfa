//! Chaining an ordered sequence of layers into one forward-pass unit.
//!
//! A network owns one width-erased layer per adjacent pair of its width
//! sequence.  Adjacent-width consistency is validated once, at construction,
//! and never rechecked on the forward-pass path.

use vstd::prelude::*;

use crate::layer::{Layer, PerceptronLayer};
use crate::normalizers::Normalizer;
use crate::perceptron::{raw_fits, raw_of, dot_prefix};
use crate::arr::as_ints;

verus! {

/// One width-erased network stage: per output unit a weight row and a bias.
#[derive(Debug, Clone)]
pub struct DynLayer {
    in_width: usize,
    units: Vec<(Vec<i64>, i64)>,
}

impl DynLayer {
    /// The weight rows of the units, in output order.
    pub closed spec fn weight_rows(&self) -> Seq<Seq<i64>> {
        self.units@.map_values(|u: (Vec<i64>, i64)| u.0@)
    }

    /// The biases of the units, in output order.
    pub closed spec fn biases(&self) -> Seq<i64> {
        self.units@.map_values(|u: (Vec<i64>, i64)| u.1)
    }

    /// The input width the layer was declared with.
    pub closed spec fn spec_in_width(&self) -> int {
        self.in_width as int
    }

    /// The layer's output width: one output per unit.
    pub open spec fn spec_out_width(&self) -> int {
        self.weight_rows().len() as int
    }

    /// The layer's invariant: every unit holds one weight per input position.
    pub open spec fn wf(&self) -> bool {
        &&& self.weight_rows().len() == self.biases().len()
        &&& forall|j: int|
            0 <= j < self.spec_out_width() ==> (#[trigger] self.weight_rows()[j]).len()
                == self.spec_in_width()
    }

    /// Builds a stage from explicit (weights, bias) units.  Succeeds exactly
    /// when every weight row holds `in_width` values; otherwise the units
    /// come back untouched.
    pub fn new(in_width: usize, units: Vec<(Vec<i64>, i64)>) -> (r: Result<
        DynLayer,
        Vec<(Vec<i64>, i64)>,
    >)
        ensures
            (forall|j: int| 0 <= j < units@.len() ==> (#[trigger] units@[j].0@).len() == in_width)
                ==> (r matches Ok(l) && l.wf() && l.spec_in_width() == in_width
                && l.spec_out_width() == units@.len() && (forall|j: int|
                0 <= j < units@.len() ==> (#[trigger] l.weight_rows()[j]) == units@[j].0@
                    && l.biases()[j] == units@[j].1)),
            !(forall|j: int| 0 <= j < units@.len() ==> (#[trigger] units@[j].0@).len() == in_width)
                ==> (r matches Err(v) && v == units),
    {
        let mut j: usize = 0;
        while j < units.len()
            invariant
                j <= units@.len(),
                forall|k: int| 0 <= k < j ==> (#[trigger] units@[k].0@).len() == in_width,
            decreases units@.len() - j,
        {
            if units[j].0.len() != in_width {
                return Err(units);
            }
            j += 1;
        }
        let l = DynLayer { in_width, units };
        proof {
            assert(forall|j: int|
                0 <= j < l.units@.len() ==> (#[trigger] l.weight_rows()[j]) == l.units@[j].0@
                    && l.biases()[j] == l.units@[j].1);
        }
        Ok(l)
    }

    /// The declared input width.
    pub fn in_width(&self) -> (r: usize)
        ensures
            r == self.spec_in_width(),
    {
        self.in_width
    }

    /// The output width: the number of units.
    pub fn out_width(&self) -> (r: usize)
        ensures
            r == self.spec_out_width(),
    {
        self.units.len()
    }

    /// Read access to the weight row of unit `j`.
    pub fn unit_weights(&self, j: usize) -> (r: &Vec<i64>)
        requires
            j < self.spec_out_width(),
        ensures
            r@ == self.weight_rows()[j as int],
    {
        &self.units[j].0
    }

    /// Read access to the bias of unit `j`.
    pub fn unit_bias(&self, j: usize) -> (r: i64)
        requires
            j < self.spec_out_width(),
        ensures
            r == self.biases()[j as int],
    {
        self.units[j].1
    }

    /// The forward pass of one stage: for each unit, in index order, the
    /// normalized dot-product-minus-bias of the shared input.
    pub fn proceed(&self, input: &Vec<i64>, normalizer: Normalizer) -> (r: Vec<i64>)
        requires
            self.wf(),
            input@.len() == self.spec_in_width(),
            layer_fits(*self, input@),
        ensures
            r@ == layer_eval(*self, input@, normalizer),
    {
        let ghost a = as_ints(input@);
        let mut out: Vec<i64> = Vec::new();
        let mut j: usize = 0;
        let n_units = self.units.len();
        while j < n_units
            invariant
                self.wf(),
                input@.len() == self.spec_in_width(),
                layer_fits(*self, input@),
                a == as_ints(input@),
                n_units == self.spec_out_width(),
                j <= n_units,
                out@.len() == j,
                forall|k: int|
                    0 <= k < j ==> out@[k] == layer_eval(*self, input@, normalizer)[k],
            decreases n_units - j,
        {
            let ghost w = as_ints(self.weight_rows()[j as int]);
            let row = &self.units[j].0;
            let in_w = row.len();
            let mut acc: i64 = 0;
            let mut i: usize = 0;
            while i < in_w
                invariant
                    raw_fits(self.weight_rows()[j as int], self.biases()[j as int], input@),
                    a == as_ints(input@),
                    w == as_ints(self.weight_rows()[j as int]),
                    row@ == self.weight_rows()[j as int],
                    in_w == row@.len(),
                    in_w == input@.len(),
                    i <= in_w,
                    acc == dot_prefix(a, w, i as int),
                decreases in_w - i,
            {
                proof {
                    let k = i as int;
                    assert(dot_prefix(a, w, k + 1) == dot_prefix(a, w, k) + a[k] * w[k]);
                }
                acc = acc + input[i] * row[i];
                i += 1;
            }
            let raw: i64 = acc - self.units[j].1;
            proof {
                assert(raw == raw_of(self.weight_rows()[j as int], self.biases()[j as int], input@));
            }
            out.push(normalizer.apply(raw));
            j += 1;
        }
        proof {
            assert(out@ =~= layer_eval(*self, input@, normalizer));
        }
        out
    }
}

/// The raw per-unit outputs of a stage on `input`, before normalization.
pub open spec fn layer_raws(l: DynLayer, input: Seq<i64>) -> Seq<int> {
    Seq::new(l.spec_out_width() as nat, |j: int| raw_of(l.weight_rows()[j], l.biases()[j], input))
}

/// The normalized outputs of a stage on `input`.
pub open spec fn layer_eval(l: DynLayer, input: Seq<i64>, normalizer: Normalizer) -> Seq<i64> {
    Seq::new(
        l.spec_out_width() as nat,
        |j: int| normalizer.apply_spec(layer_raws(l, input)[j]) as i64,
    )
}

/// Every machine value of a stage's forward pass on `input` stays in `i64`.
pub open spec fn layer_fits(l: DynLayer, input: Seq<i64>) -> bool {
    forall|j: int|
        0 <= j < l.spec_out_width() ==> raw_fits(
            #[trigger] l.weight_rows()[j],
            l.biases()[j],
            input,
        )
}

/// The output of threading `input` through `layers`, front to back.
pub open spec fn net_eval(layers: Seq<DynLayer>, input: Seq<i64>, normalizer: Normalizer) -> Seq<
    i64,
>
    decreases layers.len(),
{
    if layers.len() == 0 {
        input
    } else {
        net_eval(layers.drop_first(), layer_eval(layers[0], input, normalizer), normalizer)
    }
}

/// Every machine value of threading `input` through `layers` stays in `i64`.
pub open spec fn net_fits(layers: Seq<DynLayer>, input: Seq<i64>, normalizer: Normalizer) -> bool
    decreases layers.len(),
{
    layers.len() == 0 || (layer_fits(layers[0], input) && net_fits(
        layers.drop_first(),
        layer_eval(layers[0], input, normalizer),
        normalizer,
    ))
}

/// Appending one layer to a chain composes: the chain's output runs once
/// more through the appended layer.
pub proof fn lemma_net_eval_snoc(
    layers: Seq<DynLayer>,
    l: DynLayer,
    input: Seq<i64>,
    normalizer: Normalizer,
)
    ensures
        net_eval(layers.push(l), input, normalizer) == layer_eval(
            l,
            net_eval(layers, input, normalizer),
            normalizer,
        ),
    decreases layers.len(),
{
    if layers.len() == 0 {
        assert(layers.push(l)[0] == l);
        assert(layers.push(l).drop_first() =~= Seq::<DynLayer>::empty());
        assert(net_eval(layers.push(l), input, normalizer) == net_eval(
            Seq::<DynLayer>::empty(),
            layer_eval(l, input, normalizer),
            normalizer,
        ));
        assert(net_eval(layers, input, normalizer) == input);
    } else {
        assert(layers.push(l)[0] == layers[0]);
        assert(layers.push(l).drop_first() =~= layers.drop_first().push(l));
        assert(net_eval(layers.push(l), input, normalizer) == net_eval(
            layers.drop_first().push(l),
            layer_eval(layers[0], input, normalizer),
            normalizer,
        ));
        lemma_net_eval_snoc(
            layers.drop_first(),
            l,
            layer_eval(layers[0], input, normalizer),
            normalizer,
        );
        assert(net_eval(layers, input, normalizer) == net_eval(
            layers.drop_first(),
            layer_eval(layers[0], input, normalizer),
            normalizer,
        ));
    }
}

/// An ordered chain of layers whose adjacent widths are mutually
/// consistent; it computes end-to-end forward activation.
#[derive(Debug, Clone)]
pub struct Network {
    layers: Vec<DynLayer>,
}

impl Network {
    /// The chained layers, in forward order, as they stand in contracts.
    pub closed spec fn spec_layers(&self) -> Seq<DynLayer> {
        self.layers@
    }

    /// There is at least one layer and each layer's declared input width
    /// equals the preceding layer's output width.
    pub open spec fn chain_ok(layers: Seq<DynLayer>) -> bool {
        &&& layers.len() >= 1
        &&& forall|i: int|
            1 <= i < layers.len() ==> (#[trigger] layers[i].spec_in_width())
                == layers[i - 1].spec_out_width()
    }

    /// The network's invariant: a consistent chain of well-formed layers.
    pub open spec fn wf(&self) -> bool {
        &&& Self::chain_ok(self.spec_layers())
        &&& forall|i: int| 0 <= i < self.spec_layers().len() ==> (#[trigger] self.spec_layers()[i]).wf()
    }

    /// The width of the input the network accepts.
    pub open spec fn input_width(&self) -> int {
        self.spec_layers()[0].spec_in_width()
    }

    /// The width of the output the network produces.
    pub open spec fn output_width(&self) -> int {
        self.spec_layers().last().spec_out_width()
    }

    /// Builds a network from one already-constructed layer per adjacent
    /// width pair, in order.  Succeeds exactly when at least one layer is
    /// given and each layer's input width equals the preceding layer's
    /// output width; otherwise the layers come back untouched.
    pub fn new(layers: Vec<DynLayer>) -> (r: Result<Network, Vec<DynLayer>>)
        requires
            forall|i: int| 0 <= i < layers@.len() ==> (#[trigger] layers@[i]).wf(),
        ensures
            Self::chain_ok(layers@) ==> (r matches Ok(n) && n.spec_layers() == layers@ && n.wf()),
            !Self::chain_ok(layers@) ==> (r matches Err(v) && v == layers),
    {
        if layers.len() == 0 {
            return Err(layers);
        }
        let mut i: usize = 1;
        while i < layers.len()
            invariant
                1 <= i <= layers@.len(),
                forall|k: int|
                    1 <= k < i ==> (#[trigger] layers@[k].spec_in_width())
                        == layers@[k - 1].spec_out_width(),
            decreases layers@.len() - i,
        {
            if layers[i].in_width() != layers[i - 1].out_width() {
                proof {
                    assert(!Self::chain_ok(layers@)) by {
                        if Self::chain_ok(layers@) {
                            assert(layers@[i as int].spec_in_width() == layers@[i as int
                                - 1].spec_out_width());
                        }
                    }
                }
                return Err(layers);
            }
            i += 1;
        }
        Ok(Network { layers })
    }

    /// Read access to the chained layers, in forward order.
    pub fn layers(&self) -> (r: &Vec<DynLayer>)
        ensures
            r@ == self.spec_layers(),
    {
        &self.layers
    }

    /// The forward pass: threads `input` through every layer in order and
    /// returns the final layer's output.
    pub fn proceed(&self, input: &Vec<i64>, normalizer: Normalizer) -> (r: Vec<i64>)
        requires
            self.wf(),
            input@.len() == self.input_width(),
            net_fits(self.spec_layers(), input@, normalizer),
        ensures
            r@ == net_eval(self.spec_layers(), input@, normalizer),
            r@.len() == self.output_width(),
    {
        let ghost s = self.spec_layers();
        let mut current: Vec<i64> = vstd::slice::slice_to_vec(input.as_slice());
        let mut i: usize = 0;
        let n = self.layers.len();
        proof {
            assert(s.take(0) =~= Seq::<DynLayer>::empty());
            assert(s.skip(0) =~= s);
        }
        while i < n
            invariant
                self.wf(),
                s == self.spec_layers(),
                n == s.len(),
                i <= n,
                current@ == net_eval(s.take(i as int), input@, normalizer),
                net_fits(s.skip(i as int), current@, normalizer),
                current@.len() == (if i == 0 {
                    input@.len() as int
                } else {
                    s[i as int - 1].spec_out_width()
                }),
                input@.len() == self.input_width(),
            decreases n - i,
        {
            proof {
                let ii = i as int;
                assert(s.skip(ii)[0] == s[ii]);
                assert(s.skip(ii).drop_first() =~= s.skip(ii + 1));
                assert(s.take(ii).push(s[ii]) =~= s.take(ii + 1));
            }
            let next = self.layers[i].proceed(&current, normalizer);
            proof {
                lemma_net_eval_snoc(s.take(i as int), s[i as int], input@, normalizer);
            }
            current = next;
            i += 1;
        }
        proof {
            assert(s.take(n as int) =~= s);
        }
        current
    }

    /// The forward pass with introspection: the same chaining as
    /// [`Network::proceed`], but every intermediate layer output (all but
    /// the last) is also captured and returned alongside the final output,
    /// in layer order.
    pub fn proceed_verbosely(&self, input: &Vec<i64>, normalizer: Normalizer) -> (r: (
        Vec<Vec<i64>>,
        Vec<i64>,
    ))
        requires
            self.wf(),
            input@.len() == self.input_width(),
            net_fits(self.spec_layers(), input@, normalizer),
        ensures
            r.1@ == net_eval(self.spec_layers(), input@, normalizer),
            r.1@.len() == self.output_width(),
            r.0@.len() == self.spec_layers().len() - 1,
            forall|k: int|
                0 <= k < self.spec_layers().len() - 1 ==> (#[trigger] r.0@[k])@ == net_eval(
                    self.spec_layers().take(k + 1),
                    input@,
                    normalizer,
                ),
    {
        let ghost s = self.spec_layers();
        let mut intermediates: Vec<Vec<i64>> = Vec::new();
        let mut current: Vec<i64> = vstd::slice::slice_to_vec(input.as_slice());
        let mut i: usize = 0;
        let n = self.layers.len();
        proof {
            assert(s.take(0) =~= Seq::<DynLayer>::empty());
            assert(s.skip(0) =~= s);
        }
        while i < n
            invariant
                self.wf(),
                s == self.spec_layers(),
                n == s.len(),
                i <= n,
                current@ == net_eval(s.take(i as int), input@, normalizer),
                net_fits(s.skip(i as int), current@, normalizer),
                current@.len() == (if i == 0 {
                    input@.len() as int
                } else {
                    s[i as int - 1].spec_out_width()
                }),
                input@.len() == self.input_width(),
                intermediates@.len() == (if i == n {
                    n as int - 1
                } else {
                    i as int
                }),
                forall|k: int|
                    0 <= k < intermediates@.len() ==> (#[trigger] intermediates@[k])@ == net_eval(
                        s.take(k + 1),
                        input@,
                        normalizer,
                    ),
            decreases n - i,
        {
            proof {
                let ii = i as int;
                assert(s.skip(ii)[0] == s[ii]);
                assert(s.skip(ii).drop_first() =~= s.skip(ii + 1));
                assert(s.take(ii).push(s[ii]) =~= s.take(ii + 1));
            }
            let next = self.layers[i].proceed(&current, normalizer);
            proof {
                lemma_net_eval_snoc(s.take(i as int), s[i as int], input@, normalizer);
            }
            if i + 1 < n {
                intermediates.push(vstd::slice::slice_to_vec(next.as_slice()));
            }
            current = next;
            i += 1;
        }
        proof {
            assert(s.take(n as int) =~= s);
        }
        (intermediates, current)
    }
}

impl<const INPUT_SIZE: usize, const OUTPUT_SIZE: usize> PerceptronLayer<
    i64,
    INPUT_SIZE,
    OUTPUT_SIZE,
> {
    /// The width-erased form of this layer, for network composition: unit
    /// `j` of the result carries exactly the weights and bias of perceptron
    /// `j`.
    pub fn to_dyn(&self) -> (r: DynLayer)
        requires
            self.wf(),
        ensures
            r.wf(),
            r.spec_in_width() == INPUT_SIZE as int,
            r.spec_out_width() == OUTPUT_SIZE as int,
            forall|j: int|
                0 <= j < OUTPUT_SIZE ==> (#[trigger] r.weight_rows()[j])
                    == self.spec_perceptrons()[j].spec_weights() && r.biases()[j]
                    == self.spec_perceptrons()[j].spec_bias(),
    {
        let mut units: Vec<(Vec<i64>, i64)> = Vec::new();
        let mut j: usize = 0;
        while j < OUTPUT_SIZE
            invariant
                self.wf(),
                j <= OUTPUT_SIZE,
                units@.len() == j,
                forall|k: int|
                    0 <= k < j ==> (#[trigger] units@[k].0@)
                        == self.spec_perceptrons()[k].spec_weights() && units@[k].1
                        == self.spec_perceptrons()[k].spec_bias(),
            decreases OUTPUT_SIZE - j,
        {
            let p = self.perceptrons().index(j);
            let w: Vec<i64> = vstd::slice::slice_to_vec(p.weights().iter().as_slice());
            units.push((w, *p.bias()));
            proof {
                assert(units@[j as int].0@ == self.spec_perceptrons()[j as int].spec_weights());
                assert(units@[j as int].1 == self.spec_perceptrons()[j as int].spec_bias());
            }
            j += 1;
        }
        let r = DynLayer { in_width: INPUT_SIZE, units };
        proof {
            assert(forall|j: int|
                0 <= j < OUTPUT_SIZE ==> (#[trigger] r.weight_rows()[j]) == r.units@[j].0@
                    && r.biases()[j] == r.units@[j].1);
        }
        r
    }
}

/// A width-erased layer whose units carry the weights and biases of a typed
/// layer's perceptrons (as [`PerceptronLayer::to_dyn`] ensures) computes the
/// same raw outputs on every input.
pub proof fn lemma_erased_layer_matches_typed<const INPUT_SIZE: usize, const OUTPUT_SIZE: usize>(
    l: PerceptronLayer<i64, INPUT_SIZE, OUTPUT_SIZE>,
    d: DynLayer,
    input: Seq<i64>,
)
    requires
        l.wf(),
        d.spec_out_width() == OUTPUT_SIZE as int,
        forall|j: int|
            0 <= j < OUTPUT_SIZE ==> (#[trigger] d.weight_rows()[j])
                == l.spec_perceptrons()[j].spec_weights() && d.biases()[j]
                == l.spec_perceptrons()[j].spec_bias(),
    ensures
        layer_raws(d, input) == l.raw_outputs(input),
{
    assert(layer_raws(d, input) =~= l.raw_outputs(input));
}

/// A chain's forward pass is the composition of its layers' forward passes,
/// in order: running every layer equals running all but the last, then the
/// last on that result.
pub proof fn lemma_net_eval_composes(layers: Seq<DynLayer>, input: Seq<i64>, normalizer: Normalizer)
    requires
        layers.len() >= 1,
    ensures
        net_eval(layers, input, normalizer) == layer_eval(
            layers.last(),
            net_eval(layers.drop_last(), input, normalizer),
            normalizer,
        ),
{
    assert(layers.drop_last().push(layers.last()) =~= layers);
    lemma_net_eval_snoc(layers.drop_last(), layers.last(), input, normalizer);
}

} // verus!
