use simple_neural_net::{Arr, DynLayer, Layer, Network, Normalizer, Perceptron, PerceptronLayer};

fn layer<const IN: usize, const OUT: usize>(
    units: Vec<([i64; IN], i64)>,
) -> PerceptronLayer<i64, IN, OUT> {
    let mut ps: Vec<Perceptron<i64, IN>> = Vec::new();
    for (w, b) in units {
        ps.push(Perceptron::new(Arr::from_array(w), b));
    }
    PerceptronLayer::new(Arr::from_fallible_sequence(ps).unwrap())
}

fn net_4_3_2_1() -> Network {
    let l0: PerceptronLayer<i64, 4, 3> = layer(vec![
        ([0, 1, 2, 3], 12),
        ([4, 5, 6, 7], 13),
        ([8, 9, 10, 11], 13),
    ]);
    let l1: PerceptronLayer<i64, 3, 2> =
        layer(vec![([14, 15, 16], 20), ([17, 18, 19], 21)]);
    let l2: PerceptronLayer<i64, 2, 1> = layer(vec![([22, 23], 24)]);
    Network::new(vec![l0.to_dyn(), l1.to_dyn(), l2.to_dyn()]).unwrap()
}

#[test]
fn access_weights() {
    let net = net_4_3_2_1();

    assert_eq!(net.layers()[0].unit_weights(0)[0], 0);
    assert_eq!(net.layers()[0].unit_bias(0), 12);
}

#[test]
fn two_layer_first_unit_weights() {
    let l0: PerceptronLayer<i64, 4, 3> = layer(vec![
        ([0, 1, 2, 3], 12),
        ([4, 5, 6, 7], 13),
        ([8, 9, 10, 11], 13),
    ]);
    let l1: PerceptronLayer<i64, 3, 2> =
        layer(vec![([14, 15, 16], 20), ([17, 18, 19], 21)]);
    assert_eq!(*l0.perceptrons().index(0).weights().index(0), 0);
    assert_eq!(*l0.perceptrons().index(0).bias(), 12);
    let net = Network::new(vec![l0.to_dyn(), l1.to_dyn()]).unwrap();
    assert_eq!(net.layers()[0].unit_weights(0)[0], 0);
    assert_eq!(net.layers()[0].unit_bias(0), 12);
}

#[test]
fn typed_layer_proceed_values() {
    let l: PerceptronLayer<i64, 2, 2> = layer(vec![([1, 2], 0), ([3, 4], 1)]);
    let input: Arr<i64, 2> = Arr::from_array([5, 6]);
    let out = l.proceed(&input, Normalizer::Identity);
    // unit 0: 1*5 + 2*6 - 0 = 17; unit 1: 3*5 + 4*6 - 1 = 38.
    assert_eq!(out.iter().as_slice(), &[17, 38]);
}

#[test]
fn dyn_layer_matches_typed_layer() {
    let l: PerceptronLayer<i64, 2, 2> = layer(vec![([1, 2], 0), ([3, 4], 1)]);
    let d = l.to_dyn();
    let input: Arr<i64, 2> = Arr::from_array([5, 6]);
    let typed = l.proceed(&input, Normalizer::Identity);
    let erased = d.proceed(&vec![5, 6], Normalizer::Identity);
    assert_eq!(typed.iter().as_slice(), erased.as_slice());
}

#[test]
fn proceed_exact_values() {
    let l0: PerceptronLayer<i64, 2, 2> = layer(vec![([1, 2], 0), ([3, 4], 1)]);
    let l1: PerceptronLayer<i64, 2, 1> = layer(vec![([1, -1], 2)]);
    let net = Network::new(vec![l0.to_dyn(), l1.to_dyn()]).unwrap();
    let out = net.proceed(&vec![5, 6], Normalizer::Identity);
    // layer 0 gives [17, 38]; layer 1 gives 17 - 38 - 2 = -23.
    assert_eq!(out, vec![-23]);
}

#[test]
fn proceed_equals_manual_layer_composition() {
    let net = net_4_3_2_1();
    let input = vec![1i64, 2, 3, 4];

    let r0 = net.layers()[0].proceed(&input, Normalizer::Identity);
    let r1 = net.layers()[1].proceed(&r0, Normalizer::Identity);
    let r2 = net.layers()[2].proceed(&r1, Normalizer::Identity);

    assert_eq!(net.proceed(&input, Normalizer::Identity), r2);
}

#[test]
fn proceed_verbosely_matches_plain_proceed() {
    let net = net_4_3_2_1();
    let input = vec![1i64, 2, 3, 4];

    let plain = net.proceed(&input, Normalizer::Identity);
    let (intermediates, last) = net.proceed_verbosely(&input, Normalizer::Identity);

    assert_eq!(last, plain);
    assert_eq!(intermediates.len(), 2);
    let r0 = net.layers()[0].proceed(&input, Normalizer::Identity);
    let r1 = net.layers()[1].proceed(&r0, Normalizer::Identity);
    assert_eq!(intermediates[0], r0);
    assert_eq!(intermediates[1], r1);
}

#[test]
fn new_rejects_mismatched_widths() {
    let narrow: PerceptronLayer<i64, 3, 2> =
        layer(vec![([14, 15, 16], 20), ([17, 18, 19], 21)]);
    let wide: PerceptronLayer<i64, 4, 3> = layer(vec![
        ([0, 1, 2, 3], 12),
        ([4, 5, 6, 7], 13),
        ([8, 9, 10, 11], 13),
    ]);
    // The first layer produces 2 values, which the second cannot accept.
    match Network::new(vec![narrow.to_dyn(), wide.to_dyn()]) {
        Ok(_) => panic!("mismatched adjacent widths must be rejected"),
        Err(returned) => {
            assert_eq!(returned.len(), 2);
            assert_eq!(returned[0].in_width(), 3);
            assert_eq!(returned[1].in_width(), 4);
        }
    }
}

#[test]
fn new_rejects_empty_chain() {
    match Network::new(Vec::new()) {
        Ok(_) => panic!("a network needs at least one layer"),
        Err(returned) => assert!(returned.is_empty()),
    }
}

#[test]
fn dyn_layer_new_checks_row_widths() {
    let good = DynLayer::new(2, vec![(vec![1, 2], 0), (vec![3, 4], 1)]);
    assert!(good.is_ok());
    match DynLayer::new(2, vec![(vec![1, 2], 0), (vec![3], 1)]) {
        Ok(_) => panic!("a short weight row must be rejected"),
        Err(units) => {
            assert_eq!(units.len(), 2);
            assert_eq!(units[1].0, vec![3]);
        }
    }
}

#[test]
fn dyn_layer_new_matches_to_dyn() {
    let typed: PerceptronLayer<i64, 2, 1> = layer(vec![([1, -1], 2)]);
    let direct = DynLayer::new(2, vec![(vec![1, -1], 2)]).unwrap();
    let input = vec![7i64, 9];
    assert_eq!(
        typed.to_dyn().proceed(&input, Normalizer::Identity),
        direct.proceed(&input, Normalizer::Identity)
    );
}
