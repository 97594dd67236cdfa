use simple_neural_net::normalizers::identity;
use simple_neural_net::{Arr, Normalizer, Perceptron};

#[test]
fn identity_returns_its_argument() {
    assert_eq!(identity(17i64), 17);
    assert_eq!(identity(-4i64), -4);
    assert_eq!(identity("text"), "text");
}

#[test]
fn normalizer_identity_applies() {
    assert_eq!(Normalizer::Identity.apply(123), 123);
    assert_eq!(Normalizer::Identity.apply(-9), -9);
    assert_eq!(Normalizer::Identity.apply(0), 0);
}

#[test]
fn proceed_unit_weights_identity() {
    // weights [1,1,1], bias 0, input [1,2,3]: dot = 6, output = 6 - 0 = 6.
    let weights: Arr<i64, 3> = Arr::from_array([1, 1, 1]);
    let p = Perceptron::new(weights, 0);
    let input: Arr<i64, 3> = Arr::from_array([1, 2, 3]);
    assert_eq!(p.proceed(&input, Normalizer::Identity), 6);
}

#[test]
fn proceed_with_bias() {
    // dot([2,3],[4,5]) = 23, minus bias 3 gives 20.
    let p = Perceptron::new(Arr::from_array([4, 5]), 3);
    let input: Arr<i64, 2> = Arr::from_array([2, 3]);
    assert_eq!(p.proceed(&input, Normalizer::Identity), 20);
}

#[test]
fn accessors_read_back_construction() {
    let p = Perceptron::new(Arr::from_array([0, 1, 2, 3]), 12);
    assert_eq!(*p.bias(), 12);
    assert_eq!(*p.weights().index(0), 0);
    assert_eq!(*p.weights().index(3), 3);
}

#[test]
fn mutable_accessors_update_fields() {
    let mut p = Perceptron::new(Arr::from_array([1, 1, 1]), 0);
    *p.bias_mut() = 5;
    assert_eq!(*p.bias(), 5);
    *p.weights_mut().index_mut(2) = 7;
    assert_eq!(*p.weights().index(2), 7);
    assert_eq!(*p.weights().index(0), 1);
    let input: Arr<i64, 3> = Arr::from_array([1, 2, 3]);
    // dot([1,2,3],[1,1,7]) = 24, minus the new bias 5 gives 19.
    assert_eq!(p.proceed(&input, Normalizer::Identity), 19);
}
