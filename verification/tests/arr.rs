use simple_neural_net::Arr;

#[test]
fn from_array_indexing() {
    let a: Arr<i64, 4> = Arr::from_array([7, -3, 0, 42]);
    assert_eq!(*a.index(0), 7);
    assert_eq!(*a.index(1), -3);
    assert_eq!(*a.index(2), 0);
    assert_eq!(*a.index(3), 42);
}

#[test]
fn from_fallible_sequence_wrong_length() {
    let source = vec![1i64, 2, 3];
    let r: Result<Arr<i64, 4>, Vec<i64>> = Arr::from_fallible_sequence(source);
    match r {
        Ok(_) => panic!("a three-element sequence must not fill a four-slot container"),
        Err(v) => assert_eq!(v, vec![1i64, 2, 3]),
    }
}

#[test]
fn from_fallible_sequence_exact_length() {
    let source = vec![5i64, 6, 7];
    let r: Result<Arr<i64, 3>, Vec<i64>> = Arr::from_fallible_sequence(source);
    let a = r.unwrap();
    assert_eq!(*a.index(0), 5);
    assert_eq!(*a.index(1), 6);
    assert_eq!(*a.index(2), 7);
}

#[test]
fn elementwise_add_values() {
    let a: Arr<i64, 3> = Arr::from_array([1, 2, 3]);
    let b: Arr<i64, 3> = Arr::from_array([10, 20, 30]);
    let c = a.elementwise_add(&b);
    assert_eq!(c.iter().as_slice(), &[11, 22, 33]);
}

#[test]
fn elementwise_add_commutes() {
    let a: Arr<i64, 3> = Arr::from_array([4, -5, 6]);
    let b: Arr<i64, 3> = Arr::from_array([-1, 8, 2]);
    let ab = a.elementwise_add(&b);
    let ba = b.elementwise_add(&a);
    for i in 0..3usize {
        assert_eq!(*ab.index(i), *ba.index(i));
    }
}

#[test]
fn elementwise_sub_self_is_zero() {
    let a: Arr<i64, 4> = Arr::from_array([9, -2, 0, i64::MAX]);
    let z = a.elementwise_sub(&a);
    for i in 0..4usize {
        assert_eq!(*z.index(i), 0);
    }
}

#[test]
fn elementwise_mul_values() {
    let a: Arr<i64, 3> = Arr::from_array([2, -3, 4]);
    let b: Arr<i64, 3> = Arr::from_array([5, 6, -7]);
    let c = a.elementwise_mul(&b);
    assert_eq!(c.iter().as_slice(), &[10, -18, -28]);
}

#[test]
fn elementwise_mul_associates() {
    let a: Arr<i64, 2> = Arr::from_array([2, -3]);
    let b: Arr<i64, 2> = Arr::from_array([5, 7]);
    let c: Arr<i64, 2> = Arr::from_array([-4, 11]);
    let left = a.elementwise_mul(&b).elementwise_mul(&c);
    let right = a.elementwise_mul(&b.elementwise_mul(&c));
    for i in 0..2usize {
        assert_eq!(*left.index(i), *right.index(i));
    }
}

#[test]
fn sum_values() {
    let a: Arr<i64, 4> = Arr::from_array([1, 2, 3, 4]);
    assert_eq!(a.sum(), 10);
    let b: Arr<i64, 3> = Arr::from_array([-5, 5, -17]);
    assert_eq!(b.sum(), -17);
}

#[test]
fn map_changes_element_type() {
    let a: Arr<i64, 3> = Arr::from_array([1, -2, 3]);
    let b: Arr<bool, 3> = a.map(|x: &i64| *x > 0);
    assert_eq!(*b.index(0), true);
    assert_eq!(*b.index(1), false);
    assert_eq!(*b.index(2), true);
}

#[test]
fn map_copy_values() {
    let a: Arr<i64, 3> = Arr::from_array([1, -2, 3]);
    let b: Arr<i64, 3> = a.map_copy(|x: i64| x * 10);
    assert_eq!(b.iter().as_slice(), &[10, -20, 30]);
}

#[test]
fn rand_within_range() {
    let a: Arr<i64, 16> = Arr::rand(-9, 9);
    for i in 0..16usize {
        let v = *a.index(i);
        assert!(-9 <= v && v <= 9);
    }
}

#[test]
fn rand_degenerate_range_is_exact() {
    let a: Arr<i64, 8> = Arr::rand(5, 5);
    for i in 0..8usize {
        assert_eq!(*a.index(i), 5);
    }
}

#[test]
fn index_mut_writes_one_slot() {
    let mut a: Arr<i64, 3> = Arr::from_array([1, 2, 3]);
    *a.index_mut(1) = 20;
    assert_eq!(a.iter().as_slice(), &[1, 20, 3]);
}

#[test]
fn repeat_fills_every_slot() {
    let a: Arr<i64, 5> = Arr::repeat(-7);
    for i in 0..5usize {
        assert_eq!(*a.index(i), -7);
    }
}

#[test]
fn default_is_all_zero() {
    let a: Arr<i64, 4> = Arr::default();
    for i in 0..4usize {
        assert_eq!(*a.index(i), 0);
    }
}

#[test]
fn equality_is_elementwise() {
    let a: Arr<i64, 3> = Arr::from_array([1, 2, 3]);
    let b: Arr<i64, 3> = Arr::from_array([1, 2, 3]);
    let c: Arr<i64, 3> = Arr::from_array([1, 2, 4]);
    assert_eq!(a, b);
    assert!(a != c);
}

#[test]
fn elementwise_add_associates() {
    let a: Arr<i64, 3> = Arr::from_array([1, -2, 30]);
    let b: Arr<i64, 3> = Arr::from_array([4, 5, -6]);
    let c: Arr<i64, 3> = Arr::from_array([-7, 8, 9]);
    let left = a.elementwise_add(&b).elementwise_add(&c);
    let right = a.elementwise_add(&b.elementwise_add(&c));
    assert_eq!(left, right);
}

#[test]
fn zero_size_container() {
    let a: Arr<i64, 0> = Arr::from_fallible_sequence(Vec::new()).unwrap();
    assert_eq!(a.sum(), 0);
    let r: Result<Arr<i64, 0>, Vec<i64>> = Arr::from_fallible_sequence(vec![1]);
    assert!(r.is_err());
}

#[test]
fn sum_of_single_extreme_value() {
    let a: Arr<i64, 1> = Arr::from_array([i64::MAX]);
    assert_eq!(a.sum(), i64::MAX);
}
