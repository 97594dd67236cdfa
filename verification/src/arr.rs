//! The fixed-size numeric container used throughout the library.

use vstd::prelude::*;

verus! {

/// True when the mathematical integer `x` fits in an `i64`.
pub open spec fn fits_i64(x: int) -> bool {
    i64::MIN <= x <= i64::MAX
}

/// The mathematical contents of a sequence of machine integers.
pub open spec fn as_ints(s: Seq<i64>) -> Seq<int> {
    s.map_values(|x: i64| x as int)
}

/// Pairwise sum of two equally long sequences.
pub open spec fn elem_add(a: Seq<int>, b: Seq<int>) -> Seq<int> {
    Seq::new(a.len(), |i: int| a[i] + b[i])
}

/// Pairwise difference of two equally long sequences.
pub open spec fn elem_sub(a: Seq<int>, b: Seq<int>) -> Seq<int> {
    Seq::new(a.len(), |i: int| a[i] - b[i])
}

/// Pairwise product of two equally long sequences.
pub open spec fn elem_mul(a: Seq<int>, b: Seq<int>) -> Seq<int> {
    Seq::new(a.len(), |i: int| a[i] * b[i])
}

/// The all-zero sequence of length `n`.
pub open spec fn zero_seq(n: nat) -> Seq<int> {
    Seq::new(n, |i: int| 0)
}

/// Sum of the first `k` elements of `s`, folded left to right.
pub open spec fn sum_prefix(s: Seq<int>, k: int) -> int
    decreases k,
{
    if k <= 0 {
        0
    } else {
        sum_prefix(s, k - 1) + s[k - 1]
    }
}

/// Sum of all elements of `s`, folded left to right.
pub open spec fn seq_sum(s: Seq<int>) -> int {
    sum_prefix(s, s.len() as int)
}

/// An owned container of exactly `N` elements of scalar type `T`.
///
/// The size is part of the type: every well-formed value holds `N`
/// elements for its whole lifetime, and every operation preserves that.
#[derive(Debug, Clone)]
pub struct Arr<T, const N: usize>(pub(crate) Vec<T>);

impl<T, const N: usize> View for Arr<T, N> {
    type V = Seq<T>;

    closed spec fn view(&self) -> Seq<T> {
        self.0@
    }
}

impl<T, const N: usize> Arr<T, N> {
    /// The container's invariant: it holds exactly `N` elements.
    pub open spec fn wf(&self) -> bool {
        self@.len() == N
    }

    /// Builds a container from exactly `N` supplied values; the element at
    /// position `i` is the `i`-th supplied value.
    pub fn from_array(values: [T; N]) -> (r: Arr<T, N>) where T: Copy
        ensures
            r.wf(),
            r@ == values@,
            forall|i: int| 0 <= i < N ==> r@[i] == values@[i],
    {
        Arr(vstd::slice::slice_to_vec(values.as_slice()))
    }

    /// Builds a container holding `N` copies of a single value.
    pub fn repeat(v: T) -> (r: Arr<T, N>) where T: Copy
        ensures
            r.wf(),
            forall|i: int| 0 <= i < N ==> r@[i] == v,
    {
        let mut elems: Vec<T> = Vec::new();
        let mut i: usize = 0;
        while i < N
            invariant
                i <= N,
                elems@.len() == i,
                forall|j: int| 0 <= j < i ==> elems@[j] == v,
            decreases N - i,
        {
            elems.push(v);
            i += 1;
        }
        Arr(elems)
    }

    /// Wraps a vector already known to hold exactly `N` elements.
    pub(crate) fn from_exact_vec(values: Vec<T>) -> (r: Arr<T, N>)
        requires
            values@.len() == N,
        ensures
            r.wf(),
            r@ == values@,
    {
        Arr(values)
    }

    /// Builds a container from a variable-length sequence.  Succeeds exactly
    /// when the sequence holds `N` values, and then keeps them unchanged and
    /// in order; otherwise the sequence itself comes back untouched.
    pub fn from_fallible_sequence(values: Vec<T>) -> (r: Result<Arr<T, N>, Vec<T>>)
        ensures
            values@.len() == N ==> (r matches Ok(a) && a.wf() && a@ == values@),
            values@.len() != N ==> (r matches Err(v) && v == values),
    {
        if values.len() == N {
            Ok(Arr(values))
        } else {
            Err(values)
        }
    }

    /// Read access to the element at position `i`.
    pub fn index(&self, i: usize) -> (r: &T)
        requires
            self.wf(),
            i < N,
        ensures
            *r == self@[i as int],
    {
        &self.0[i]
    }

    /// Write access to the element at position `i`.
    pub fn index_mut(&mut self, i: usize) -> (r: &mut T)
        requires
            old(self).wf(),
            i < N,
        ensures
            *r == old(self)@[i as int],
            final(self)@ == old(self)@.update(i as int, *final(r)),
            final(self).wf(),
    {
        &mut self.0[i]
    }

    /// The elements in index order, for read-only traversal.
    pub fn iter(&self) -> (r: &Vec<T>)
        ensures
            r@ == self@,
    {
        &self.0
    }

    /// Applies `f` to each element in index order, producing a container of
    /// the same size and possibly different element type.
    pub fn map<R, F: Fn(&T) -> R>(&self, f: F) -> (r: Arr<R, N>)
        requires
            self.wf(),
            forall|i: int| 0 <= i < N ==> call_requires(f, (&self@[i],)),
        ensures
            r.wf(),
            forall|i: int| 0 <= i < N ==> call_ensures(f, (&self@[i],), #[trigger] r@[i]),
    {
        let mut elems: Vec<R> = Vec::new();
        let mut i: usize = 0;
        while i < N
            invariant
                self.wf(),
                forall|j: int| 0 <= j < N ==> call_requires(f, (&self@[j],)),
                i <= N,
                elems@.len() == i,
                forall|j: int| 0 <= j < i ==> call_ensures(f, (&self@[j],), #[trigger] elems@[j]),
            decreases N - i,
        {
            elems.push(f(&self.0[i]));
            i += 1;
        }
        Arr(elems)
    }

    /// Applies `f` to a copy of each element in index order.
    pub fn map_copy<R, F: Fn(T) -> R>(&self, f: F) -> (r: Arr<R, N>) where T: Copy
        requires
            self.wf(),
            forall|i: int| 0 <= i < N ==> call_requires(f, (self@[i],)),
        ensures
            r.wf(),
            forall|i: int| 0 <= i < N ==> call_ensures(f, (self@[i],), #[trigger] r@[i]),
    {
        let mut elems: Vec<R> = Vec::new();
        let mut i: usize = 0;
        while i < N
            invariant
                self.wf(),
                forall|j: int| 0 <= j < N ==> call_requires(f, (self@[j],)),
                i <= N,
                elems@.len() == i,
                forall|j: int| 0 <= j < i ==> call_ensures(f, (self@[j],), #[trigger] elems@[j]),
            decreases N - i,
        {
            elems.push(f(self.0[i]));
            i += 1;
        }
        Arr(elems)
    }
}

impl<const N: usize> Arr<i64, N> {
    /// Builds a container of `N` samples drawn independently and uniformly
    /// from the inclusive range `[lo, hi]`.  Nothing more is promised of the
    /// sampled values than their range.
    pub fn rand(lo: i64, hi: i64) -> (r: Arr<i64, N>)
        requires
            lo <= hi,
        ensures
            r.wf(),
            forall|i: int| 0 <= i < N ==> lo <= #[trigger] r@[i] <= hi,
    {
        let mut rng = crate::rng::fresh_rng();
        let mut elems: Vec<i64> = Vec::new();
        let mut i: usize = 0;
        while i < N
            invariant
                lo <= hi,
                i <= N,
                elems@.len() == i,
                forall|j: int| 0 <= j < i ==> lo <= #[trigger] elems@[j] <= hi,
            decreases N - i,
        {
            elems.push(crate::rng::gen_in_range(&mut rng, lo, hi));
            i += 1;
        }
        Arr(elems)
    }

    /// Pairwise addition; both operands share the size `N` by type.
    pub fn elementwise_add(&self, rhs: &Arr<i64, N>) -> (r: Arr<i64, N>)
        requires
            self.wf(),
            rhs.wf(),
            forall|i: int| 0 <= i < N ==> fits_i64(self@[i] + rhs@[i]),
        ensures
            r.wf(),
            as_ints(r@) == elem_add(as_ints(self@), as_ints(rhs@)),
    {
        let mut elems: Vec<i64> = Vec::new();
        let mut i: usize = 0;
        while i < N
            invariant
                self.wf(),
                rhs.wf(),
                forall|j: int| 0 <= j < N ==> fits_i64(self@[j] + rhs@[j]),
                i <= N,
                elems@.len() == i,
                forall|j: int| 0 <= j < i ==> elems@[j] == self@[j] + rhs@[j],
            decreases N - i,
        {
            elems.push(self.0[i] + rhs.0[i]);
            i += 1;
        }
        let r = Arr(elems);
        proof {
            assert(as_ints(r@) =~= elem_add(as_ints(self@), as_ints(rhs@)));
        }
        r
    }

    /// Pairwise subtraction; both operands share the size `N` by type.
    pub fn elementwise_sub(&self, rhs: &Arr<i64, N>) -> (r: Arr<i64, N>)
        requires
            self.wf(),
            rhs.wf(),
            forall|i: int| 0 <= i < N ==> fits_i64(self@[i] - rhs@[i]),
        ensures
            r.wf(),
            as_ints(r@) == elem_sub(as_ints(self@), as_ints(rhs@)),
    {
        let mut elems: Vec<i64> = Vec::new();
        let mut i: usize = 0;
        while i < N
            invariant
                self.wf(),
                rhs.wf(),
                forall|j: int| 0 <= j < N ==> fits_i64(self@[j] - rhs@[j]),
                i <= N,
                elems@.len() == i,
                forall|j: int| 0 <= j < i ==> elems@[j] == self@[j] - rhs@[j],
            decreases N - i,
        {
            elems.push(self.0[i] - rhs.0[i]);
            i += 1;
        }
        let r = Arr(elems);
        proof {
            assert(as_ints(r@) =~= elem_sub(as_ints(self@), as_ints(rhs@)));
        }
        r
    }

    /// Pairwise multiplication; both operands share the size `N` by type.
    pub fn elementwise_mul(&self, rhs: &Arr<i64, N>) -> (r: Arr<i64, N>)
        requires
            self.wf(),
            rhs.wf(),
            forall|i: int| 0 <= i < N ==> fits_i64(self@[i] * rhs@[i]),
        ensures
            r.wf(),
            as_ints(r@) == elem_mul(as_ints(self@), as_ints(rhs@)),
    {
        let mut elems: Vec<i64> = Vec::new();
        let mut i: usize = 0;
        while i < N
            invariant
                self.wf(),
                rhs.wf(),
                forall|j: int| 0 <= j < N ==> fits_i64(self@[j] * rhs@[j]),
                i <= N,
                elems@.len() == i,
                forall|j: int| 0 <= j < i ==> elems@[j] == self@[j] * rhs@[j],
            decreases N - i,
        {
            elems.push(self.0[i] * rhs.0[i]);
            i += 1;
        }
        let r = Arr(elems);
        proof {
            assert(as_ints(r@) =~= elem_mul(as_ints(self@), as_ints(rhs@)));
        }
        r
    }

    /// Adds up all elements, left to right, starting from zero.
    pub fn sum(self) -> (r: i64)
        requires
            self.wf(),
            forall|k: int| 0 <= k <= N ==> fits_i64(sum_prefix(as_ints(self@), k)),
        ensures
            r == seq_sum(as_ints(self@)),
    {
        let mut acc: i64 = 0;
        let mut i: usize = 0;
        while i < N
            invariant
                self.wf(),
                forall|k: int| 0 <= k <= N ==> fits_i64(sum_prefix(as_ints(self@), k)),
                i <= N,
                acc == sum_prefix(as_ints(self@), i as int),
            decreases N - i,
        {
            proof {
                assert(sum_prefix(as_ints(self@), i + 1) == sum_prefix(as_ints(self@), i as int)
                    + as_ints(self@)[i as int]);
            }
            acc = acc + self.0[i];
            i += 1;
        }
        acc
    }
}

impl<const N: usize> Default for Arr<i64, N> {
    /// The all-zero container.
    fn default() -> (r: Arr<i64, N>)
        ensures
            r.wf(),
            forall|i: int| 0 <= i < N ==> r@[i] == 0,
    {
        Arr::repeat(0)
    }
}

impl<const N: usize> PartialEq for Arr<i64, N> {
    /// Two containers are equal when they agree at every position.
    fn eq(&self, other: &Self) -> (r: bool) {
        if self.0.len() != other.0.len() {
            return false;
        }
        let mut i: usize = 0;
        while i < self.0.len()
            invariant
                self@.len() == other@.len(),
                i <= self@.len(),
                forall|j: int| 0 <= j < i ==> self@[j] == other@[j],
            decreases self@.len() - i,
        {
            if self.0[i] != other.0[i] {
                return false;
            }
            i += 1;
        }
        proof {
            assert(self@ =~= other@);
        }
        true
    }
}

impl<const N: usize> vstd::std_specs::cmp::PartialEqSpecImpl for Arr<i64, N> {
    open spec fn obeys_eq_spec() -> bool {
        true
    }

    open spec fn eq_spec(&self, other: &Self) -> bool {
        self@ == other@
    }
}

/// Pairwise addition is commutative.
pub proof fn lemma_elem_add_commutative(a: Seq<int>, b: Seq<int>)
    requires
        a.len() == b.len(),
    ensures
        elem_add(a, b) == elem_add(b, a),
{
    assert(elem_add(a, b) =~= elem_add(b, a));
}

/// Pairwise addition is associative.
pub proof fn lemma_elem_add_associative(a: Seq<int>, b: Seq<int>, c: Seq<int>)
    requires
        a.len() == b.len(),
        b.len() == c.len(),
    ensures
        elem_add(elem_add(a, b), c) == elem_add(a, elem_add(b, c)),
{
    assert(elem_add(elem_add(a, b), c) =~= elem_add(a, elem_add(b, c)));
}

/// Pairwise multiplication is commutative.
pub proof fn lemma_elem_mul_commutative(a: Seq<int>, b: Seq<int>)
    requires
        a.len() == b.len(),
    ensures
        elem_mul(a, b) == elem_mul(b, a),
{
    assert(elem_mul(a, b) =~= elem_mul(b, a));
}

/// Pairwise multiplication is associative.
pub proof fn lemma_elem_mul_associative(a: Seq<int>, b: Seq<int>, c: Seq<int>)
    requires
        a.len() == b.len(),
        b.len() == c.len(),
    ensures
        elem_mul(elem_mul(a, b), c) == elem_mul(a, elem_mul(b, c)),
{
    assert forall|i: int| 0 <= i < a.len() implies elem_mul(elem_mul(a, b), c)[i] == elem_mul(
        a,
        elem_mul(b, c),
    )[i] by {
        assert((a[i] * b[i]) * c[i] == a[i] * (b[i] * c[i])) by (nonlinear_arith);
    }
    assert(elem_mul(elem_mul(a, b), c) =~= elem_mul(a, elem_mul(b, c)));
}

/// Subtracting a sequence from itself gives the all-zero sequence.
pub proof fn lemma_elem_sub_self(a: Seq<int>)
    ensures
        elem_sub(a, a) == zero_seq(a.len()),
{
    assert(elem_sub(a, a) =~= zero_seq(a.len()));
}

} // verus!
