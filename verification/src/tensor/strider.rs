//! The affine map from an index to a position in a buffer.
//!
//! A strider has one extent and one stride per dimension, and an offset. An
//! index `i` with `i[k] < shape[k]` in every dimension stands at position
//! `offset + sum of i[k] * strides[k]`. Strides may be zero or negative, so
//! that a strider can describe broadcast, transposed and reversed views.

use vstd::prelude::*;

verus! {

/// Product of the extents of `shape`: the number of its indices.
pub open spec fn shape_product(shape: Seq<usize>) -> nat
    decreases shape.len(),
{
    if shape.len() == 0 {
        1
    } else {
        shape[0] as nat * shape_product(shape.skip(1))
    }
}

/// Whether every row-major stride of `shape` is a representable number.
pub open spec fn strides_fit(shape: Seq<usize>) -> bool {
    forall|k: int| 0 <= k < shape.len() ==> #[trigger] shape_product(shape.skip(k + 1)) <= isize::MAX
}

/// The product from dimension `k` on is the extent of `k` times the product
/// from dimension `k + 1` on.
pub proof fn lemma_product_step(shape: Seq<usize>, k: int)
    requires
        0 <= k < shape.len(),
    ensures
        shape_product(shape.skip(k)) == shape[k] as nat * shape_product(shape.skip(k + 1)),
{
    assert(shape.skip(k).skip(1) =~= shape.skip(k + 1));
}

/// A shape with an extent of zero has no index.
pub proof fn lemma_product_zero(shape: Seq<usize>, k: int)
    requires
        0 <= k < shape.len(),
        shape[k] == 0,
    ensures
        shape_product(shape) == 0,
    decreases shape.len(),
{
    if k > 0 {
        lemma_product_zero(shape.skip(1), k - 1);
        assert(shape[0] as nat * 0 == 0);
    } else {
        assert(0 * shape_product(shape.skip(1)) == 0) by (nonlinear_arith);
    }
}

/// A shape of three extents has as many indices as their product.
pub proof fn lemma_product_of_three(a: usize, b: usize, c: usize)
    ensures
        shape_product(seq![a, b, c]) == a * b * c,
{
    let shape = seq![a, b, c];
    lemma_product_step(shape, 0);
    lemma_product_step(shape, 1);
    lemma_product_step(shape, 2);
    assert(shape.skip(0) =~= shape);
    assert(shape.skip(3).len() == 0);
    assert(a * (b * (c * 1)) == a * b * c) by (nonlinear_arith);
}

/// Without an extent of zero, the products grow towards the first dimension.
pub proof fn lemma_product_grows(shape: Seq<usize>, j: int, k: int)
    requires
        0 <= j <= k <= shape.len(),
        forall|i: int| 0 <= i < shape.len() ==> shape[i] >= 1,
    ensures
        1 <= shape_product(shape.skip(k)) <= shape_product(shape.skip(j)),
    decreases shape.len() - j,
{
    if j < k {
        lemma_product_grows(shape, j + 1, k);
        lemma_product_step(shape, j);
        let rest = shape_product(shape.skip(j + 1));
        assert(shape[j] as nat * rest >= rest) by (nonlinear_arith)
            requires
                shape[j] >= 1,
        ;
    } else if k < shape.len() {
        lemma_product_grows(shape, k + 1, k + 1);
        lemma_product_step(shape, k);
        let rest = shape_product(shape.skip(k + 1));
        assert(shape[k] as nat * rest >= 1) by (nonlinear_arith)
            requires
                shape[k] >= 1,
                rest >= 1,
        ;
    } else {
        assert(shape.skip(k).len() == 0);
    }
}

/// The row-major strides of `shape`, as numbers: each is the product of the
/// extents of the dimensions after it.
pub open spec fn spec_contiguous_strides(shape: Seq<usize>) -> Seq<int> {
    Seq::new(shape.len(), |k: int| shape_product(shape.skip(k + 1)) as int)
}

/// The entries of `values`, as numbers.
pub open spec fn as_ints<N: Integer>(values: Seq<N>) -> Seq<int> {
    Seq::new(values.len(), |k: int| values[k] as int)
}

/// The row-major strides of `shape`, or `None` where one of them is too
/// large to represent.
pub fn checked_contiguous_strides<const D: usize>(shape: &[usize; D]) -> (r: Option<[isize; D]>)
    ensures
        r is Some <==> strides_fit(shape@),
        r matches Some(strides) ==> forall|k: int|
            0 <= k < D ==> strides@[k] == #[trigger] shape_product(shape@.skip(k + 1)),
{
    let mut strides: [isize; D] = [0isize; D];
    let mut k: usize = D;
    let mut run: usize = 1;
    proof {
        assert(shape@.skip(D as int).len() == 0);
    }
    while k > 0
        invariant
            k <= D,
            shape@.len() == D,
            k > 0 ==> run == shape_product(shape@.skip(k as int)) && run <= isize::MAX,
            forall|j: int|
                k <= j < D ==> strides@[j] == #[trigger] shape_product(shape@.skip(j + 1)),
        decreases k,
    {
        k -= 1;
        strides[k] = run as isize;
        if k > 0 {
            proof {
                lemma_product_step(shape@, k as int);
            }
            match shape[k].checked_mul(run) {
                Some(next) if next <= isize::MAX as usize => {
                    run = next;
                },
                _ => {
                    assert(shape_product(shape@.skip((k - 1) + 1)) > isize::MAX);
                    return None;
                },
            }
        }
    }
    Some(strides)
}

/// The row-major strides of `shape`: each is the product of the extents of
/// the dimensions after it, so the last one is 1.
pub fn contiguous_strides<const D: usize>(shape: &[usize; D]) -> (strides: [isize; D])
    requires
        strides_fit(shape@),
    ensures
        forall|k: int| 0 <= k < D ==> strides@[k] == #[trigger] shape_product(shape@.skip(k + 1)),
        D > 0 ==> strides@[D - 1] == 1,
{
    proof {
        assert(shape@.skip(D as int).len() == 0);
        if D > 0 {
            assert(shape_product(shape@.skip((D - 1) + 1)) == 1);
        }
    }
    match checked_contiguous_strides(shape) {
        Some(strides) => strides,
        None => {
            proof {
                assert(false);
            }
            [0isize; D]
        },
    }
}

/// How far dimension `k` moves a position between its first and its last
/// index.
pub open spec fn sweep(shape: Seq<usize>, strides: Seq<isize>, k: int) -> int {
    (shape[k] - 1) * strides[k]
}

/// Sum of `index[k] * strides[k]` over the first `n` dimensions.
pub open spec fn weighted_sum(index: Seq<usize>, strides: Seq<isize>, n: int) -> int
    decreases n,
{
    if n <= 0 {
        0
    } else {
        weighted_sum(index, strides, n - 1) + index[n - 1] * strides[n - 1]
    }
}

/// Sum of the negative sweeps of the first `n` dimensions.
pub open spec fn reach_down(shape: Seq<usize>, strides: Seq<isize>, n: int) -> int
    decreases n,
{
    if n <= 0 {
        0
    } else if sweep(shape, strides, n - 1) < 0 {
        reach_down(shape, strides, n - 1) + sweep(shape, strides, n - 1)
    } else {
        reach_down(shape, strides, n - 1)
    }
}

/// Sum of the positive sweeps of the first `n` dimensions.
pub open spec fn reach_up(shape: Seq<usize>, strides: Seq<isize>, n: int) -> int
    decreases n,
{
    if n <= 0 {
        0
    } else if sweep(shape, strides, n - 1) > 0 {
        reach_up(shape, strides, n - 1) + sweep(shape, strides, n - 1)
    } else {
        reach_up(shape, strides, n - 1)
    }
}

/// Further dimensions only widen the reach.
pub proof fn lemma_reach_widens(shape: Seq<usize>, strides: Seq<isize>, n: int, m: int)
    requires
        0 <= n <= m,
    ensures
        reach_down(shape, strides, m) <= reach_down(shape, strides, n) <= 0,
        0 <= reach_up(shape, strides, n) <= reach_up(shape, strides, m),
    decreases m,
{
    if n < m {
        lemma_reach_widens(shape, strides, n, m - 1);
    } else if n > 0 {
        lemma_reach_widens(shape, strides, n - 1, n - 1);
        lemma_reach_widens(shape, strides, 0, n - 1);
    }
}

/// An index within the shape keeps its weighted sum within the reach.
pub proof fn lemma_sum_within_reach(
    shape: Seq<usize>,
    strides: Seq<isize>,
    index: Seq<usize>,
    n: int,
)
    requires
        0 <= n <= shape.len(),
        n <= strides.len(),
        n <= index.len(),
        forall|k: int| 0 <= k < n ==> index[k] < shape[k],
    ensures
        reach_down(shape, strides, n) <= weighted_sum(index, strides, n) <= reach_up(
            shape,
            strides,
            n,
        ),
    decreases n,
{
    if n > 0 {
        lemma_sum_within_reach(shape, strides, index, n - 1);
        let i = index[n - 1] as int;
        let e = shape[n - 1] - 1;
        let s = strides[n - 1] as int;
        assert(s >= 0 ==> 0 <= i * s <= e * s) by (nonlinear_arith)
            requires
                0 <= i <= e,
        ;
        assert(s < 0 ==> e * s <= i * s <= 0) by (nonlinear_arith)
            requires
                0 <= i <= e,
        ;
    }
}

/// Shape, strides and offset of a view.
#[derive(Clone, Copy, Debug, PartialEq, Eq)]
pub struct Strider<const D: usize> {
    /// Extent of each dimension.
    pub shape: [usize; D],
    /// Distance between neighbours along each dimension.
    pub strides: [isize; D],
    /// Position of the index that is zero in every dimension.
    pub offset: usize,
}

impl<const D: usize> Strider<D> {
    /// Whether `index` names an element: one entry per dimension, each below
    /// the extent.
    pub open spec fn valid_index(&self, index: Seq<usize>) -> bool {
        &&& index.len() == D
        &&& forall|k: int| 0 <= k < D ==> index[k] < self.shape@[k]
    }

    /// Position of the element at `index`.
    pub open spec fn spec_position(&self, index: Seq<usize>) -> int {
        self.offset + weighted_sum(index, self.strides@, D as int)
    }

    /// Whether no index is valid.
    pub open spec fn spec_is_empty(&self) -> bool {
        exists|k: int| 0 <= k < D && self.shape@[k] == 0
    }

    /// Number of valid indices.
    pub open spec fn spec_len(&self) -> nat {
        shape_product(self.shape@)
    }

    /// Whether every element stands at a position in `0..capacity`.
    pub open spec fn within(&self, capacity: int) -> bool {
        forall|index: Seq<usize>| #[trigger]
            self.valid_index(index) ==> 0 <= self.spec_position(index) < capacity
    }

    /// The lowest position of an element, where there is one.
    pub open spec fn spec_lowest(&self) -> int {
        self.offset + reach_down(self.shape@, self.strides@, D as int)
    }

    /// The highest position of an element, where there is one.
    pub open spec fn spec_highest(&self) -> int {
        self.offset + reach_up(self.shape@, self.strides@, D as int)
    }

    /// The index that stands lowest: the last one along each negative
    /// stride, the first one elsewhere.
    pub open spec fn lowest_index(&self) -> Seq<usize> {
        Seq::new(
            D as nat,
            |k: int|
                if self.strides@[k] < 0 {
                    (self.shape@[k] - 1) as usize
                } else {
                    0
                },
        )
    }

    /// The index that stands highest: the last one along each positive
    /// stride, the first one elsewhere.
    pub open spec fn highest_index(&self) -> Seq<usize> {
        Seq::new(
            D as nat,
            |k: int|
                if self.strides@[k] > 0 {
                    (self.shape@[k] - 1) as usize
                } else {
                    0
                },
        )
    }

    /// Whether the strides are the row-major ones and the offset is zero.
    pub open spec fn spec_is_contiguous(&self) -> bool {
        &&& self.offset == 0
        &&& forall|k: int|
            0 <= k < D ==> self.strides@[k] == #[trigger] shape_product(self.shape@.skip(k + 1))
    }

    /// Every element stands between the lowest and the highest position.
    pub proof fn lemma_position_in_span(&self, index: Seq<usize>)
        requires
            self.valid_index(index),
        ensures
            self.spec_lowest() <= self.spec_position(index) <= self.spec_highest(),
    {
        lemma_sum_within_reach(self.shape@, self.strides@, index, D as int);
    }

    /// Where there is an element, one stands at the lowest position and one
    /// at the highest.
    pub proof fn lemma_span_reached(&self)
        requires
            !self.spec_is_empty(),
        ensures
            self.valid_index(self.lowest_index()),
            self.valid_index(self.highest_index()),
            self.spec_position(self.lowest_index()) == self.spec_lowest(),
            self.spec_position(self.highest_index()) == self.spec_highest(),
    {
        self.lemma_extremes(D as int);
    }

    proof fn lemma_extremes(&self, n: int)
        requires
            !self.spec_is_empty(),
            0 <= n <= D,
        ensures
            weighted_sum(self.lowest_index(), self.strides@, n) == reach_down(
                self.shape@,
                self.strides@,
                n,
            ),
            weighted_sum(self.highest_index(), self.strides@, n) == reach_up(
                self.shape@,
                self.strides@,
                n,
            ),
        decreases n,
    {
        if n > 0 {
            self.lemma_extremes(n - 1);
            let e = self.shape@[n - 1] - 1;
            let s = self.strides@[n - 1] as int;
            assert(e >= 0);
            assert(s < 0 ==> e * s <= 0) by (nonlinear_arith)
                requires
                    e >= 0,
            ;
            assert(s > 0 ==> e * s >= 0) by (nonlinear_arith)
                requires
                    e >= 0,
            ;
            assert(e * 0 == 0 && 0 * s == 0) by (nonlinear_arith);
            assert(s < 0 && e * s == 0 ==> e == 0) by (nonlinear_arith);
            assert(s > 0 && e * s == 0 ==> e == 0) by (nonlinear_arith);
        }
    }

    /// A row-major view with an element places its elements from position
    /// zero up to one below their number.
    pub proof fn lemma_contiguous_span(&self)
        requires
            self.spec_is_contiguous(),
            !self.spec_is_empty(),
        ensures
            self.spec_lowest() == 0,
            self.spec_highest() == self.spec_len() - 1,
    {
        self.lemma_contiguous_reach(D as int);
        assert(self.shape@.skip(0) =~= self.shape@);
        assert(self.shape@.skip(D as int).len() == 0);
    }

    proof fn lemma_contiguous_reach(&self, n: int)
        requires
            self.spec_is_contiguous(),
            !self.spec_is_empty(),
            0 <= n <= D,
        ensures
            reach_down(self.shape@, self.strides@, n) == 0,
            reach_up(self.shape@, self.strides@, n) == shape_product(self.shape@.skip(0))
                - shape_product(self.shape@.skip(n)),
        decreases n,
    {
        if n > 0 {
            self.lemma_contiguous_reach(n - 1);
            lemma_product_step(self.shape@, n - 1);
            let e = self.shape@[n - 1] as int;
            let rest = shape_product(self.shape@.skip((n - 1) + 1)) as int;
            assert(self.strides@[n - 1] == rest);
            assert((e - 1) * rest == e * rest - rest) by (nonlinear_arith);
            assert((e - 1) * rest >= 0) by (nonlinear_arith)
                requires
                    e >= 1,
                    rest >= 0,
            ;
        }
    }

    /// A view lies within a capacity exactly if it is empty or its lowest
    /// and highest positions do.
    pub proof fn lemma_within_by_span(&self, capacity: int)
        ensures
            self.within(capacity) <==> self.spec_is_empty() || (0 <= self.spec_lowest()
                && self.spec_highest() < capacity),
    {
        if self.spec_is_empty() {
            let zero = choose|k: int| 0 <= k < D && self.shape@[k] == 0;
            assert forall|index: Seq<usize>| #[trigger] self.valid_index(index) implies 0
                <= self.spec_position(index) < capacity by {
                assert(index[zero] < self.shape@[zero]);
            }
        } else {
            self.lemma_span_reached();
            if 0 <= self.spec_lowest() && self.spec_highest() < capacity {
                assert forall|index: Seq<usize>| #[trigger] self.valid_index(index) implies 0
                    <= self.spec_position(index) < capacity by {
                    self.lemma_position_in_span(index);
                }
            }
        }
    }

    /// A strider of the given parts.
    pub fn new(shape: [usize; D], strides: [isize; D], offset: usize) -> (s: Self)
        ensures
            s.shape == shape,
            s.strides == strides,
            s.offset == offset,
    {
        Strider { shape, strides, offset }
    }

    /// The row-major strider of `shape`, at offset zero.
    pub fn contiguous(shape: [usize; D]) -> (s: Self)
        requires
            strides_fit(shape@),
        ensures
            s.shape == shape,
            s.spec_is_contiguous(),
    {
        let strides = contiguous_strides(&shape);
        Strider { shape, strides, offset: 0 }
    }

    /// Extent of each dimension.
    pub fn shape(&self) -> (shape: [usize; D])
        ensures
            shape == self.shape,
    {
        self.shape
    }

    /// Distance between neighbours along each dimension.
    pub fn strides(&self) -> (strides: [isize; D])
        ensures
            strides == self.strides,
    {
        self.strides
    }

    /// Position of the index that is zero in every dimension.
    pub fn offset(&self) -> (offset: usize)
        ensures
            offset == self.offset,
    {
        self.offset
    }

    /// Whether no index is valid.
    pub fn is_empty(&self) -> (empty: bool)
        ensures
            empty == self.spec_is_empty(),
    {
        let mut k: usize = 0;
        while k < D
            invariant
                k <= D,
                forall|j: int| 0 <= j < k ==> self.shape@[j] != 0,
            decreases D - k,
        {
            if self.shape[k] == 0 {
                return true;
            }
            k += 1;
        }
        false
    }

    /// Number of valid indices, or `None` where it is too large to
    /// represent.
    pub fn checked_len(&self) -> (len: Option<usize>)
        ensures
            len is Some <==> self.spec_len() <= usize::MAX,
            len matches Some(n) ==> n == self.spec_len(),
    {
        if self.is_empty() {
            proof {
                let k = choose|k: int| 0 <= k < D && self.shape@[k] == 0;
                lemma_product_zero(self.shape@, k);
            }
            return Some(0);
        }
        let mut k: usize = D;
        let mut run: usize = 1;
        proof {
            assert(self.shape@.skip(D as int).len() == 0);
            assert(self.shape@.skip(0) =~= self.shape@);
        }
        while k > 0
            invariant
                k <= D,
                self.shape@.len() == D,
                forall|i: int| 0 <= i < D ==> self.shape@[i] >= 1,
                run == shape_product(self.shape@.skip(k as int)),
            decreases k,
        {
            k -= 1;
            proof {
                lemma_product_step(self.shape@, k as int);
            }
            match self.shape[k].checked_mul(run) {
                Some(next) => {
                    run = next;
                },
                None => {
                    proof {
                        lemma_product_grows(self.shape@, 0, k as int);
                        assert(self.shape@.skip(0) =~= self.shape@);
                    }
                    return None;
                },
            }
        }
        Some(run)
    }

    /// The lowest and the highest position of an element, where there is an
    /// element and all of them stand in `0..capacity`.
    pub fn span(&self, capacity: u128) -> (r: Option<(u128, u128)>)
        ensures
            r is Some <==> !self.spec_is_empty() && self.within(capacity as int),
            r matches Some((low, high)) ==> {
                &&& low == self.spec_lowest()
                &&& high == self.spec_highest()
                &&& low <= high < capacity
            },
    {
        proof {
            self.lemma_within_by_span(capacity as int);
            lemma_reach_widens(self.shape@, self.strides@, 0, D as int);
        }
        if self.is_empty() {
            return None;
        }
        if self.offset as u128 >= capacity {
            return None;
        }
        let mut low: u128 = self.offset as u128;
        let mut high: u128 = self.offset as u128;
        let mut k: usize = 0;
        while k < D
            invariant
                k <= D,
                forall|j: int| 0 <= j < D ==> self.shape@[j] >= 1,
                low == self.offset + reach_down(self.shape@, self.strides@, k as int),
                high == self.offset + reach_up(self.shape@, self.strides@, k as int),
                low <= high < capacity,
                self.within(capacity as int) <==> (0 <= self.spec_lowest() && self.spec_highest()
                    < capacity),
            decreases D - k,
        {
            let extent: u128 = (self.shape[k] - 1) as u128;
            let stride: isize = self.strides[k];
            proof {
                lemma_reach_widens(self.shape@, self.strides@, k + 1, D as int);
            }
            if stride >= 0 {
                let pace: u128 = stride as u128;
                assert(extent * pace <= 0xffff_ffff_ffff_ffff * 0x8000_0000_0000_0000)
                    by (nonlinear_arith)
                    requires
                        extent <= 0xffff_ffff_ffff_ffff,
                        pace <= 0x8000_0000_0000_0000,
                ;
                assert(extent * pace >= 0) by (nonlinear_arith);
                assert(pace == 0 ==> extent * pace == 0) by (nonlinear_arith);
                let step: u128 = extent * pace;
                if step > capacity - 1 - high {
                    return None;
                }
                high = high + step;
            } else {
                let pace: u128 = (-(stride as i128)) as u128;
                assert(extent * pace <= 0xffff_ffff_ffff_ffff * 0x8000_0000_0000_0000)
                    by (nonlinear_arith)
                    requires
                        extent <= 0xffff_ffff_ffff_ffff,
                        pace <= 0x8000_0000_0000_0000,
                ;
                assert(extent * pace >= 0) by (nonlinear_arith);
                assert(extent * (stride as int) == -(extent * pace)) by (nonlinear_arith)
                    requires
                        pace == -(stride as int),
                ;
                let step: u128 = extent * pace;
                if step > low {
                    return None;
                }
                low = low - step;
            }
            k += 1;
        }
        Some((low, high))
    }

    /// Whether every element stands at a position in `0..capacity`.
    pub fn fits_within(&self, capacity: u128) -> (fits: bool)
        ensures
            fits == self.within(capacity as int),
    {
        if self.is_empty() {
            proof {
                self.lemma_within_by_span(capacity as int);
            }
            true
        } else {
            self.span(capacity).is_some()
        }
    }
}

} // verus!
