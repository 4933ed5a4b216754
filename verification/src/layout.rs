//! The layout of an N-dimensional array over a flat buffer: shape, stride,
//! adjacent stride, offset and element count.
use vstd::prelude::*;
use crate::errors::OpError;
use crate::internals::{
    adjacent_stride, adjacent_stride_fits, adjacent_strides_fit, calculate_adjacent_dim_stride,
    calculate_dim_stride, carried, dim_stride, dim_strides_fit, product,
};

verus! {
/// How an N-dimensional array lies over a flat buffer.
#[derive(Debug)]
pub struct Layout {
    pub(crate) shape: Vec<i32>,
    pub(crate) stride: Vec<i32>,
    pub(crate) adj_stride: Vec<i32>,
    pub(crate) offset: usize,
    pub(crate) len: usize,
}

/// The mathematical value of a [`Layout`].
pub struct LayoutView {
    /// The extent of each dimension.
    pub shape: Seq<i32>,
    /// The element distance of one step in each dimension.
    pub stride: Seq<i32>,
    /// The net element distance applied when a row-major walk carries into
    /// each dimension.
    pub adj_stride: Seq<i32>,
    /// The distance from the buffer's start to the element at index (0, .., 0).
    pub offset: nat,
    /// The number of elements.
    pub len: nat,
}

impl View for Layout {
    type V = LayoutView;

    closed spec fn view(&self) -> LayoutView {
        LayoutView {
            shape: self.shape@,
            stride: self.stride@,
            adj_stride: self.adj_stride@,
            offset: self.offset as nat,
            len: self.len as nat,
        }
    }
}

/// Whether `shape` is the shape of a layout: at least one dimension, every
/// extent at least 1, and an element count that an `i32` can hold.
pub open spec fn shape_valid(shape: Seq<i32>) -> bool {
    &&& shape.len() >= 1
    &&& forall|k: int| 0 <= k < shape.len() ==> #[trigger] shape[k] >= 1
    &&& product(shape) <= i32::MAX
}

/// Exchanges the entries at `i` and `j`.
pub open spec fn swapped(s: Seq<i32>, i: int, j: int) -> Seq<i32> {
    s.update(i, s[j]).update(j, s[i])
}

impl LayoutView {
    /// The number of dimensions.
    pub open spec fn rank(self) -> nat {
        self.shape.len()
    }

    /// The invariant of a layout: the three sequences have one length, which
    /// is at least 1; the shape is valid and the element count is its product;
    /// the adjacent strides are those that strides and shape determine.
    pub open spec fn wf(self) -> bool {
        &&& shape_valid(self.shape)
        &&& self.stride.len() == self.shape.len()
        &&& self.adj_stride.len() == self.shape.len()
        &&& self.len == product(self.shape)
        &&& forall|k: int|
            0 <= k < self.shape.len() ==> #[trigger] self.adj_stride[k] == adjacent_stride(
                self.stride,
                self.shape,
                k,
            )
    }

    /// The row-major layout of `shape` that starts at `offset`.
    pub open spec fn row_major(shape: Seq<i32>, offset: nat) -> LayoutView {
        LayoutView {
            shape,
            stride: Seq::new(shape.len(), |k: int| dim_stride(shape, k) as i32),
            adj_stride: Seq::new(shape.len(), |k: int| 1i32),
            offset,
            len: product(shape) as nat,
        }
    }

    /// The layout with the given shape and strides that starts at `offset`.
    pub open spec fn strided(shape: Seq<i32>, stride: Seq<i32>, offset: nat) -> LayoutView {
        LayoutView {
            shape,
            stride,
            adj_stride: Seq::new(stride.len(), |k: int| adjacent_stride(stride, shape, k) as i32),
            offset,
            len: product(shape) as nat,
        }
    }

    /// Whether the strides are those of a row-major packing: 1 in the last
    /// dimension, and in every other the stride of the next times its extent.
    pub open spec fn is_contiguous(self) -> bool {
        &&& self.stride.len() >= 1
        &&& self.stride.len() == self.shape.len()
        &&& self.stride[self.stride.len() - 1] == 1
        &&& forall|e: int|
            1 <= e < self.stride.len() ==> self.stride[e - 1] == self.stride[e]
                * #[trigger] self.shape[e]
    }

    /// Whether `shape` can replace the shape of this layout.
    pub open spec fn view_legal(self, shape: Seq<i32>) -> bool {
        shape_valid(shape) && product(shape) == self.len
    }

    /// This layout seen through `shape`: row-major from the same offset.
    pub open spec fn viewed(self, shape: Seq<i32>) -> LayoutView {
        LayoutView::row_major(shape, self.offset)
    }

    /// This layout with the strides of dimensions `i` and `j` exchanged.
    pub open spec fn transposed(self, i: int, j: int) -> LayoutView {
        LayoutView::strided(self.shape, swapped(self.stride, i, j), self.offset)
    }
}

/// Every tail of a valid shape has a product between 1 and the product of
/// the whole.
pub proof fn lemma_tail_product_bounds(shape: Seq<i32>, k: int)
    requires
        forall|d: int| 0 <= d < shape.len() ==> #[trigger] shape[d] >= 1,
        0 <= k <= shape.len(),
    ensures
        1 <= product(shape.skip(k)) <= product(shape),
    decreases k,
{
    if k == 0 {
        assert(shape.skip(0) =~= shape);
        lemma_product_positive(shape);
    } else {
        lemma_tail_product_bounds(shape, k - 1);
        let tail = shape.skip(k - 1);
        assert(tail.skip(1) =~= shape.skip(k));
        lemma_product_positive(shape.skip(k));
        assert(product(shape.skip(k)) <= shape[k - 1] * product(shape.skip(k)))
            by (nonlinear_arith)
            requires
                shape[k - 1] >= 1,
                product(shape.skip(k)) >= 1,
        ;
    }
}

/// A product of extents that are all at least 1 is at least 1.
pub proof fn lemma_product_positive(s: Seq<i32>)
    requires
        forall|d: int| 0 <= d < s.len() ==> #[trigger] s[d] >= 1,
    ensures
        product(s) >= 1,
    decreases s.len(),
{
    if s.len() > 0 {
        lemma_product_positive(s.skip(1));
        assert(s[0] * product(s.skip(1)) >= 1) by (nonlinear_arith)
            requires
                s[0] >= 1,
                product(s.skip(1)) >= 1,
        ;
    }
}

/// The row-major strides of a valid shape can be held in an `i32`.
pub proof fn lemma_valid_shape_strides_fit(shape: Seq<i32>)
    requires
        shape_valid(shape),
    ensures
        dim_strides_fit(shape),
        forall|k: int| 0 <= k < shape.len() ==> 1 <= #[trigger] dim_stride(shape, k) <= product(shape),
{
    assert forall|k: int| 0 <= k < shape.len() implies 1 <= #[trigger] dim_stride(shape, k)
        <= product(shape) by {
        lemma_tail_product_bounds(shape, k + 1);
    }
}

/// With row-major strides, the dimensions after `k` cover one element less
/// than the stride of `k`.
pub proof fn lemma_row_major_carried(shape: Seq<i32>, stride: Seq<i32>, k: int)
    requires
        stride.len() == shape.len(),
        forall|d: int| 0 <= d < shape.len() ==> #[trigger] stride[d] == dim_stride(shape, d),
        0 <= k < shape.len(),
    ensures
        carried(stride, shape, k) == dim_stride(shape, k) - 1,
    decreases shape.len() - k,
{
    if k + 1 >= shape.len() {
    } else {
        lemma_row_major_carried(shape, stride, k + 1);
        let tail = shape.skip(k + 1);
        assert(tail.skip(1) =~= shape.skip(k + 2));
        assert(dim_stride(shape, k + 1) - 1 + dim_stride(shape, k + 1) * (shape[k + 1] - 1)
            == shape[k + 1] * dim_stride(shape, k + 1) - 1) by (nonlinear_arith);
    }
}

/// The adjacent strides that row-major strides determine are all 1.
pub proof fn lemma_row_major_adjacent_ones(shape: Seq<i32>, stride: Seq<i32>)
    requires
        stride.len() == shape.len(),
        forall|d: int| 0 <= d < shape.len() ==> #[trigger] stride[d] == dim_stride(shape, d),
    ensures
        forall|k: int| 0 <= k < shape.len() ==> #[trigger] adjacent_stride(stride, shape, k) == 1,
{
    assert forall|k: int| 0 <= k < shape.len() implies #[trigger] adjacent_stride(
        stride,
        shape,
        k,
    ) == 1 by {
        lemma_row_major_carried(shape, stride, k);
    }
}

/// A freshly built row-major layout over a valid shape is well formed, and
/// its adjacent strides are all 1.
pub proof fn lemma_row_major_wf(shape: Seq<i32>, offset: nat)
    requires
        shape_valid(shape),
    ensures
        LayoutView::row_major(shape, offset).wf(),
        LayoutView::row_major(shape, offset).is_contiguous(),
        forall|k: int|
            0 <= k < shape.len() ==> #[trigger] LayoutView::row_major(shape, offset).adj_stride[k]
                == 1,
{
    let l = LayoutView::row_major(shape, offset);
    lemma_valid_shape_strides_fit(shape);
    lemma_product_positive(shape);
    lemma_row_major_adjacent_ones(shape, l.stride);
    let n = shape.len() as int;
    assert forall|e: int| 1 <= e < n implies l.stride[e - 1] == l.stride[e]
        * #[trigger] l.shape[e] by {
        let d = e - 1;
        let tail = shape.skip(d + 1);
        assert(tail.skip(1) =~= shape.skip(d + 2));
        assert(shape[d + 1] * dim_stride(shape, d + 1) == dim_stride(shape, d + 1) * shape[d + 1])
            by (nonlinear_arith);
    }
}

/// The element count of a valid shape.
fn shape_len(shape: &[i32]) -> (n: usize)
    requires
        shape_valid(shape@),
    ensures
        n == product(shape@),
{
    let mut i: usize = shape.len();
    let mut acc: i32 = 1;
    while i > 0
        invariant
            0 <= i <= shape@.len(),
            shape_valid(shape@),
            acc == product(shape@.skip(i as int)),
        decreases i,
    {
        proof {
            lemma_tail_product_bounds(shape@, i - 1);
            let tail = shape@.skip(i - 1);
            assert(tail.skip(1) =~= shape@.skip(i as int));
        }
        acc = shape[i - 1] * acc;
        i = i - 1;
    }
    proof {
        assert(shape@.skip(0) =~= shape@);
        lemma_product_positive(shape@);
    }
    acc as usize
}

/// The element count of `shape` if `shape` is valid.
pub fn checked_shape_len(shape: &[i32]) -> (r: Option<usize>)
    ensures
        r is Some <==> shape_valid(shape@),
        r matches Some(n) ==> n == product(shape@),
{
    if shape.len() == 0 {
        return None;
    }
    let mut i: usize = shape.len();
    let mut acc: i64 = 1;
    while i > 0
        invariant
            0 <= i <= shape@.len(),
            shape@.len() >= 1,
            forall|k: int| i <= k < shape@.len() ==> #[trigger] shape@[k] >= 1,
            1 <= acc <= i32::MAX,
            acc == product(shape@.skip(i as int)),
        decreases i,
    {
        let dim: i32 = shape[i - 1];
        proof {
            let tail = shape@.skip(i - 1);
            assert(tail.skip(1) =~= shape@.skip(i as int));
            if shape_valid(shape@) {
                lemma_tail_product_bounds(shape@, i - 1);
            }
        }
        if dim < 1 {
            return None;
        }
        assert(1 <= dim * acc <= 0x7fff_ffff * 0x7fff_ffff) by (nonlinear_arith)
            requires
                1 <= dim <= 0x7fff_ffff,
                1 <= acc <= 0x7fff_ffff,
        ;
        let next: i64 = (dim as i64) * acc;
        if next > i32::MAX as i64 {
            return None;
        }
        acc = next;
        i = i - 1;
    }
    proof {
        assert(shape@.skip(0) =~= shape@);
    }
    Some(acc as usize)
}

impl Clone for Layout {
    fn clone(&self) -> (r: Self)
        ensures
            r@ == self@,
    {
        let r = Layout {
            shape: self.shape.clone(),
            stride: self.stride.clone(),
            adj_stride: self.adj_stride.clone(),
            offset: self.offset,
            len: self.len,
        };
        r
    }
}

/// The offset and the element count of a layout are machine numbers, and so
/// is the number of its dimensions.
pub proof fn lemma_layout_bounds(l: Layout)
    ensures
        l@.offset <= usize::MAX,
        l@.len <= usize::MAX,
        l@.shape.len() <= usize::MAX,
        l@.stride.len() <= usize::MAX,
        l@.adj_stride.len() <= usize::MAX,
{
    assert(l.shape@.len() == l.shape.len());
    assert(l.stride@.len() == l.stride.len());
    assert(l.adj_stride@.len() == l.adj_stride.len());
}

impl Layout {
    /// The invariant of a layout; see [`LayoutView::wf`].
    pub open spec fn wf(&self) -> bool {
        self@.wf()
    }

    /// A layout from its three sequences, starting at offset 0.
    pub fn new(shape: Vec<i32>, stride: Vec<i32>, adj_stride: Vec<i32>) -> (r: Self)
        requires
            shape_valid(shape@),
        ensures
            r@ == (LayoutView {
                shape: shape@,
                stride: stride@,
                adj_stride: adj_stride@,
                offset: 0,
                len: product(shape@) as nat,
            }),
    {
        let len = shape_len(shape.as_slice());
        Self { shape, stride, adj_stride, offset: 0, len }
    }

    /// A layout from its three sequences and its offset.
    pub fn from_parts(shape: Vec<i32>, stride: Vec<i32>, adj_stride: Vec<i32>, offset: usize) -> (r:
        Self)
        requires
            shape_valid(shape@),
        ensures
            r@ == (LayoutView {
                shape: shape@,
                stride: stride@,
                adj_stride: adj_stride@,
                offset: offset as nat,
                len: product(shape@) as nat,
            }),
    {
        let len = shape_len(shape.as_slice());
        Self { shape, stride, adj_stride, offset, len }
    }

    /// The row-major layout of `shape`, starting at offset 0.
    pub fn from_shape(shape: &[i32]) -> (r: Self)
        requires
            shape_valid(shape@),
        ensures
            r@ == LayoutView::row_major(shape@, 0),
            r.wf(),
            forall|k: int| 0 <= k < shape@.len() ==> #[trigger] r@.adj_stride[k] == 1,
    {
        Self::from_shape_at(shape, 0)
    }

    /// The row-major layout of `shape`, starting at `offset`.
    pub fn from_shape_at(shape: &[i32], offset: usize) -> (r: Self)
        requires
            shape_valid(shape@),
        ensures
            r@ == LayoutView::row_major(shape@, offset as nat),
            r.wf(),
            forall|k: int| 0 <= k < shape@.len() ==> #[trigger] r@.adj_stride[k] == 1,
    {
        proof {
            lemma_valid_shape_strides_fit(shape@);
            lemma_row_major_wf(shape@, offset as nat);
        }
        let len = shape_len(shape);
        let stride = calculate_dim_stride(shape);
        let mut adj_stride: Vec<i32> = Vec::new();
        adj_stride.resize(shape.len(), 1);
        let r = Self { shape: vstd::slice::slice_to_vec(shape), stride, adj_stride, offset, len };
        proof {
            let l = LayoutView::row_major(shape@, offset as nat);
            assert(r@.stride =~= l.stride);
            assert(r@.adj_stride =~= l.adj_stride);
        }
        r
    }

    /// The layout with the given shape and strides, starting at offset 0. The
    /// adjacent strides are derived from both.
    pub fn from_slice(shape: &[i32], stride: &[i32]) -> (r: Self)
        requires
            shape_valid(shape@),
            stride@.len() == shape@.len(),
            adjacent_strides_fit(stride@, shape@),
        ensures
            r@ == LayoutView::strided(shape@, stride@, 0),
            r.wf(),
    {
        Self::from_slice_at(shape, stride, 0)
    }

    /// The layout with the given shape and strides, starting at `offset`.
    pub fn from_slice_at(shape: &[i32], stride: &[i32], offset: usize) -> (r: Self)
        requires
            shape_valid(shape@),
            stride@.len() == shape@.len(),
            adjacent_strides_fit(stride@, shape@),
        ensures
            r@ == LayoutView::strided(shape@, stride@, offset as nat),
            r.wf(),
    {
        let len = shape_len(shape);
        let adj_stride = calculate_adjacent_dim_stride(stride, shape);
        let r = Self {
            shape: vstd::slice::slice_to_vec(shape),
            stride: vstd::slice::slice_to_vec(stride),
            adj_stride,
            offset,
            len,
        };
        proof {
            let l = LayoutView::strided(shape@, stride@, offset as nat);
            assert(r@.adj_stride =~= l.adj_stride);
            lemma_product_positive(shape@);
        }
        r
    }

    #[inline]
    pub fn shape(&self) -> (s: &[i32])
        ensures
            s@ == self@.shape,
    {
        self.shape.as_slice()
    }

    #[inline]
    pub fn stride(&self) -> (s: &[i32])
        ensures
            s@ == self@.stride,
    {
        self.stride.as_slice()
    }

    #[inline]
    pub fn adj_stride(&self) -> (s: &[i32])
        ensures
            s@ == self@.adj_stride,
    {
        self.adj_stride.as_slice()
    }

    #[inline]
    pub fn offset(&self) -> (n: usize)
        ensures
            n == self@.offset,
    {
        self.offset
    }

    #[inline]
    pub fn len(&self) -> (n: usize)
        ensures
            n == self@.len,
    {
        self.len
    }

    /// Whether the strides are those of a row-major packing.
    pub fn is_contiguous(&self) -> (r: bool)
        ensures
            r == self@.is_contiguous(),
    {
        let n: usize = self.stride.len();
        if n == 0 || self.shape.len() != n {
            return false;
        }
        if self.stride[n - 1] != 1 {
            return false;
        }
        let mut d: usize = 0;
        while d + 1 < n
            invariant
                n == self.stride@.len(),
                n == self.shape@.len(),
                0 <= d < n,
                forall|e: int|
                    1 <= e <= d ==> self.stride@[e - 1] == self.stride@[e]
                        * #[trigger] self.shape@[e],
            decreases n - d,
        {
            let a: i32 = self.stride[d + 1];
            let b: i32 = self.shape[d + 1];
            assert(-0x8000_0000 * 0x8000_0000 <= a * b <= 0x8000_0000 * 0x8000_0000)
                by (nonlinear_arith)
                requires
                    -0x8000_0000 <= a <= 0x7fff_ffff,
                    -0x8000_0000 <= b <= 0x7fff_ffff,
            ;
            let next: i64 = (a as i64) * (b as i64);
            if self.stride[d] as i64 != next {
                return false;
            }
            d = d + 1;
        }
        true
    }

    /// Whether the layout is well formed; see [`LayoutView::wf`].
    pub fn is_well_formed(&self) -> (r: bool)
        ensures
            r == self.wf(),
    {
        match checked_shape_len(self.shape.as_slice()) {
            Some(n) => {
                n == self.len && self.stride.len() == self.shape.len() && self.adj_stride.len()
                    == self.shape.len() && crate::internals::adjacent_strides_are(
                    self.stride.as_slice(),
                    self.shape.as_slice(),
                    self.adj_stride.as_slice(),
                )
            },
            None => false,
        }
    }

    /// Whether every element of the layout lies in a buffer of `n` elements.
    pub fn fits(&self, n: usize) -> (r: bool)
        requires
            self.wf(),
        ensures
            r == crate::walk::layout_fits(self@, n as int),
    {
        let rank: usize = self.shape.len();
        let mut below: i128 = 0;
        let mut above: i128 = 0;
        let mut d: usize = 0;
        while d < rank
            invariant
                self.wf(),
                rank == self.shape@.len(),
                0 <= d <= rank,
                below == crate::walk::reach_below(self.shape@, self.stride@, d as int),
                above == crate::walk::reach_above(self.shape@, self.stride@, d as int),
                -(d as int) * 0x4000_0000_0000_0000 <= below <= 0,
                0 <= above <= (d as int) * 0x4000_0000_0000_0000,
            decreases rank - d,
        {
            let extent: i32 = self.shape[d];
            let step: i32 = self.stride[d];
            assert(-0x4000_0000_0000_0000 <= (extent - 1) * step <= 0x4000_0000_0000_0000)
                by (nonlinear_arith)
                requires
                    0 <= extent - 1 <= 0x7fff_ffff,
                    -0x8000_0000 <= step <= 0x7fff_ffff,
            ;
            assert(step < 0 ==> (extent - 1) * step <= 0) by (nonlinear_arith)
                requires
                    0 <= extent - 1,
            ;
            assert(step > 0 ==> (extent - 1) * step >= 0) by (nonlinear_arith)
                requires
                    0 <= extent - 1,
            ;
            assert((d as int + 1) * 0x4000_0000_0000_0000 == (d as int) * 0x4000_0000_0000_0000
                + 0x4000_0000_0000_0000) by (nonlinear_arith);
            assert((d as int) * 0x4000_0000_0000_0000 <= 0xffff_ffff_ffff_ffff
                * 0x4000_0000_0000_0000) by (nonlinear_arith)
                requires
                    0 <= d <= 0xffff_ffff_ffff_ffff,
            ;
            let reach: i128 = ((extent - 1) as i128) * (step as i128);
            if step < 0 {
                below = below + reach;
            } else if step > 0 {
                above = above + reach;
            }
            d = d + 1;
        }
        proof {
            crate::walk::lemma_fits_by_reach(self@, n as int);
        }
        self.offset as i128 + below >= 0 && self.offset as i128 + above < n as i128
    }

    /// This layout seen through another shape of the same element count:
    /// row-major, from the same offset. No element moves.
    pub fn view_as(&self, shape: &[i32]) -> (r: Result<Layout, OpError<'static>>)
        ensures
            r is Ok <==> self@.view_legal(shape@),
            r matches Ok(l) ==> l@ == self@.viewed(shape@) && l.wf(),
            r matches Err(e) ==> e is InvalidViewShape,
    {
        match checked_shape_len(shape) {
            Some(n) => {
                if n == self.len {
                    Ok(Self::from_shape_at(shape, self.offset))
                } else {
                    Err(OpError::InvalidViewShape)
                }
            },
            None => Err(OpError::InvalidViewShape),
        }
    }

    /// This layout with the strides of dimensions `i` and `j` exchanged and
    /// the adjacent strides derived anew. No element moves. The exchange can
    /// be made again on what comes back, and then gives this layout.
    pub fn transposed(&self, i: usize, j: usize) -> (r: Layout)
        requires
            self.wf(),
            i < self@.rank(),
            j < self@.rank(),
            adjacent_strides_fit(swapped(self@.stride, i as int, j as int), self@.shape),
        ensures
            r@ == self@.transposed(i as int, j as int),
            r.wf(),
            adjacent_strides_fit(swapped(r@.stride, i as int, j as int), r@.shape),
            r@.transposed(i as int, j as int) == self@,
    {
        let mut stride = self.stride.clone();
        let a: i32 = stride[i];
        let b: i32 = stride[j];
        stride.set(i, b);
        stride.set(j, a);
        proof {
            law_transpose_involution(self@, i as int, j as int);
        }
        Self::from_slice_at(self.shape.as_slice(), stride.as_slice(), self.offset)
    }
}

/// A product of extents is at most the product of extents that are each at
/// least as large.
pub proof fn lemma_product_monotone(a: Seq<i32>, b: Seq<i32>)
    requires
        a.len() == b.len(),
        forall|d: int| 0 <= d < a.len() ==> 1 <= #[trigger] a[d] <= b[d],
    ensures
        1 <= product(a) <= product(b),
    decreases a.len(),
{
    if a.len() > 0 {
        lemma_product_monotone(a.skip(1), b.skip(1));
        assert(a[0] * product(a.skip(1)) <= b[0] * product(b.skip(1))) by (nonlinear_arith)
            requires
                1 <= a[0] <= b[0],
                1 <= product(a.skip(1)) <= product(b.skip(1)),
        ;
        assert(1 <= a[0] * product(a.skip(1))) by (nonlinear_arith)
            requires
                1 <= a[0],
                1 <= product(a.skip(1)),
        ;
    }
}

/// Seen through a legal shape a layout has that shape, and lies row-major
/// from the same offset.
pub proof fn law_view_has_requested_shape(l: LayoutView, shape: Seq<i32>)
    requires
        l.view_legal(shape),
    ensures
        l.viewed(shape).shape == shape,
        l.viewed(shape).len == l.len,
        l.viewed(shape).wf(),
{
    lemma_row_major_wf(shape, l.offset);
    lemma_product_positive(shape);
}

/// A contiguous layout seen through its own shape is the same layout.
pub proof fn law_view_of_own_shape(l: LayoutView)
    requires
        l.wf(),
        l.is_contiguous(),
    ensures
        l.view_legal(l.shape),
        l.viewed(l.shape) == l,
{
    let v = l.viewed(l.shape);
    lemma_product_positive(l.shape);
    lemma_contiguous_is_row_major(l, 0);
    assert(v.stride =~= l.stride);
    lemma_row_major_adjacent_ones(l.shape, l.stride);
    assert(v.adj_stride =~= l.adj_stride);
}

/// In a contiguous layout every stride is the row-major stride of its
/// dimension.
pub proof fn lemma_contiguous_is_row_major(l: LayoutView, k: int)
    requires
        l.wf(),
        l.is_contiguous(),
        0 <= k <= l.shape.len(),
    ensures
        forall|d: int| k <= d < l.shape.len() ==> #[trigger] l.stride[d] == dim_stride(l.shape, d),
    decreases l.shape.len() - k,
{
    let n = l.shape.len() as int;
    if k < n {
        lemma_contiguous_is_row_major(l, k + 1);
        if k == n - 1 {
        } else {
            let tail = l.shape.skip(k + 1);
            assert(tail.skip(1) =~= l.shape.skip(k + 2));
            assert(dim_stride(l.shape, k + 1) * l.shape[k + 1] == l.shape[k + 1] * dim_stride(
                l.shape,
                k + 1,
            )) by (nonlinear_arith);
        }
    }
}

/// Exchanging the strides of two dimensions twice gives back the layout,
/// and the second exchange stays within the machine's numbers wherever the
/// layout it gives back is well formed.
pub proof fn law_transpose_involution(l: LayoutView, i: int, j: int)
    requires
        l.wf(),
        0 <= i < l.rank(),
        0 <= j < l.rank(),
    ensures
        l.transposed(i, j).transposed(i, j) == l,
        adjacent_strides_fit(swapped(l.transposed(i, j).stride, i, j), l.transposed(i, j).shape),
{
    let once = l.transposed(i, j);
    let twice = once.transposed(i, j);
    assert(swapped(swapped(l.stride, i, j), i, j) =~= l.stride);
    assert(twice.adj_stride =~= l.adj_stride);
    lemma_product_positive(l.shape);
    assert forall|k: int| 0 <= k < l.stride.len() - 1 implies #[trigger] adjacent_stride_fits(
        swapped(once.stride, i, j),
        once.shape,
        k,
    ) by {
        assert(l.adj_stride[k] == adjacent_stride(l.stride, l.shape, k));
    }
}

} // verus!
