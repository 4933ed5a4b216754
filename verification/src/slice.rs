//! Slicing: ranges per dimension, and the shape, offset and adjacent strides
//! of the view they select.
use vstd::prelude::*;
use vstd::std_specs::convert::FromSpecImpl;
use std::ops::Range;
use crate::internals::{
    adjacent_stride, adjacent_strides_fit, calculate_adjacent_dim_stride, product,
};
use crate::iter::{InformedSliceIter, MutSliceIter, SliceIter, WalkView};
use crate::layout::{lemma_product_monotone, shape_valid, Layout, LayoutView};
use crate::storage::Storage;
use crate::traits::Dimension;
use crate::walk::{
    gathered, index_at, index_within, layout_fits, lemma_embedded_multiset, lemma_index_at_rank,
    lemma_index_at_within, lemma_rank_decides, position, rank_of, weighted,
};

verus! {
/// One end of a range over a dimension.
#[derive(Clone, Copy, Debug)]
pub enum SliceBounds {
    /// The first index of the dimension.
    Beginning,
    /// The index counted from the beginning.
    Index(usize),
    /// The index counted back from the extent: `ReverseIndex(1)` is the last.
    ReverseIndex(usize),
    /// One past the last index of the dimension.
    End,
}

/// A range of indices over one dimension.
#[derive(Clone, Copy, Debug)]
pub struct SliceRange {
    start: SliceBounds,
    end: SliceBounds,
}

/// The two ends of a [`SliceRange`].
pub struct SliceRangeView {
    pub start: SliceBounds,
    pub end: SliceBounds,
}

impl SliceRangeView {
    /// Whether each end is of a kind that can stand there: a range does not
    /// start at `End`, nor end at `Beginning`.
    pub open spec fn wf(self) -> bool {
        !(self.start is End) && !(self.end is Beginning)
    }

    /// The first index selected in a dimension of the given extent.
    pub open spec fn first(self, extent: int) -> int {
        match self.start {
            SliceBounds::Index(i) => i as int,
            SliceBounds::ReverseIndex(i) => extent - i,
            _ => 0,
        }
    }

    /// One past the last index selected in a dimension of the given extent.
    pub open spec fn past(self, extent: int) -> int {
        match self.end {
            SliceBounds::Index(i) => i as int,
            SliceBounds::ReverseIndex(i) => extent - i,
            _ => extent,
        }
    }

    /// Whether the range selects at least one index, and only indices of a
    /// dimension of the given extent.
    pub open spec fn within(self, extent: int) -> bool {
        self.wf() && 0 <= self.first(extent) < self.past(extent) <= extent
    }
}

/// The end that a signed index stands for: from the beginning when it is not
/// negative, else back from the extent.
pub open spec fn bound_of(i: i32) -> SliceBounds {
    if i >= 0 {
        SliceBounds::Index(i as usize)
    } else {
        SliceBounds::ReverseIndex((-i) as usize)
    }
}

fn bound_from(i: i32) -> (b: SliceBounds)
    ensures
        b == bound_of(i),
{
    if i >= 0 {
        SliceBounds::Index(i as usize)
    } else {
        let back: i64 = -(i as i64);
        SliceBounds::ReverseIndex(back as usize)
    }
}

impl View for SliceRange {
    type V = SliceRangeView;

    closed spec fn view(&self) -> SliceRangeView {
        SliceRangeView { start: self.start, end: self.end }
    }
}

impl SliceRange {
    /// The whole dimension, as `..`.
    pub fn all() -> (r: Self)
        ensures
            r@ == (SliceRangeView { start: SliceBounds::Beginning, end: SliceBounds::End }),
            r@.wf(),
    {
        Self { start: SliceBounds::Beginning, end: SliceBounds::End }
    }

    /// From `start` to the end of the dimension, as `start..`.
    pub fn starting_at(start: i32) -> (r: Self)
        ensures
            r@ == (SliceRangeView { start: bound_of(start), end: SliceBounds::End }),
            r@.wf(),
    {
        Self { start: bound_from(start), end: SliceBounds::End }
    }

    /// From the beginning of the dimension up to `end`, as `..end`.
    pub fn ending_at(end: i32) -> (r: Self)
        ensures
            r@ == (SliceRangeView { start: SliceBounds::Beginning, end: bound_of(end) }),
            r@.wf(),
    {
        Self { start: SliceBounds::Beginning, end: bound_from(end) }
    }

    /// From `start` up to `end`, as `start..end`.
    pub fn between(start: i32, end: i32) -> (r: Self)
        ensures
            r@ == (SliceRangeView { start: bound_of(start), end: bound_of(end) }),
            r@.wf(),
    {
        Self { start: bound_from(start), end: bound_from(end) }
    }
}

impl SliceRange {
    /// Whether the range selects at least one index, and only indices of a
    /// dimension of the given extent.
    pub fn fits(&self, extent: i32) -> (r: bool)
        ensures
            r == self@.within(extent as int),
    {
        let first: i128 = match self.start {
            SliceBounds::Index(i) => i as i128,
            SliceBounds::ReverseIndex(i) => extent as i128 - i as i128,
            SliceBounds::Beginning => 0,
            SliceBounds::End => {
                return false;
            },
        };
        let past: i128 = match self.end {
            SliceBounds::Index(i) => i as i128,
            SliceBounds::ReverseIndex(i) => extent as i128 - i as i128,
            SliceBounds::End => extent as i128,
            SliceBounds::Beginning => {
                return false;
            },
        };
        0 <= first && first < past && past <= extent as i128
    }
}

/// Whether `range` selects a slice of an array of the given shape.
pub fn ranges_fit(shape: &[i32], range: &[SliceRange]) -> (r: bool)
    ensures
        r == ranges_within(shape@, range_views(range@)),
{
    if range.len() > shape.len() {
        return false;
    }
    let mut d: usize = 0;
    while d < range.len()
        invariant
            range@.len() <= shape@.len(),
            0 <= d <= range@.len(),
            forall|e: int| 0 <= e < d ==> (#[trigger] range_views(range@)[e]).within(shape@[e] as int),
        decreases range@.len() - d,
    {
        if !range[d].fits(shape[d]) {
            assert(!range_views(range@)[d as int].within(shape@[d as int] as int));
            return false;
        }
        d = d + 1;
    }
    true
}

impl From<Range<i32>> for SliceRange {
    #[inline]
    fn from(value: Range<i32>) -> (r: Self) {
        Self { start: bound_from(value.start), end: bound_from(value.end) }
    }
}

impl FromSpecImpl<Range<i32>> for SliceRange {
    open spec fn obeys_from_spec() -> bool {
        true
    }

    closed spec fn from_spec(value: Range<i32>) -> Self {
        SliceRange { start: bound_of(value.start), end: bound_of(value.end) }
    }
}

/// The conversion from `start..end` gives the range between `start` and
/// `end`, each counted back from the extent where it is negative.
pub proof fn law_range_conversion(value: Range<i32>)
    ensures
        <SliceRange as vstd::std_specs::convert::FromSpec<Range<i32>>>::from_spec(value)@ == (SliceRangeView {
            start: bound_of(value.start),
            end: bound_of(value.end),
        }),
        <SliceRange as vstd::std_specs::convert::FromSpec<Range<i32>>>::from_spec(value)@.wf(),
{
}

/// Whether `ranges` select a slice of an array of the given shape: no more
/// ranges than dimensions, each within its dimension.
pub open spec fn ranges_within(shape: Seq<i32>, ranges: Seq<SliceRangeView>) -> bool {
    &&& ranges.len() <= shape.len()
    &&& forall|d: int| 0 <= d < ranges.len() ==> (#[trigger] ranges[d]).within(shape[d] as int)
}

/// The shape of the slice: the number of indices each range selects, and the
/// whole extent of the dimensions that have no range.
pub open spec fn sliced_shape(shape: Seq<i32>, ranges: Seq<SliceRangeView>) -> Seq<i32> {
    Seq::new(
        shape.len(),
        |d: int|
            if d < ranges.len() {
                (ranges[d].past(shape[d] as int) - ranges[d].first(shape[d] as int)) as i32
            } else {
                shape[d]
            },
    )
}

/// The distance from the origin of the array to the origin of the slice that
/// the first `n` ranges cover: the sum of first index times stride.
pub open spec fn sliced_distance(
    stride: Seq<i32>,
    shape: Seq<i32>,
    ranges: Seq<SliceRangeView>,
    n: int,
) -> int
    decreases n,
{
    if n <= 0 {
        0
    } else {
        sliced_distance(stride, shape, ranges, n - 1) + ranges[n - 1].first(shape[n - 1] as int)
            * stride[n - 1]
    }
}

/// The views of a list of ranges.
pub open spec fn range_views(ranges: Seq<SliceRange>) -> Seq<SliceRangeView> {
    Seq::new(ranges.len(), |d: int| ranges[d]@)
}

/// What a slice changes of the layout it is taken from.
#[derive(Debug)]
pub struct SliceInfo {
    pub(crate) offset: usize,
    pub(crate) shape: Vec<i32>,
    pub(crate) adj_stride: Vec<i32>,
}

/// The mathematical value of a [`SliceInfo`].
pub struct SliceInfoView {
    pub offset: nat,
    pub shape: Seq<i32>,
    pub adj_stride: Seq<i32>,
}

impl View for SliceInfo {
    type V = SliceInfoView;

    closed spec fn view(&self) -> SliceInfoView {
        SliceInfoView {
            offset: self.offset as nat,
            shape: self.shape@,
            adj_stride: self.adj_stride@,
        }
    }
}

impl SliceInfo {
    /// The slice of `container` that `range` selects, one range for each of
    /// the leading dimensions. Its shape counts the selected indices, its
    /// offset is that of the container moved by first index times stride in
    /// each dimension, and its adjacent strides follow from the container's
    /// strides and the new shape.
    pub fn from_range<T: Dimension>(container: &T, range: &[SliceRange]) -> (info: Self)
        requires
            container.shape_spec().len() >= 1,
            container.stride_spec().len() == container.shape_spec().len(),
            ranges_within(container.shape_spec(), range_views(range@)),
            container.offset_spec() + sliced_distance(
                container.stride_spec(),
                container.shape_spec(),
                range_views(range@),
                range@.len() as int,
            ) >= 0,
            container.offset_spec() + sliced_distance(
                container.stride_spec(),
                container.shape_spec(),
                range_views(range@),
                range@.len() as int,
            ) <= usize::MAX,
            adjacent_strides_fit(
                container.stride_spec(),
                sliced_shape(container.shape_spec(), range_views(range@)),
            ),
        ensures
            info@.shape == sliced_shape(container.shape_spec(), range_views(range@)),
            info@.offset == container.offset_spec() + sliced_distance(
                container.stride_spec(),
                container.shape_spec(),
                range_views(range@),
                range@.len() as int,
            ),
            info@.adj_stride.len() == container.shape_spec().len(),
            forall|k: int|
                0 <= k < info@.adj_stride.len() ==> #[trigger] info@.adj_stride[k]
                    == adjacent_stride(container.stride_spec(), info@.shape, k),
    {
        let shape = container.shape();
        let stride = container.stride();
        let ghost views = range_views(range@);
        let mut offset: i128 = container.offset() as i128;
        let mut new_shape: Vec<i32> = vstd::slice::slice_to_vec(shape);
        let mut dim: usize = 0;
        while dim < range.len()
            invariant
                shape@ == container.shape_spec(),
                stride@ == container.stride_spec(),
                stride@.len() == shape@.len(),
                views == range_views(range@),
                ranges_within(shape@, views),
                0 <= dim <= range@.len(),
                new_shape@.len() == shape@.len(),
                forall|d: int|
                    0 <= d < shape@.len() ==> #[trigger] new_shape@[d] == if d < dim {
                        sliced_shape(shape@, views)[d]
                    } else {
                        shape@[d]
                    },
                offset == container.offset_spec() + sliced_distance(
                    stride@,
                    shape@,
                    views,
                    dim as int,
                ),
                -(dim as int) * 0x4000_0000_0000_0000 <= offset <= usize::MAX + (dim as int)
                    * 0x4000_0000_0000_0000,
            decreases range@.len() - dim,
        {
            let r = &range[dim];
            let extent: i32 = shape[dim];
            proof {
                assert(views[dim as int] == range@[dim as int]@);
            }
            let start: i32 = match r.start {
                SliceBounds::Index(i) => i as i32,
                SliceBounds::ReverseIndex(i) => (extent as i64 - i as i64) as i32,
                _ => 0,
            };
            let end: i32 = match r.end {
                SliceBounds::Index(i) => i as i32,
                SliceBounds::ReverseIndex(i) => (extent as i64 - i as i64) as i32,
                _ => extent,
            };
            let step: i32 = stride[dim];
            assert(-0x4000_0000_0000_0000 <= start * step <= 0x4000_0000_0000_0000)
                by (nonlinear_arith)
                requires
                    0 <= start <= 0x7fff_ffff,
                    -0x8000_0000 <= step <= 0x7fff_ffff,
            ;
            assert((dim as int + 1) * 0x4000_0000_0000_0000 == (dim as int) * 0x4000_0000_0000_0000
                + 0x4000_0000_0000_0000) by (nonlinear_arith);
            assert((dim as int) * 0x4000_0000_0000_0000 <= 0xffff_ffff_ffff_ffff
                * 0x4000_0000_0000_0000) by (nonlinear_arith)
                requires
                    0 <= dim <= 0xffff_ffff_ffff_ffff,
            ;
            offset = offset + (start as i128) * (step as i128);
            new_shape.set(dim, end - start);
            dim = dim + 1;
        }
        proof {
            assert(new_shape@ =~= sliced_shape(shape@, views));
        }
        let adj_stride = calculate_adjacent_dim_stride(stride, new_shape.as_slice());
        Self { offset: offset as usize, shape: new_shape, adj_stride }
    }

    /// The distance from the buffer's start to the slice's first element.
    pub fn offset(&self) -> (n: usize)
        ensures
            n == self@.offset,
    {
        self.offset
    }

    /// The extent of each dimension of the slice.
    pub fn shape(&self) -> (s: &[i32])
        ensures
            s@ == self@.shape,
    {
        self.shape.as_slice()
    }

    /// The adjacent stride of each dimension of the slice.
    pub fn adj_stride(&self) -> (s: &[i32])
        ensures
            s@ == self@.adj_stride,
    {
        self.adj_stride.as_slice()
    }
}

/// The first index that the ranges select in each dimension; 0 in a
/// dimension that has no range.
pub open spec fn slice_firsts(shape: Seq<i32>, ranges: Seq<SliceRangeView>) -> Seq<i32> {
    Seq::new(
        shape.len(),
        |d: int|
            if d < ranges.len() {
                ranges[d].first(shape[d] as int) as i32
            } else {
                0i32
            },
    )
}

/// The index of the array that index `idx` of the slice stands for.
pub open spec fn slice_index(shape: Seq<i32>, ranges: Seq<SliceRangeView>, idx: Seq<i32>) -> Seq<
    i32,
> {
    Seq::new(shape.len(), |d: int| (idx[d] + slice_firsts(shape, ranges)[d]) as i32)
}

impl LayoutView {
    /// The layout of the slice that `ranges` select: the shape counts the
    /// indices selected, the strides stay, the offset moves to the first
    /// element selected, and the adjacent strides follow.
    pub open spec fn sliced(self, ranges: Seq<SliceRangeView>) -> LayoutView {
        LayoutView::strided(
            sliced_shape(self.shape, ranges),
            self.stride,
            (self.offset + sliced_distance(self.stride, self.shape, ranges, ranges.len() as int)) as nat,
        )
    }
}

/// The distance to the origin of a slice is the weighted sum of its first
/// indices.
pub proof fn lemma_distance_weighted(
    stride: Seq<i32>,
    shape: Seq<i32>,
    ranges: Seq<SliceRangeView>,
    n: int,
)
    requires
        ranges_within(shape, ranges),
        0 <= n <= shape.len(),
    ensures
        weighted(slice_firsts(shape, ranges), stride, n) == sliced_distance(
            stride,
            shape,
            ranges,
            if n <= ranges.len() {
                n
            } else {
                ranges.len() as int
            },
        ),
    decreases n,
{
    if n > 0 {
        lemma_distance_weighted(stride, shape, ranges, n - 1);
    }
}

/// The weighted sum of the index of the array that a slice index stands for
/// is that of the slice index and that of the first indices together.
pub proof fn lemma_slice_index_weighted(
    shape: Seq<i32>,
    stride: Seq<i32>,
    ranges: Seq<SliceRangeView>,
    idx: Seq<i32>,
    n: int,
)
    requires
        ranges_within(shape, ranges),
        shape_valid(shape),
        index_within(sliced_shape(shape, ranges), idx),
        0 <= n <= shape.len(),
    ensures
        weighted(slice_index(shape, ranges, idx), stride, n) == weighted(idx, stride, n) + weighted(
            slice_firsts(shape, ranges),
            stride,
            n,
        ),
    decreases n,
{
    if n > 0 {
        lemma_slice_index_weighted(shape, stride, ranges, idx, n - 1);
        lemma_slice_index_within(shape, ranges, idx);
        let d = n - 1;
        let a = idx[d] as int;
        let b = slice_firsts(shape, ranges)[d] as int;
        assert((a + b) * stride[d] == a * stride[d] + b * stride[d]) by (nonlinear_arith);
    }
}

/// The index of the array that a slice index stands for is an index of the
/// array.
pub proof fn lemma_slice_index_within(
    shape: Seq<i32>,
    ranges: Seq<SliceRangeView>,
    idx: Seq<i32>,
)
    requires
        ranges_within(shape, ranges),
        shape_valid(shape),
        index_within(sliced_shape(shape, ranges), idx),
    ensures
        index_within(shape, slice_index(shape, ranges, idx)),
        forall|d: int|
            0 <= d < shape.len() ==> #[trigger] slice_index(shape, ranges, idx)[d] == idx[d]
                + slice_firsts(shape, ranges)[d],
{
}

/// The shape of a slice of a valid shape is valid.
pub proof fn lemma_sliced_shape_valid(shape: Seq<i32>, ranges: Seq<SliceRangeView>)
    requires
        shape_valid(shape),
        ranges_within(shape, ranges),
    ensures
        shape_valid(sliced_shape(shape, ranges)),
        product(sliced_shape(shape, ranges)) <= product(shape),
{
    let inner = sliced_shape(shape, ranges);
    lemma_product_monotone(inner, shape);
}

/// A slice puts each of its indices where the array puts the index that it
/// stands for.
pub proof fn lemma_slice_position(l: LayoutView, ranges: Seq<SliceRangeView>, idx: Seq<i32>)
    requires
        l.wf(),
        ranges_within(l.shape, ranges),
        index_within(sliced_shape(l.shape, ranges), idx),
        l.offset + sliced_distance(l.stride, l.shape, ranges, ranges.len() as int) >= 0,
    ensures
        index_within(l.shape, slice_index(l.shape, ranges, idx)),
        position(l.sliced(ranges), idx) == position(l, slice_index(l.shape, ranges, idx)),
{
    let n = l.shape.len() as int;
    lemma_slice_index_within(l.shape, ranges, idx);
    lemma_slice_index_weighted(l.shape, l.stride, ranges, idx, n);
    lemma_distance_weighted(l.stride, l.shape, ranges, n);
}

/// Every element that a walk over a slice visits, a walk over the array it
/// is taken from visits too, and as often at least: the elements of the
/// slice, as a multiset, are among those of the array.
pub proof fn law_slice_contained<T>(data: Seq<T>, l: LayoutView, ranges: Seq<SliceRangeView>)
    requires
        l.wf(),
        ranges_within(l.shape, ranges),
        layout_fits(l, data.len() as int),
    ensures
        layout_fits(l.sliced(ranges), data.len() as int),
        gathered(data, l.sliced(ranges)).to_multiset().subset_of(gathered(data, l).to_multiset()),
{
    let s = l.sliced(ranges);
    let inner = sliced_shape(l.shape, ranges);
    lemma_sliced_shape_valid(l.shape, ranges);
    crate::layout::lemma_product_positive(inner);
    crate::layout::lemma_product_positive(l.shape);
    let first = slice_index(l.shape, ranges, index_at(inner, 0));
    lemma_index_at_within(inner, 0);
    lemma_slice_index_within(l.shape, ranges, index_at(inner, 0));
    lemma_distance_weighted(l.stride, l.shape, ranges, l.shape.len() as int);
    assert(slice_firsts(l.shape, ranges) =~= first) by {
        crate::walk::lemma_weighted_origin(l.stride, l.shape.len(), 0);
    }
    assert forall|idx: Seq<i32>| #[trigger] index_within(s.shape, idx) implies 0 <= position(
        s,
        idx,
    ) < data.len() by {
        lemma_slice_position(l, ranges, idx);
    }
    let a = gathered(data, s);
    let b = gathered(data, l);
    let f = |k: int| rank_of(l.shape, slice_index(l.shape, ranges, index_at(inner, k as nat)));
    assert forall|k: int| 0 <= k < a.len() implies 0 <= #[trigger] f(k) < b.len() && a[k] == b[f(
        k,
    )] by {
        let idx = index_at(inner, k as nat);
        lemma_index_at_within(inner, k as nat);
        lemma_slice_position(l, ranges, idx);
        lemma_index_at_rank(l.shape, slice_index(l.shape, ranges, idx));
    }
    assert forall|k1: int, k2: int|
        0 <= k1 < a.len() && 0 <= k2 < a.len() && k1 != k2 implies #[trigger] f(k1)
        != #[trigger] f(k2) by {
        let i1 = index_at(inner, k1 as nat);
        let i2 = index_at(inner, k2 as nat);
        lemma_index_at_within(inner, k1 as nat);
        lemma_index_at_within(inner, k2 as nat);
        let j1 = slice_index(l.shape, ranges, i1);
        let j2 = slice_index(l.shape, ranges, i2);
        lemma_slice_index_within(l.shape, ranges, i1);
        lemma_slice_index_within(l.shape, ranges, i2);
        if f(k1) == f(k2) {
            lemma_rank_decides(l.shape, j1, j2, 0);
            assert(i1 =~= i2) by {
                assert forall|d: int| 0 <= d < i1.len() implies i1[d] == i2[d] by {
                    assert(j1[d] == i1[d] + slice_firsts(l.shape, ranges)[d]);
                }
            }
        }
    }
    lemma_embedded_multiset(a, b, f);
}

/// Whether a slice of a container with the given shape, strides and offset
/// can be described in machine numbers: the ranges select a slice, its
/// offset is a `usize`, and its adjacent strides are `i32`s.
pub open spec fn slice_admissible(
    shape: Seq<i32>,
    stride: Seq<i32>,
    offset: int,
    ranges: Seq<SliceRangeView>,
) -> bool {
    &&& ranges_within(shape, ranges)
    &&& 0 <= offset + sliced_distance(stride, shape, ranges, ranges.len() as int) <= usize::MAX
    &&& adjacent_strides_fit(stride, sliced_shape(shape, ranges))
}

/// A view of a part of a buffer: a share of the storage, and the layout
/// that selects the part.
#[verifier::reject_recursive_types(T)]
pub struct RawTensorSlice<T: Copy> {
    base: Storage<T>,
    layout: Layout,
}

/// A writing walk over what `layout` selects of `data`, if all of it is
/// there.
pub fn mut_walk_over<'a, T: Copy>(data: Vec<T>, layout: &'a Layout) -> (r: Option<
    MutSliceIter<'a, T>,
>)
    requires
        layout.wf(),
    ensures
        r is Some <==> layout_fits(layout@, data@.len() as int),
        r matches Some(it) ==> it@.wf() && it@ == WalkView::start(data@, layout@),
{
    if layout.fits(data.len()) {
        proof {
            crate::iter::lemma_walk_start(data@, layout@);
            crate::layout::lemma_product_positive(layout@.shape);
        }
        Some(
            MutSliceIter::new(
                data,
                layout.len(),
                layout.shape(),
                layout.adj_stride(),
                layout.offset(),
            ),
        )
    } else {
        None
    }
}

impl<T: Copy> RawTensorSlice<T> {
    /// The layout of the view.
    pub closed spec fn layout_spec(&self) -> LayoutView {
        self.layout@
    }

    /// The storage that the view reads.
    pub closed spec fn base_spec(&self) -> Storage<T> {
        self.base
    }

    /// The invariant, which every view keeps: a well-formed layout.
    pub open spec fn wf(&self) -> bool {
        self.layout_spec().wf()
    }

    #[verifier::type_invariant]
    spec fn well_formed(self) -> bool {
        self.layout@.wf()
    }

    /// The view of `base` under `layout`.
    #[inline]
    pub fn new(base: &Storage<T>, layout: Layout) -> (r: Self)
        requires
            layout.wf(),
        ensures
            r.layout_spec() == layout@,
            r.base_spec() == *base,
    {
        Self { base: base.clone_reference(), layout }
    }

    /// The view of `base` that a slice describes, with the strides of the
    /// container it was taken from.
    pub fn from_info(base: &Storage<T>, stride: Vec<i32>, info: SliceInfo) -> (r: Self)
        requires
            shape_valid(info@.shape),
            stride@.len() == info@.shape.len(),
            info@.adj_stride.len() == info@.shape.len(),
            forall|k: int|
                0 <= k < info@.adj_stride.len() ==> #[trigger] info@.adj_stride[k]
                    == adjacent_stride(stride@, info@.shape, k),
        ensures
            r.layout_spec() == LayoutView::strided(info@.shape, stride@, info@.offset),
            r.base_spec() == *base,
    {
        let layout = Layout::from_parts(info.shape, stride, info.adj_stride, info.offset);
        proof {
            let l = LayoutView::strided(info@.shape, stride@, info@.offset);
            assert(layout@.adj_stride =~= l.adj_stride);
            crate::layout::lemma_product_positive(info@.shape);
        }
        Self { base: base.clone_reference(), layout }
    }

    /// A walk over the elements in row-major order, if every element the
    /// layout selects is in the buffer now.
    #[inline]
    pub fn iter(&self) -> (r: Option<SliceIter<'_, T>>)
        ensures
            r matches Some(it) ==> {
                &&& it@.wf()
                &&& it@ == WalkView::start(it@.data, self.layout_spec())
                &&& layout_fits(self.layout_spec(), it@.data.len() as int)
            },
    {
        proof {
            use_type_invariant(self);
        }
        crate::storage::walk_over(self.base.snapshot(), &self.layout)
    }

    /// A walk that yields the elements for writing, if every element the
    /// layout selects is in the buffer now. What is written reaches the
    /// buffer with [`RawTensorSlice::store`].
    #[inline]
    pub fn mut_iter(&self) -> (r: Option<MutSliceIter<'_, T>>)
        ensures
            r matches Some(it) ==> {
                &&& it@.wf()
                &&& it@ == WalkView::start(it@.data, self.layout_spec())
                &&& layout_fits(self.layout_spec(), it@.data.len() as int)
            },
    {
        proof {
            use_type_invariant(self);
        }
        mut_walk_over(self.base.snapshot(), &self.layout)
    }

    /// Puts the buffer of a writing walk in place of what the storage
    /// holds.
    pub fn store(&self, written: MutSliceIter<'_, T>) {
        self.base.overwrite(written.into_data())
    }

    /// An informed walk over the elements, if every element the layout
    /// selects is in the buffer now.
    #[inline]
    pub fn informed_iter(&self) -> (r: Option<InformedSliceIter<'_, T>>)
        ensures
            r matches Some(it) ==> {
                &&& it@.wf()
                &&& it@ == crate::iter::InformedView::start(it@.buffer, self.layout_spec())
            },
    {
        proof {
            use_type_invariant(self);
        }
        crate::storage::informed_over(self.base.snapshot(), &self.layout)
    }

    /// The slice of this view that `range` selects. No element moves.
    #[inline]
    pub fn slice(&self, range: &[SliceRange]) -> (r: RawTensorSlice<T>)
        requires
            slice_admissible(
                self.layout_spec().shape,
                self.layout_spec().stride,
                self.layout_spec().offset as int,
                range_views(range@),
            ),
        ensures
            r.layout_spec() == self.layout_spec().sliced(range_views(range@)),
            r.base_spec() == self.base_spec(),
    {
        proof {
            use_type_invariant(self);
            crate::layout::lemma_layout_bounds(self.layout);
            lemma_sliced_shape_valid(self.layout@.shape, range_views(range@));
        }
        let info = SliceInfo::from_range(self, range);
        RawTensorSlice::from_info(
            &self.base,
            vstd::slice::slice_to_vec(self.layout.stride()),
            info,
        )
    }

    /// The layout of the view.
    #[inline]
    pub fn layout(&self) -> (l: &Layout)
        ensures
            l@ == self.layout_spec(),
            l.wf(),
    {
        proof {
            use_type_invariant(self);
        }
        &self.layout
    }

    /// This view.
    #[inline]
    pub fn as_slice(&self) -> (r: &Self)
        ensures
            r == self,
    {
        self
    }
}

impl<T: Copy> Dimension for RawTensorSlice<T> {
    open spec fn shape_spec(&self) -> Seq<i32> {
        self.layout_spec().shape
    }

    open spec fn stride_spec(&self) -> Seq<i32> {
        self.layout_spec().stride
    }

    open spec fn adj_stride_spec(&self) -> Seq<i32> {
        self.layout_spec().adj_stride
    }

    open spec fn len_spec(&self) -> usize {
        self.layout_spec().len as usize
    }

    open spec fn offset_spec(&self) -> usize {
        self.layout_spec().offset as usize
    }

    #[inline]
    fn shape(&self) -> (s: &[i32]) {
        self.layout.shape()
    }

    #[inline]
    fn stride(&self) -> (s: &[i32]) {
        self.layout.stride()
    }

    #[inline]
    fn adj_stride(&self) -> (s: &[i32]) {
        self.layout.adj_stride()
    }

    #[inline]
    fn len(&self) -> (n: usize) {
        proof {
            crate::layout::lemma_layout_bounds(self.layout);
        }
        self.layout.len()
    }

    #[inline]
    fn offset(&self) -> (n: usize) {
        proof {
            crate::layout::lemma_layout_bounds(self.layout);
        }
        self.layout.offset()
    }
}

} // verus!
