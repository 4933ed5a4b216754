//! Dense arrays that own their buffer and are read and written in place.
use vstd::prelude::*;
use std::sync::Arc;
use parking_lot::RwLock;
use crate::internals::{adjacent_stride_fits, adjacent_strides_fit, carried, dim_stride};
use crate::iter::{ContiguousIter, InformedSliceIter, MutContiguousIter};
use crate::layout::{shape_valid, swapped, Layout, LayoutView};
use crate::slice::{
    range_views, ranges_within, slice_admissible, slice_firsts, sliced_shape, RawTensorSlice,
    SliceRange, SliceRangeView,
};
use crate::storage::Storage;
use crate::traits::Dimension;
use crate::walk::{index_within, layout_fits, position, row_major_strides};

verus! {
/// A dense array in row-major order over a buffer of its own. Slices and
/// views of it share the buffer.
#[verifier::reject_recursive_types(T)]
pub struct RawTensor<T: Copy> {
    buffer: Storage<T>,
    layout: Layout,
}

/// A dense array, by its short name.
pub type Mat<T> = RawTensor<T>;

/// With row-major strides, the dimensions after `k` of a slice cover no more
/// than those of the whole array, which is one element less than the stride
/// of `k`.
pub proof fn lemma_row_major_slice_carried(shape: Seq<i32>, ranges: Seq<SliceRangeView>, k: int)
    requires
        shape_valid(shape),
        ranges_within(shape, ranges),
        0 <= k < shape.len(),
    ensures
        0 <= carried(row_major_strides(shape), sliced_shape(shape, ranges), k) <= dim_stride(
            shape,
            k,
        ) - 1,
    decreases shape.len() - k,
{
    let rm = row_major_strides(shape);
    let inner = sliced_shape(shape, ranges);
    crate::walk::lemma_row_major_strides(shape);
    crate::layout::lemma_row_major_carried(shape, rm, k);
    if k + 1 < shape.len() {
        lemma_row_major_slice_carried(shape, ranges, k + 1);
        crate::layout::lemma_row_major_carried(shape, rm, k + 1);
        crate::slice::lemma_sliced_shape_valid(shape, ranges);
        assert(0 <= rm[k + 1] * (inner[k + 1] - 1) <= rm[k + 1] * (shape[k + 1] - 1))
            by (nonlinear_arith)
            requires
                1 <= rm[k + 1],
                1 <= inner[k + 1] <= shape[k + 1],
        ;
    }
}

/// With row-major strides, the adjacent strides of a slice are `i32`s.
pub proof fn lemma_row_major_slice_fits(shape: Seq<i32>, ranges: Seq<SliceRangeView>)
    requires
        shape_valid(shape),
        ranges_within(shape, ranges),
    ensures
        adjacent_strides_fit(row_major_strides(shape), sliced_shape(shape, ranges)),
{
    let rm = row_major_strides(shape);
    let inner = sliced_shape(shape, ranges);
    crate::walk::lemma_row_major_strides(shape);
    crate::layout::lemma_valid_shape_strides_fit(shape);
    assert forall|k: int| 0 <= k < rm.len() - 1 implies #[trigger] adjacent_stride_fits(
        rm,
        inner,
        k,
    ) by {
        lemma_row_major_slice_carried(shape, ranges, k);
        lemma_row_major_slice_carried(shape, ranges, k + 1);
        assert(0 <= rm[k + 1] * (inner[k + 1] - 1)) by (nonlinear_arith)
            requires
                1 <= rm[k + 1],
                1 <= inner[k + 1],
        ;
    }
}

/// Every slice of a row-major array from offset 0 can be described in
/// machine numbers.
pub proof fn lemma_row_major_slice_admissible(shape: Seq<i32>, ranges: Seq<SliceRangeView>)
    requires
        shape_valid(shape),
        ranges_within(shape, ranges),
    ensures
        slice_admissible(shape, row_major_strides(shape), 0, ranges),
{
    let rm = row_major_strides(shape);
    crate::walk::lemma_row_major_strides(shape);
    let firsts = slice_firsts(shape, ranges);
    assert(index_within(shape, firsts));
    crate::slice::lemma_distance_weighted(rm, shape, ranges, shape.len() as int);
    crate::walk::lemma_rank_bounds(shape, firsts);
    lemma_row_major_slice_fits(shape, ranges);
}

/// Whether index `p` of the buffer holds an element of the layout.
pub open spec fn covered(l: LayoutView, p: int) -> bool {
    exists|idx: Seq<i32>| #[trigger] index_within(l.shape, idx) && position(l, idx) == p
}

/// Whether one of the first `k` steps of the walk of the layout is at index
/// `p` of the buffer.
pub open spec fn visited(l: LayoutView, k: int, p: int) -> bool {
    exists|j: int| 0 <= j < k && #[trigger] position(l, crate::walk::index_at(l.shape, j as nat)) == p
}

/// The walk of a layout visits exactly the indices of the buffer that hold
/// an element of the layout.
pub proof fn lemma_visited_all(l: LayoutView, p: int)
    requires
        l.wf(),
    ensures
        visited(l, l.len as int, p) <==> covered(l, p),
{
    crate::layout::lemma_product_positive(l.shape);
    if visited(l, l.len as int, p) {
        let j = choose|j: int|
            0 <= j < l.len && #[trigger] position(l, crate::walk::index_at(l.shape, j as nat)) == p;
        crate::walk::lemma_index_at_within(l.shape, j as nat);
    }
    if covered(l, p) {
        let idx = choose|idx: Seq<i32>| #[trigger]
            index_within(l.shape, idx) && position(l, idx) == p;
        crate::walk::lemma_index_at_rank(l.shape, idx);
    }
}

/// `data` with `value` in place of every element that the layout selects,
/// if all of them are there.
pub fn assigned_where_fits<T: Copy>(data: Vec<T>, layout: &Layout, value: T) -> (r: Option<Vec<T>>)
    requires
        layout.wf(),
    ensures
        r is Some <==> layout_fits(layout@, data@.len() as int),
        r matches Some(written) ==> {
            &&& written@.len() == data@.len()
            &&& forall|p: int|
                0 <= p < data@.len() ==> #[trigger] written@[p] == if covered(layout@, p) {
                    value
                } else {
                    data@[p]
                }
        },
{
    if layout.fits(data.len()) {
        Some(assigned(data, layout, value))
    } else {
        None
    }
}

/// `data` with `value` in place of every element that the layout selects.
pub fn assigned<T: Copy>(data: Vec<T>, layout: &Layout, value: T) -> (r: Vec<T>)
    requires
        layout.wf(),
        layout_fits(layout@, data@.len() as int),
    ensures
        r@.len() == data@.len(),
        forall|p: int|
            0 <= p < data@.len() ==> #[trigger] r@[p] == if covered(layout@, p) {
                value
            } else {
                data@[p]
            },
{
    let ghost l = layout@;
    proof {
        crate::iter::lemma_walk_start(data@, l);
        crate::layout::lemma_product_positive(l.shape);
        crate::walk::lemma_weighted_origin(l.stride, l.shape.len(), l.shape.len() as int);
    }
    let mut it = crate::iter::MutSliceIter::new(
        data,
        layout.len(),
        layout.shape(),
        layout.adj_stride(),
        layout.offset(),
    );
    let ghost mut k: int = 0;
    loop
        invariant
            l == layout@,
            l.wf(),
            it@.wf(),
            it@.shape == l.shape,
            it@.adj_stride == l.adj_stride,
            0 <= k <= l.len,
            it@.left_over == l.len - k,
            it@.counter == crate::walk::index_at(l.shape, k as nat),
            k < l.len ==> it@.pos == position(l, it@.counter),
            it@.data.len() == data@.len(),
            forall|p: int|
                0 <= p < data@.len() ==> #[trigger] it@.data[p] == if visited(l, k, p) {
                    value
                } else {
                    data@[p]
                },
        ensures
            k == l.len,
            it@.data.len() == data@.len(),
            forall|p: int|
                0 <= p < data@.len() ==> #[trigger] it@.data[p] == if visited(l, k, p) {
                    value
                } else {
                    data@[p]
                },
        decreases l.len - k,
    {
        let ghost before = it@;
        match it.next() {
            Some(slot) => {
                *slot = value;
            },
            None => {
                break ;
            },
        }
        proof {
            crate::iter::lemma_walk_step(before);
            crate::walk::lemma_next_position(l, before.counter);
            assert forall|p: int| 0 <= p < data@.len() implies #[trigger] it@.data[p] == if visited(
                l,
                k + 1,
                p,
            ) {
                value
            } else {
                data@[p]
            } by {
            }
            k = k + 1;
        }
    }
    proof {
        assert forall|p: int| 0 <= p < data@.len() implies #[trigger] it@.data[p] == if covered(
            l,
            p,
        ) {
            value
        } else {
            data@[p]
        } by {
            lemma_visited_all(l, p);
        }
    }
    it.into_data()
}

impl<T: Copy> RawTensor<T> {
    /// The layout of the array.
    pub closed spec fn layout_spec(&self) -> LayoutView {
        self.layout@
    }

    /// The storage of the array.
    pub closed spec fn buffer_spec(&self) -> Storage<T> {
        self.buffer
    }

    /// The invariant, which every array keeps: the row-major layout of its
    /// shape from offset 0.
    pub open spec fn wf(&self) -> bool {
        &&& shape_valid(self.layout_spec().shape)
        &&& self.layout_spec() == LayoutView::row_major(self.layout_spec().shape, 0)
    }

    #[verifier::type_invariant]
    spec fn well_formed(self) -> bool {
        &&& shape_valid(self.layout@.shape)
        &&& self.layout@ == LayoutView::row_major(self.layout@.shape, 0)
    }

    /// A new array of the given shape, every element of which is `scalar`.
    pub fn from_scalar(scalar: T, shape: &[i32]) -> (r: Self)
        requires
            shape_valid(shape@),
        ensures
            r.layout_spec() == LayoutView::row_major(shape@, 0),
    {
        let layout = Layout::from_shape(shape);
        Self { buffer: Storage::from_scalar(scalar, layout.len()), layout }
    }

    /// The array that reads the buffer behind `buffer` row-major in the
    /// given shape.
    pub fn from_arc(buffer: Arc<RwLock<Box<[T]>>>, shape: &[i32]) -> (r: Self)
        requires
            shape_valid(shape@),
        ensures
            r.layout_spec() == LayoutView::row_major(shape@, 0),
            r.buffer_spec().handle() == buffer,
    {
        Self { buffer: Storage::from_arc(buffer), layout: Layout::from_shape(shape) }
    }

    /// A new array that holds `vector` row-major in the given shape.
    pub fn from_vec(vector: Vec<T>, shape: &[i32]) -> (r: Self)
        requires
            shape_valid(shape@),
        ensures
            r.layout_spec() == LayoutView::row_major(shape@, 0),
    {
        Self { buffer: Storage::from_vec(vector), layout: Layout::from_shape(shape) }
    }

    /// A walk over the whole buffer as it is now, in the order of storage.
    #[inline]
    pub fn iter(&self) -> (it: ContiguousIter<T>)
        ensures
            it@.index == 0,
    {
        ContiguousIter::new(self.buffer.snapshot())
    }

    /// A walk over the whole buffer as it is now that yields the elements
    /// for writing. What is written reaches the buffer with
    /// [`RawTensor::store`].
    #[inline]
    pub fn mut_iter(&mut self) -> (it: MutContiguousIter<T>)
        ensures
            it@.index == 0,
            *final(self) == *old(self),
    {
        MutContiguousIter::new(self.buffer.snapshot())
    }

    /// Puts the buffer of a writing walk in place of what the storage
    /// holds.
    pub fn store(&mut self, written: MutContiguousIter<T>)
        ensures
            *final(self) == *old(self),
    {
        self.buffer.overwrite(written.into_data())
    }

    /// An informed walk over the elements, if the buffer holds now as many
    /// as the shape counts.
    #[inline]
    pub fn informed_iter(&self) -> (r: Option<InformedSliceIter<'_, T>>)
        ensures
            r matches Some(it) ==> {
                &&& it@.wf()
                &&& it@ == crate::iter::InformedView::start(it@.buffer, self.layout_spec())
            },
    {
        proof {
            use_type_invariant(self);
            crate::layout::lemma_row_major_wf(self.layout@.shape, 0);
        }
        crate::storage::informed_over(self.buffer.snapshot(), &self.layout)
    }

    /// The slice that `range` selects, one range for each of the leading
    /// dimensions. No element moves.
    #[inline]
    pub fn slice(&self, range: &[SliceRange]) -> (r: RawTensorSlice<T>)
        requires
            ranges_within(self.layout_spec().shape, range_views(range@)),
        ensures
            r.layout_spec() == self.layout_spec().sliced(range_views(range@)),
            r.base_spec() == self.buffer_spec(),
    {
        proof {
            use_type_invariant(self);
            crate::layout::lemma_row_major_wf(self.layout@.shape, 0);
            lemma_row_major_slice_admissible(self.layout@.shape, range_views(range@));
        }
        self.as_slice().slice(range)
    }

    /// The slice that `range` selects, for writing.
    #[inline]
    pub fn mut_slice(&mut self, range: &[SliceRange]) -> (r: RawTensorSlice<T>)
        requires
            ranges_within(old(self).layout_spec().shape, range_views(range@)),
        ensures
            r.layout_spec() == old(self).layout_spec().sliced(range_views(range@)),
            r.base_spec() == old(self).buffer_spec(),
            *final(self) == *old(self),
    {
        self.slice(range)
    }

    /// The whole array as a view.
    #[inline]
    pub fn as_slice(&self) -> (r: RawTensorSlice<T>)
        ensures
            r.layout_spec() == self.layout_spec(),
            r.base_spec() == self.buffer_spec(),
    {
        proof {
            use_type_invariant(self);
            crate::layout::lemma_row_major_wf(self.layout@.shape, 0);
        }
        RawTensorSlice::new(&self.buffer, self.layout.clone())
    }

    /// The view with the strides of the first and the last dimension
    /// exchanged. No element moves. The same exchange on the layout of the
    /// view gives back the layout of the array.
    #[inline]
    pub fn transposed(&self) -> (r: RawTensorSlice<T>)
        requires
            adjacent_strides_fit(
                swapped(self.layout_spec().stride, 0, self.layout_spec().shape.len() - 1),
                self.layout_spec().shape,
            ),
        ensures
            r.layout_spec() == self.layout_spec().transposed(
                0,
                self.layout_spec().shape.len() - 1,
            ),
            r.layout_spec().transposed(0, self.layout_spec().shape.len() - 1)
                == self.layout_spec(),
            r.base_spec() == self.buffer_spec(),
    {
        proof {
            use_type_invariant(self);
            crate::layout::lemma_row_major_wf(self.layout@.shape, 0);
        }
        let last: usize = self.layout.shape().len() - 1;
        RawTensorSlice::new(&self.buffer, self.layout.transposed(0, last))
    }

    /// The view with the strides of dimension `axis` and of the dimension
    /// as far from the end exchanged. No element moves. The same exchange
    /// on the layout of the view gives back the layout of the array.
    #[inline]
    pub fn transposed_n(&self, axis: usize) -> (r: RawTensorSlice<T>)
        requires
            axis < self.layout_spec().shape.len(),
            adjacent_strides_fit(
                swapped(
                    self.layout_spec().stride,
                    axis as int,
                    self.layout_spec().shape.len() - axis - 1,
                ),
                self.layout_spec().shape,
            ),
        ensures
            r.layout_spec() == self.layout_spec().transposed(
                axis as int,
                self.layout_spec().shape.len() - axis - 1,
            ),
            r.layout_spec().transposed(axis as int, self.layout_spec().shape.len() - axis - 1)
                == self.layout_spec(),
            r.base_spec() == self.buffer_spec(),
    {
        proof {
            use_type_invariant(self);
            crate::layout::lemma_row_major_wf(self.layout@.shape, 0);
        }
        let other: usize = self.layout.shape().len() - axis - 1;
        RawTensorSlice::new(&self.buffer, self.layout.transposed(axis, other))
    }

    /// The view of the buffer in another shape of the same element count.
    #[inline]
    pub fn view(&self, new_shape: &[i32]) -> (r: RawTensorSlice<T>)
        requires
            self.layout_spec().view_legal(new_shape@),
        ensures
            r.layout_spec() == LayoutView::row_major(new_shape@, 0),
            r.base_spec() == self.buffer_spec(),
    {
        RawTensorSlice::new(&self.buffer, Layout::from_shape(new_shape))
    }

    /// An array over the same buffer in another shape of the same element
    /// count.
    #[inline]
    pub fn reshape(&self, new_shape: &[i32]) -> (r: RawTensor<T>)
        requires
            self.layout_spec().view_legal(new_shape@),
        ensures
            r.layout_spec() == LayoutView::row_major(new_shape@, 0),
            r.buffer_spec() == self.buffer_spec(),
    {
        RawTensor { buffer: self.buffer.clone_reference(), layout: Layout::from_shape(new_shape) }
    }

    /// Gives this array another shape of the same element count.
    #[inline]
    pub fn reshape_inplace(&mut self, new_shape: &[i32])
        requires
            old(self).layout_spec().view_legal(new_shape@),
        ensures
            final(self).layout_spec() == LayoutView::row_major(new_shape@, 0),
            final(self).buffer_spec() == old(self).buffer_spec(),
    {
        self.layout = Layout::from_shape(new_shape);
    }

    /// Writes `value` to every element that `range` selects, and says
    /// whether it did: it does not where the buffer holds fewer elements than
    /// the shape counts.
    #[inline]
    pub fn assign_scalar(&mut self, range: &[SliceRange], value: T) -> (done: bool)
        requires
            ranges_within(old(self).layout_spec().shape, range_views(range@)),
        ensures
            *final(self) == *old(self),
    {
        let target = self.mut_slice(range);
        match assigned_where_fits(self.buffer.snapshot(), target.layout(), value) {
            Some(written) => {
                self.buffer.overwrite(written);
                true
            },
            None => false,
        }
    }
}

impl<T: Copy> Dimension for RawTensor<T> {
    open spec fn shape_spec(&self) -> Seq<i32> {
        self.layout_spec().shape
    }

    open spec fn stride_spec(&self) -> Seq<i32> {
        self.layout_spec().stride
    }

    open spec fn adj_stride_spec(&self) -> Seq<i32> {
        self.layout_spec().adj_stride
    }

    open spec fn len_spec(&self) -> usize {
        self.layout_spec().len as usize
    }

    open spec fn offset_spec(&self) -> usize {
        0
    }

    #[inline]
    fn shape(&self) -> (s: &[i32]) {
        self.layout.shape()
    }

    #[inline]
    fn stride(&self) -> (s: &[i32]) {
        self.layout.stride()
    }

    #[inline]
    fn adj_stride(&self) -> (s: &[i32]) {
        self.layout.adj_stride()
    }

    #[inline]
    fn len(&self) -> (n: usize) {
        proof {
            crate::layout::lemma_layout_bounds(self.layout);
        }
        self.layout.len()
    }

    #[inline]
    fn offset(&self) -> (n: usize) {
        0
    }
}

} // verus!
