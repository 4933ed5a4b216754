//! Traversals of a buffer: in storage order, and in the row-major order of a
//! strided layout. Each traversal is a state with a step.
use vstd::prelude::*;
use crate::internals::{carried, product};
use crate::layout::{shape_valid, Layout, LayoutView};
use crate::walk::{
    gathered, index_at, index_or_end, index_within, layout_fits, lemma_index_at_within,
    lemma_next_position, lemma_next_rank, lemma_next_weighted, lemma_next_within,
    lemma_row_major_strides, lemma_weighted_lower, lemma_weighted_origin, lemma_weighted_update,
    next_index, origin, position, rank_of, row_major_strides, step_dim, weighted,
};

verus! {
/// The position of the element after the one at `pos`, when a row-major walk
/// that moves by adjacent strides leaves index `idx`.
pub open spec fn next_position(shape: Seq<i32>, adj_stride: Seq<i32>, idx: Seq<i32>, pos: int) -> int {
    pos + adj_stride[step_dim(shape, idx)]
}

/// Whether the next `n` elements of a walk that stands at index `idx` and
/// position `pos` all lie in a buffer of `len` elements.
pub open spec fn walk_within(
    shape: Seq<i32>,
    adj_stride: Seq<i32>,
    idx: Seq<i32>,
    pos: int,
    n: nat,
    len: int,
) -> bool
    decreases n,
{
    n == 0 || (0 <= pos < len && walk_within(
        shape,
        adj_stride,
        next_index(shape, idx),
        next_position(shape, adj_stride, idx, pos),
        (n - 1) as nat,
        len,
    ))
}

/// The next `n` elements of a walk over `data` that stands at index `idx`
/// and position `pos`.
pub open spec fn walk_elements<T>(
    data: Seq<T>,
    shape: Seq<i32>,
    adj_stride: Seq<i32>,
    idx: Seq<i32>,
    pos: int,
    n: nat,
) -> Seq<T>
    decreases n,
{
    if n == 0 {
        Seq::empty()
    } else {
        seq![data[pos]] + walk_elements(
            data,
            shape,
            adj_stride,
            next_index(shape, idx),
            next_position(shape, adj_stride, idx, pos),
            (n - 1) as nat,
        )
    }
}

/// An index or end state whose rank is below the element count is an index.
pub proof fn lemma_ranked_index_within(shape: Seq<i32>, idx: Seq<i32>)
    requires
        shape_valid(shape),
        index_or_end(shape, idx),
        rank_of(shape, idx) < product(shape),
    ensures
        index_within(shape, idx),
{
    let rm = row_major_strides(shape);
    lemma_row_major_strides(shape);
    lemma_weighted_lower(idx, rm, shape.len() as int);
    if idx[0] == shape[0] {
        assert(idx[0] * rm[0] == rm[0] * shape[0]) by (nonlinear_arith)
            requires
                idx[0] == shape[0],
        ;
    }
}

/// From its `k`-th index on, the walk of a well-formed layout that fits a
/// buffer stays in the buffer and yields the elements the layout selects.
pub proof fn lemma_walk_of_layout<T>(data: Seq<T>, l: LayoutView, k: nat)
    requires
        l.wf(),
        layout_fits(l, data.len() as int),
        k <= l.len,
    ensures
        walk_within(
            l.shape,
            l.adj_stride,
            index_at(l.shape, k),
            position(l, index_at(l.shape, k)),
            (l.len - k) as nat,
            data.len() as int,
        ),
        walk_elements(
            data,
            l.shape,
            l.adj_stride,
            index_at(l.shape, k),
            position(l, index_at(l.shape, k)),
            (l.len - k) as nat,
        ) == gathered(data, l).skip(k as int),
    decreases l.len - k,
{
    let idx = index_at(l.shape, k);
    if k < l.len {
        lemma_index_at_within(l.shape, k);
        lemma_next_position(l, idx);
        lemma_walk_of_layout(data, l, k + 1);
    }
}

/// A walk over a buffer in the row-major order of a strided layout, which
/// yields a copy of each element.
pub struct SliceIter<'a, T: Copy> {
    data: Vec<T>,
    pos: usize,
    counter: Vec<i32>,
    shape: &'a [i32],
    adj_stride: &'a [i32],
    left_over: usize,
}

/// The state of a strided walk.
pub struct WalkView<T> {
    /// The buffer walked over.
    pub data: Seq<T>,
    /// The extent of each dimension.
    pub shape: Seq<i32>,
    /// The adjacent stride of each dimension.
    pub adj_stride: Seq<i32>,
    /// The index of the next element.
    pub counter: Seq<i32>,
    /// The position of the next element in the buffer.
    pub pos: int,
    /// The number of elements still to come.
    pub left_over: nat,
}

impl<T> WalkView<T> {
    /// The invariant of a walk: the counter is an index of the shape, or the
    /// end state; no more elements are to come than the shape has after the
    /// counter; and each of them lies in the buffer.
    pub open spec fn wf(self) -> bool {
        &&& shape_valid(self.shape)
        &&& self.adj_stride.len() == self.shape.len()
        &&& index_or_end(self.shape, self.counter)
        &&& rank_of(self.shape, self.counter) + self.left_over <= product(self.shape)
        &&& walk_within(
            self.shape,
            self.adj_stride,
            self.counter,
            self.pos,
            self.left_over,
            self.data.len() as int,
        )
    }

    /// The elements still to come, in order.
    pub open spec fn remaining(self) -> Seq<T> {
        walk_elements(
            self.data,
            self.shape,
            self.adj_stride,
            self.counter,
            self.pos,
            self.left_over,
        )
    }

    /// The state after one step: the counter is the next index, one element
    /// less is to come, and while any is, the position is that of the next.
    pub open spec fn advanced(self) -> WalkView<T> {
        WalkView {
            counter: next_index(self.shape, self.counter),
            pos: if self.left_over > 1 {
                next_position(self.shape, self.adj_stride, self.counter, self.pos)
            } else {
                self.pos
            },
            left_over: (self.left_over - 1) as nat,
            ..self
        }
    }

    /// The state in which a walk over all of a layout begins.
    pub open spec fn start(data: Seq<T>, l: LayoutView) -> WalkView<T> {
        WalkView {
            data,
            shape: l.shape,
            adj_stride: l.adj_stride,
            counter: origin(l.shape.len()),
            pos: l.offset as int,
            left_over: l.len,
        }
    }
}

/// A step keeps the invariant of a walk, and takes the first of the
/// remaining elements.
pub proof fn lemma_walk_step<T>(w: WalkView<T>)
    requires
        w.wf(),
        w.left_over > 0,
    ensures
        index_within(w.shape, w.counter),
        0 <= w.pos < w.data.len(),
        0 <= step_dim(w.shape, w.counter) < w.shape.len(),
        w.advanced().wf(),
        w.remaining().len() > 0,
        w.remaining()[0] == w.data[w.pos],
        w.advanced().remaining() == w.remaining().skip(1),
        w.left_over > 1 ==> 0 <= next_position(w.shape, w.adj_stride, w.counter, w.pos)
            < w.data.len(),
{
    lemma_ranked_index_within(w.shape, w.counter);
    lemma_next_within(w.shape, w.counter);
    lemma_next_rank(w.shape, w.counter);
    lemma_next_weighted(w.shape, w.adj_stride, w.counter);
    let a = w.advanced();
    let next_idx = next_index(w.shape, w.counter);
    let next_pos = next_position(w.shape, w.adj_stride, w.counter, w.pos);
    let rest = walk_elements(
        w.data,
        w.shape,
        w.adj_stride,
        next_idx,
        next_pos,
        (w.left_over - 1) as nat,
    );
    assert(w.remaining().skip(1) =~= rest);
}

/// The walk over all of a well-formed layout that fits the buffer is well
/// formed, and what it has to come are the elements the layout selects.
pub proof fn lemma_walk_start<T>(data: Seq<T>, l: LayoutView)
    requires
        l.wf(),
        layout_fits(l, data.len() as int),
    ensures
        WalkView::start(data, l).wf(),
        WalkView::start(data, l).remaining() == gathered(data, l),
{
    lemma_walk_of_layout(data, l, 0);
    lemma_weighted_origin(row_major_strides(l.shape), l.shape.len(), l.shape.len() as int);
    lemma_weighted_origin(l.stride, l.shape.len(), l.shape.len() as int);
}

impl<'a, T: Copy> View for SliceIter<'a, T> {
    type V = WalkView<T>;

    closed spec fn view(&self) -> WalkView<T> {
        WalkView {
            data: self.data@,
            shape: self.shape@,
            adj_stride: self.adj_stride@,
            counter: self.counter@,
            pos: self.pos as int,
            left_over: self.left_over as nat,
        }
    }
}

/// The position `step` elements after `pos`.
fn moved_by(pos: usize, step: i32) -> (r: usize)
    requires
        0 <= pos + step <= usize::MAX,
    ensures
        r == pos + step,
{
    if step >= 0 {
        pos + step as usize
    } else {
        pos - (-(step as i64)) as usize
    }
}

/// Moves `counter` to the next index in row-major order and returns the
/// dimension in which the step lands.
fn advance_counter(counter: &mut Vec<i32>, shape: &[i32]) -> (step: usize)
    requires
        shape_valid(shape@),
        index_within(shape@, old(counter)@),
    ensures
        final(counter)@ == next_index(shape@, old(counter)@),
        step == step_dim(shape@, old(counter)@),
        step < shape@.len(),
{
    let ghost before = counter@;
    let last: usize = counter.len() - 1;
    let bumped_last: i32 = counter[last] + 1;
    counter.set(last, bumped_last);
    let mut dim: usize = last;
    while dim > 0 && counter[dim] == shape[dim]
        invariant
            shape_valid(shape@),
            counter@.len() == shape@.len(),
            0 <= dim <= last,
            last == shape@.len() - 1,
            forall|e: int| 0 <= e < dim ==> 0 <= #[trigger] counter@[e] < shape@[e],
            crate::walk::carry(shape@, counter@, dim as int) == next_index(shape@, before),
            crate::walk::landing(shape@, counter@, dim as int) == step_dim(shape@, before),
        decreases dim,
    {
        counter.set(dim, 0);
        let raised: i32 = counter[dim - 1] + 1;
        counter.set(dim - 1, raised);
        dim = dim - 1;
    }
    dim
}

impl<'a, T: Copy> SliceIter<'a, T> {
    /// A walk over `data` that starts at position `start` and yields
    /// `data_len` elements, in the row-major order of `shape`, moving by
    /// `adj_stride`.
    pub fn new(
        data: Vec<T>,
        data_len: usize,
        shape: &'a [i32],
        adj_stride: &'a [i32],
        start: usize,
    ) -> (it: Self)
        requires
            shape_valid(shape@),
            adj_stride@.len() == shape@.len(),
            data_len <= product(shape@),
            walk_within(
                shape@,
                adj_stride@,
                origin(shape@.len()),
                start as int,
                data_len as nat,
                data@.len() as int,
            ),
        ensures
            it@ == (WalkView {
                data: data@,
                shape: shape@,
                adj_stride: adj_stride@,
                counter: origin(shape@.len()),
                pos: start as int,
                left_over: data_len as nat,
            }),
            it@.wf(),
    {
        let mut counter: Vec<i32> = Vec::new();
        counter.resize(shape.len(), 0);
        proof {
            assert(counter@ =~= origin(shape@.len()));
            lemma_weighted_origin(row_major_strides(shape@), shape@.len(), shape@.len() as int);
        }
        Self { data, pos: start, counter, shape, adj_stride, left_over: data_len }
    }

    /// The next element, if any is left.
    pub fn next(&mut self) -> (r: Option<T>)
        requires
            old(self)@.wf(),
        ensures
            final(self)@.wf(),
            old(self)@.left_over == 0 ==> r is None && final(self)@ == old(self)@,
            old(self)@.left_over > 0 ==> r == Some(old(self)@.data[old(self)@.pos]) && final(self)@
                == old(self)@.advanced(),
            r is Some ==> r == Some(old(self)@.remaining()[0]),
            r is Some ==> final(self)@.remaining() == old(self)@.remaining().skip(1),
            r is None ==> old(self)@.remaining().len() == 0,
    {
        if self.left_over == 0 {
            return None;
        }
        let ghost w = self@;
        proof {
            lemma_walk_step(w);
        }
        let item: T = self.data[self.pos];
        let step: usize = advance_counter(&mut self.counter, self.shape);
        self.left_over = self.left_over - 1;
        if self.left_over > 0 {
            assert(w.data.len() == self.data.len());
            self.pos = moved_by(self.pos, self.adj_stride[step]);
        }
        Some(item)
    }

    /// The number of elements still to come.
    pub fn size_hint(&self) -> (r: (usize, Option<usize>))
        ensures
            r.0 == self@.left_over,
            r.1 == Some(self@.left_over as usize),
    {
        (self.left_over, Some(self.left_over))
    }

    /// All elements still to come, in order.
    pub fn collect(self) -> (v: Vec<T>)
        requires
            self@.wf(),
        ensures
            v@ == self@.remaining(),
    {
        let ghost all = self@.remaining();
        let mut it = self;
        let mut out: Vec<T> = Vec::new();
        loop
            invariant
                it@.wf(),
                out@ + it@.remaining() == all,
            ensures
                out@ == all,
            decreases it@.left_over,
        {
            match it.next() {
                Some(x) => {
                    out.push(x);
                    proof {
                        assert(out@ + it@.remaining() =~= all);
                    }
                },
                None => {
                    break ;
                },
            }
        }
        out
    }
}

/// A walk over a buffer in the row-major order of a strided layout, which
/// yields each element for writing. What is written goes to the buffer of
/// the walk, which [`MutSliceIter::into_data`] hands out at the end.
pub struct MutSliceIter<'a, T: Copy> {
    data: Vec<T>,
    pos: usize,
    counter: Vec<i32>,
    shape: &'a [i32],
    adj_stride: &'a [i32],
    left_over: usize,
}

impl<'a, T: Copy> View for MutSliceIter<'a, T> {
    type V = WalkView<T>;

    closed spec fn view(&self) -> WalkView<T> {
        WalkView {
            data: self.data@,
            shape: self.shape@,
            adj_stride: self.adj_stride@,
            counter: self.counter@,
            pos: self.pos as int,
            left_over: self.left_over as nat,
        }
    }
}

/// The bounds of a walk do not depend on what the buffer holds.
pub proof fn lemma_walk_within_data<T>(w: WalkView<T>, data: Seq<T>)
    requires
        w.wf(),
        data.len() == w.data.len(),
    ensures
        (WalkView { data, ..w }).wf(),
{
}

impl<'a, T: Copy> MutSliceIter<'a, T> {
    /// A walk over `data` that starts at position `start` and yields
    /// `data_len` elements, in the row-major order of `shape`, moving by
    /// `adj_stride`.
    pub fn new(
        data: Vec<T>,
        data_len: usize,
        shape: &'a [i32],
        adj_stride: &'a [i32],
        start: usize,
    ) -> (it: Self)
        requires
            shape_valid(shape@),
            adj_stride@.len() == shape@.len(),
            data_len <= product(shape@),
            walk_within(
                shape@,
                adj_stride@,
                origin(shape@.len()),
                start as int,
                data_len as nat,
                data@.len() as int,
            ),
        ensures
            it@ == (WalkView {
                data: data@,
                shape: shape@,
                adj_stride: adj_stride@,
                counter: origin(shape@.len()),
                pos: start as int,
                left_over: data_len as nat,
            }),
            it@.wf(),
    {
        let mut counter: Vec<i32> = Vec::new();
        counter.resize(shape.len(), 0);
        proof {
            assert(counter@ =~= origin(shape@.len()));
            lemma_weighted_origin(row_major_strides(shape@), shape@.len(), shape@.len() as int);
        }
        Self { data, pos: start, counter, shape, adj_stride, left_over: data_len }
    }

    /// The next element, for writing, if any is left. What the caller
    /// leaves in it is what the buffer of the walk holds at its position.
    pub fn next(&mut self) -> (r: Option<&mut T>)
        requires
            old(self)@.wf(),
        ensures
            final(self)@.wf(),
            old(self)@.left_over == 0 ==> r is None && final(self)@ == old(self)@,
            old(self)@.left_over > 0 ==> match r {
                Some(slot) => *slot == old(self)@.data[old(self)@.pos] && final(self)@ == (WalkView {
                    data: old(self)@.data.update(old(self)@.pos, *final(slot)),
                    ..old(self)@.advanced()
                }),
                None => false,
            },
    {
        if self.left_over == 0 {
            return None;
        }
        let ghost w = self@;
        proof {
            lemma_walk_step(w);
            assert(w.data.len() == self.data.len());
        }
        let at: usize = self.pos;
        let step: usize = advance_counter(&mut self.counter, self.shape);
        self.left_over = self.left_over - 1;
        if self.left_over > 0 {
            self.pos = moved_by(self.pos, self.adj_stride[step]);
        }
        let slot = &mut self.data[at];
        proof {
            let after = WalkView { data: w.data.update(w.pos, *final(slot)), ..w.advanced() };
            lemma_walk_within_data(w.advanced(), after.data);
        }
        Some(slot)
    }

    /// The number of elements still to come.
    pub fn size_hint(&self) -> (r: (usize, Option<usize>))
        ensures
            r.0 == self@.left_over,
            r.1 == Some(self@.left_over as usize),
    {
        (self.left_over, Some(self.left_over))
    }

    /// The buffer of the walk, with what was written to it.
    pub fn into_data(self) -> (data: Vec<T>)
        ensures
            data@ == self@.data,
    {
        self.data
    }
}

/// A walk over a whole buffer in the order of storage, which yields a copy
/// of each element.
pub struct ContiguousIter<T: Copy> {
    data: Vec<T>,
    index: usize,
}

/// The state of a walk in the order of storage.
pub struct ContiguousView<T> {
    /// The buffer walked over.
    pub data: Seq<T>,
    /// The position of the next element.
    pub index: nat,
}

impl<T: Copy> View for ContiguousIter<T> {
    type V = ContiguousView<T>;

    closed spec fn view(&self) -> ContiguousView<T> {
        ContiguousView { data: self.data@, index: self.index as nat }
    }
}

impl<T: Copy> ContiguousIter<T> {
    /// A walk over all of `data`.
    pub fn new(data: Vec<T>) -> (it: Self)
        ensures
            it@ == (ContiguousView { data: data@, index: 0 }),
    {
        Self { data, index: 0 }
    }

    /// The next element, if any is left.
    pub fn next(&mut self) -> (r: Option<T>)
        ensures
            final(self)@.data == old(self)@.data,
            old(self)@.index >= old(self)@.data.len() ==> r is None && final(self)@ == old(self)@,
            old(self)@.index < old(self)@.data.len() ==> r == Some(
                old(self)@.data[old(self)@.index as int],
            ) && final(self)@.index == old(self)@.index + 1,
    {
        if self.index >= self.data.len() {
            return None;
        }
        let item: T = self.data[self.index];
        self.index = self.index + 1;
        Some(item)
    }

    /// The number of elements still to come.
    pub fn size_hint(&self) -> (r: (usize, Option<usize>))
        ensures
            r.0 == if self@.index <= self@.data.len() {
                self@.data.len() - self@.index
            } else {
                0
            },
            r.1 == Some(r.0),
    {
        let len: usize = if self.index <= self.data.len() {
            self.data.len() - self.index
        } else {
            0
        };
        (len, Some(len))
    }
}

/// A walk over a whole buffer in the order of storage, which yields each
/// element for writing. What is written goes to the buffer of the walk,
/// which [`MutContiguousIter::into_data`] hands out at the end.
pub struct MutContiguousIter<T: Copy> {
    data: Vec<T>,
    index: usize,
}

impl<T: Copy> View for MutContiguousIter<T> {
    type V = ContiguousView<T>;

    closed spec fn view(&self) -> ContiguousView<T> {
        ContiguousView { data: self.data@, index: self.index as nat }
    }
}

impl<T: Copy> MutContiguousIter<T> {
    /// A walk over all of `data`.
    pub fn new(data: Vec<T>) -> (it: Self)
        ensures
            it@ == (ContiguousView { data: data@, index: 0 }),
    {
        Self { data, index: 0 }
    }

    /// The next element, for writing, if any is left.
    pub fn next(&mut self) -> (r: Option<&mut T>)
        ensures
            old(self)@.index >= old(self)@.data.len() ==> r is None && final(self)@ == old(self)@,
            old(self)@.index < old(self)@.data.len() ==> match r {
                Some(slot) => *slot == old(self)@.data[old(self)@.index as int] && final(self)@ == (
                ContiguousView {
                    data: old(self)@.data.update(old(self)@.index as int, *final(slot)),
                    index: old(self)@.index + 1,
                }),
                None => false,
            },
    {
        if self.index >= self.data.len() {
            return None;
        }
        let at: usize = self.index;
        self.index = self.index + 1;
        Some(&mut self.data[at])
    }

    /// The number of elements still to come.
    pub fn size_hint(&self) -> (r: (usize, Option<usize>))
        ensures
            r.0 == if self@.index <= self@.data.len() {
                self@.data.len() - self@.index
            } else {
                0
            },
            r.1 == Some(r.0),
    {
        let len: usize = if self.index <= self.data.len() {
            self.data.len() - self.index
        } else {
            0
        };
        (len, Some(len))
    }

    /// The buffer of the walk, with what was written to it.
    pub fn into_data(self) -> (data: Vec<T>)
        ensures
            data@ == self@.data,
    {
        self.data
    }
}

/// The elements still to come are as many as the walk's count of them says.
pub proof fn lemma_walk_elements_len<T>(w: WalkView<T>)
    ensures
        w.remaining().len() == w.left_over,
    decreases w.left_over,
{
    if w.left_over > 0 {
        let next = WalkView {
            counter: next_index(w.shape, w.counter),
            pos: next_position(w.shape, w.adj_stride, w.counter, w.pos),
            left_over: (w.left_over - 1) as nat,
            ..w
        };
        lemma_walk_elements_len(next);
    }
}

/// A run of consecutive elements of a strided walk, packed into a buffer of
/// its own.
pub struct Chunk<T> {
    /// The elements of the run.
    pub packing_buffer: Vec<T>,
    /// The place of the run's first element in the walk.
    pub absolute_buffer_position: usize,
}

/// A walk that packs the elements of a strided walk into runs of a fixed
/// size, the last one shorter where the elements run out.
pub struct ChunkedSliceIter<'a, T: Copy> {
    inner: SliceIter<'a, T>,
    position: usize,
    chunk: usize,
}

/// The state of a chunked walk.
pub struct ChunkedView<T> {
    /// The strided walk that the runs are taken from.
    pub walk: WalkView<T>,
    /// The number of elements already handed out.
    pub position: nat,
    /// The size of a full run.
    pub chunk: nat,
}

impl<T> ChunkedView<T> {
    /// The invariant of a chunked walk: that of the strided walk, a run size
    /// of at least 1, and a total count that a `usize` can hold.
    pub open spec fn wf(self) -> bool {
        &&& self.walk.wf()
        &&& self.chunk >= 1
        &&& self.position + self.walk.left_over <= usize::MAX
    }

    /// The size of the next run: a full run, or what is left.
    pub open spec fn run(self) -> nat {
        if self.walk.left_over < self.chunk {
            self.walk.left_over
        } else {
            self.chunk
        }
    }
}

impl<'a, T: Copy> View for ChunkedSliceIter<'a, T> {
    type V = ChunkedView<T>;

    closed spec fn view(&self) -> ChunkedView<T> {
        ChunkedView { walk: self.inner@, position: self.position as nat, chunk: self.chunk as nat }
    }
}

impl<'a, T: Copy> ChunkedSliceIter<'a, T> {
    /// A chunked walk over what `inner` has to come, in runs of
    /// [`PACKING_BUFFER_SIZE`](crate::definitions::PACKING_BUFFER_SIZE).
    pub fn new(inner: SliceIter<'a, T>) -> (it: Self)
        requires
            inner@.wf(),
        ensures
            it@ == (ChunkedView {
                walk: inner@,
                position: 0,
                chunk: crate::definitions::PACKING_BUFFER_SIZE as nat,
            }),
            it@.wf(),
    {
        Self::with_chunk(inner, crate::definitions::PACKING_BUFFER_SIZE)
    }

    /// A chunked walk over what `inner` has to come, in runs of `chunk`.
    pub fn with_chunk(inner: SliceIter<'a, T>, chunk: usize) -> (it: Self)
        requires
            inner@.wf(),
            chunk >= 1,
        ensures
            it@ == (ChunkedView { walk: inner@, position: 0, chunk: chunk as nat }),
            it@.wf(),
    {
        let hint = inner.size_hint();
        Self { inner, position: 0, chunk }
    }

    /// The next run, if any element is left: the next elements of the walk,
    /// as many as a run holds, with the place of the first.
    pub fn next(&mut self) -> (r: Option<Chunk<T>>)
        requires
            old(self)@.wf(),
        ensures
            final(self)@.wf(),
            final(self)@.chunk == old(self)@.chunk,
            old(self)@.walk.left_over == 0 ==> r is None && final(self)@ == old(self)@,
            old(self)@.walk.left_over > 0 ==> r is Some,
            r matches Some(c) ==> {
                &&& c.packing_buffer@ == old(self)@.walk.remaining().take(old(self)@.run() as int)
                &&& c.absolute_buffer_position == old(self)@.position
                &&& final(self)@.position == old(self)@.position + old(self)@.run()
                &&& final(self)@.walk.left_over == old(self)@.walk.left_over - old(self)@.run()
                &&& final(self)@.walk.remaining() == old(self)@.walk.remaining().skip(
                    old(self)@.run() as int,
                )
            },
    {
        let ghost before = self@;
        let ghost all = before.walk.remaining();
        proof {
            lemma_walk_elements_len(before.walk);
        }
        let (left, _) = self.inner.size_hint();
        if left == 0 {
            return None;
        }
        let run: usize = if left < self.chunk {
            left
        } else {
            self.chunk
        };
        let mut packing_buffer: Vec<T> = Vec::with_capacity(run);
        let mut taken: usize = 0;
        while taken < run
            invariant
                self.inner@.wf(),
                self.position == before.position,
                self.chunk == before.chunk,
                0 <= taken <= run,
                run == before.run(),
                all.len() == before.walk.left_over,
                self.inner@.left_over == before.walk.left_over - taken,
                packing_buffer@ == all.take(taken as int),
                self.inner@.remaining() == all.skip(taken as int),
            decreases run - taken,
        {
            proof {
                lemma_walk_elements_len(self.inner@);
            }
            match self.inner.next() {
                Some(x) => {
                    packing_buffer.push(x);
                },
                None => {},
            }
            taken = taken + 1;
        }
        let absolute_buffer_position = self.position;
        self.position = self.position + run;
        Some(Chunk { packing_buffer, absolute_buffer_position })
    }
}

/// What an informed walk reports at each step.
#[derive(Clone, Copy, Debug)]
pub enum StepInfo<T: Copy> {
    /// The walk enters a dimension.
    EnterDimension(usize),
    /// The walk leaves a dimension.
    ExitDimension(usize),
    /// The walk is at an element.
    Value(T),
    /// The walk is over.
    End,
}

/// A walk in row-major order that reports, besides each element, where it
/// enters and leaves each dimension, as a printer of nested rows needs it.
pub struct InformedSliceIter<'a, T: Copy> {
    buffer: Vec<T>,
    layout: &'a Layout,
    current_state: StepInfo<T>,
    pos: usize,
    counter: Vec<i32>,
}

/// The state of an informed walk.
pub struct InformedView<T: Copy> {
    /// The buffer walked over.
    pub buffer: Seq<T>,
    /// The layout walked through.
    pub layout: LayoutView,
    /// What the next step reports.
    pub state: StepInfo<T>,
    /// The position of the element last reached.
    pub pos: int,
    /// The index reached in each dimension.
    pub counter: Seq<i32>,
}

impl<T: Copy> InformedView<T> {
    /// The walk before its first step: about to enter the first dimension,
    /// at the index (0, .., 0).
    pub open spec fn start(buffer: Seq<T>, layout: LayoutView) -> Self {
        InformedView {
            buffer,
            layout,
            state: StepInfo::EnterDimension(0),
            pos: layout.offset as int,
            counter: origin(layout.shape.len()),
        }
    }

    /// The invariant of an informed walk. Before an element or the entry of a
    /// dimension, the counter is an index and the position is that of its
    /// element. Before the exit of a dimension, the dimensions after it stand
    /// at 0 and the position is that of the last element of the rows left.
    pub open spec fn wf(self) -> bool {
        let n = self.layout.shape.len() as int;
        &&& self.layout.wf()
        &&& n <= usize::MAX
        &&& layout_fits(self.layout, self.buffer.len() as int)
        &&& self.counter.len() == n
        &&& match self.state {
            StepInfo::EnterDimension(dim) => {
                &&& dim < n
                &&& index_within(self.layout.shape, self.counter)
                &&& self.pos == position(self.layout, self.counter)
            },
            StepInfo::Value(v) => {
                &&& index_within(self.layout.shape, self.counter)
                &&& self.pos == position(self.layout, self.counter)
                &&& v == self.buffer[self.pos]
            },
            StepInfo::ExitDimension(dim) => {
                &&& dim < n
                &&& forall|d: int| dim < d < n ==> #[trigger] self.counter[d] == 0
                &&& forall|d: int|
                    0 <= d < dim ==> 0 <= #[trigger] self.counter[d] < self.layout.shape[d]
                &&& self.counter[dim as int] == 0 || self.counter[dim as int]
                    == self.layout.shape[dim as int]
                &&& self.pos == self.layout.offset + weighted(
                    self.counter.update(dim as int, 0),
                    self.layout.stride,
                    n,
                ) + carried(self.layout.stride, self.layout.shape, dim - 1)
            },
            StepInfo::End => true,
        }
    }

    /// What the next step reports: the current state, or nothing once the
    /// walk is over.
    pub open spec fn emitted(self) -> Option<StepInfo<T>> {
        match self.state {
            StepInfo::End => None,
            s => Some(s),
        }
    }

    /// The state after the next step.
    pub open spec fn stepped(self) -> InformedView<T> {
        let last = self.layout.shape.len() - 1;
        match self.state {
            StepInfo::EnterDimension(dim) => {
                if dim == last {
                    InformedView { state: StepInfo::Value(self.buffer[self.pos]), ..self }
                } else {
                    InformedView { state: StepInfo::EnterDimension((dim + 1) as usize), ..self }
                }
            },
            StepInfo::ExitDimension(dim) => {
                if dim == 0 {
                    InformedView { state: StepInfo::End, ..self }
                } else {
                    let counter = self.counter.update(dim as int, 0).update(
                        dim - 1,
                        (self.counter[dim - 1] + 1) as i32,
                    );
                    if counter[dim - 1] == self.layout.shape[dim - 1] {
                        InformedView {
                            state: StepInfo::ExitDimension((dim - 1) as usize),
                            counter,
                            ..self
                        }
                    } else {
                        InformedView {
                            state: StepInfo::EnterDimension(dim),
                            counter,
                            pos: self.pos + self.layout.adj_stride[dim - 1],
                            ..self
                        }
                    }
                }
            },
            StepInfo::Value(v) => {
                if self.counter[last] == self.layout.shape[last] - 1 {
                    InformedView {
                        state: StepInfo::ExitDimension(last as usize),
                        counter: self.counter.update(last, 0),
                        ..self
                    }
                } else {
                    InformedView {
                        state: StepInfo::Value(
                            self.buffer[self.pos + self.layout.adj_stride[last]],
                        ),
                        counter: self.counter.update(last, (self.counter[last] + 1) as i32),
                        pos: self.pos + self.layout.adj_stride[last],
                        ..self
                    }
                }
            },
            StepInfo::End => self,
        }
    }
}

/// A step keeps the invariant of an informed walk.
pub proof fn lemma_informed_step<T: Copy>(w: InformedView<T>)
    requires
        w.wf(),
    ensures
        w.stepped().wf(),
{
    let l = w.layout;
    let n = l.shape.len() as int;
    let last = n - 1;
    let next = w.stepped();
    match w.state {
        StepInfo::EnterDimension(dim) => {},
        StepInfo::ExitDimension(dim) => {
            if dim > 0 {
                let zeroed = w.counter.update(dim as int, 0);
                let counter = zeroed.update(dim - 1, (w.counter[dim - 1] + 1) as i32);
                lemma_weighted_update(zeroed, l.stride, n, dim - 1, (w.counter[dim - 1] + 1) as i32);
                assert(((w.counter[dim - 1] + 1) as i32 - zeroed[dim - 1]) * l.stride[dim - 1]
                    == l.stride[dim - 1]) by (nonlinear_arith)
                    requires
                        (w.counter[dim - 1] + 1) as i32 - zeroed[dim - 1] == 1,
                ;
                if counter[dim - 1] == l.shape[dim - 1] {
                    lemma_weighted_update(counter, l.stride, n, dim - 1, 0);
                    assert((0 - counter[dim - 1]) * l.stride[dim - 1] == -(l.shape[dim - 1]
                        * l.stride[dim - 1])) by (nonlinear_arith)
                        requires
                            counter[dim - 1] == l.shape[dim - 1],
                    ;
                    assert(l.stride[dim - 1] * (l.shape[dim - 1] - 1) == l.shape[dim - 1]
                        * l.stride[dim - 1] - l.stride[dim - 1]) by (nonlinear_arith);
                }
            }
        },
        StepInfo::Value(v) => {
            if w.counter[last] == l.shape[last] - 1 {
                let zeroed = w.counter.update(last, 0);
                lemma_weighted_update(w.counter, l.stride, n, last, 0);
                assert(zeroed.update(last, 0) =~= zeroed);
                assert((0 - w.counter[last]) * l.stride[last] == -(l.stride[last] * (l.shape[last]
                    - 1))) by (nonlinear_arith)
                    requires
                        w.counter[last] == l.shape[last] - 1,
                ;
            } else {
                lemma_weighted_update(w.counter, l.stride, n, last, (w.counter[last] + 1) as i32);
                assert(((w.counter[last] + 1) as i32 - w.counter[last]) * l.stride[last]
                    == l.stride[last]) by (nonlinear_arith)
                    requires
                        (w.counter[last] + 1) as i32 - w.counter[last] == 1,
                ;
            }
        },
        StepInfo::End => {},
    }
}

impl<'a, T: Copy> View for InformedSliceIter<'a, T> {
    type V = InformedView<T>;

    closed spec fn view(&self) -> InformedView<T> {
        InformedView {
            buffer: self.buffer@,
            layout: self.layout@,
            state: self.current_state,
            pos: self.pos as int,
            counter: self.counter@,
        }
    }
}

impl<'a, T: Copy> InformedSliceIter<'a, T> {
    /// An informed walk over the elements that `layout` selects of `buffer`.
    pub fn new(buffer: Vec<T>, layout: &'a Layout) -> (it: Self)
        requires
            layout.wf(),
            layout_fits(layout@, buffer@.len() as int),
        ensures
            it@ == InformedView::start(buffer@, layout@),
            it@.wf(),
    {
        let mut counter: Vec<i32> = Vec::new();
        counter.resize(layout.shape().len(), 0);
        proof {
            assert(counter@ =~= origin(layout@.shape.len()));
            lemma_weighted_origin(layout@.stride, layout@.shape.len(), layout@.shape.len() as int);
        }
        Self {
            buffer,
            layout,
            current_state: StepInfo::EnterDimension(0),
            pos: layout.offset(),
            counter,
        }
    }

    /// The number of dimensions walked through.
    pub fn rank(&self) -> (n: usize)
        requires
            self@.wf(),
        ensures
            n == self@.layout.shape.len(),
            n >= 1,
    {
        self.layout.shape().len()
    }

    /// The next report of the walk: the entry or exit of a dimension, or an
    /// element; nothing once the walk is over.
    pub fn next(&mut self) -> (r: Option<StepInfo<T>>)
        requires
            old(self)@.wf(),
        ensures
            final(self)@.wf(),
            r == old(self)@.emitted(),
            final(self)@ == old(self)@.stepped(),
    {
        let ghost w = self@;
        proof {
            lemma_informed_step(w);
            assert(w.buffer.len() == self.buffer.len());
        }
        let shape = self.layout.shape();
        let adj_stride = self.layout.adj_stride();
        let last: usize = shape.len() - 1;
        match self.current_state {
            StepInfo::EnterDimension(dim) => {
                if dim == last {
                    self.current_state = StepInfo::Value(self.buffer[self.pos]);
                } else {
                    self.current_state = StepInfo::EnterDimension(dim + 1);
                }
                Some(StepInfo::EnterDimension(dim))
            },
            StepInfo::ExitDimension(dim) => {
                if dim == 0 {
                    self.current_state = StepInfo::End;
                    return Some(StepInfo::ExitDimension(dim));
                }
                self.counter.set(dim, 0);
                let raised: i32 = self.counter[dim - 1] + 1;
                self.counter.set(dim - 1, raised);
                if raised == shape[dim - 1] {
                    self.current_state = StepInfo::ExitDimension(dim - 1);
                    return Some(StepInfo::ExitDimension(dim));
                }
                self.pos = moved_by(self.pos, adj_stride[dim - 1]);
                self.current_state = StepInfo::EnterDimension(dim);
                Some(StepInfo::ExitDimension(dim))
            },
            StepInfo::Value(v) => {
                if self.counter[last] == shape[last] - 1 {
                    self.current_state = StepInfo::ExitDimension(last);
                    self.counter.set(last, 0);
                    return Some(StepInfo::Value(v));
                }
                self.pos = moved_by(self.pos, adj_stride[last]);
                let raised: i32 = self.counter[last] + 1;
                self.counter.set(last, raised);
                self.current_state = StepInfo::Value(self.buffer[self.pos]);
                Some(StepInfo::Value(v))
            },
            StepInfo::End => None,
        }
    }
}

} // verus!
