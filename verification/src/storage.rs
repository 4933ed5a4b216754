//! Buffers: the shared, lock-guarded storage behind tensors, the pair of
//! storage and layout that a tensor is, and the plain pair of elements and
//! layout that the evaluator computes on.
use vstd::prelude::*;
use std::sync::Arc;
use parking_lot::RwLock;
use crate::internals::product;
use crate::iter::{InformedSliceIter, InformedView, SliceIter, WalkView};
use crate::layout::{shape_valid, Layout, LayoutView};
use crate::traits::Dimension;
use crate::walk::{gathered, layout_fits};

verus! {
/// The reader-writer lock of `lock_api`, which `parking_lot::RwLock` is an
/// instance of. Nothing is known of what a lock holds: any holder of a share
/// may have written to it.
#[verifier::external_type_specification]
#[verifier::external_body]
#[verifier::reject_recursive_types(R)]
#[verifier::reject_recursive_types(T)]
pub struct ExRwLock<R, T: ?Sized>(parking_lot::lock_api::RwLock<R, T>);

/// The raw lock of `parking_lot` behind its `RwLock`.
#[verifier::external_type_specification]
#[verifier::external_body]
pub struct ExRawRwLock(parking_lot::RawRwLock);

/// `Arc::clone`: another share of the same allocation, hence of the same
/// value.
#[verifier::external_body]
pub(crate) fn arc_share<X>(a: &Arc<X>) -> (r: Arc<X>)
    ensures
        r == *a,
{
    Arc::clone(a)
}

/// `Arc::ptr_eq`: whether two shares are of one allocation. Two shares of
/// one allocation are shares of one value.
#[verifier::external_body]
pub(crate) fn arc_same<X>(this: &Arc<X>, other: &Arc<X>) -> (r: bool)
    ensures
        r ==> *this == *other,
{
    Arc::ptr_eq(this, other)
}

/// `Arc::try_unwrap`: the value itself if this is the only share, else the
/// share back.
#[verifier::external_body]
pub(crate) fn arc_try_unwrap<X>(this: Arc<X>) -> (r: Result<X, Arc<X>>)
    ensures
        match r {
            Ok(t) => t == *this,
            Err(a) => a == this,
        },
{
    Arc::try_unwrap(this)
}

/// `RwLock::new` of `parking_lot`: an unlocked lock around the elements.
#[verifier::external_body]
fn lock_new<T: Copy>(elements: Vec<T>) -> (lock: RwLock<Box<[T]>>) {
    RwLock::new(elements.into_boxed_slice())
}

/// `RwLock::read` of `parking_lot`: takes shared access, copies the elements
/// out and gives the access back. What comes back is what the lock held at
/// that moment; nothing is claimed of it.
#[verifier::external_body]
fn lock_read<T: Copy>(lock: &RwLock<Box<[T]>>) -> (elements: Vec<T>) {
    lock.read().to_vec()
}

/// `RwLock::write` of `parking_lot`: takes exclusive access, puts the
/// elements in place of those held and gives the access back.
#[verifier::external_body]
fn lock_write<T: Copy>(lock: &RwLock<Box<[T]>>, elements: Vec<T>) {
    *lock.write() = elements.into_boxed_slice();
}

/// `RwLock::into_inner` of `parking_lot`: the elements of a lock that nobody
/// else holds.
#[verifier::external_body]
fn lock_into_inner<T: Copy>(lock: RwLock<Box<[T]>>) -> (elements: Vec<T>) {
    lock.into_inner().into_vec()
}

/// `Vec::from_iter`: the items that an iterator yields, in order. Nothing
/// is claimed of them: what an iterator yields is up to its code.
#[verifier::external_body]
fn collect_items<T, I: Iterator<Item = T>>(iter: I) -> (items: Vec<T>) {
    Vec::from_iter(iter)
}

/// A dense buffer owned jointly by its shares. Readers and writers go
/// through a reader-writer lock.
#[verifier::reject_recursive_types(T)]
pub struct Storage<T: Copy> {
    buffer: Arc<RwLock<Box<[T]>>>,
}

impl<T: Copy> Storage<T> {
    /// A buffer of `len` copies of `scalar`.
    #[inline]
    pub fn from_scalar(scalar: T, len: usize) -> (s: Self) {
        Self::from_vec(repeated(scalar, len))
    }

    /// The buffer behind a lock that already exists, as one more share of it.
    #[inline]
    pub fn from_arc(buffer: Arc<RwLock<Box<[T]>>>) -> (s: Self)
        ensures
            s.handle() == buffer,
    {
        Self { buffer }
    }

    /// A new buffer that holds `vector`.
    #[inline]
    pub fn from_vec(vector: Vec<T>) -> (s: Self) {
        Self { buffer: Arc::new(lock_new(vector)) }
    }

    /// A new buffer that holds what `iter` yields.
    #[inline]
    pub fn from_iter<I: Iterator<Item = T>>(iter: I) -> (s: Self) {
        Self::from_vec(collect_items(iter))
    }

    /// The lock this storage is a share of.
    pub closed spec fn handle(&self) -> Arc<RwLock<Box<[T]>>> {
        self.buffer
    }

    /// One more share of the same buffer.
    #[inline]
    pub fn clone_reference(&self) -> (s: Self)
        ensures
            s == *self,
    {
        Self { buffer: arc_share(&self.buffer) }
    }

    /// Whether both are shares of one buffer.
    pub fn shares_buffer(&self, other: &Self) -> (r: bool)
        ensures
            r ==> *self == *other,
    {
        arc_same(&self.buffer, &other.buffer)
    }

    /// A copy of the elements the buffer holds now.
    pub fn snapshot(&self) -> (elements: Vec<T>) {
        lock_read(&*self.buffer)
    }

    /// Puts `elements` in place of what the buffer holds; every share sees
    /// them from now on.
    pub fn overwrite(&self, elements: Vec<T>) {
        lock_write(&*self.buffer, elements)
    }

    /// The elements of the buffer: the buffer itself if this is its only
    /// share, else a copy.
    pub fn into_elements(self) -> (elements: Vec<T>) {
        match arc_try_unwrap(self.buffer) {
            Ok(lock) => lock_into_inner(lock),
            Err(shared) => lock_read(&*shared),
        }
    }
}

impl<T: Copy> Clone for Storage<T> {
    /// A new buffer with a copy of the elements.
    fn clone(&self) -> (s: Self) {
        Storage::from_vec(self.snapshot())
    }
}

/// Elements with the layout that arranges them: what the evaluator computes
/// on. The layout is well formed and every element it selects is there.
pub struct DenseData<T: Copy> {
    pub data: Vec<T>,
    pub layout: Layout,
}

impl<T: Copy> DenseData<T> {
    /// The invariant: a well-formed layout that fits the elements.
    pub open spec fn wf(&self) -> bool {
        self.layout.wf() && layout_fits(self.layout@, self.data@.len() as int)
    }

    /// The elements the layout selects, in row-major order.
    pub open spec fn elements(&self) -> Seq<T> {
        gathered(self.data@, self.layout@)
    }

    /// Whether the elements lie in the buffer in row-major order with nothing
    /// before, between or after them, so that the buffer is the sequence of
    /// elements.
    pub open spec fn is_packed(&self) -> bool {
        &&& self.layout@ == LayoutView::row_major(self.layout@.shape, 0)
        &&& self.data@.len() == self.layout@.len
    }

    /// Whether the value is well formed; see [`DenseData::wf`].
    pub fn is_well_formed(&self) -> (r: bool)
        ensures
            r == self.wf(),
    {
        self.layout.is_well_formed() && self.layout.fits(self.data.len())
    }

    /// Elements in row-major order with the row-major layout of `shape`.
    pub fn packed(data: Vec<T>, shape: &[i32]) -> (r: Self)
        requires
            shape_valid(shape@),
            data@.len() == product(shape@),
        ensures
            r.wf(),
            r.is_packed(),
            r.data@ == data@,
            r.layout@ == LayoutView::row_major(shape@, 0),
            r.elements() == data@,
    {
        let layout = Layout::from_shape(shape);
        proof {
            crate::walk::lemma_packed_positions(shape@);
        }
        Self { data, layout }
    }

    /// The elements that the layout selects, in row-major order.
    pub fn gather(&self) -> (v: Vec<T>)
        requires
            self.wf(),
        ensures
            v@ == self.elements(),
    {
        proof {
            crate::iter::lemma_walk_start(self.data@, self.layout@);
            crate::layout::lemma_product_positive(self.layout@.shape);
        }
        let it = SliceIter::new(
            clone_elements(&self.data),
            self.layout.len(),
            self.layout.shape(),
            self.layout.adj_stride(),
            self.layout.offset(),
        );
        it.collect()
    }

    /// The elements in row-major order: the buffer itself where it is packed,
    /// else gathered into a new one.
    pub fn into_elements(self) -> (v: Vec<T>)
        requires
            self.wf(),
        ensures
            v@ == self.elements(),
    {
        if self.layout.offset() == 0 && self.data.len() == self.layout.len()
            && self.layout.is_contiguous() {
            proof {
                crate::layout::law_view_of_own_shape(self.layout@);
                crate::walk::lemma_packed_positions(self.layout@.shape);
            }
            self.data
        } else {
            self.gather()
        }
    }
}

/// `len` copies of `value`.
pub fn repeated<T: Copy>(value: T, len: usize) -> (r: Vec<T>)
    ensures
        r@ == Seq::new(len as nat, |i: int| value),
{
    let mut r: Vec<T> = Vec::with_capacity(len);
    let mut i: usize = 0;
    while i < len
        invariant
            0 <= i <= len,
            r@ == Seq::new(i as nat, |j: int| value),
        decreases len - i,
    {
        r.push(value);
        i = i + 1;
        proof {
            assert(r@ =~= Seq::new(i as nat, |j: int| value));
        }
    }
    r
}

/// A copy of a vector of copyable elements.
pub fn clone_elements<T: Copy>(v: &Vec<T>) -> (r: Vec<T>)
    ensures
        r@ == v@,
{
    let mut r: Vec<T> = Vec::with_capacity(v.len());
    let mut i: usize = 0;
    while i < v.len()
        invariant
            0 <= i <= v@.len(),
            r@ == v@.take(i as int),
        decreases v@.len() - i,
    {
        r.push(v[i]);
        i = i + 1;
    }
    r
}

/// A materialized value: storage, and the layout under which it is read.
/// Several values may share one storage under different layouts.
#[verifier::reject_recursive_types(T)]
pub struct TensorData<T: Copy> {
    storage: Storage<T>,
    layout: Layout,
}

impl<T: Copy> TensorData<T> {
    /// The layout under which the storage is read.
    pub closed spec fn layout_spec(&self) -> LayoutView {
        self.layout@
    }

    /// The storage that is read.
    pub closed spec fn storage_spec(&self) -> Storage<T> {
        self.storage
    }

    /// The invariant, which every value keeps: a well-formed layout.
    pub open spec fn wf(&self) -> bool {
        self.layout_spec().wf()
    }

    #[verifier::type_invariant]
    spec fn well_formed(self) -> bool {
        self.layout@.wf()
    }

    /// The value that reads `storage` under `layout`.
    #[inline]
    pub fn new(storage: Storage<T>, layout: Layout) -> (r: Self)
        requires
            layout.wf(),
        ensures
            r.layout_spec() == layout@,
            r.storage_spec() == storage,
    {
        Self { storage, layout }
    }

    /// A new value of the given shape, every element of which is `scalar`.
    #[inline]
    pub fn from_scalar(scalar: T, shape: &[i32]) -> (r: Self)
        requires
            shape_valid(shape@),
        ensures
            r.layout_spec() == LayoutView::row_major(shape@, 0),
            r.wf(),
    {
        let layout = Layout::from_shape(shape);
        Self { storage: Storage::from_scalar(scalar, layout.len()), layout }
    }

    /// The value that reads the buffer behind `buffer` row-major in the
    /// given shape.
    #[inline]
    pub fn from_arc(buffer: Arc<RwLock<Box<[T]>>>, shape: &[i32]) -> (r: Self)
        requires
            shape_valid(shape@),
        ensures
            r.layout_spec() == LayoutView::row_major(shape@, 0),
            r.storage_spec().handle() == buffer,
            r.wf(),
    {
        Self { storage: Storage::from_arc(buffer), layout: Layout::from_shape(shape) }
    }

    /// A new value that holds `vector` row-major in the given shape.
    #[inline]
    pub fn from_vec(vector: Vec<T>, shape: &[i32]) -> (r: Self)
        requires
            shape_valid(shape@),
        ensures
            r.layout_spec() == LayoutView::row_major(shape@, 0),
            r.wf(),
    {
        Self { storage: Storage::from_vec(vector), layout: Layout::from_shape(shape) }
    }

    /// A new value that holds what `iter` yields row-major in the given
    /// shape.
    #[inline]
    pub fn from_iter<I: Iterator<Item = T>>(iter: I, shape: &[i32]) -> (r: Self)
        requires
            shape_valid(shape@),
        ensures
            r.layout_spec() == LayoutView::row_major(shape@, 0),
            r.wf(),
    {
        Self::from_vec(collect_items(iter), shape)
    }

    /// A new value that holds the elements and has the layout of `dense`.
    pub fn from_dense(dense: DenseData<T>) -> (r: Self)
        requires
            dense.layout.wf(),
        ensures
            r.layout_spec() == dense.layout@,
    {
        Self { storage: Storage::from_vec(dense.data), layout: dense.layout }
    }

    /// The same storage read under another layout.
    #[inline]
    pub fn as_layout(&self, layout: Layout) -> (r: Self)
        requires
            layout.wf(),
        ensures
            r.layout_spec() == layout@,
            r.storage_spec() == self.storage_spec(),
    {
        Self { storage: self.storage.clone_reference(), layout }
    }

    /// The elements the storage holds now, with the layout, if every element
    /// the layout selects is there.
    pub fn read(&self) -> (r: Option<DenseData<T>>)
        ensures
            self.wf(),
            r matches Some(d) ==> d.wf() && d.layout@ == self.layout_spec(),
    {
        proof {
            use_type_invariant(self);
        }
        checked_dense(self.storage.snapshot(), self.layout.clone())
    }

    /// A walk over the elements in row-major order, if every element the
    /// layout selects is in the storage now.
    #[inline]
    pub fn iter(&self) -> (r: Option<SliceIter<'_, T>>)
        ensures
            r matches Some(it) ==> {
                &&& it@.wf()
                &&& it@ == WalkView::start(it@.data, self.layout_spec())
                &&& layout_fits(self.layout_spec(), it@.data.len() as int)
            },
    {
        proof {
            use_type_invariant(self);
        }
        walk_over(self.storage.snapshot(), &self.layout)
    }

    /// A walk that yields copies; the same as [`TensorData::iter`].
    #[inline]
    pub fn copied_iter(&self) -> (r: Option<SliceIter<'_, T>>)
        ensures
            r matches Some(it) ==> {
                &&& it@.wf()
                &&& it@ == WalkView::start(it@.data, self.layout_spec())
                &&& layout_fits(self.layout_spec(), it@.data.len() as int)
            },
    {
        self.iter()
    }

    /// An informed walk over the elements, if every element the layout
    /// selects is in the storage now.
    #[inline]
    pub fn informed_iter(&self) -> (r: Option<InformedSliceIter<'_, T>>)
        ensures
            r matches Some(it) ==> {
                &&& it@.wf()
                &&& it@ == InformedView::start(it@.buffer, self.layout_spec())
            },
    {
        proof {
            use_type_invariant(self);
        }
        informed_over(self.storage.snapshot(), &self.layout)
    }

    /// A walk over the elements in packed runs, if every element the layout
    /// selects is in the storage now.
    #[inline]
    pub fn packed_iter(&self) -> (r: Option<crate::iter::ChunkedSliceIter<'_, T>>)
        ensures
            r matches Some(it) ==> {
                &&& it@.wf()
                &&& it@.position == 0
                &&& it@.chunk == crate::definitions::PACKING_BUFFER_SIZE
                &&& it@.walk == WalkView::start(it@.walk.data, self.layout_spec())
            },
    {
        match self.iter() {
            Some(it) => Some(crate::iter::ChunkedSliceIter::new(it)),
            None => None,
        }
    }

    /// One more share of the same storage, under the same layout.
    #[inline]
    pub fn clone_reference(&self) -> (r: Self)
        ensures
            r.layout_spec() == self.layout_spec(),
            r.storage_spec() == self.storage_spec(),
    {
        proof {
            use_type_invariant(self);
        }
        Self { storage: self.storage.clone_reference(), layout: self.layout.clone() }
    }

    /// Whether both read one buffer.
    pub fn shares_storage(&self, other: &Self) -> (r: bool)
        ensures
            r ==> self.storage_spec() == other.storage_spec(),
    {
        self.storage.shares_buffer(&other.storage)
    }

    #[inline]
    pub fn layout(&self) -> (l: &Layout)
        ensures
            l@ == self.layout_spec(),
            l.wf(),
    {
        proof {
            use_type_invariant(self);
        }
        &self.layout
    }
}

/// A walk over what `layout` selects of `data`, if all of it is there.
pub fn walk_over<'a, T: Copy>(data: Vec<T>, layout: &'a Layout) -> (r: Option<SliceIter<'a, T>>)
    requires
        layout.wf(),
    ensures
        r is Some <==> layout_fits(layout@, data@.len() as int),
        r matches Some(it) ==> {
            &&& it@.wf()
            &&& it@ == WalkView::start(data@, layout@)
            &&& it@.remaining() == gathered(data@, layout@)
        },
{
    if layout.fits(data.len()) {
        proof {
            crate::iter::lemma_walk_start(data@, layout@);
            crate::layout::lemma_product_positive(layout@.shape);
        }
        Some(
            SliceIter::new(
                data,
                layout.len(),
                layout.shape(),
                layout.adj_stride(),
                layout.offset(),
            ),
        )
    } else {
        None
    }
}

/// An informed walk over what `layout` selects of `data`, if all of it is
/// there.
pub fn informed_over<'a, T: Copy>(data: Vec<T>, layout: &'a Layout) -> (r: Option<
    InformedSliceIter<'a, T>,
>)
    requires
        layout.wf(),
    ensures
        r is Some <==> layout_fits(layout@, data@.len() as int),
        r matches Some(it) ==> it@.wf() && it@ == InformedView::start(data@, layout@),
{
    if layout.fits(data.len()) {
        Some(InformedSliceIter::new(data, layout))
    } else {
        None
    }
}

/// `data` with `layout`, if the layout fits.
pub fn checked_dense<T: Copy>(data: Vec<T>, layout: Layout) -> (r: Option<DenseData<T>>)
    requires
        layout.wf(),
    ensures
        r is Some <==> layout_fits(layout@, data@.len() as int),
        r matches Some(d) ==> d.wf() && d.data@ == data@ && d.layout@ == layout@,
{
    if layout.fits(data.len()) {
        Some(DenseData { data, layout })
    } else {
        None
    }
}

impl<T: Copy> Clone for TensorData<T> {
    /// A new storage with a copy of the elements, under the same layout.
    fn clone(&self) -> (r: Self)
        ensures
            r.layout_spec() == self.layout_spec(),
    {
        proof {
            use_type_invariant(self);
        }
        Self { storage: self.storage.clone(), layout: self.layout.clone() }
    }
}

impl<T: Copy> Dimension for TensorData<T> {
    open spec fn shape_spec(&self) -> Seq<i32> {
        self.layout_spec().shape
    }

    open spec fn stride_spec(&self) -> Seq<i32> {
        self.layout_spec().stride
    }

    open spec fn adj_stride_spec(&self) -> Seq<i32> {
        self.layout_spec().adj_stride
    }

    open spec fn len_spec(&self) -> usize {
        self.layout_spec().len as usize
    }

    open spec fn offset_spec(&self) -> usize {
        self.layout_spec().offset as usize
    }

    #[inline]
    fn shape(&self) -> (s: &[i32]) {
        self.layout.shape()
    }

    #[inline]
    fn stride(&self) -> (s: &[i32]) {
        self.layout.stride()
    }

    #[inline]
    fn adj_stride(&self) -> (s: &[i32]) {
        self.layout.adj_stride()
    }

    #[inline]
    fn len(&self) -> (n: usize) {
        proof {
            crate::layout::lemma_layout_bounds(self.layout);
        }
        self.layout.len()
    }

    #[inline]
    fn offset(&self) -> (n: usize) {
        proof {
            crate::layout::lemma_layout_bounds(self.layout);
        }
        self.layout.offset()
    }
}

} // verus!
