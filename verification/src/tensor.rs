//! Tensors: handles on materialized values, the leaves of the graph.
use vstd::prelude::*;
use std::sync::Arc;
use crate::definitions::NumberLike;
use crate::graph::{node_wf, NodeKind, TensorGraphEdge};
use crate::iter::{InformedSliceIter, SliceIter, WalkView};
use crate::layout::{shape_valid, LayoutView};
use crate::ops::impl_compute_op::{OpKind, OpKindView};
use crate::promise::TensorPromise;
use crate::storage::{arc_share, TensorData};
use crate::traits::Dimension;
use crate::walk::{gathered, layout_fits};

verus! {
/// A materialized array. A tensor is a share of a leaf of the graph; the
/// promises built on it read the leaf.
#[verifier::reject_recursive_types(T)]
pub struct Tensor<T: Copy> {
    pub graph: Arc<TensorGraphEdge<T>>,
}

impl<T: Copy> Tensor<T> {
    /// The layout of the tensor.
    pub open spec fn layout_spec(&self) -> LayoutView {
        self.graph.data_spec().layout_spec()
    }

    /// The member of the graph that this tensor is a share of.
    pub open spec fn node(&self) -> NodeKind<T> {
        NodeKind::Edge(self.graph)
    }

    /// A new tensor of the given shape, every element of which is `scalar`.
    #[inline]
    pub fn from_scalar(scalar: T, shape: &[i32]) -> (r: Self)
        requires
            shape_valid(shape@),
        ensures
            r.layout_spec() == LayoutView::row_major(shape@, 0),
            r.node().wf(),
    {
        Self { graph: Arc::new(TensorGraphEdge::from_tensor_data(TensorData::from_scalar(scalar, shape))) }
    }

    /// A new tensor that holds `vector` row-major in the given shape.
    #[inline]
    pub fn from_vec(vector: Vec<T>, shape: &[i32]) -> (r: Self)
        requires
            shape_valid(shape@),
        ensures
            r.layout_spec() == LayoutView::row_major(shape@, 0),
            r.node().wf(),
    {
        Self { graph: Arc::new(TensorGraphEdge::from_tensor_data(TensorData::from_vec(vector, shape))) }
    }

    /// A new tensor that holds what `iter` yields row-major in the given
    /// shape.
    #[inline]
    pub fn from_iter<I: Iterator<Item = T>>(iter: I, shape: &[i32]) -> (r: Self)
        requires
            shape_valid(shape@),
        ensures
            r.layout_spec() == LayoutView::row_major(shape@, 0),
            r.node().wf(),
    {
        Self {
            graph: Arc::new(TensorGraphEdge::from_tensor_data(TensorData::from_iter(iter, shape))),
        }
    }

    /// The tensor of a materialized value.
    #[inline]
    pub fn from_data(data: TensorData<T>) -> (r: Self)
        ensures
            r.graph.data_spec() == data,
            r.node().wf(),
    {
        let layout = data.layout();
        Self { graph: Arc::new(TensorGraphEdge::from_tensor_data(data)) }
    }

    /// A walk over the elements in row-major order, if every element the
    /// layout selects is in the buffer now.
    #[inline]
    pub fn iter(&self) -> (r: Option<SliceIter<'_, T>>)
        ensures
            r matches Some(it) ==> {
                &&& it@.wf()
                &&& it@ == WalkView::start(it@.data, self.layout_spec())
                &&& layout_fits(self.layout_spec(), it@.data.len() as int)
            },
    {
        self.graph.get().iter()
    }

    /// An informed walk over the elements, if every element the layout
    /// selects is in the buffer now.
    #[inline]
    pub fn informed_iter(&self) -> (r: Option<InformedSliceIter<'_, T>>)
        ensures
            r matches Some(it) ==> {
                &&& it@.wf()
                &&& it@ == crate::iter::InformedView::start(it@.buffer, self.layout_spec())
            },
    {
        self.graph.get().informed_iter()
    }

    /// The elements in row-major order as they are now, if every element the
    /// layout selects is in the buffer.
    pub fn to_vec(&self) -> (r: Option<Vec<T>>)
        ensures
            r matches Some(v) ==> {
                &&& v@.len() == self.layout_spec().len
                &&& exists|buffer: Seq<T>| #[trigger]
                    layout_fits(self.layout_spec(), buffer.len() as int) && v@ == gathered(
                        buffer,
                        self.layout_spec(),
                    )
            },
    {
        match self.graph.get().read() {
            Some(dense) => {
                let v = dense.gather();
                proof {
                    assert(layout_fits(self.layout_spec(), dense.data@.len() as int));
                    assert(v@ == gathered(dense.data@, self.layout_spec()));
                }
                Some(v)
            },
            None => None,
        }
    }

    /// A shallow copy: one more share of the same leaf. The promises built
    /// on either read the same leaf.
    #[inline]
    pub fn clone_reference(&self) -> (r: Self)
        ensures
            r.graph == self.graph,
    {
        Self { graph: arc_share(&self.graph) }
    }

    /// A shallow copy without the connection: a new leaf over one more share
    /// of the same buffer.
    #[inline]
    pub fn clone_detached(&self) -> (r: Self)
        ensures
            r.layout_spec() == self.layout_spec(),
            r.graph.data_spec().storage_spec() == self.graph.data_spec().storage_spec(),
            r.node().wf(),
    {
        let data = self.graph.get();
        Self::from_data(data.clone_reference())
    }
}

impl<T: NumberLike> Tensor<T> {
    /// The promise of this tensor as it is: a `NoOp` on its leaf.
    #[inline]
    pub fn as_promise(&self) -> (r: TensorPromise<T>)
        ensures
            node_wf(*r.graph),
            r.graph.op@ == OpKindView::<T>::NoOp,
            r.graph.inputs@ == seq![self.node()],
            r.graph.layout@ == self.layout_spec(),
    {
        let layout = self.graph.get().layout();
        let mut inputs: Vec<NodeKind<T>> = Vec::with_capacity(1);
        inputs.push(NodeKind::Edge(arc_share(&self.graph)));
        proof {
            crate::ops::impl_op::lemma_unfused(OpKindView::<T>::NoOp, inputs@, 1);
        }
        TensorPromise::new(OpKind::NoOp, inputs)
    }
}

impl<T: Copy> Dimension for Tensor<T> {
    open spec fn shape_spec(&self) -> Seq<i32> {
        self.graph.data_spec().shape_spec()
    }

    open spec fn stride_spec(&self) -> Seq<i32> {
        self.graph.data_spec().stride_spec()
    }

    open spec fn adj_stride_spec(&self) -> Seq<i32> {
        self.graph.data_spec().adj_stride_spec()
    }

    open spec fn len_spec(&self) -> usize {
        self.graph.data_spec().len_spec()
    }

    open spec fn offset_spec(&self) -> usize {
        self.graph.data_spec().offset_spec()
    }

    #[inline]
    fn shape(&self) -> (s: &[i32]) {
        self.graph.get().shape()
    }

    #[inline]
    fn stride(&self) -> (s: &[i32]) {
        self.graph.get().stride()
    }

    #[inline]
    fn adj_stride(&self) -> (s: &[i32]) {
        self.graph.get().adj_stride()
    }

    #[inline]
    fn len(&self) -> (n: usize) {
        self.graph.get().len()
    }

    #[inline]
    fn offset(&self) -> (n: usize) {
        self.graph.get().offset()
    }
}

impl<T: Copy> Clone for Tensor<T> {
    /// A deep copy: a new leaf over a new buffer with a copy of the
    /// elements.
    fn clone(&self) -> (r: Self)
        ensures
            r.layout_spec() == self.layout_spec(),
    {
        let data = self.graph.get();
        Self::from_data(data.clone())
    }
}

} // verus!
