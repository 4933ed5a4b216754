//! Promises: handles on operation nodes that have yet to be computed.
use vstd::prelude::*;
use std::sync::Arc;
use crate::definitions::NumberLike;
use crate::graph::{
    admissible, node_wf, ruled_layout, NodeKind, TensorGraphCacheNode, TensorGraphNode,
};
use crate::layout::Layout;
use crate::ops::fusion::fused_through;
use crate::ops::impl_compute_op::OpKind;
use crate::ops::impl_compute_op::OpKindView;
use crate::tensor::Tensor;
use crate::traits::{Dimension, Promising};

verus! {
/// A promise of the result of an operation node.
pub type TensorPromise<T> = RawTensorPromise<TensorGraphNode<T>>;

/// A promise that remembers its result once it has been computed.
pub type CachedTensorPromise<T> = RawTensorPromise<TensorGraphCacheNode<T>>;

/// A handle on a member of the graph that can be computed.
#[verifier::reject_recursive_types(P)]
pub struct RawTensorPromise<P> {
    pub graph: Arc<P>,
}

impl<T: NumberLike> RawTensorPromise<TensorGraphNode<T>> {
    /// The promise of `op` on `inputs`, rewritten by fusion, with the layout
    /// that the layout rules give it.
    pub fn new(op: OpKind<T>, inputs: Vec<NodeKind<T>>) -> (r: Self)
        requires
            admissible(op@, inputs@),
        ensures
            node_wf(*r.graph),
            r.graph.op@ == fused_through(op@, inputs@, inputs@.len() as int).op,
            r.graph.inputs@ == fused_through(op@, inputs@, inputs@.len() as int).inputs,
            r.graph.layout@ == ruled_layout(r.graph.op@, r.graph.inputs@),
    {
        Self { graph: Arc::new(TensorGraphNode::new(op, inputs)) }
    }

    /// The promise of `op` on `inputs`, rewritten by fusion, with a layout
    /// computed beforehand, which is taken as it is.
    pub fn with_layout(op: OpKind<T>, inputs: Vec<NodeKind<T>>, layout: Layout) -> (r: Self)
        requires
            admissible(op@, inputs@),
            layout.wf(),
            layout@.shape == ruled_layout(
                fused_through(op@, inputs@, inputs@.len() as int).op,
                fused_through(op@, inputs@, inputs@.len() as int).inputs,
            ).shape,
        ensures
            node_wf(*r.graph),
            r.graph.op@ == fused_through(op@, inputs@, inputs@.len() as int).op,
            r.graph.inputs@ == fused_through(op@, inputs@, inputs@.len() as int).inputs,
            r.graph.layout@ == layout@,
    {
        Self { graph: Arc::new(TensorGraphNode::with_layout(op, inputs, layout)) }
    }

    /// A promise of the same result that remembers it: a `NoOp` on this
    /// promise, so that everything built on the new promise shares one
    /// computation of this one.
    pub fn cache(self) -> (r: CachedTensorPromise<T>)
        requires
            node_wf(*self.graph),
        ensures
            node_wf(r.graph.node_spec()),
            r.graph.node_spec().op@ == OpKindView::<T>::NoOp,
            r.graph.node_spec().inputs@ == seq![NodeKind::Node(self.graph)],
            r.graph.node_spec().layout@ == self.graph.layout@,
    {
        let mut inputs: Vec<NodeKind<T>> = Vec::with_capacity(1);
        inputs.push(NodeKind::Node(self.graph));
        proof {
            crate::ops::impl_op::lemma_unfused(OpKindView::<T>::NoOp, inputs@, 1);
        }
        CachedTensorPromise::new(OpKind::NoOp, inputs)
    }
}

impl<T: NumberLike> RawTensorPromise<TensorGraphCacheNode<T>> {
    /// The remembering promise of `op` on `inputs`; see
    /// [`TensorPromise::new`].
    pub fn new(op: OpKind<T>, inputs: Vec<NodeKind<T>>) -> (r: Self)
        requires
            admissible(op@, inputs@),
        ensures
            node_wf(r.graph.node_spec()),
            r.graph.node_spec().op@ == fused_through(op@, inputs@, inputs@.len() as int).op,
            r.graph.node_spec().inputs@ == fused_through(op@, inputs@, inputs@.len() as int).inputs,
            r.graph.node_spec().layout@ == ruled_layout(
                r.graph.node_spec().op@,
                r.graph.node_spec().inputs@,
            ),
    {
        Self { graph: Arc::new(TensorGraphCacheNode::new(op, inputs)) }
    }

    /// The remembering promise of `op` on `inputs` with a layout computed
    /// beforehand; see [`TensorPromise::with_layout`].
    pub fn with_layout(op: OpKind<T>, inputs: Vec<NodeKind<T>>, layout: Layout) -> (r: Self)
        requires
            admissible(op@, inputs@),
            layout.wf(),
            layout@.shape == ruled_layout(
                fused_through(op@, inputs@, inputs@.len() as int).op,
                fused_through(op@, inputs@, inputs@.len() as int).inputs,
            ).shape,
        ensures
            node_wf(r.graph.node_spec()),
            r.graph.node_spec().op@ == fused_through(op@, inputs@, inputs@.len() as int).op,
            r.graph.node_spec().inputs@ == fused_through(op@, inputs@, inputs@.len() as int).inputs,
            r.graph.node_spec().layout@ == layout@,
    {
        Self { graph: Arc::new(TensorGraphCacheNode::with_layout(op, inputs, layout)) }
    }

    /// The promise of a remembering node.
    pub fn from_node(node: TensorGraphCacheNode<T>) -> (r: Self)
        ensures
            *r.graph == node,
    {
        Self { graph: Arc::new(node) }
    }
}

impl<P: Promising> RawTensorPromise<P> {
    /// Computes the promise and gives the result as a tensor of its own.
    /// There is none where a buffer that is read does not hold what a layout
    /// selects of it.
    pub fn materialize(self) -> (r: Option<Tensor<P::Output>>)
        requires
            self.graph.sound(),
        ensures
            r matches Some(tensor) ==> tensor.layout_spec().shape == self.graph.layout_spec().shape,
    {
        match self.graph.compute() {
            Some(data) => Some(Tensor::from_data(data)),
            None => None,
        }
    }
}

impl<P: Promising> Dimension for RawTensorPromise<P> {
    open spec fn shape_spec(&self) -> Seq<i32> {
        self.graph.layout_spec().shape
    }

    open spec fn stride_spec(&self) -> Seq<i32> {
        self.graph.layout_spec().stride
    }

    open spec fn adj_stride_spec(&self) -> Seq<i32> {
        self.graph.layout_spec().adj_stride
    }

    open spec fn len_spec(&self) -> usize {
        self.graph.layout_spec().len as usize
    }

    open spec fn offset_spec(&self) -> usize {
        self.graph.layout_spec().offset as usize
    }

    #[inline]
    fn shape(&self) -> (s: &[i32]) {
        self.graph.layout().shape()
    }

    #[inline]
    fn stride(&self) -> (s: &[i32]) {
        self.graph.layout().stride()
    }

    #[inline]
    fn adj_stride(&self) -> (s: &[i32]) {
        self.graph.layout().adj_stride()
    }

    #[inline]
    fn len(&self) -> (n: usize) {
        self.graph.layout().len()
    }

    #[inline]
    fn offset(&self) -> (n: usize) {
        self.graph.layout().offset()
    }
}

} // verus!
