//! The arithmetic of tensors and promises: each operation builds a promise
//! and computes nothing.
use vstd::prelude::*;
use crate::definitions::NumberLike;
use crate::errors::OpError;
use crate::graph::{node_wf, NodeKind};
use crate::layout::Layout;
use crate::ops::fusion::{fused_through, fused_with, FusionView};
use crate::ops::impl_compute_op::{compute_layout, BinaryKind, OpKind, OpKindView, OpScalarKind};
use crate::promise::{CachedTensorPromise, TensorPromise};
use crate::storage::arc_share;
use crate::tensor::Tensor;

verus! {
/// Something that can be the input of an operation: a tensor or a promise.
pub trait ComputationDef {
    /// The element type.
    type Output: NumberLike;

    /// The member of the graph that this is a handle on.
    spec fn node_spec(&self) -> NodeKind<Self::Output>;

    /// One more share of the member of the graph.
    fn create_node(&self) -> (node: NodeKind<Self::Output>)
        ensures
            node == self.node_spec(),
    ;

    /// The layout of the member.
    fn layout(&self) -> (l: &Layout)
        ensures
            l@ == self.node_spec().layout(),
    ;
}

impl<T: NumberLike> ComputationDef for Tensor<T> {
    type Output = T;

    open spec fn node_spec(&self) -> NodeKind<T> {
        NodeKind::Edge(self.graph)
    }

    fn create_node(&self) -> (node: NodeKind<T>) {
        NodeKind::Edge(arc_share(&self.graph))
    }

    fn layout(&self) -> (l: &Layout) {
        self.graph.get().layout()
    }
}

impl<T: NumberLike> ComputationDef for TensorPromise<T> {
    type Output = T;

    open spec fn node_spec(&self) -> NodeKind<T> {
        NodeKind::Node(self.graph)
    }

    fn create_node(&self) -> (node: NodeKind<T>) {
        NodeKind::Node(arc_share(&self.graph))
    }

    fn layout(&self) -> (l: &Layout) {
        &self.graph.layout
    }
}

impl<T: NumberLike> ComputationDef for CachedTensorPromise<T> {
    type Output = T;

    open spec fn node_spec(&self) -> NodeKind<T> {
        NodeKind::Cache(self.graph)
    }

    fn create_node(&self) -> (node: NodeKind<T>) {
        NodeKind::Cache(arc_share(&self.graph))
    }

    fn layout(&self) -> (l: &Layout) {
        &self.graph.get_node().layout
    }
}

/// The rewriter leaves an operation that is not a scalar operation as it
/// is.
pub proof fn lemma_unfused<T: NumberLike>(op: OpKindView<T>, inputs: Seq<NodeKind<T>>, k: int)
    requires
        !(op is ScalarOp),
        0 <= k <= inputs.len(),
    ensures
        fused_through(op, inputs, k) == (FusionView { op, inputs }),
    decreases k,
{
    if k > 0 {
        lemma_unfused(op, inputs, k - 1);
    }
}

/// The operation and inputs of the promise of a scalar operation on one
/// member: fused with the operation of the member where the two fuse.
pub open spec fn scalar_promise<T: NumberLike>(scalar: OpScalarKind<T>, source: NodeKind<T>) -> FusionView<
    T,
> {
    fused_with(FusionView { op: OpKindView::ScalarOp(scalar), inputs: seq![source] }, source)
}

/// Whether `p` is the promise of the scalar operation `op` on `source`.
pub open spec fn is_scalar_operation<T: NumberLike>(
    p: TensorPromise<T>,
    op: OpScalarKind<T>,
    source: NodeKind<T>,
) -> bool {
    &&& node_wf(*p.graph)
    &&& p.graph.op@ == scalar_promise(op, source).op
    &&& p.graph.inputs@ == scalar_promise(op, source).inputs
}

/// Whether `p` is the promise of the operation `kind` between `lhs` and
/// `rhs`, with the layout of `lhs`.
pub open spec fn is_operation<T: NumberLike>(
    p: TensorPromise<T>,
    kind: BinaryKind,
    lhs: NodeKind<T>,
    rhs: NodeKind<T>,
) -> bool {
    &&& node_wf(*p.graph)
    &&& p.graph.op@ == kind.op::<T>()
    &&& p.graph.inputs@ == seq![lhs, rhs]
    &&& p.graph.layout@ == lhs.layout()
}

/// The promise of `source` seen through another shape of the same element
/// count. Refused where the shape is not one or holds another number of
/// elements.
pub fn view_impl<'a, D: ComputationDef>(source: &'a D, shape: &[i32]) -> (r: Result<
    TensorPromise<D::Output>,
    OpError<'a>,
>)
    requires
        source.node_spec().wf(),
    ensures
        r is Ok <==> source.node_spec().layout().view_legal(shape@),
        r matches Ok(p) ==> {
            &&& node_wf(*p.graph)
            &&& p.graph.op@ == OpKindView::<D::Output>::View(
                source.node_spec().layout().viewed(shape@),
            )
            &&& p.graph.inputs@ == seq![source.node_spec()]
            &&& p.graph.layout@ == source.node_spec().layout().viewed(shape@)
        },
        r matches Err(e) ==> e is InvalidViewShape,
{
    let mut input: Vec<NodeKind<D::Output>> = Vec::with_capacity(1);
    input.push(source.create_node());
    match source.layout().view_as(shape) {
        Ok(layout) => {
            proof {
                lemma_unfused(OpKindView::<D::Output>::View(layout@), input@, 1);
            }
            Ok(TensorPromise::new(OpKind::View(layout), input))
        },
        Err(_) => Err(OpError::InvalidViewShape),
    }
}

/// The promise of one scalar operation on every element of `lhs`.
fn scalar_impl<D: ComputationDef>(lhs: &D, op: OpScalarKind<D::Output>) -> (p: TensorPromise<
    D::Output,
>)
    requires
        lhs.node_spec().wf(),
    ensures
        is_scalar_operation(p, op, lhs.node_spec()),
{
    let mut inputs: Vec<NodeKind<D::Output>> = Vec::with_capacity(1);
    inputs.push(lhs.create_node());
    proof {
        assert(fused_through(OpKindView::ScalarOp(op), inputs@, 0) == (FusionView {
            op: OpKindView::ScalarOp(op),
            inputs: inputs@,
        }));
    }
    TensorPromise::new(OpKind::ScalarOp(op), inputs)
}

/// The promise of `lhs + rhs` for a scalar `rhs`.
pub fn add_scalar_impl<D: ComputationDef>(lhs: &D, rhs: D::Output) -> (p: TensorPromise<D::Output>)
    requires
        lhs.node_spec().wf(),
    ensures
        is_scalar_operation(p, OpScalarKind::Sum(rhs), lhs.node_spec()),
{
    scalar_impl(lhs, OpScalarKind::Sum(rhs))
}

/// The promise of `lhs - rhs` for a scalar `rhs`.
pub fn sub_scalar_impl<D: ComputationDef>(lhs: &D, rhs: D::Output) -> (p: TensorPromise<D::Output>)
    requires
        lhs.node_spec().wf(),
    ensures
        is_scalar_operation(p, OpScalarKind::Sub(rhs), lhs.node_spec()),
{
    scalar_impl(lhs, OpScalarKind::Sub(rhs))
}

/// The promise of `lhs * rhs` for a scalar `rhs`.
pub fn mul_scalar_impl<D: ComputationDef>(lhs: &D, rhs: D::Output) -> (p: TensorPromise<D::Output>)
    requires
        lhs.node_spec().wf(),
    ensures
        is_scalar_operation(p, OpScalarKind::Mul(rhs), lhs.node_spec()),
{
    scalar_impl(lhs, OpScalarKind::Mul(rhs))
}

/// The promise of `lhs / rhs` for a scalar `rhs`.
pub fn div_scalar_impl<D: ComputationDef>(lhs: &D, rhs: D::Output) -> (p: TensorPromise<D::Output>)
    requires
        lhs.node_spec().wf(),
    ensures
        is_scalar_operation(p, OpScalarKind::Div(rhs), lhs.node_spec()),
{
    scalar_impl(lhs, OpScalarKind::Div(rhs))
}

impl BinaryKind {
    /// The operation of the graph that this is.
    pub open spec fn op<T: Copy>(self) -> OpKindView<T> {
        match self {
            BinaryKind::Add => OpKindView::Add,
            BinaryKind::Sub => OpKindView::Sub,
            BinaryKind::Mul => OpKindView::Mul,
            BinaryKind::Div => OpKindView::Div,
        }
    }
}

/// Whether an operation between `lhs` and `rhs` can be built: both are well
/// formed and of one shape.
pub open spec fn operands_agree<T: Copy>(lhs: NodeKind<T>, rhs: NodeKind<T>) -> bool {
    &&& lhs.wf()
    &&& rhs.wf()
    &&& lhs.layout().shape == rhs.layout().shape
}

/// The promise of an operation between two tensors or promises of one
/// shape, with the layout of the first.
fn tensor_impl<D1: ComputationDef, D2: ComputationDef<Output = D1::Output>>(
    kind: BinaryKind,
    lhs: &D1,
    rhs: &D2,
) -> (p: TensorPromise<D1::Output>)
    requires
        operands_agree(lhs.node_spec(), rhs.node_spec()),
    ensures
        is_operation(p, kind, lhs.node_spec(), rhs.node_spec()),
{
    let op: OpKind<D1::Output> = match kind {
        BinaryKind::Add => OpKind::Add,
        BinaryKind::Sub => OpKind::Sub,
        BinaryKind::Mul => OpKind::Mul,
        BinaryKind::Div => OpKind::Div,
    };
    let mut layouts: Vec<&Layout> = Vec::with_capacity(2);
    layouts.push(lhs.layout());
    layouts.push(rhs.layout());
    let mut inputs: Vec<NodeKind<D1::Output>> = Vec::with_capacity(2);
    inputs.push(lhs.create_node());
    inputs.push(rhs.create_node());
    proof {
        assert(inputs@ =~= seq![lhs.node_spec(), rhs.node_spec()]);
        lemma_unfused(op@, inputs@, 2);
        crate::graph::lemma_member_layout_wf(lhs.node_spec());
    }
    let layout = match compute_layout(&op, layouts.as_slice()) {
        Ok(layout) => layout,
        Err(_) => vstd::pervasive::unreached(),
    };
    TensorPromise::with_layout(op, inputs, layout)
}

/// The promise of an operation between two tensors or promises, or the two
/// shapes where they differ.
pub fn checked_tensor_impl<'a, D1: ComputationDef, D2: ComputationDef<Output = D1::Output>>(
    kind: BinaryKind,
    lhs: &'a D1,
    rhs: &'a D2,
) -> (r: Result<TensorPromise<D1::Output>, OpError<'a>>)
    requires
        lhs.node_spec().wf(),
        rhs.node_spec().wf(),
    ensures
        r is Ok <==> lhs.node_spec().layout().shape == rhs.node_spec().layout().shape,
        r matches Ok(p) ==> is_operation(p, kind, lhs.node_spec(), rhs.node_spec()),
        r matches Err(e) ==> e matches OpError::NotSameShape(expected, got) && expected@
            == lhs.node_spec().layout().shape && got@ == rhs.node_spec().layout().shape,
{
    let expected = lhs.layout().shape();
    let got = rhs.layout().shape();
    if crate::ops::impl_compute_op::same_shape(expected, got) {
        Ok(tensor_impl(kind, lhs, rhs))
    } else {
        Err(OpError::NotSameShape(expected, got))
    }
}

/// The promise of `lhs + rhs`, element by element.
pub fn add_tensor_impl<D1: ComputationDef, D2: ComputationDef<Output = D1::Output>>(
    lhs: &D1,
    rhs: &D2,
) -> (p: TensorPromise<D1::Output>)
    requires
        operands_agree(lhs.node_spec(), rhs.node_spec()),
    ensures
        is_operation(p, BinaryKind::Add, lhs.node_spec(), rhs.node_spec()),
{
    tensor_impl(BinaryKind::Add, lhs, rhs)
}

/// The promise of `lhs - rhs`, element by element.
pub fn sub_tensor_impl<D1: ComputationDef, D2: ComputationDef<Output = D1::Output>>(
    lhs: &D1,
    rhs: &D2,
) -> (p: TensorPromise<D1::Output>)
    requires
        operands_agree(lhs.node_spec(), rhs.node_spec()),
    ensures
        is_operation(p, BinaryKind::Sub, lhs.node_spec(), rhs.node_spec()),
{
    tensor_impl(BinaryKind::Sub, lhs, rhs)
}

/// The promise of `lhs * rhs`, element by element.
pub fn mul_tensor_impl<D1: ComputationDef, D2: ComputationDef<Output = D1::Output>>(
    lhs: &D1,
    rhs: &D2,
) -> (p: TensorPromise<D1::Output>)
    requires
        operands_agree(lhs.node_spec(), rhs.node_spec()),
    ensures
        is_operation(p, BinaryKind::Mul, lhs.node_spec(), rhs.node_spec()),
{
    tensor_impl(BinaryKind::Mul, lhs, rhs)
}

/// The promise of `lhs / rhs`, element by element.
pub fn div_tensor_impl<D1: ComputationDef, D2: ComputationDef<Output = D1::Output>>(
    lhs: &D1,
    rhs: &D2,
) -> (p: TensorPromise<D1::Output>)
    requires
        operands_agree(lhs.node_spec(), rhs.node_spec()),
    ensures
        is_operation(p, BinaryKind::Div, lhs.node_spec(), rhs.node_spec()),
{
    tensor_impl(BinaryKind::Div, lhs, rhs)
}

impl<T: NumberLike> Tensor<T> {
    /// The promise of this tensor seen through another shape.
    #[inline]
    pub fn view(&self, shape: &[i32]) -> (r: Result<TensorPromise<T>, OpError<'_>>)
        requires
            self.node_spec().wf(),
        ensures
            r is Ok <==> self.node_spec().layout().view_legal(shape@),
            r matches Ok(p) ==> {
                &&& node_wf(*p.graph)
                &&& p.graph.op@ == OpKindView::<T>::View(self.node_spec().layout().viewed(shape@))
                &&& p.graph.inputs@ == seq![self.node_spec()]
                &&& p.graph.layout@.shape == shape@
            },
            r matches Err(e) ==> e is InvalidViewShape,
    {
        view_impl(self, shape)
    }
}

impl<T: NumberLike> TensorPromise<T> {
    /// The promise of this promise seen through another shape.
    #[inline]
    pub fn view(&self, shape: &[i32]) -> (r: Result<TensorPromise<T>, OpError<'_>>)
        requires
            self.node_spec().wf(),
        ensures
            r is Ok <==> self.node_spec().layout().view_legal(shape@),
            r matches Ok(p) ==> {
                &&& node_wf(*p.graph)
                &&& p.graph.op@ == OpKindView::<T>::View(self.node_spec().layout().viewed(shape@))
                &&& p.graph.inputs@ == seq![self.node_spec()]
                &&& p.graph.layout@.shape == shape@
            },
            r matches Err(e) ==> e is InvalidViewShape,
    {
        view_impl(self, shape)
    }
}

impl<T: NumberLike> CachedTensorPromise<T> {
    /// The promise of this promise seen through another shape.
    #[inline]
    pub fn view(&self, shape: &[i32]) -> (r: Result<TensorPromise<T>, OpError<'_>>)
        requires
            self.node_spec().wf(),
        ensures
            r is Ok <==> self.node_spec().layout().view_legal(shape@),
            r matches Ok(p) ==> {
                &&& node_wf(*p.graph)
                &&& p.graph.op@ == OpKindView::<T>::View(self.node_spec().layout().viewed(shape@))
                &&& p.graph.inputs@ == seq![self.node_spec()]
                &&& p.graph.layout@.shape == shape@
            },
            r matches Err(e) ==> e is InvalidViewShape,
    {
        view_impl(self, shape)
    }
}

} // verus!
