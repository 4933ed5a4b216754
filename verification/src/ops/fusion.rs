//! The rewriting of scalar operations: a scalar operation on the result of
//! a scalar operation, or of a chain of them, becomes one operation on the
//! input of the first.
use vstd::prelude::*;
use crate::definitions::NumberLike;
use crate::graph::NodeKind;
use crate::ops::impl_compute_op::{OpKind, OpKindView, OpScalarKind};

verus! {
/// An operation with the inputs it is to read.
#[verifier::reject_recursive_types(T)]
pub struct Fusion<T: Copy> {
    pub op: OpKind<T>,
    pub inputs: Vec<NodeKind<T>>,
}

/// The mathematical value of a [`Fusion`].
#[verifier::reject_recursive_types(T)]
pub struct FusionView<T: Copy> {
    pub op: OpKindView<T>,
    pub inputs: Seq<NodeKind<T>>,
}

impl<T: Copy> View for Fusion<T> {
    type V = FusionView<T>;

    open spec fn view(&self) -> FusionView<T> {
        FusionView { op: self.op@, inputs: self.inputs@ }
    }
}

impl<T: Copy> OpScalarKind<T> {
    /// Whether the operation adds or subtracts.
    pub open spec fn is_additive(self) -> bool {
        self is Sum || self is Sub
    }
}

/// The one scalar operation that does what `parent` followed by `child`
/// does, where the two are of one family: both add or subtract, or both
/// multiply or divide. Subtracting `s` counts as adding `-s`.
pub open spec fn merged<T: NumberLike>(parent: OpScalarKind<T>, child: OpScalarKind<T>) -> Option<
    OpScalarKind<T>,
> {
    match (parent, child) {
        (OpScalarKind::Sum(s1), OpScalarKind::Sum(s2)) => Some(OpScalarKind::Sum(s1.plus_spec(s2))),
        (OpScalarKind::Sum(s1), OpScalarKind::Sub(s2)) => Some(
            OpScalarKind::Sum(s1.minus_spec(s2)),
        ),
        (OpScalarKind::Sub(s1), OpScalarKind::Sum(s2)) => Some(
            OpScalarKind::Sum(s1.negated_spec().plus_spec(s2)),
        ),
        (OpScalarKind::Sub(s1), OpScalarKind::Sub(s2)) => Some(
            OpScalarKind::Sum(s1.negated_spec().minus_spec(s2)),
        ),
        (OpScalarKind::Mul(s1), OpScalarKind::Mul(s2)) => Some(
            OpScalarKind::Mul(s1.times_spec(s2)),
        ),
        (OpScalarKind::Mul(s1), OpScalarKind::Div(s2)) => Some(OpScalarKind::Mul(s1.over_spec(s2))),
        (OpScalarKind::Div(s1), OpScalarKind::Mul(s2)) => Some(OpScalarKind::Mul(s2.over_spec(s1))),
        (OpScalarKind::Div(s1), OpScalarKind::Div(s2)) => Some(
            OpScalarKind::Div(s1.times_spec(s2)),
        ),
        _ => None,
    }
}

/// The operation that stands for `parent` followed by `child`: the merged
/// operation where there is one, else the chain of the two.
pub open spec fn fused_pair<T: NumberLike>(
    parent: OpScalarKind<T>,
    child: OpScalarKind<T>,
) -> OpKindView<T> {
    match merged(parent, child) {
        Some(s) => OpKindView::ScalarOp(s),
        None => OpKindView::FusedScalar(seq![parent, child]),
    }
}

/// The chain that stands for the chain `ops` followed by `child`: the last
/// operation of `ops` is merged with `child` where the two merge, else
/// `child` is added to the chain.
pub open spec fn fused_chain<T: NumberLike>(
    ops: Seq<OpScalarKind<T>>,
    child: OpScalarKind<T>,
) -> Seq<OpScalarKind<T>> {
    if ops.len() == 0 {
        seq![child]
    } else {
        match merged(ops.last(), child) {
            Some(s) => ops.drop_last().push(s),
            None => ops.push(child),
        }
    }
}

/// The operation that stands for `parent` followed by `child`, where
/// `parent` is a scalar operation or a chain of them and `child` is a
/// scalar operation; none for every other pair.
pub open spec fn fusion_of<T: NumberLike>(parent: OpKindView<T>, child: OpKindView<T>) -> Option<
    OpKindView<T>,
> {
    match (parent, child) {
        (OpKindView::ScalarOp(s1), OpKindView::ScalarOp(s2)) => Some(fused_pair(s1, s2)),
        (OpKindView::FusedScalar(ops), OpKindView::ScalarOp(s2)) => Some(
            OpKindView::FusedScalar(fused_chain(ops, s2)),
        ),
        _ => None,
    }
}

/// One step of the rewriter: `current` rewritten against `input`. Where
/// `input` is an operation node, remembering or not, whose operation fuses
/// with that of `current`, the result is the fused operation on the inputs
/// of `input`; else it is `current`.
pub open spec fn fused_with<T: NumberLike>(current: FusionView<T>, input: NodeKind<T>) -> FusionView<
    T,
> {
    if input is Edge {
        current
    } else {
        match fusion_of(input.op(), current.op) {
            Some(op) => FusionView { op, inputs: input.inputs() },
            None => current,
        }
    }
}

/// The rewriter run against the first `k` of `inputs`, in order.
pub open spec fn fused_through<T: NumberLike>(
    op: OpKindView<T>,
    inputs: Seq<NodeKind<T>>,
    k: int,
) -> FusionView<T>
    decreases k,
{
    if k <= 0 {
        FusionView { op, inputs }
    } else {
        fused_with(fused_through(op, inputs, k - 1), inputs[k - 1])
    }
}

/// A copy of a list of members: one more share of each.
pub fn clone_nodes<T: Copy>(nodes: &[NodeKind<T>]) -> (r: Vec<NodeKind<T>>)
    ensures
        r@ == nodes@,
{
    let mut r: Vec<NodeKind<T>> = Vec::with_capacity(nodes.len());
    let mut i: usize = 0;
    while i < nodes.len()
        invariant
            0 <= i <= nodes@.len(),
            r@ == nodes@.take(i as int),
        decreases nodes@.len() - i,
    {
        r.push(nodes[i].clone());
        i = i + 1;
    }
    r
}

/// Merges two scalar operations that add or subtract into one addition on
/// the inputs of the first.
pub fn fuse_sum_scalar<T: NumberLike>(
    op1: &OpScalarKind<T>,
    inputs1: &[NodeKind<T>],
    op2: &OpScalarKind<T>,
) -> (f: Fusion<T>)
    requires
        op1.is_additive(),
        op2.is_additive(),
    ensures
        merged(*op1, *op2) is Some,
        f@ == (FusionView { op: fused_pair(*op1, *op2), inputs: inputs1@ }),
{
    let sum: T = match op1 {
        OpScalarKind::Sum(s1) => match op2 {
            OpScalarKind::Sum(s2) => s1.plus(*s2),
            OpScalarKind::Sub(s2) => s1.minus(*s2),
            OpScalarKind::Mul(s2) => *s2,
            OpScalarKind::Div(s2) => *s2,
        },
        OpScalarKind::Sub(s1) => match op2 {
            OpScalarKind::Sum(s2) => s1.negated().plus(*s2),
            OpScalarKind::Sub(s2) => s1.negated().minus(*s2),
            OpScalarKind::Mul(s2) => *s2,
            OpScalarKind::Div(s2) => *s2,
        },
        OpScalarKind::Mul(s1) => *s1,
        OpScalarKind::Div(s1) => *s1,
    };
    Fusion { op: OpKind::ScalarOp(OpScalarKind::Sum(sum)), inputs: clone_nodes(inputs1) }
}

/// Merges two scalar operations that multiply or divide into one operation
/// on the inputs of the first.
pub fn fuse_mul_scalar<T: NumberLike>(
    op1: &OpScalarKind<T>,
    inputs1: &[NodeKind<T>],
    op2: &OpScalarKind<T>,
) -> (f: Fusion<T>)
    requires
        !op1.is_additive(),
        !op2.is_additive(),
    ensures
        merged(*op1, *op2) is Some,
        f@ == (FusionView { op: fused_pair(*op1, *op2), inputs: inputs1@ }),
{
    let op: OpScalarKind<T> = match op1 {
        OpScalarKind::Mul(s1) => match op2 {
            OpScalarKind::Mul(s2) => OpScalarKind::Mul(s1.times(*s2)),
            OpScalarKind::Div(s2) => OpScalarKind::Mul(s1.over(*s2)),
            OpScalarKind::Sum(s2) => OpScalarKind::Sum(*s2),
            OpScalarKind::Sub(s2) => OpScalarKind::Sub(*s2),
        },
        OpScalarKind::Div(s1) => match op2 {
            OpScalarKind::Mul(s2) => OpScalarKind::Mul(s2.over(*s1)),
            OpScalarKind::Div(s2) => OpScalarKind::Div(s1.times(*s2)),
            OpScalarKind::Sum(s2) => OpScalarKind::Sum(*s2),
            OpScalarKind::Sub(s2) => OpScalarKind::Sub(*s2),
        },
        OpScalarKind::Sum(s1) => OpScalarKind::Sum(*s1),
        OpScalarKind::Sub(s1) => OpScalarKind::Sub(*s1),
    };
    Fusion { op: OpKind::ScalarOp(op), inputs: clone_nodes(inputs1) }
}

/// Chains two scalar operations that do not merge.
#[inline]
pub fn fuse_scalars_into_combination<T: NumberLike>(
    op1: &OpScalarKind<T>,
    inputs1: &[NodeKind<T>],
    op2: &OpScalarKind<T>,
) -> (f: Fusion<T>)
    ensures
        f@ == (FusionView { op: OpKindView::FusedScalar(seq![*op1, *op2]), inputs: inputs1@ }),
{
    let mut ops: Vec<OpScalarKind<T>> = Vec::with_capacity(2);
    ops.push(*op1);
    ops.push(*op2);
    proof {
        assert(ops@ =~= seq![*op1, *op2]);
    }
    Fusion { op: OpKind::FusedScalar(ops), inputs: clone_nodes(inputs1) }
}

/// Fuses the scalar operation `op2` with the scalar operation `op1` that
/// comes before it: merged where both are of one family, chained where not.
pub fn fuse_scalars<T: NumberLike>(
    op1: &OpScalarKind<T>,
    inputs1: &[NodeKind<T>],
    op2: &OpScalarKind<T>,
) -> (f: Fusion<T>)
    ensures
        f@ == (FusionView { op: fused_pair(*op1, *op2), inputs: inputs1@ }),
{
    match op1 {
        OpScalarKind::Sum(_) | OpScalarKind::Sub(_) => match op2 {
            OpScalarKind::Sum(_) | OpScalarKind::Sub(_) => fuse_sum_scalar(op1, inputs1, op2),
            _ => fuse_scalars_into_combination(op1, inputs1, op2),
        },
        OpScalarKind::Mul(_) | OpScalarKind::Div(_) => match op2 {
            OpScalarKind::Mul(_) | OpScalarKind::Div(_) => fuse_mul_scalar(op1, inputs1, op2),
            _ => fuse_scalars_into_combination(op1, inputs1, op2),
        },
    }
}

/// Fuses the scalar operation `op2` with the chain `ops` that comes before
/// it: the last operation of the chain is replaced where it merges with
/// `op2`, else the chain grows by `op2`.
pub fn fuse_scalar_combination<T: NumberLike>(
    ops: &Vec<OpScalarKind<T>>,
    inputs1: &[NodeKind<T>],
    op2: &OpScalarKind<T>,
) -> (f: Fusion<T>)
    ensures
        f@ == (FusionView { op: OpKindView::FusedScalar(fused_chain(ops@, *op2)), inputs: inputs1@ }),
{
    let mut new_ops: Vec<OpScalarKind<T>> = crate::storage::clone_elements(ops);
    if ops.len() == 0 {
        new_ops.push(*op2);
        proof {
            assert(new_ops@ =~= seq![*op2]);
        }
        return Fusion { op: OpKind::FusedScalar(new_ops), inputs: clone_nodes(inputs1) };
    }
    let tail = &ops[ops.len() - 1];
    let fused = fuse_scalars(tail, inputs1, op2);
    match fused.op {
        OpKind::ScalarOp(scalar_op) => {
            new_ops.pop();
            new_ops.push(scalar_op);
        },
        _ => {
            new_ops.push(*op2);
        },
    }
    Fusion { op: OpKind::FusedScalar(new_ops), inputs: fused.inputs }
}

/// Fuses the operation `op2` with the operation `op1` whose result it
/// reads, if `op2` is a scalar operation and `op1` a scalar operation or a
/// chain of them. The fused operation reads the inputs of `op1`.
pub fn compute_fusion<T: NumberLike>(
    op1: &OpKind<T>,
    inputs1: &[NodeKind<T>],
    op2: &OpKind<T>,
    inputs2: &[NodeKind<T>],
    skip_input_idx: usize,
) -> (r: Option<Fusion<T>>)
    ensures
        match fusion_of(op1@, op2@) {
            Some(op) => r matches Some(f) && f@ == (FusionView { op, inputs: inputs1@ }),
            None => r is None,
        },
{
    match op1 {
        OpKind::ScalarOp(s1) => match op2 {
            OpKind::ScalarOp(s2) => Some(fuse_scalars(s1, inputs1, s2)),
            _ => None,
        },
        OpKind::FusedScalar(ops) => match op2 {
            OpKind::ScalarOp(s2) => Some(fuse_scalar_combination(ops, inputs1, s2)),
            _ => None,
        },
        _ => None,
    }
}

/// Rewrites `op` on `inputs`: against each input in turn, the operation is
/// fused with that of the input where the two fuse, and then reads the
/// inputs of that input. Leaves are never fused through.
pub fn try_fuse<T: NumberLike>(op: OpKind<T>, inputs: Vec<NodeKind<T>>) -> (f: Fusion<T>)
    ensures
        f@ == fused_through(op@, inputs@, inputs@.len() as int),
{
    let mut current_fusion: Fusion<T> = Fusion { op, inputs: clone_nodes(inputs.as_slice()) };
    let mut idx: usize = 0;
    while idx < inputs.len()
        invariant
            0 <= idx <= inputs@.len(),
            current_fusion@ == fused_through(op@, inputs@, idx as int),
        decreases inputs@.len() - idx,
    {
        match &inputs[idx] {
            NodeKind::Edge(_) => {},
            NodeKind::Node(node) => {
                let fused = compute_fusion(
                    &node.op,
                    node.inputs.as_slice(),
                    &current_fusion.op,
                    current_fusion.inputs.as_slice(),
                    idx,
                );
                if let Some(f) = fused {
                    current_fusion = f;
                }
            },
            NodeKind::Cache(cache) => {
                let node = cache.get_node();
                let fused = compute_fusion(
                    &node.op,
                    node.inputs.as_slice(),
                    &current_fusion.op,
                    current_fusion.inputs.as_slice(),
                    idx,
                );
                if let Some(f) = fused {
                    current_fusion = f;
                }
            },
        }
        idx = idx + 1;
    }
    current_fusion
}

} // verus!
