//! What a graph computes, and that fusing and evaluating keep to it.
use vstd::prelude::*;
use crate::definitions::NumberLike;
use crate::evaluator::{all_there, entry_value, input_values, plan_value, those_there};
use crate::graph::{NodeKind, TensorGraphNode};
use crate::plan::{entry_sound, order_sound, Plan, PlanEntry};
use crate::ops::fusion::{fused_chain, fusion_of, merged};
use crate::ops::impl_compute_op::{
    apply_chain, evaluate_op, BinaryKind, DenseView, OpKindView, OpScalarKind,
};
use crate::ops::impl_op::{is_operation, scalar_promise};
use crate::promise::TensorPromise;

verus! {
/// What the graph below `member` computes from what is held: the data read
/// for each leaf, and the result that each remembering node holds, where
/// it holds one. `held` has an entry for every member that is read, and in
/// it the value read, or nothing where it could not be read. A member that
/// is not read computes what its operation makes of what its inputs
/// compute; there is no value where one of these has none.
pub open spec fn member_value<T: NumberLike>(
    member: NodeKind<T>,
    held: Map<NodeKind<T>, Option<DenseView<T>>>,
) -> Option<DenseView<T>>
    decreases member, 0nat,
{
    match member {
        NodeKind::Edge(_) => if held.contains_key(member) {
            held[member]
        } else {
            None
        },
        NodeKind::Cache(_) => if held.contains_key(member) {
            held[member]
        } else {
            proof {
                crate::graph::lemma_inputs_smaller(member);
            }
            operation_value(member.op(), member.inputs(), held)
        },
        NodeKind::Node(_) => {
            proof {
                crate::graph::lemma_inputs_smaller(member);
            }
            operation_value(member.op(), member.inputs(), held)
        },
    }
}

/// What an operation makes of what its inputs compute.
pub open spec fn operation_value<T: NumberLike>(
    op: OpKindView<T>,
    inputs: Seq<NodeKind<T>>,
    held: Map<NodeKind<T>, Option<DenseView<T>>>,
) -> Option<DenseView<T>>
    decreases inputs, 1nat,
{
    let values = member_values(inputs, held);
    if all_there(values) {
        evaluate_op(op, those_there(values))
    } else {
        None
    }
}

/// What each of a list of members computes.
pub open spec fn member_values<T: NumberLike>(
    inputs: Seq<NodeKind<T>>,
    held: Map<NodeKind<T>, Option<DenseView<T>>>,
) -> Seq<Option<DenseView<T>>>
    decreases inputs, 0nat,
{
    Seq::new(
        inputs.len(),
        |p: int|
            if 0 <= p < inputs.len() {
                member_value(inputs[p], held)
            } else {
                None
            },
    )
}

/// Whether merging `parent` and `child` into one operation changes no
/// result: where the two merge, the merged operation makes of every element
/// what `child` makes of what `parent` makes of it.
pub open spec fn merge_is_exact<T: NumberLike>(
    parent: OpScalarKind<T>,
    child: OpScalarKind<T>,
) -> bool {
    merged(parent, child) matches Some(m) ==> forall|x: T|
        #[trigger] m.apply(x) == child.apply(parent.apply(x))
}

/// For the wrapping integers, merging two operations that add or subtract
/// is exact.
pub proof fn law_integer_sums_merge_exactly(parent: OpScalarKind<i64>, child: OpScalarKind<i64>)
    requires
        parent.is_additive(),
        child.is_additive(),
    ensures
        merged(parent, child) is Some,
        merge_is_exact(parent, child),
{
}

/// Cropping a number to the wrapping integers keeps its remainder.
proof fn lemma_crop_keeps_remainder(z: int)
    ensures
        (vstd::wrapping::i64_specs::signed_crop(z) as int) % 0x1_0000_0000_0000_0000
            == z % 0x1_0000_0000_0000_0000,
{
    let r: int = 0x1_0000_0000_0000_0000;
    vstd::arithmetic::div_mod::lemma_mod_twice(z, r);
    vstd::arithmetic::div_mod::lemma_mod_sub_multiples_vanish(z % r, r);
}

/// For the wrapping integers, merging two multiplications is exact.
pub proof fn law_integer_products_merge_exactly(s1: i64, s2: i64)
    ensures
        merge_is_exact(OpScalarKind::Mul(s1), OpScalarKind::Mul(s2)),
{
    let r: int = 0x1_0000_0000_0000_0000;
    let m = OpScalarKind::Mul(s1.wrapping_mul(s2));
    assert forall|x: i64| #[trigger]
        m.apply(x) == OpScalarKind::Mul(s2).apply(OpScalarKind::Mul(s1).apply(x)) by {
        let inner = x.wrapping_mul(s1);
        let merged_scalar = s1.wrapping_mul(s2);
        lemma_crop_keeps_remainder(x * s1);
        lemma_crop_keeps_remainder(s1 * s2);
        vstd::arithmetic::div_mod::lemma_mul_mod_noop(inner as int, s2 as int, r);
        vstd::arithmetic::div_mod::lemma_mul_mod_noop(x * s1, s2 as int, r);
        vstd::arithmetic::div_mod::lemma_mul_mod_noop(x as int, merged_scalar as int, r);
        vstd::arithmetic::div_mod::lemma_mul_mod_noop(x as int, s1 * s2, r);
        assert((x * s1) * s2 == x * (s1 * s2)) by (nonlinear_arith);
        assert((inner * s2) % r == (x * merged_scalar) % r);
    }
}

/// The scalar operation that comes last in `op`, where `op` is a scalar
/// operation or a chain of them that is not empty.
pub open spec fn last_scalar<T: NumberLike>(op: OpKindView<T>) -> Option<OpScalarKind<T>> {
    match op {
        OpKindView::ScalarOp(s) => Some(s),
        OpKindView::FusedScalar(ops) => if ops.len() > 0 {
            Some(ops.last())
        } else {
            None
        },
        _ => None,
    }
}

/// What a scalar operation or a chain of them makes of the element `x`.
pub open spec fn scalar_result<T: NumberLike>(op: OpKindView<T>, x: T) -> T {
    match op {
        OpKindView::ScalarOp(s) => s.apply(x),
        OpKindView::FusedScalar(ops) => apply_chain(ops, x),
        _ => x,
    }
}

/// On every element, a chain fused with a scalar operation after it does
/// what the operation does after the chain, where merging is exact.
pub proof fn lemma_fused_chain_applies<T: NumberLike>(
    ops: Seq<OpScalarKind<T>>,
    child: OpScalarKind<T>,
    x: T,
)
    requires
        ops.len() > 0 ==> merge_is_exact(ops.last(), child),
    ensures
        apply_chain(fused_chain(ops, child), x) == child.apply(apply_chain(ops, x)),
{
    let fused = fused_chain(ops, child);
    if ops.len() == 0 {
        assert(fused.drop_last() =~= ops);
    } else {
        match merged(ops.last(), child) {
            Some(m) => {
                assert(fused.drop_last() =~= ops.drop_last());
            },
            None => {
                assert(fused.drop_last() =~= ops);
            },
        }
    }
}

/// On every element, the fusion of a scalar operation, or of a chain of
/// them, with a scalar operation after it does what the second does after
/// the first, where merging is exact.
pub proof fn lemma_fusion_applies<T: NumberLike>(
    parent: OpKindView<T>,
    child: OpScalarKind<T>,
    x: T,
)
    requires
        parent is ScalarOp || parent is FusedScalar,
        last_scalar(parent) matches Some(last) ==> merge_is_exact(last, child),
    ensures
        fusion_of(parent, OpKindView::ScalarOp(child)) matches Some(fused) && (fused is ScalarOp
            || fused is FusedScalar) && scalar_result(fused, x) == child.apply(
            scalar_result(parent, x),
        ),
{
    match parent {
        OpKindView::ScalarOp(s1) => {
            match merged(s1, child) {
                Some(m) => {},
                None => {
                    let pair = seq![s1, child];
                    assert(pair.drop_last() =~= seq![s1]);
                    assert(seq![s1].drop_last() =~= Seq::<OpScalarKind<T>>::empty());
                    assert(apply_chain(seq![s1], x) == s1.apply(x)) by {
                        assert(apply_chain(Seq::<OpScalarKind<T>>::empty(), x) == x);
                    }
                },
            }
        },
        OpKindView::FusedScalar(ops) => {
            lemma_fused_chain_applies(ops, child, x);
        },
        _ => {},
    }
}

/// What a scalar operation, or a chain of them, computes from its inputs:
/// a packed value of the shape of input 0, each element of which is what
/// the operation makes of the element of input 0.
pub proof fn lemma_scalar_evaluates<T: NumberLike>(op: OpKindView<T>, inputs: Seq<DenseView<T>>)
    requires
        op is ScalarOp || op is FusedScalar,
        inputs.len() >= 1,
        inputs[0].wf(),
    ensures
        evaluate_op(op, inputs) == Some(
            DenseView::packed(
                Seq::new(inputs[0].layout.len, |i: int| scalar_result(op, inputs[0].elements()[i])),
                inputs[0].layout.shape,
            ),
        ),
        evaluate_op(op, inputs)->Some_0.wf(),
        evaluate_op(op, inputs)->Some_0.elements() == Seq::new(
            inputs[0].layout.len,
            |i: int| scalar_result(op, inputs[0].elements()[i]),
        ),
        evaluate_op(op, inputs)->Some_0.layout.len == inputs[0].layout.len,
{
    let first = inputs[0];
    let shape = first.layout.shape;
    let elements = Seq::new(first.layout.len, |i: int| scalar_result(op, first.elements()[i]));
    match op {
        OpKindView::ScalarOp(s) => {
            assert(elements =~= Seq::new(first.layout.len, |i: int| s.apply(first.elements()[i])));
        },
        OpKindView::FusedScalar(ops) => {
            assert(elements =~= Seq::new(
                first.layout.len,
                |i: int| apply_chain(ops, first.elements()[i]),
            ));
        },
        _ => {},
    }
    crate::layout::lemma_row_major_wf(shape, 0);
    crate::walk::lemma_packed_positions(shape);
    crate::layout::lemma_product_positive(shape);
}

/// Fusing changes no result. Where a scalar operation reads the result of
/// a scalar operation, or of a chain of them, and merging is exact, the
/// fused operation computes from the inputs of the first what the second
/// computes from the result of the first.
pub proof fn law_fusion_keeps_results<T: NumberLike>(
    parent: OpKindView<T>,
    child: OpScalarKind<T>,
    inputs: Seq<DenseView<T>>,
)
    requires
        parent is ScalarOp || parent is FusedScalar,
        last_scalar(parent) matches Some(last) ==> merge_is_exact(last, child),
        inputs.len() >= 1,
        inputs[0].wf(),
    ensures
        fusion_of(parent, OpKindView::ScalarOp(child)) is Some,
        evaluate_op(parent, inputs) is Some,
        evaluate_op(fusion_of(parent, OpKindView::ScalarOp(child))->Some_0, inputs) == evaluate_op(
            OpKindView::ScalarOp(child),
            seq![evaluate_op(parent, inputs)->Some_0],
        ),
{
    let first = inputs[0];
    let fused = fusion_of(parent, OpKindView::ScalarOp(child))->Some_0;
    assert forall|i: int| 0 <= i < first.layout.len implies #[trigger] scalar_result(
        fused,
        first.elements()[i],
    ) == child.apply(scalar_result(parent, first.elements()[i])) by {
        lemma_fusion_applies(parent, child, first.elements()[i]);
    }
    // the typed `arbitrary` element only anchors the facts about `fused`
    lemma_fusion_applies(parent, child, arbitrary());
    lemma_scalar_evaluates(parent, inputs);
    lemma_scalar_evaluates(fused, inputs);
    let middle = evaluate_op(parent, inputs)->Some_0;
    lemma_scalar_evaluates(OpKindView::ScalarOp(child), seq![middle]);
    assert(Seq::new(first.layout.len, |i: int| scalar_result(fused, first.elements()[i]))
        =~= Seq::new(
        middle.layout.len,
        |i: int| scalar_result(OpKindView::ScalarOp(child), middle.elements()[i]),
    ));
}

/// Whether the values held are well formed and of the shapes of the
/// members that hold them.
pub open spec fn held_sound<T: NumberLike>(held: Map<NodeKind<T>, Option<DenseView<T>>>) -> bool {
    forall|m: NodeKind<T>| #[trigger]
        held.contains_key(m) ==> (held[m] matches Some(v) ==> v.wf() && v.layout.shape
            == m.layout().shape)
}

/// What the graph below a well-formed member computes from sound values is
/// well formed and of the shape of the member.
pub proof fn lemma_member_value_sound<T: NumberLike>(
    member: NodeKind<T>,
    held: Map<NodeKind<T>, Option<DenseView<T>>>,
)
    requires
        member.wf(),
        held_sound(held),
    ensures
        member_value(member, held) matches Some(v) ==> v.wf() && v.layout.shape
            == member.layout().shape,
    decreases member,
{
    if member is Edge || (member is Cache && held.contains_key(member)) {
    } else {
        let inner = member.inputs();
        let values = member_values(inner, held);
        crate::graph::lemma_inputs_smaller(member);
        if all_there(values) {
            let there = those_there(values);
            assert forall|p: int| 0 <= p < there.len() implies (#[trigger] there[p]).wf()
                && there[p].layout.shape == inner[p].layout().shape by {
                lemma_member_value_sound(inner[p], held);
            }
            crate::evaluator::lemma_operation_sound(member.op(), inner, there);
        }
    }
}

/// Fusing changes nothing of what a graph computes. A scalar operation on
/// an operation node whose operation is a scalar operation or a chain of
/// them, built fused, computes what it computes built unfused, where
/// merging is exact and the node is computed, not read.
pub proof fn law_fusion_equivalence<T: NumberLike>(
    child: OpScalarKind<T>,
    parent: NodeKind<T>,
    held: Map<NodeKind<T>, Option<DenseView<T>>>,
)
    requires
        parent.wf(),
        !(parent is Edge),
        !held.contains_key(parent),
        parent.op() is ScalarOp || parent.op() is FusedScalar,
        last_scalar(parent.op()) matches Some(last) ==> merge_is_exact(last, child),
        held_sound(held),
    ensures
        operation_value(
            scalar_promise(child, parent).op,
            scalar_promise(child, parent).inputs,
            held,
        ) == operation_value(OpKindView::ScalarOp(child), seq![parent], held),
{
    let inner = parent.inputs();
    let values = member_values(inner, held);
    let outer = member_values(seq![parent], held);
    lemma_fusion_applies(parent.op(), child, arbitrary());
    if all_there(values) {
        lemma_member_value_sound(inner[0], held);
        law_fusion_keeps_results(parent.op(), child, those_there(values));
    }
}

/// Whether `held` says of a plan what was read for it: every member that
/// the plan reads has its entry, with the value read or nothing; no member
/// that the plan computes has one.
pub open spec fn plan_reads<T: NumberLike>(
    order: Seq<PlanEntry<T>>,
    leaves: Map<usize, DenseView<T>>,
    held: Map<NodeKind<T>, Option<DenseView<T>>>,
) -> bool {
    forall|k: int|
        0 <= k < order.len() ==> if (#[trigger] order[k]).leaf {
            held.contains_key(order[k].node) && held[order[k].node] == if leaves.contains_key(
                k as usize,
            ) {
                Some(leaves[k as usize])
            } else {
                None
            }
        } else {
            !held.contains_key(order[k].node)
        }
}

/// Evaluating a sound order gives every place what the graph below its
/// member computes.
pub proof fn lemma_entry_computes_member<T: NumberLike>(
    order: Seq<PlanEntry<T>>,
    leaves: Map<usize, DenseView<T>>,
    held: Map<NodeKind<T>, Option<DenseView<T>>>,
    k: int,
)
    requires
        order_sound(order),
        plan_reads(order, leaves, held),
        0 <= k < order.len(),
    ensures
        entry_value(order, leaves, k) == member_value(order[k].node, held),
    decreases k,
{
    let e = order[k];
    assert(entry_sound(order, k));
    if !e.leaf {
        let slots = e.inputs@;
        let values = input_values(order, leaves, slots, k);
        let inner = e.node.inputs();
        let computed = member_values(inner, held);
        assert forall|p: int| 0 <= p < slots.len() implies values[p] == computed[p] by {
            let s = slots[p];
            lemma_entry_computes_member(order, leaves, held, s as int);
        }
    }
}

/// Evaluating a plan computes the graph: what the evaluation of a sound
/// plan gives its root is what the graph below the root computes from what
/// was read.
pub proof fn law_evaluation_computes_graph<T: NumberLike>(
    root: TensorGraphNode<T>,
    plan: Plan<T>,
    leaves: Map<usize, DenseView<T>>,
    held: Map<NodeKind<T>, Option<DenseView<T>>>,
)
    requires
        plan.sound(root.inputs@),
        plan_reads(plan.order@, leaves, held),
    ensures
        forall|k: int|
            0 <= k < plan.order@.len() ==> #[trigger] entry_value(plan.order@, leaves, k)
                == member_value(plan.order@[k].node, held),
        plan_value(root.op@, plan, leaves) matches Some(v) ==> operation_value(
            root.op@,
            root.inputs@,
            held,
        ) == Some(v),
{
    let order = plan.order@;
    assert forall|k: int| 0 <= k < order.len() implies #[trigger] entry_value(order, leaves, k)
        == member_value(order[k].node, held) by {
        lemma_entry_computes_member(order, leaves, held, k);
    }
    if plan_value(root.op@, plan, leaves) is Some {
        let slots = plan.root_inputs@;
        let values = input_values(order, leaves, slots, order.len() as int);
        let inner = root.inputs@;
        let computed = member_values(inner, held);
        assert forall|p: int| 0 <= p < slots.len() implies values[p] == computed[p]
            && values[p] is Some by {
            let s = slots[p];
            assert(entry_value(order, leaves, s as int) is Some);
        }
        assert(values =~= computed);
    }
}

/// The four ways to write an operation between two operands, each by value
/// or by reference, build promises of one operation on the same inputs,
/// which compute one result.
pub proof fn law_operator_lifting<T: NumberLike>(
    p: TensorPromise<T>,
    q: TensorPromise<T>,
    kind: BinaryKind,
    lhs: NodeKind<T>,
    rhs: NodeKind<T>,
    held: Map<NodeKind<T>, Option<DenseView<T>>>,
)
    requires
        is_operation(p, kind, lhs, rhs),
        is_operation(q, kind, lhs, rhs),
    ensures
        p.graph.op@ == q.graph.op@,
        p.graph.inputs@ == q.graph.inputs@,
        p.graph.layout@ == q.graph.layout@,
        member_value(NodeKind::Node(p.graph), held) == member_value(NodeKind::Node(q.graph), held),
{
}

} // verus!
