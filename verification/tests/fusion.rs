use lazy_tensor::graph::NodeKind;
use lazy_tensor::ops::fusion::{compute_fusion, try_fuse};
use lazy_tensor::ops::impl_compute_op::{
    compute_fused_scalar, compute_scalar_op, OpKind, OpScalarKind,
};
use lazy_tensor::tensor::Tensor;

fn leaf() -> Vec<NodeKind<i64>> {
    vec![NodeKind::Edge(Tensor::from_scalar(1i64, &[2]).graph)]
}

fn fused(parent: OpScalarKind<i64>, child: OpScalarKind<i64>) -> OpKind<i64> {
    let inputs = leaf();
    compute_fusion(&OpKind::ScalarOp(parent), &inputs, &OpKind::ScalarOp(child), &[], 0)
        .unwrap()
        .op
}

#[test]
fn additions_and_subtractions_merge_into_one_addition() {
    assert!(matches!(fused(OpScalarKind::Sum(5), OpScalarKind::Sum(3)), OpKind::ScalarOp(OpScalarKind::Sum(8))));
    assert!(matches!(fused(OpScalarKind::Sum(5), OpScalarKind::Sub(3)), OpKind::ScalarOp(OpScalarKind::Sum(2))));
    assert!(matches!(fused(OpScalarKind::Sub(5), OpScalarKind::Sum(3)), OpKind::ScalarOp(OpScalarKind::Sum(-2))));
    assert!(matches!(fused(OpScalarKind::Sub(5), OpScalarKind::Sub(3)), OpKind::ScalarOp(OpScalarKind::Sum(-8))));
}

#[test]
fn multiplications_and_divisions_merge() {
    assert!(matches!(fused(OpScalarKind::Mul(6), OpScalarKind::Mul(3)), OpKind::ScalarOp(OpScalarKind::Mul(18))));
    assert!(matches!(fused(OpScalarKind::Mul(6), OpScalarKind::Div(3)), OpKind::ScalarOp(OpScalarKind::Mul(2))));
    assert!(matches!(fused(OpScalarKind::Div(3), OpScalarKind::Mul(6)), OpKind::ScalarOp(OpScalarKind::Mul(2))));
    assert!(matches!(fused(OpScalarKind::Div(6), OpScalarKind::Div(3)), OpKind::ScalarOp(OpScalarKind::Div(18))));
}

#[test]
fn operations_of_two_families_are_chained() {
    for (parent, child) in [(OpScalarKind::Sum(1), OpScalarKind::Mul(2)), (OpScalarKind::Sub(1), OpScalarKind::Div(2)), (OpScalarKind::Mul(2), OpScalarKind::Sum(1)), (OpScalarKind::Div(2), OpScalarKind::Sub(1))] {
        match fused(parent, child) {
            OpKind::FusedScalar(ops) => assert_eq!(ops.len(), 2),
            other => panic!("unexpected fusion {:?}", other),
        }
    }
    match fused(OpScalarKind::Sum(1), OpScalarKind::Mul(2)) {
        OpKind::FusedScalar(ops) => {
            assert!(matches!(ops[0], OpScalarKind::Sum(1)));
            assert!(matches!(ops[1], OpScalarKind::Mul(2)));
        }
        other => panic!("unexpected fusion {:?}", other),
    }
}

#[test]
fn chain_grows_or_has_its_tail_replaced() {
    let inputs = leaf();
    let chain = OpKind::FusedScalar(vec![OpScalarKind::Sum(1), OpScalarKind::Mul(2)]);
    let grown = compute_fusion(&chain, &inputs, &OpKind::ScalarOp(OpScalarKind::Sum(5)), &[], 0).unwrap();
    match grown.op {
        OpKind::FusedScalar(ops) => {
            assert_eq!(ops.len(), 3);
            assert!(matches!(ops[0], OpScalarKind::Sum(1)));
            assert!(matches!(ops[1], OpScalarKind::Mul(2)));
            assert!(matches!(ops[2], OpScalarKind::Sum(5)));
        }
        other => panic!("unexpected fusion {:?}", other),
    }
    let replaced = compute_fusion(&chain, &inputs, &OpKind::ScalarOp(OpScalarKind::Mul(5)), &[], 0).unwrap();
    match replaced.op {
        OpKind::FusedScalar(ops) => {
            assert_eq!(ops.len(), 2);
            assert!(matches!(ops[0], OpScalarKind::Sum(1)));
            assert!(matches!(ops[1], OpScalarKind::Mul(10)));
        }
        other => panic!("unexpected fusion {:?}", other),
    }
    let empty = compute_fusion(&OpKind::FusedScalar(vec![]), &inputs, &OpKind::ScalarOp(OpScalarKind::Mul(5)), &[], 0)
        .unwrap();
    assert!(matches!(empty.op, OpKind::FusedScalar(ops) if ops.len() == 1));
}

#[test]
fn other_operations_do_not_fuse() {
    let inputs = leaf();
    let scalar = OpKind::ScalarOp(OpScalarKind::Sum(1i64));
    assert!(compute_fusion(&OpKind::Add, &inputs, &scalar, &[], 0).is_none());
    assert!(compute_fusion(&OpKind::NoOp, &inputs, &scalar, &[], 0).is_none());
    assert!(compute_fusion(&scalar, &inputs, &OpKind::Add, &[], 0).is_none());
    assert!(compute_fusion(&scalar, &inputs, &OpKind::NoOp, &[], 0).is_none());
}

#[test]
fn fusion_reads_the_inputs_of_the_parent() {
    let t = Tensor::from_scalar(1i64, &[2]);
    let parent = &t + 1;
    let result = try_fuse(
        OpKind::ScalarOp(OpScalarKind::Sum(2)),
        vec![NodeKind::Node(parent.graph.clone())],
    );
    assert!(matches!(result.op, OpKind::ScalarOp(OpScalarKind::Sum(3))));
    assert_eq!(result.inputs.len(), 1);
    assert!(matches!(&result.inputs[0], NodeKind::Edge(e) if std::sync::Arc::ptr_eq(e, &t.graph)));
}

#[test]
fn fusion_does_not_cross_leaves_or_binary_operations() {
    let t = Tensor::from_scalar(1i64, &[2]);
    let on_leaf = try_fuse(OpKind::ScalarOp(OpScalarKind::Sum(2)), vec![NodeKind::Edge(t.graph.clone())]);
    assert!(matches!(on_leaf.op, OpKind::ScalarOp(OpScalarKind::Sum(2))));
    assert!(matches!(&on_leaf.inputs[0], NodeKind::Edge(_)));
    let sum = &t + &t;
    let on_sum = try_fuse(OpKind::ScalarOp(OpScalarKind::Sum(2)), vec![NodeKind::Node(sum.graph.clone())]);
    assert!(matches!(on_sum.op, OpKind::ScalarOp(OpScalarKind::Sum(2))));
    assert!(matches!(&on_sum.inputs[0], NodeKind::Node(_)));
}

#[test]
fn fused_and_unfused_chains_compute_the_same() {
    let x: Vec<i64> = vec![-7, 0, 3, 1000];
    let ops = [
        OpScalarKind::Sum(5),
        OpScalarKind::Sub(12),
        OpScalarKind::Sum(-3),
        OpScalarKind::Mul(4),
        OpScalarKind::Mul(-2),
        OpScalarKind::Sub(1),
    ];
    let mut unfused = x.clone();
    for op in ops.iter() {
        unfused = compute_scalar_op(op, unfused);
    }
    let t = Tensor::from_vec(x.clone(), &[4]);
    let mut p = t.as_promise();
    for op in ops.iter() {
        p = match op {
            OpScalarKind::Sum(s) => p + *s,
            OpScalarKind::Sub(s) => p - *s,
            OpScalarKind::Mul(s) => p * *s,
            OpScalarKind::Div(s) => p / *s,
        };
    }
    match &p.graph.op {
        OpKind::FusedScalar(chain) => assert_eq!(chain.len(), 3),
        other => panic!("unexpected root {:?}", other),
    }
    assert_eq!(p.materialize().unwrap().to_vec().unwrap(), unfused);
    assert_eq!(unfused, vec![135, 79, 55, -7921]);
}

#[test]
fn scalar_kernels_apply_to_every_element() {
    let x = vec![10i64, -4, 7];
    assert_eq!(compute_scalar_op(&OpScalarKind::Sum(3), x.clone()), vec![13, -1, 10]);
    assert_eq!(compute_scalar_op(&OpScalarKind::Sub(3), x.clone()), vec![7, -7, 4]);
    assert_eq!(compute_scalar_op(&OpScalarKind::Mul(3), x.clone()), vec![30, -12, 21]);
    assert_eq!(compute_scalar_op(&OpScalarKind::Div(3), x.clone()), vec![3, -1, 2]);
    let chain = vec![OpScalarKind::Sum(2), OpScalarKind::Div(3), OpScalarKind::Sub(1)];
    assert_eq!(compute_fused_scalar(&chain, x.clone()), vec![3, -1, 2]);
    assert_eq!(compute_fused_scalar(&vec![], x.clone()), x);
}
