use std::collections::HashMap;
use std::sync::Arc;

use lazy_tensor::errors::OpError;
use lazy_tensor::evaluator::{evaluate, read_leaves};
use lazy_tensor::graph::{
    get_id, get_inputs_layout, same_node, NodeKind, TensorGraphCacheNode, TensorGraphEdge,
    TensorGraphNode,
};
use lazy_tensor::layout::Layout;
use lazy_tensor::ops::impl_compute_op::{
    admissible_inputs, compute_layout, cpu_compute, cpu_compute_op, OpKind, OpScalarKind,
};
use lazy_tensor::ops::impl_compute_op::BinaryKind;
use lazy_tensor::ops::impl_op::{
    add_scalar_impl, add_tensor_impl, checked_tensor_impl, div_tensor_impl, mul_scalar_impl,
    mul_tensor_impl, sub_tensor_impl,
};
use lazy_tensor::plan::{counts_as_leaf, place_under};
use lazy_tensor::promise::{CachedTensorPromise, TensorPromise};
use lazy_tensor::storage::{DenseData, TensorData};
use lazy_tensor::tensor::Tensor;
use lazy_tensor::traits::{Dimension, Promising};

fn arange(n: i64, shape: &[i32]) -> Tensor<i64> {
    Tensor::from_vec((0..n).collect(), shape)
}

fn values(p: TensorPromise<i64>) -> Vec<i64> {
    p.materialize().unwrap().to_vec().unwrap()
}

#[test]
fn twenty_additions_collapse_into_one() {
    let t = arange(12, &[12]);
    let mut p = t.as_promise();
    for i in 0..20 {
        p = p + i as i64;
    }
    assert!(matches!(p.graph.op, OpKind::ScalarOp(OpScalarKind::Sum(190))));
    let doubled = p * 2;
    match &doubled.graph.op {
        OpKind::FusedScalar(ops) => {
            assert_eq!(ops.len(), 2);
            assert!(matches!(ops[0], OpScalarKind::Sum(190)));
            assert!(matches!(ops[1], OpScalarKind::Mul(2)));
        }
        other => panic!("unexpected root {:?}", other),
    }
    assert_eq!(doubled.graph.inputs.len(), 1);
    let expected: Vec<i64> = (0..12).map(|k| (k + 190) * 2).collect();
    assert_eq!(expected[0], 380);
    assert_eq!(expected[11], 402);
    assert_eq!(values(doubled), expected);
}

#[test]
fn scalar_added_to_a_tensor() {
    let t = Tensor::from_vec(vec![1i64, 2, 3, 4], &[2, 2]);
    assert_eq!(t.stride(), &[2, 1]);
    assert_eq!(t.adj_stride(), &[1, 1]);
    let out = (&t + 10).materialize().unwrap();
    assert_eq!(out.shape(), &[2, 2]);
    assert_eq!(out.to_vec().unwrap(), vec![11, 12, 13, 14]);
}

#[test]
fn scaled_ones_plus_ones_is_three() {
    let a = Tensor::from_scalar(1i64, &[4, 4]);
    let b = Tensor::from_scalar(1i64, &[4, 4]);
    let sum = &a * 2 + &b;
    assert!(matches!(sum.graph.op, OpKind::Add));
    assert!(matches!(&sum.graph.inputs[0], NodeKind::Node(n) if matches!(n.op, OpKind::ScalarOp(OpScalarKind::Mul(2)))));
    assert!(matches!(&sum.graph.inputs[1], NodeKind::Edge(_)));
    assert_eq!(values(sum), vec![3i64; 16]);
}

#[test]
fn mismatched_shapes_are_refused() {
    let a = Layout::from_shape(&[2, 3]);
    let b = Layout::from_shape(&[3, 2]);
    match compute_layout(&OpKind::<i64>::Add, &[&a, &b]) {
        Err(OpError::NotSameShape(expected, got)) => {
            assert_eq!(expected, &[2, 3]);
            assert_eq!(got, &[3, 2]);
        }
        _ => panic!("shapes [2, 3] and [3, 2] were accepted"),
    }
    for op in [OpKind::<i64>::Sub, OpKind::Mul, OpKind::Div] {
        assert!(matches!(compute_layout(&op, &[&a, &b]), Err(OpError::NotSameShape(_, _))));
    }
}

#[test]
fn sum_of_mismatched_tensors_is_refused() {
    let a = Tensor::from_scalar(1i64, &[2, 3]);
    let b = Tensor::from_scalar(1i64, &[3, 2]);
    match checked_tensor_impl(BinaryKind::Add, &a, &b) {
        Err(OpError::NotSameShape(expected, got)) => {
            assert_eq!(expected, &[2, 3]);
            assert_eq!(got, &[3, 2]);
        }
        _ => panic!("shapes [2, 3] and [3, 2] were accepted"),
    }
    let c = Tensor::from_scalar(2i64, &[2, 3]);
    let sum = checked_tensor_impl(BinaryKind::Mul, &a, &c).unwrap();
    assert_eq!(values(sum), vec![2; 6]);
}

#[test]
fn layout_rules_give_the_layout_of_the_first_input_or_of_the_view() {
    let a = Layout::from_shape(&[2, 3]);
    let b = Layout::from_shape(&[2, 3]);
    let v = Layout::from_shape(&[6]);
    for op in [
        OpKind::<i64>::NoOp,
        OpKind::Add,
        OpKind::Sub,
        OpKind::Mul,
        OpKind::Div,
        OpKind::ScalarOp(OpScalarKind::Sum(1)),
        OpKind::FusedScalar(vec![OpScalarKind::Mul(2), OpScalarKind::Sum(1)]),
    ] {
        let layout = compute_layout(&op, &[&a, &b]).unwrap();
        assert_eq!(layout.shape(), &[2, 3]);
        assert_eq!(layout.stride(), &[3, 1]);
    }
    let layout = compute_layout(&OpKind::<i64>::View(v), &[&a]).unwrap();
    assert_eq!(layout.shape(), &[6]);
}

#[test]
fn cached_promise_is_computed_once() {
    let a = arange(4, &[2, 2]);
    let b = Tensor::from_scalar(10i64, &[2, 2]);
    let c = (&a + &b).cache();
    assert!(!c.graph.is_cache_filled());
    let x = (&c * 2).materialize().unwrap();
    assert!(c.graph.is_cache_filled());
    let held = c.graph.cached().unwrap().clone_reference();
    let y = (&c * 3).materialize().unwrap();
    assert!(held.shares_storage(c.graph.cached().unwrap()));
    assert_eq!(x.to_vec().unwrap(), vec![20, 22, 24, 26]);
    assert_eq!(y.to_vec().unwrap(), vec![30, 33, 36, 39]);
}

#[test]
fn cached_promise_gives_one_buffer_every_time() {
    let a = arange(4, &[2, 2]);
    let c = (&a + 1).cache();
    let first = c.graph.compute().unwrap();
    let second = c.graph.compute().unwrap();
    assert!(first.shares_storage(&second));
    assert_eq!(first.shape(), second.shape());
    assert_eq!(first.stride(), second.stride());
    assert_eq!(first.adj_stride(), second.adj_stride());
    assert_eq!(first.offset(), second.offset());
    assert_eq!(first.read().unwrap().gather(), vec![1, 2, 3, 4]);
}

#[test]
fn cached_value_is_read_as_a_leaf() {
    let a = arange(4, &[4]);
    let c = (&a + 1).cache();
    let _ = c.graph.compute().unwrap();
    let root = &c * 2;
    let plan = root.graph.topological_sort().unwrap();
    assert_eq!(plan.order.len(), 1);
    assert!(plan.order[0].leaf);
    assert!(matches!(plan.order[0].node, NodeKind::Cache(_)));
    assert_eq!(values(root), vec![2, 4, 6, 8]);
}

#[test]
fn computation_cache_is_empty_after_evaluation() {
    let a = arange(6, &[2, 3]);
    let b = Tensor::from_scalar(2i64, &[2, 3]);
    let shared = &a * &b;
    let root = &(&shared + &a) - &(&shared * &shared);
    let plan = root.graph.topological_sort().unwrap();
    let leaves = read_leaves(&plan);
    assert_eq!(leaves.len(), 2);
    let (result, cache, counts) = evaluate(&*root.graph, &plan, leaves);
    assert!(cache.is_empty());
    assert_eq!(counts, vec![0; plan.order.len()]);
    let expected: Vec<i64> = (0..6).map(|k| (2 * k + k) - (2 * k) * (2 * k)).collect();
    assert_eq!(result.unwrap().gather(), expected);
}

#[test]
fn evaluation_without_a_leaf_has_no_result() {
    let a = arange(4, &[4]);
    let root = &a + &a;
    let plan = root.graph.topological_sort().unwrap();
    let (result, _, _) = evaluate(&*root.graph, &plan, HashMap::new());
    assert!(result.is_none());
}

#[test]
fn member_read_twice_is_sorted_once() {
    let a = arange(4, &[4]);
    let c = Tensor::from_scalar(3i64, &[4]);
    let product = &a * &c;
    let root = &a + &product;
    let plan = root.graph.topological_sort().unwrap();
    assert_eq!(plan.order.len(), 3);
    assert_eq!(plan.uses.iter().sum::<usize>(), 4);
    let place_of_a = plan.root_inputs[0];
    assert_eq!(plan.uses[place_of_a], 2);
    for (place, entry) in plan.order.iter().enumerate() {
        assert!(entry.inputs.iter().all(|input| *input < place));
    }
    assert_eq!(values(root), vec![0, 4, 8, 12]);
}

#[test]
fn long_chain_of_sums_is_evaluated_without_recursion() {
    let one = Tensor::from_scalar(1i64, &[3]);
    let mut p = one.as_promise();
    for _ in 0..3000 {
        p = &p + &one;
    }
    let plan = p.graph.topological_sort().unwrap();
    assert_eq!(plan.order.len(), 3001);
    assert_eq!(plan.uses[plan.root_inputs[1]], 3001);
    assert_eq!(values(p), vec![3001; 3]);
}

#[test]
fn member_used_as_both_inputs() {
    let a = arange(4, &[4]);
    let p = a.as_promise();
    let square = &p * &p;
    assert_eq!(values(square), vec![0, 1, 4, 9]);
}

#[test]
fn four_operations_between_tensors() {
    let a = Tensor::from_vec(vec![8i64, 9, -10, 12], &[4]);
    let b = Tensor::from_vec(vec![2i64, 3, 5, 0], &[4]);
    assert_eq!(values(add_tensor_impl(&a, &b)), vec![10, 12, -5, 12]);
    assert_eq!(values(sub_tensor_impl(&a, &b)), vec![6, 6, -15, 12]);
    assert_eq!(values(mul_tensor_impl(&a, &b)), vec![16, 27, -50, 0]);
    assert_eq!(values(div_tensor_impl(&a, &b)), vec![4, 3, -2, 0]);
}

#[test]
fn operators_by_value_and_by_reference_agree() {
    let a = arange(6, &[2, 3]);
    let b = Tensor::from_scalar(5i64, &[2, 3]);
    let expected_sum: Vec<i64> = (0..6).map(|k| k + 5).collect();
    let expected_difference: Vec<i64> = (0..6).map(|k| k - 5).collect();
    assert_eq!(values(&a + &b), expected_sum);
    assert_eq!(values(a.clone_reference() + &b), expected_sum);
    assert_eq!(values(&a + b.clone_reference()), expected_sum);
    assert_eq!(values(a.clone_reference() + b.clone_reference()), expected_sum);
    assert_eq!(values(&a - &b), expected_difference);
    assert_eq!(values(a.clone_reference() - &b), expected_difference);
    assert_eq!(values(&a - b.clone_reference()), expected_difference);
    assert_eq!(values(a - b), expected_difference);
}

#[test]
fn operators_between_tensors_and_promises() {
    let a = arange(4, &[4]);
    let p = &a + 1;
    let c = (&a * 2).cache();
    assert_eq!(values(&a * &p), vec![0, 2, 6, 12]);
    assert_eq!(values(&p - &a), vec![1, 1, 1, 1]);
    assert_eq!(values(&p + &c), vec![1, 4, 7, 10]);
    assert_eq!(values(&c / &p), vec![0, 1, 1, 1]);
    assert_eq!(values(&c - 1), vec![-1, 1, 3, 5]);
    assert_eq!(values(&c + &c), vec![0, 4, 8, 12]);
    assert_eq!(values(&a / 2), vec![0, 0, 1, 1]);
}

#[test]
fn view_of_a_tensor_reads_the_same_elements() {
    let a = arange(6, &[2, 3]);
    let v = a.view(&[3, 2]).unwrap();
    assert!(matches!(v.graph.op, OpKind::View(_)));
    assert_eq!(v.shape(), &[3, 2]);
    let out = (&v + 1).materialize().unwrap();
    assert_eq!(out.shape(), &[3, 2]);
    assert_eq!(out.to_vec().unwrap(), vec![1, 2, 3, 4, 5, 6]);
    assert!(matches!(a.view(&[4, 2]), Err(OpError::InvalidViewShape)));
    let p = a.as_promise();
    assert_eq!(p.view(&[6]).unwrap().len(), 6);
    assert!(matches!(p.view(&[5]), Err(OpError::InvalidViewShape)));
    let c = p.cache();
    assert_eq!(c.view(&[1, 6]).unwrap().stride(), &[6, 1]);
    assert!(matches!(c.view(&[7]), Err(OpError::InvalidViewShape)));
}

#[test]
fn promise_of_a_tensor_is_the_tensor() {
    let a = arange(6, &[2, 3]);
    let p = a.as_promise();
    assert!(matches!(p.graph.op, OpKind::NoOp));
    assert_eq!(p.shape(), &[2, 3]);
    assert_eq!(p.stride(), &[3, 1]);
    assert_eq!(p.adj_stride(), &[1, 1]);
    assert_eq!(p.offset(), 0);
    assert_eq!(p.len(), 6);
    assert_eq!(values(p), vec![0, 1, 2, 3, 4, 5]);
}

#[test]
fn shares_of_a_tensor() {
    let a = arange(4, &[4]);
    let shared = a.clone_reference();
    let detached = a.clone_detached();
    let copied = a.clone();
    assert!(Arc::ptr_eq(&a.graph, &shared.graph));
    assert!(!Arc::ptr_eq(&a.graph, &detached.graph));
    assert!(a.graph.get().shares_storage(detached.graph.get()));
    assert!(!a.graph.get().shares_storage(copied.graph.get()));
    assert_eq!(copied.to_vec().unwrap(), vec![0, 1, 2, 3]);
    assert_eq!(detached.to_vec().unwrap(), vec![0, 1, 2, 3]);
    assert_eq!(a.len(), 4);
    assert_eq!(a.offset(), 0);
}

#[test]
fn tensor_walks() {
    let a = arange(4, &[2, 2]);
    assert_eq!(a.iter().unwrap().collect(), vec![0, 1, 2, 3]);
    let mut informed = a.informed_iter().unwrap();
    let mut steps = 0;
    while let Some(_) = informed.next() {
        steps += 1;
    }
    assert_eq!(steps, 10);
}

#[test]
fn members_are_told_apart_by_their_allocation() {
    let a = arange(4, &[4]);
    let b = arange(4, &[4]);
    let node_a = NodeKind::Edge(a.graph.clone());
    let again = node_a.clone();
    let node_b = NodeKind::Edge(b.graph.clone());
    assert_eq!(get_id(&node_a), get_id(&again));
    assert_ne!(get_id(&node_a), get_id(&node_b));
    assert!(same_node(&node_a, &again));
    assert!(!same_node(&node_a, &node_b));
    let p = NodeKind::Node(a.as_promise().graph);
    assert!(!same_node(&node_a, &p));
    assert!(same_node(&p, &p.clone()));
    let members = [node_a, p];
    let layouts = get_inputs_layout(&members);
    assert_eq!(layouts.len(), 2);
    assert_eq!(layouts[1].shape(), &[4]);
}

#[test]
fn nodes_built_by_hand() {
    let data = TensorData::from_vec(vec![1i64, 2, 3], &[3]);
    let edge = TensorGraphEdge::from_tensor_data(data);
    assert_eq!(edge.layout().shape(), &[3]);
    let copy = edge.clone();
    assert!(edge.get().shares_storage(copy.get()));
    assert!(edge.compute().unwrap().shares_storage(edge.get()));
    let leaf = NodeKind::Edge(Arc::new(edge));
    let node = TensorGraphNode::new(OpKind::ScalarOp(OpScalarKind::Sub(1)), vec![leaf.clone()]);
    assert_eq!(node.layout().shape(), &[3]);
    assert_eq!(node.compute().unwrap().read().unwrap().gather(), vec![0, 1, 2]);
    let given = TensorGraphNode::with_layout(OpKind::NoOp, vec![leaf.clone()], Layout::from_shape(&[3]));
    let cache = TensorGraphCacheNode::from_node(given);
    assert!(matches!(cache.get_node().op, OpKind::NoOp));
    assert!(cache.cached().is_none());
    assert_eq!(cache.compute().unwrap().read().unwrap().gather(), vec![1, 2, 3]);
    assert!(cache.is_cache_filled());
    let remembered = CachedTensorPromise::from_node(cache);
    assert_eq!(remembered.materialize().unwrap().to_vec().unwrap(), vec![1, 2, 3]);
    let built = TensorGraphCacheNode::new(OpKind::ScalarOp(OpScalarKind::Mul(3)), vec![leaf.clone()]);
    assert_eq!(built.layout().shape(), &[3]);
    let with = TensorGraphCacheNode::with_layout(OpKind::NoOp, vec![leaf.clone()], Layout::from_shape(&[3]));
    assert!(!with.is_cache_filled());
    let promise = CachedTensorPromise::new(OpKind::ScalarOp(OpScalarKind::Div(2)), vec![leaf.clone()]);
    assert_eq!(promise.materialize().unwrap().to_vec().unwrap(), vec![0, 1, 1]);
    let laid = CachedTensorPromise::with_layout(OpKind::NoOp, vec![leaf.clone()], Layout::from_shape(&[3]));
    assert_eq!(laid.len(), 3);
    let plain = TensorPromise::with_layout(OpKind::NoOp, vec![leaf], Layout::from_shape(&[3]));
    assert_eq!(values(plain), vec![1, 2, 3]);
}

#[test]
fn filled_slot_is_not_filled_again() {
    let a = arange(2, &[2]);
    let c = (&a + 1).cache();
    c.graph.fill(TensorData::from_vec(vec![7, 7], &[2]));
    c.graph.fill(TensorData::from_vec(vec![9, 9], &[2]));
    assert_eq!(c.graph.cached().unwrap().read().unwrap().gather(), vec![7, 7]);
    assert_eq!(c.materialize().unwrap().to_vec().unwrap(), vec![7, 7]);
}

#[test]
fn held_result_of_another_shape_is_not_used() {
    let a = arange(2, &[2]);
    let c = (&a + 1).cache();
    c.graph.fill(TensorData::from_vec(vec![7, 7, 7], &[3]));
    assert_eq!(c.graph.compute().unwrap().read().unwrap().gather(), vec![1, 2]);
    assert!((&c * 2).materialize().is_none());
}

#[test]
fn kernels_compute_on_dense_data() {
    let a = DenseData::packed(vec![1i64, 2, 3, 4], &[2, 2]);
    let b = DenseData::packed(vec![10i64, 20, 30, 40], &[2, 2]);
    let sum = cpu_compute_op(&OpKind::Add, vec![a, b]).unwrap();
    assert_eq!(sum.layout.shape(), &[2, 2]);
    assert_eq!(sum.data, vec![11, 22, 33, 44]);
    let chain = OpKind::FusedScalar(vec![OpScalarKind::Sum(1), OpScalarKind::Mul(2), OpScalarKind::Sub(3)]);
    let out = cpu_compute(&chain, vec![sum]).unwrap();
    assert_eq!(out.data, vec![21, 43, 65, 87]);
    let viewed = cpu_compute_op(&OpKind::View(Layout::from_shape(&[4])), vec![out]).unwrap();
    assert_eq!(viewed.layout.shape(), &[4]);
    let unfit = cpu_compute_op(&OpKind::View(Layout::from_shape(&[5])), vec![viewed]);
    assert!(unfit.is_none());
}

#[test]
fn binary_kernel_streams_more_than_one_run() {
    let n = 300;
    let a = DenseData::packed((0..n).collect::<Vec<i64>>(), &[n as i32]);
    let b = DenseData::packed((0..n).map(|k| 2 * k).collect::<Vec<i64>>(), &[n as i32]);
    let out = cpu_compute_op(&OpKind::Sub, vec![b, a]).unwrap();
    assert_eq!(out.data, (0..n).collect::<Vec<i64>>());
}

#[test]
fn binary_kernel_streams_a_strided_input_in_runs() {
    let n: i64 = 20 * 15;
    let a = DenseData::packed(vec![0i64; n as usize], &[15, 20]);
    let b = lazy_tensor::storage::checked_dense(
        (0..n).collect::<Vec<i64>>(),
        Layout::from_slice(&[15, 20], &[1, 15]),
    )
    .unwrap();
    let out = cpu_compute_op(&OpKind::Add, vec![a, b]).unwrap();
    let expected: Vec<i64> = (0..15).flat_map(|i| (0..20).map(move |j| i + 15 * j)).collect();
    assert_eq!(out.data, expected);
}

#[test]
fn node_computes_its_values() {
    let a = arange(4, &[2, 2]);
    let root = &(&a + 1) * &a;
    let dense = root.graph.compute_values().unwrap();
    assert_eq!(dense.layout.shape(), &[2, 2]);
    assert_eq!(dense.data, vec![0, 2, 6, 12]);
}

#[test]
fn kernels_read_strided_inputs() {
    let a = lazy_tensor::storage::checked_dense(
        (0..4).collect::<Vec<i64>>(),
        Layout::from_slice(&[2, 2], &[1, 2]),
    )
    .unwrap();
    let b = DenseData::packed(vec![0i64, 10, 20, 30], &[2, 2]);
    let out = cpu_compute_op(&OpKind::Add, vec![b, a]).unwrap();
    assert_eq!(out.data, vec![0, 12, 21, 33]);
    let strided = lazy_tensor::storage::checked_dense(
        (0..4).collect::<Vec<i64>>(),
        Layout::from_slice(&[2, 2], &[1, 2]),
    )
    .unwrap();
    let scaled = cpu_compute_op(&OpKind::ScalarOp(OpScalarKind::Mul(2)), vec![strided]).unwrap();
    assert_eq!(scaled.data, vec![0, 4, 2, 6]);
    assert_eq!(scaled.layout.stride(), &[2, 1]);
}

#[test]
fn scalar_functions_build_scalar_promises() {
    let a = arange(3, &[3]);
    assert_eq!(values(add_scalar_impl(&a, 1)), vec![1, 2, 3]);
    assert_eq!(values(mul_scalar_impl(&a, 3)), vec![0, 3, 6]);
}

#[test]
fn no_member_has_two_places_and_every_place_is_read() {
    let a = arange(4, &[4]);
    let b = Tensor::from_scalar(3i64, &[4]);
    let shared = &a * &b;
    let left = &shared + &a;
    let right = &shared - &b;
    let root = &left * &right;
    let plan = root.graph.topological_sort().unwrap();
    assert_eq!(plan.order.len(), 5);
    for (place, entry) in plan.order.iter().enumerate() {
        assert_eq!(entry.id, place);
        for later in plan.order.iter().skip(place + 1) {
            assert_ne!(entry.id, later.id);
            assert!(!same_node(&entry.node, &later.node));
        }
    }
    assert_eq!(plan.uses.len(), plan.order.len());
    assert!(plan.uses.iter().all(|count| *count >= 1));
    let place_of = |node: &NodeKind<i64>| {
        plan.order.iter().position(|entry| same_node(&entry.node, node)).unwrap()
    };
    assert_eq!(plan.uses[place_of(&NodeKind::Node(shared.graph.clone()))], 2);
    assert_eq!(plan.uses[place_of(&NodeKind::Edge(a.graph.clone()))], 2);
    assert_eq!(plan.uses[place_of(&NodeKind::Edge(b.graph.clone()))], 2);
    assert_eq!(plan.uses[place_of(&NodeKind::Node(left.graph.clone()))], 1);
    assert_eq!(plan.uses[place_of(&NodeKind::Node(right.graph.clone()))], 1);
    let root_node = NodeKind::Node(root.graph.clone());
    assert!(plan.order.iter().all(|entry| !same_node(&entry.node, &root_node)));
}

#[test]
fn remembering_node_is_walked_until_it_holds_its_result() {
    let a = arange(4, &[4]);
    let c = (&a + 1).cache();
    let root = &c * 2;
    let plan = root.graph.topological_sort().unwrap();
    assert_eq!(plan.order.len(), 3);
    assert!(matches!(plan.order[0].node, NodeKind::Edge(_)));
    assert!(plan.order[0].leaf);
    assert!(matches!(plan.order[1].node, NodeKind::Node(_)));
    assert!(!plan.order[1].leaf);
    assert_eq!(plan.order[1].inputs, vec![0]);
    assert!(matches!(plan.order[2].node, NodeKind::Cache(_)));
    assert!(!plan.order[2].leaf);
    assert_eq!(plan.order[2].inputs, vec![1]);
    assert_eq!(plan.root_inputs, vec![2]);
    assert_eq!(plan.uses, vec![1, 1, 1]);
    let _ = c.graph.compute().unwrap();
    let again = (&c * 2).graph.topological_sort().unwrap();
    assert_eq!(again.order.len(), 1);
    assert!(again.order[0].leaf);
    assert!(again.order[0].inputs.is_empty());
    assert_eq!(again.uses, vec![1]);
}

#[test]
fn leaves_and_filled_remembering_nodes_are_read() {
    let a = arange(2, &[2]);
    let leaf = NodeKind::Edge(a.graph.clone());
    let node = NodeKind::Node((&a + 1).graph.clone());
    let cache = NodeKind::Cache((&a + 1).cache().graph.clone());
    assert!(counts_as_leaf(&leaf, false));
    assert!(counts_as_leaf(&leaf, true));
    assert!(!counts_as_leaf(&node, false));
    assert!(!counts_as_leaf(&node, true));
    assert!(!counts_as_leaf(&cache, false));
    assert!(counts_as_leaf(&cache, true));
}

#[test]
fn index_gives_a_place_only_within_the_order() {
    let mut index: HashMap<usize, usize> = HashMap::new();
    assert_eq!(place_under(&index, 7, 3), None);
    index.insert(7, 2);
    index.insert(9, 3);
    assert_eq!(place_under(&index, 7, 3), Some(2));
    assert_eq!(place_under(&index, 7, 2), None);
    assert_eq!(place_under(&index, 9, 3), None);
    assert_eq!(place_under(&index, 9, 4), Some(3));
    assert_eq!(place_under(&index, 8, 4), None);
}

#[test]
fn member_shared_at_several_depths_is_sorted_once() {
    let e = arange(4, &[4]);
    let e1 = arange(4, &[4]);
    let e2 = Tensor::from_scalar(1i64, &[4]);
    let a = &e1 + &e2;
    let product = &a * &e;
    let root = &a + &product;
    let plan = root.graph.topological_sort().unwrap();
    assert_eq!(plan.order.len(), 5);
    let place_of = |node: &NodeKind<i64>| {
        plan.order.iter().position(|entry| same_node(&entry.node, node)).unwrap()
    };
    let place_of_a = place_of(&NodeKind::Node(a.graph.clone()));
    let place_of_product = place_of(&NodeKind::Node(product.graph.clone()));
    assert!(place_of_a < place_of_product);
    assert!(place_of(&NodeKind::Edge(e1.graph.clone())) < place_of_a);
    assert!(place_of(&NodeKind::Edge(e2.graph.clone())) < place_of_a);
    assert!(place_of(&NodeKind::Edge(e.graph.clone())) < place_of_product);
    assert_eq!(plan.uses[place_of_a], 2);
    assert_eq!(plan.uses[place_of_product], 1);
    assert_eq!(plan.root_inputs, vec![place_of_a, place_of_product]);
    assert_eq!(values(root), vec![1, 4, 9, 16]);
}

#[test]
fn inputs_that_an_operation_can_be_computed_on() {
    let a = DenseData::packed(vec![1i64, 2, 3, 4], &[2, 2]);
    let b = DenseData::packed(vec![5i64, 6, 7, 8], &[2, 2]);
    let c = DenseData::packed(vec![5i64, 6, 7, 8], &[4]);
    assert!(a.is_well_formed());
    let short = DenseData { data: vec![1i64, 2, 3], layout: Layout::from_shape(&[2, 2]) };
    assert!(!short.is_well_formed());
    let skewed = DenseData {
        data: vec![1i64, 2, 3, 4],
        layout: Layout::new(vec![2, 2], vec![2, 1], vec![2, 1]),
    };
    assert!(!skewed.is_well_formed());
    let clone = |d: &DenseData<i64>| DenseData { data: d.data.clone(), layout: d.layout.clone() };
    assert!(admissible_inputs(&OpKind::Add, &vec![clone(&a), clone(&b)]));
    assert!(!admissible_inputs(&OpKind::Add, &vec![clone(&a)]));
    assert!(!admissible_inputs(&OpKind::Mul, &vec![clone(&a), clone(&c)]));
    assert!(!admissible_inputs(&OpKind::Sub, &vec![clone(&a), clone(&short)]));
    assert!(admissible_inputs(&OpKind::NoOp, &vec![clone(&a)]));
    assert!(!admissible_inputs(&OpKind::<i64>::NoOp, &Vec::new()));
    assert!(!admissible_inputs(&OpKind::NoOp, &vec![clone(&skewed)]));
    assert!(admissible_inputs(&OpKind::ScalarOp(OpScalarKind::Sum(1)), &vec![clone(&c)]));
    assert!(admissible_inputs(&OpKind::View(Layout::from_shape(&[4])), &vec![clone(&a)]));
    assert!(!admissible_inputs(
        &OpKind::View(Layout::new(vec![4], vec![1], vec![2])),
        &vec![clone(&a)]
    ));
}
