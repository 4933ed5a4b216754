use lazy_tensor::evaluator::held_of_shape;
use lazy_tensor::graph::{describe, get_id, NodeKind};
use lazy_tensor::storage::{Storage, TensorData};
use lazy_tensor::tensor::Tensor;
use lazy_tensor::traits::Dimension;

#[test]
fn members_are_described_in_short() {
    let t = Tensor::from_scalar(1i64, &[2]);
    let leaf = describe(&NodeKind::Edge(t.graph.clone()));
    assert!(leaf.starts_with("TensorGraphEdge { id: "));
    assert!(leaf.ends_with(", data: [...] }"));
    let p = &t + 1;
    let node = describe(&NodeKind::Node(p.graph.clone()));
    assert!(node.starts_with("TensorGraphNode { id: "));
    assert!(node.ends_with(", op: ScalarOp(Sum(1)),  inputs: [...] }"));
    let c = p.cache();
    let cache = describe(&NodeKind::Cache(c.graph.clone()));
    assert!(cache.ends_with(", op: NoOp,  inputs: [...], cached: false }"));
    let _ = c.graph.fill(TensorData::from_scalar(0i64, &[2]));
    assert!(describe(&NodeKind::Cache(c.graph.clone())).ends_with("cached: true }"));
}

#[test]
fn buffers_from_iterators() {
    assert_eq!(Storage::from_iter((1..4).map(|x| x as i64)).snapshot(), vec![1, 2, 3]);
    let data = TensorData::from_iter((0..6).map(|x| x as i64), &[2, 3]);
    assert_eq!(data.shape(), &[2, 3]);
    assert_eq!(data.read().unwrap().gather(), vec![0, 1, 2, 3, 4, 5]);
    let tensor = Tensor::from_iter((0..4).map(|x| 2 * x as i64), &[4]);
    assert_eq!(tensor.to_vec().unwrap(), vec![0, 2, 4, 6]);
    let short = Tensor::from_iter((0..3).map(|x| x as i64), &[4]);
    assert!(short.to_vec().is_none());
    assert!(short.as_promise().materialize().is_none());
}

#[test]
fn description_is_built_around_the_number_and_the_operation() {
    let t = Tensor::from_scalar(1i64, &[2]);
    let leaf = NodeKind::Edge(t.graph.clone());
    assert_eq!(
        describe(&leaf),
        format!("TensorGraphEdge {{ id: {}, data: [...] }}", get_id(&leaf))
    );
    let p = &t + 1;
    let node = NodeKind::Node(p.graph.clone());
    assert_eq!(
        describe(&node),
        format!(
            "TensorGraphNode {{ id: {}, op: ScalarOp(Sum(1)),  inputs: [...] }}",
            get_id(&node)
        )
    );
    let c = p.cache();
    let cache = NodeKind::Cache(c.graph.clone());
    assert_eq!(
        describe(&cache),
        format!(
            "TensorGraphNode {{ id: {}, op: NoOp,  inputs: [...], cached: false }}",
            get_id(&cache)
        )
    );
    let _ = c.graph.fill(TensorData::from_scalar(0i64, &[2]));
    assert_eq!(
        describe(&cache),
        format!(
            "TensorGraphNode {{ id: {}, op: NoOp,  inputs: [...], cached: true }}",
            get_id(&cache)
        )
    );
}

#[test]
fn held_result_is_taken_only_in_the_shape_asked_for() {
    let data = TensorData::from_vec(vec![1i64, 2, 3, 4, 5, 6], &[2, 3]);
    assert!(held_of_shape(Some(&data), &[2, 3]).unwrap().shares_storage(&data));
    assert!(held_of_shape(Some(&data), &[3, 2]).is_none());
    assert!(held_of_shape(Some(&data), &[6]).is_none());
    assert!(held_of_shape::<i64>(None, &[2, 3]).is_none());
}
