use lazy_tensor::promise::TensorPromise;
use lazy_tensor::tensor::Tensor;

fn left() -> Tensor<i64> {
    Tensor::from_vec(vec![12i64, 6, 18, -9], &[2, 2])
}

fn right() -> Tensor<i64> {
    Tensor::from_vec(vec![2i64, 2, 3, 3], &[2, 2])
}

fn values(p: TensorPromise<i64>) -> Vec<i64> {
    p.materialize().unwrap().to_vec().unwrap()
}

#[test]
fn operators_with_a_tensor_on_the_left() {
    let a = left();
    let b = right();
    assert_eq!(values(&a.clone_reference() + 3), vec![15, 9, 21, -6]);
    assert_eq!(values(a.clone_reference() + 3), vec![15, 9, 21, -6]);
    assert_eq!(values(&a.clone_reference() - 3), vec![9, 3, 15, -12]);
    assert_eq!(values(a.clone_reference() - 3), vec![9, 3, 15, -12]);
    assert_eq!(values(&a.clone_reference() * 3), vec![36, 18, 54, -27]);
    assert_eq!(values(a.clone_reference() * 3), vec![36, 18, 54, -27]);
    assert_eq!(values(&a.clone_reference() / 3), vec![4, 2, 6, -3]);
    assert_eq!(values(a.clone_reference() / 3), vec![4, 2, 6, -3]);
    assert_eq!(values(&a.clone_reference() + &b.clone_reference()), vec![14, 8, 21, -6]);
    assert_eq!(values(&a.clone_reference() + b.clone_reference()), vec![14, 8, 21, -6]);
    assert_eq!(values(a.clone_reference() + &b.clone_reference()), vec![14, 8, 21, -6]);
    assert_eq!(values(a.clone_reference() + b.clone_reference()), vec![14, 8, 21, -6]);
    assert_eq!(values(&a.clone_reference() - &b.clone_reference()), vec![10, 4, 15, -12]);
    assert_eq!(values(&a.clone_reference() - b.clone_reference()), vec![10, 4, 15, -12]);
    assert_eq!(values(a.clone_reference() - &b.clone_reference()), vec![10, 4, 15, -12]);
    assert_eq!(values(a.clone_reference() - b.clone_reference()), vec![10, 4, 15, -12]);
    assert_eq!(values(&a.clone_reference() * &b.clone_reference()), vec![24, 12, 54, -27]);
    assert_eq!(values(&a.clone_reference() * b.clone_reference()), vec![24, 12, 54, -27]);
    assert_eq!(values(a.clone_reference() * &b.clone_reference()), vec![24, 12, 54, -27]);
    assert_eq!(values(a.clone_reference() * b.clone_reference()), vec![24, 12, 54, -27]);
    assert_eq!(values(&a.clone_reference() / &b.clone_reference()), vec![6, 3, 6, -3]);
    assert_eq!(values(&a.clone_reference() / b.clone_reference()), vec![6, 3, 6, -3]);
    assert_eq!(values(a.clone_reference() / &b.clone_reference()), vec![6, 3, 6, -3]);
    assert_eq!(values(a.clone_reference() / b.clone_reference()), vec![6, 3, 6, -3]);
    assert_eq!(values(&a.clone_reference() + &b.as_promise()), vec![14, 8, 21, -6]);
    assert_eq!(values(&a.clone_reference() + b.as_promise()), vec![14, 8, 21, -6]);
    assert_eq!(values(a.clone_reference() + &b.as_promise()), vec![14, 8, 21, -6]);
    assert_eq!(values(a.clone_reference() + b.as_promise()), vec![14, 8, 21, -6]);
    assert_eq!(values(&a.clone_reference() - &b.as_promise()), vec![10, 4, 15, -12]);
    assert_eq!(values(&a.clone_reference() - b.as_promise()), vec![10, 4, 15, -12]);
    assert_eq!(values(a.clone_reference() - &b.as_promise()), vec![10, 4, 15, -12]);
    assert_eq!(values(a.clone_reference() - b.as_promise()), vec![10, 4, 15, -12]);
    assert_eq!(values(&a.clone_reference() * &b.as_promise()), vec![24, 12, 54, -27]);
    assert_eq!(values(&a.clone_reference() * b.as_promise()), vec![24, 12, 54, -27]);
    assert_eq!(values(a.clone_reference() * &b.as_promise()), vec![24, 12, 54, -27]);
    assert_eq!(values(a.clone_reference() * b.as_promise()), vec![24, 12, 54, -27]);
    assert_eq!(values(&a.clone_reference() / &b.as_promise()), vec![6, 3, 6, -3]);
    assert_eq!(values(&a.clone_reference() / b.as_promise()), vec![6, 3, 6, -3]);
    assert_eq!(values(a.clone_reference() / &b.as_promise()), vec![6, 3, 6, -3]);
    assert_eq!(values(a.clone_reference() / b.as_promise()), vec![6, 3, 6, -3]);
    assert_eq!(values(&a.clone_reference() + &b.as_promise().cache()), vec![14, 8, 21, -6]);
    assert_eq!(values(&a.clone_reference() + b.as_promise().cache()), vec![14, 8, 21, -6]);
    assert_eq!(values(a.clone_reference() + &b.as_promise().cache()), vec![14, 8, 21, -6]);
    assert_eq!(values(a.clone_reference() + b.as_promise().cache()), vec![14, 8, 21, -6]);
    assert_eq!(values(&a.clone_reference() - &b.as_promise().cache()), vec![10, 4, 15, -12]);
    assert_eq!(values(&a.clone_reference() - b.as_promise().cache()), vec![10, 4, 15, -12]);
    assert_eq!(values(a.clone_reference() - &b.as_promise().cache()), vec![10, 4, 15, -12]);
    assert_eq!(values(a.clone_reference() - b.as_promise().cache()), vec![10, 4, 15, -12]);
    assert_eq!(values(&a.clone_reference() * &b.as_promise().cache()), vec![24, 12, 54, -27]);
    assert_eq!(values(&a.clone_reference() * b.as_promise().cache()), vec![24, 12, 54, -27]);
    assert_eq!(values(a.clone_reference() * &b.as_promise().cache()), vec![24, 12, 54, -27]);
    assert_eq!(values(a.clone_reference() * b.as_promise().cache()), vec![24, 12, 54, -27]);
    assert_eq!(values(&a.clone_reference() / &b.as_promise().cache()), vec![6, 3, 6, -3]);
    assert_eq!(values(&a.clone_reference() / b.as_promise().cache()), vec![6, 3, 6, -3]);
    assert_eq!(values(a.clone_reference() / &b.as_promise().cache()), vec![6, 3, 6, -3]);
    assert_eq!(values(a.clone_reference() / b.as_promise().cache()), vec![6, 3, 6, -3]);
}

#[test]
fn operators_with_a_promise_on_the_left() {
    let a = left();
    let b = right();
    assert_eq!(values(&a.as_promise() + 3), vec![15, 9, 21, -6]);
    assert_eq!(values(a.as_promise() + 3), vec![15, 9, 21, -6]);
    assert_eq!(values(&a.as_promise() - 3), vec![9, 3, 15, -12]);
    assert_eq!(values(a.as_promise() - 3), vec![9, 3, 15, -12]);
    assert_eq!(values(&a.as_promise() * 3), vec![36, 18, 54, -27]);
    assert_eq!(values(a.as_promise() * 3), vec![36, 18, 54, -27]);
    assert_eq!(values(&a.as_promise() / 3), vec![4, 2, 6, -3]);
    assert_eq!(values(a.as_promise() / 3), vec![4, 2, 6, -3]);
    assert_eq!(values(&a.as_promise() + &b.clone_reference()), vec![14, 8, 21, -6]);
    assert_eq!(values(&a.as_promise() + b.clone_reference()), vec![14, 8, 21, -6]);
    assert_eq!(values(a.as_promise() + &b.clone_reference()), vec![14, 8, 21, -6]);
    assert_eq!(values(a.as_promise() + b.clone_reference()), vec![14, 8, 21, -6]);
    assert_eq!(values(&a.as_promise() - &b.clone_reference()), vec![10, 4, 15, -12]);
    assert_eq!(values(&a.as_promise() - b.clone_reference()), vec![10, 4, 15, -12]);
    assert_eq!(values(a.as_promise() - &b.clone_reference()), vec![10, 4, 15, -12]);
    assert_eq!(values(a.as_promise() - b.clone_reference()), vec![10, 4, 15, -12]);
    assert_eq!(values(&a.as_promise() * &b.clone_reference()), vec![24, 12, 54, -27]);
    assert_eq!(values(&a.as_promise() * b.clone_reference()), vec![24, 12, 54, -27]);
    assert_eq!(values(a.as_promise() * &b.clone_reference()), vec![24, 12, 54, -27]);
    assert_eq!(values(a.as_promise() * b.clone_reference()), vec![24, 12, 54, -27]);
    assert_eq!(values(&a.as_promise() / &b.clone_reference()), vec![6, 3, 6, -3]);
    assert_eq!(values(&a.as_promise() / b.clone_reference()), vec![6, 3, 6, -3]);
    assert_eq!(values(a.as_promise() / &b.clone_reference()), vec![6, 3, 6, -3]);
    assert_eq!(values(a.as_promise() / b.clone_reference()), vec![6, 3, 6, -3]);
    assert_eq!(values(&a.as_promise() + &b.as_promise()), vec![14, 8, 21, -6]);
    assert_eq!(values(&a.as_promise() + b.as_promise()), vec![14, 8, 21, -6]);
    assert_eq!(values(a.as_promise() + &b.as_promise()), vec![14, 8, 21, -6]);
    assert_eq!(values(a.as_promise() + b.as_promise()), vec![14, 8, 21, -6]);
    assert_eq!(values(&a.as_promise() - &b.as_promise()), vec![10, 4, 15, -12]);
    assert_eq!(values(&a.as_promise() - b.as_promise()), vec![10, 4, 15, -12]);
    assert_eq!(values(a.as_promise() - &b.as_promise()), vec![10, 4, 15, -12]);
    assert_eq!(values(a.as_promise() - b.as_promise()), vec![10, 4, 15, -12]);
    assert_eq!(values(&a.as_promise() * &b.as_promise()), vec![24, 12, 54, -27]);
    assert_eq!(values(&a.as_promise() * b.as_promise()), vec![24, 12, 54, -27]);
    assert_eq!(values(a.as_promise() * &b.as_promise()), vec![24, 12, 54, -27]);
    assert_eq!(values(a.as_promise() * b.as_promise()), vec![24, 12, 54, -27]);
    assert_eq!(values(&a.as_promise() / &b.as_promise()), vec![6, 3, 6, -3]);
    assert_eq!(values(&a.as_promise() / b.as_promise()), vec![6, 3, 6, -3]);
    assert_eq!(values(a.as_promise() / &b.as_promise()), vec![6, 3, 6, -3]);
    assert_eq!(values(a.as_promise() / b.as_promise()), vec![6, 3, 6, -3]);
    assert_eq!(values(&a.as_promise() + &b.as_promise().cache()), vec![14, 8, 21, -6]);
    assert_eq!(values(&a.as_promise() + b.as_promise().cache()), vec![14, 8, 21, -6]);
    assert_eq!(values(a.as_promise() + &b.as_promise().cache()), vec![14, 8, 21, -6]);
    assert_eq!(values(a.as_promise() + b.as_promise().cache()), vec![14, 8, 21, -6]);
    assert_eq!(values(&a.as_promise() - &b.as_promise().cache()), vec![10, 4, 15, -12]);
    assert_eq!(values(&a.as_promise() - b.as_promise().cache()), vec![10, 4, 15, -12]);
    assert_eq!(values(a.as_promise() - &b.as_promise().cache()), vec![10, 4, 15, -12]);
    assert_eq!(values(a.as_promise() - b.as_promise().cache()), vec![10, 4, 15, -12]);
    assert_eq!(values(&a.as_promise() * &b.as_promise().cache()), vec![24, 12, 54, -27]);
    assert_eq!(values(&a.as_promise() * b.as_promise().cache()), vec![24, 12, 54, -27]);
    assert_eq!(values(a.as_promise() * &b.as_promise().cache()), vec![24, 12, 54, -27]);
    assert_eq!(values(a.as_promise() * b.as_promise().cache()), vec![24, 12, 54, -27]);
    assert_eq!(values(&a.as_promise() / &b.as_promise().cache()), vec![6, 3, 6, -3]);
    assert_eq!(values(&a.as_promise() / b.as_promise().cache()), vec![6, 3, 6, -3]);
    assert_eq!(values(a.as_promise() / &b.as_promise().cache()), vec![6, 3, 6, -3]);
    assert_eq!(values(a.as_promise() / b.as_promise().cache()), vec![6, 3, 6, -3]);
}

#[test]
fn operators_with_a_remembering_promise_on_the_left() {
    let a = left();
    let b = right();
    assert_eq!(values(&a.as_promise().cache() + 3), vec![15, 9, 21, -6]);
    assert_eq!(values(a.as_promise().cache() + 3), vec![15, 9, 21, -6]);
    assert_eq!(values(&a.as_promise().cache() - 3), vec![9, 3, 15, -12]);
    assert_eq!(values(a.as_promise().cache() - 3), vec![9, 3, 15, -12]);
    assert_eq!(values(&a.as_promise().cache() * 3), vec![36, 18, 54, -27]);
    assert_eq!(values(a.as_promise().cache() * 3), vec![36, 18, 54, -27]);
    assert_eq!(values(&a.as_promise().cache() / 3), vec![4, 2, 6, -3]);
    assert_eq!(values(a.as_promise().cache() / 3), vec![4, 2, 6, -3]);
    assert_eq!(values(&a.as_promise().cache() + &b.clone_reference()), vec![14, 8, 21, -6]);
    assert_eq!(values(&a.as_promise().cache() + b.clone_reference()), vec![14, 8, 21, -6]);
    assert_eq!(values(a.as_promise().cache() + &b.clone_reference()), vec![14, 8, 21, -6]);
    assert_eq!(values(a.as_promise().cache() + b.clone_reference()), vec![14, 8, 21, -6]);
    assert_eq!(values(&a.as_promise().cache() - &b.clone_reference()), vec![10, 4, 15, -12]);
    assert_eq!(values(&a.as_promise().cache() - b.clone_reference()), vec![10, 4, 15, -12]);
    assert_eq!(values(a.as_promise().cache() - &b.clone_reference()), vec![10, 4, 15, -12]);
    assert_eq!(values(a.as_promise().cache() - b.clone_reference()), vec![10, 4, 15, -12]);
    assert_eq!(values(&a.as_promise().cache() * &b.clone_reference()), vec![24, 12, 54, -27]);
    assert_eq!(values(&a.as_promise().cache() * b.clone_reference()), vec![24, 12, 54, -27]);
    assert_eq!(values(a.as_promise().cache() * &b.clone_reference()), vec![24, 12, 54, -27]);
    assert_eq!(values(a.as_promise().cache() * b.clone_reference()), vec![24, 12, 54, -27]);
    assert_eq!(values(&a.as_promise().cache() / &b.clone_reference()), vec![6, 3, 6, -3]);
    assert_eq!(values(&a.as_promise().cache() / b.clone_reference()), vec![6, 3, 6, -3]);
    assert_eq!(values(a.as_promise().cache() / &b.clone_reference()), vec![6, 3, 6, -3]);
    assert_eq!(values(a.as_promise().cache() / b.clone_reference()), vec![6, 3, 6, -3]);
    assert_eq!(values(&a.as_promise().cache() + &b.as_promise()), vec![14, 8, 21, -6]);
    assert_eq!(values(&a.as_promise().cache() + b.as_promise()), vec![14, 8, 21, -6]);
    assert_eq!(values(a.as_promise().cache() + &b.as_promise()), vec![14, 8, 21, -6]);
    assert_eq!(values(a.as_promise().cache() + b.as_promise()), vec![14, 8, 21, -6]);
    assert_eq!(values(&a.as_promise().cache() - &b.as_promise()), vec![10, 4, 15, -12]);
    assert_eq!(values(&a.as_promise().cache() - b.as_promise()), vec![10, 4, 15, -12]);
    assert_eq!(values(a.as_promise().cache() - &b.as_promise()), vec![10, 4, 15, -12]);
    assert_eq!(values(a.as_promise().cache() - b.as_promise()), vec![10, 4, 15, -12]);
    assert_eq!(values(&a.as_promise().cache() * &b.as_promise()), vec![24, 12, 54, -27]);
    assert_eq!(values(&a.as_promise().cache() * b.as_promise()), vec![24, 12, 54, -27]);
    assert_eq!(values(a.as_promise().cache() * &b.as_promise()), vec![24, 12, 54, -27]);
    assert_eq!(values(a.as_promise().cache() * b.as_promise()), vec![24, 12, 54, -27]);
    assert_eq!(values(&a.as_promise().cache() / &b.as_promise()), vec![6, 3, 6, -3]);
    assert_eq!(values(&a.as_promise().cache() / b.as_promise()), vec![6, 3, 6, -3]);
    assert_eq!(values(a.as_promise().cache() / &b.as_promise()), vec![6, 3, 6, -3]);
    assert_eq!(values(a.as_promise().cache() / b.as_promise()), vec![6, 3, 6, -3]);
    assert_eq!(values(&a.as_promise().cache() + &b.as_promise().cache()), vec![14, 8, 21, -6]);
    assert_eq!(values(&a.as_promise().cache() + b.as_promise().cache()), vec![14, 8, 21, -6]);
    assert_eq!(values(a.as_promise().cache() + &b.as_promise().cache()), vec![14, 8, 21, -6]);
    assert_eq!(values(a.as_promise().cache() + b.as_promise().cache()), vec![14, 8, 21, -6]);
    assert_eq!(values(&a.as_promise().cache() - &b.as_promise().cache()), vec![10, 4, 15, -12]);
    assert_eq!(values(&a.as_promise().cache() - b.as_promise().cache()), vec![10, 4, 15, -12]);
    assert_eq!(values(a.as_promise().cache() - &b.as_promise().cache()), vec![10, 4, 15, -12]);
    assert_eq!(values(a.as_promise().cache() - b.as_promise().cache()), vec![10, 4, 15, -12]);
    assert_eq!(values(&a.as_promise().cache() * &b.as_promise().cache()), vec![24, 12, 54, -27]);
    assert_eq!(values(&a.as_promise().cache() * b.as_promise().cache()), vec![24, 12, 54, -27]);
    assert_eq!(values(a.as_promise().cache() * &b.as_promise().cache()), vec![24, 12, 54, -27]);
    assert_eq!(values(a.as_promise().cache() * b.as_promise().cache()), vec![24, 12, 54, -27]);
    assert_eq!(values(&a.as_promise().cache() / &b.as_promise().cache()), vec![6, 3, 6, -3]);
    assert_eq!(values(&a.as_promise().cache() / b.as_promise().cache()), vec![6, 3, 6, -3]);
    assert_eq!(values(a.as_promise().cache() / &b.as_promise().cache()), vec![6, 3, 6, -3]);
    assert_eq!(values(a.as_promise().cache() / b.as_promise().cache()), vec![6, 3, 6, -3]);
}
