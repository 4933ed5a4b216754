use lazy_tensor::mat::RawTensor;
use lazy_tensor::slice::SliceRange;
use lazy_tensor::storage::TensorData;
use lazy_tensor::tensor::Tensor;

#[test]
fn square_is_printed_as_two_rows() {
    let mat = RawTensor::from_vec(vec![0i64, 1, 2, 3], &[2, 2]);
    assert_eq!(mat.render().unwrap(), "[\n  [   0,    1]\n  [   2,    3]\n]\n");
}

#[test]
fn row_is_printed_on_one_line() {
    let mat = RawTensor::from_vec(vec![7i64, -12, 12345], &[3]);
    assert_eq!(mat.render().unwrap(), "[   7,  -12, 12345]\n");
}

#[test]
fn cube_is_printed_with_growing_indentation() {
    let mat = RawTensor::from_vec((0..8).collect::<Vec<i64>>(), &[2, 2, 2]);
    let expected = "[\n  [\n    [   0,    1]\n    [   2,    3]\n  ]\n  [\n    [   4,    5]\n    [   6,    7]\n  ]\n]\n";
    assert_eq!(mat.render().unwrap(), expected);
}

#[test]
fn slice_is_printed_through_its_layout() {
    let mat = RawTensor::from_vec((0..27).collect::<Vec<i64>>(), &[3, 3, 3]);
    let slice = mat.slice(&[SliceRange::all(), SliceRange::from(1..2), SliceRange::from(1..2)]);
    let expected = "[\n  [\n    [   4]\n  ]\n  [\n    [  13]\n  ]\n  [\n    [  22]\n  ]\n]\n";
    assert_eq!(slice.render().unwrap(), expected);
}

#[test]
fn tensors_and_their_data_are_printed_alike() {
    let tensor = Tensor::from_vec(vec![1.5f64, 2.0], &[2]);
    assert_eq!(tensor.render().unwrap(), "[ 1.5,    2]\n");
    let data = TensorData::from_vec(vec![1.5f64, 2.0], &[2]);
    assert_eq!(data.render().unwrap(), "[ 1.5,    2]\n");
}

#[test]
fn what_cannot_be_read_cannot_be_printed() {
    let short = RawTensor::from_vec(vec![1i64], &[2]);
    assert!(short.render().is_none());
}
