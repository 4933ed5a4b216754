use std::sync::Arc;

use lazy_tensor::layout::Layout;
use lazy_tensor::storage::{clone_elements, repeated, DenseData, Storage, TensorData};
use lazy_tensor::traits::Dimension;

#[test]
fn storage_holds_what_it_was_given() {
    let s = Storage::from_vec(vec![1i64, 2, 3]);
    assert_eq!(s.snapshot(), vec![1, 2, 3]);
    assert_eq!(Storage::from_scalar(4i64, 3).snapshot(), vec![4, 4, 4]);
    assert_eq!(Storage::from_scalar(4i64, 0).snapshot(), Vec::<i64>::new());
}

#[test]
fn shares_of_a_storage_see_what_is_written() {
    let s = Storage::from_vec(vec![1i64, 2, 3]);
    let shared = s.clone_reference();
    let copied = s.clone();
    assert!(s.shares_buffer(&shared));
    assert!(!s.shares_buffer(&copied));
    s.overwrite(vec![7, 8]);
    assert_eq!(shared.snapshot(), vec![7, 8]);
    assert_eq!(copied.snapshot(), vec![1, 2, 3]);
}

#[test]
fn storage_over_a_lock_that_exists() {
    let lock = Arc::new(parking_lot::RwLock::new(vec![1i64, 2].into_boxed_slice()));
    let s = Storage::from_arc(lock.clone());
    lock.write()[0] = 5;
    assert_eq!(s.snapshot(), vec![5, 2]);
    s.overwrite(vec![9]);
    assert_eq!(&**lock.read(), &[9]);
}

#[test]
fn elements_of_a_storage_with_and_without_other_shares() {
    let only = Storage::from_vec(vec![1i64, 2, 3]);
    assert_eq!(only.into_elements(), vec![1, 2, 3]);
    let s = Storage::from_vec(vec![4i64, 5]);
    let shared = s.clone_reference();
    assert_eq!(s.into_elements(), vec![4, 5]);
    assert_eq!(shared.snapshot(), vec![4, 5]);
}

#[test]
fn tensor_data_reads_its_storage_under_its_layout() {
    let data = TensorData::from_vec((0..6).collect::<Vec<i64>>(), &[2, 3]);
    assert_eq!(data.shape(), &[2, 3]);
    assert_eq!(data.stride(), &[3, 1]);
    assert_eq!(data.adj_stride(), &[1, 1]);
    assert_eq!(data.len(), 6);
    assert_eq!(data.offset(), 0);
    assert_eq!(data.layout().len(), 6);
    assert_eq!(data.iter().unwrap().collect(), vec![0, 1, 2, 3, 4, 5]);
    assert_eq!(data.copied_iter().unwrap().collect(), vec![0, 1, 2, 3, 4, 5]);
    let columns = data.as_layout(Layout::from_slice(&[3, 2], &[1, 3]));
    assert!(columns.shares_storage(&data));
    assert_eq!(columns.read().unwrap().gather(), vec![0, 3, 1, 4, 2, 5]);
    let mut chunks = columns.packed_iter().unwrap();
    assert_eq!(chunks.next().unwrap().packing_buffer, vec![0, 3, 1, 4, 2, 5]);
    assert!(chunks.next().is_none());
    assert!(columns.informed_iter().is_some());
}

#[test]
fn tensor_data_that_does_not_fit_its_storage_cannot_be_read() {
    let data = TensorData::new(Storage::from_vec(vec![1i64, 2, 3]), Layout::from_shape(&[2, 2]));
    assert!(data.read().is_none());
    assert!(data.iter().is_none());
    assert!(data.copied_iter().is_none());
    assert!(data.informed_iter().is_none());
    assert!(data.packed_iter().is_none());
}

#[test]
fn tensor_data_by_reference_and_by_value() {
    let data = TensorData::from_scalar(3i64, &[2]);
    let shared = data.clone_reference();
    let copied = data.clone();
    assert!(data.shares_storage(&shared));
    assert!(!data.shares_storage(&copied));
    assert_eq!(shared.shape(), &[2]);
    assert_eq!(copied.read().unwrap().gather(), vec![3, 3]);
    let lock = Arc::new(parking_lot::RwLock::new(vec![1i64, 2, 3, 4].into_boxed_slice()));
    let over = TensorData::from_arc(lock, &[2, 2]);
    assert_eq!(over.read().unwrap().gather(), vec![1, 2, 3, 4]);
    let dense = DenseData::packed(vec![5i64, 6], &[2]);
    assert_eq!(TensorData::from_dense(dense).read().unwrap().gather(), vec![5, 6]);
}

#[test]
fn copies_of_elements() {
    assert_eq!(clone_elements(&vec![1i64, 2, 3]), vec![1, 2, 3]);
    assert_eq!(clone_elements(&Vec::<i64>::new()), Vec::<i64>::new());
}

#[test]
fn repeated_gives_that_many_copies() {
    assert_eq!(repeated(7i64, 3), vec![7, 7, 7]);
    assert_eq!(repeated(-1i64, 1), vec![-1]);
    assert_eq!(repeated(7i64, 0), Vec::<i64>::new());
}
