use lazy_tensor::iter::StepInfo;
use lazy_tensor::layout::Layout;
use lazy_tensor::mat::{assigned_where_fits, RawTensor};
use lazy_tensor::slice::{ranges_fit, SliceInfo, SliceRange};
use lazy_tensor::traits::Dimension;

fn srange(n: i64, shape: &[i32]) -> RawTensor<i64> {
    RawTensor::from_vec((0..n).collect(), shape)
}

fn elements(slice: &lazy_tensor::slice::RawTensorSlice<i64>) -> Vec<i64> {
    slice.iter().unwrap().collect()
}

#[test]
fn slice_of_a_cube_selects_a_column() {
    let mat = srange(27, &[3, 3, 3]);
    let slice = mat.slice(&[SliceRange::all(), SliceRange::from(1..2), SliceRange::from(1..2)]);
    assert_eq!(slice.shape(), &[3, 1, 1]);
    assert_eq!(slice.stride(), &[9, 3, 1]);
    assert_eq!(slice.offset(), 4);
    assert_eq!(slice.len(), 3);
    assert_eq!(elements(&slice), vec![4, 13, 22]);
}

#[test]
fn slice_with_fewer_ranges_keeps_the_other_dimensions() {
    let mat = srange(12, &[3, 4]);
    let slice = mat.slice(&[SliceRange::from(1..3)]);
    assert_eq!(slice.shape(), &[2, 4]);
    assert_eq!(slice.offset(), 4);
    assert_eq!(elements(&slice), vec![4, 5, 6, 7, 8, 9, 10, 11]);
}

#[test]
fn slice_ranges_count_back_from_the_end() {
    let mat = srange(12, &[3, 4]);
    let slice = mat.slice(&[SliceRange::starting_at(-1), SliceRange::ending_at(-2)]);
    assert_eq!(slice.shape(), &[1, 2]);
    assert_eq!(elements(&slice), vec![8, 9]);
    let inner = mat.slice(&[SliceRange::between(-3, -1), SliceRange::between(1, -1)]);
    assert_eq!(inner.shape(), &[2, 2]);
    assert_eq!(elements(&inner), vec![1, 2, 5, 6]);
}

#[test]
fn slice_of_inner_block_skips_between_rows() {
    let mat = srange(16, &[4, 4]);
    let slice = mat.slice(&[SliceRange::from(1..3), SliceRange::from(1..3)]);
    assert_eq!(slice.adj_stride(), &[3, 1]);
    assert_eq!(elements(&slice), vec![5, 6, 9, 10]);
}

#[test]
fn slice_of_a_slice_selects_within_it() {
    let mat = srange(16, &[4, 4]);
    let slice = mat.slice(&[SliceRange::from(1..4), SliceRange::from(1..4)]);
    let inner = slice.slice(&[SliceRange::from(1..3), SliceRange::from(0..2)]);
    assert_eq!(inner.offset(), 9);
    assert_eq!(elements(&inner), vec![9, 10, 13, 14]);
}

#[test]
fn slice_elements_are_among_those_of_the_array() {
    let mat = srange(24, &[2, 3, 4]);
    let all: Vec<i64> = elements(&mat.as_slice());
    let slice = mat.slice(&[SliceRange::all(), SliceRange::from(1..3), SliceRange::from(2..4)]);
    let mut left = all.clone();
    for x in elements(&slice) {
        let at = left.iter().position(|y| *y == x).unwrap();
        left.remove(at);
    }
    assert_eq!(left.len(), 24 - 8);
}

#[test]
fn slice_info_describes_the_slice() {
    let mat = srange(27, &[3, 3, 3]);
    let info = SliceInfo::from_range(&mat, &[SliceRange::all(), SliceRange::from(1..2)]);
    assert_eq!(info.offset(), 3);
    assert_eq!(info.shape(), &[3, 1, 3]);
    assert_eq!(info.adj_stride(), &[7, 1, 1]);
}

#[test]
fn whole_array_as_a_slice_has_its_layout() {
    let mat = srange(6, &[2, 3]);
    let slice = mat.as_slice();
    assert_eq!(slice.shape(), mat.shape());
    assert_eq!(slice.stride(), mat.stride());
    assert_eq!(slice.adj_stride(), mat.adj_stride());
    assert_eq!(slice.offset(), 0);
    assert_eq!(slice.as_slice().len(), 6);
    assert_eq!(elements(&slice), vec![0, 1, 2, 3, 4, 5]);
}

#[test]
fn transposed_square_walks_columns() {
    let mat = srange(9, &[3, 3]);
    assert_eq!(elements(&mat.transposed()), vec![0, 3, 6, 1, 4, 7, 2, 5, 8]);
    assert_eq!(elements(&mat.transposed_n(0)), vec![0, 3, 6, 1, 4, 7, 2, 5, 8]);
    assert_eq!(elements(&mat.transposed_n(1)), vec![0, 3, 6, 1, 4, 7, 2, 5, 8]);
}

#[test]
fn view_and_reshape_share_the_buffer() {
    let mut mat = srange(6, &[2, 3]);
    let view = mat.view(&[3, 2]);
    assert_eq!(view.shape(), &[3, 2]);
    assert_eq!(elements(&view), vec![0, 1, 2, 3, 4, 5]);
    let reshaped = mat.reshape(&[6]);
    assert_eq!(reshaped.shape(), &[6]);
    assert!(mat.assign_scalar(&[SliceRange::from(0..1)], 9));
    assert_eq!(elements(&view), vec![9, 9, 9, 3, 4, 5]);
    assert_eq!(elements(&reshaped.as_slice()), vec![9, 9, 9, 3, 4, 5]);
    mat.reshape_inplace(&[1, 6]);
    assert_eq!(mat.shape(), &[1, 6]);
    assert_eq!(mat.stride(), &[6, 1]);
    assert_eq!(mat.len(), 6);
}

#[test]
fn assigning_a_scalar_writes_the_selected_elements_only() {
    let mut mat = srange(16, &[4, 4]);
    assert!(mat.assign_scalar(&[SliceRange::from(1..3), SliceRange::from(1..3)], -1));
    assert_eq!(
        elements(&mat.as_slice()),
        vec![0, 1, 2, 3, 4, -1, -1, 7, 8, -1, -1, 11, 12, 13, 14, 15]
    );
}

#[test]
fn assigning_to_a_short_buffer_is_not_done() {
    let mut mat: RawTensor<i64> = RawTensor::from_vec(vec![1, 2, 3], &[2, 3]);
    assert!(!mat.assign_scalar(&[SliceRange::all()], 0));
    assert!(mat.as_slice().iter().is_none());
    assert!(mat.informed_iter().is_none());
}

#[test]
fn writing_walk_reaches_the_buffer_when_stored() {
    let mat = srange(6, &[2, 3]);
    let slice = mat.slice(&[SliceRange::all(), SliceRange::from(0..1)]);
    let mut walk = slice.mut_iter().unwrap();
    while let Some(slot) = walk.next() {
        *slot += 100;
    }
    assert_eq!(elements(&mat.as_slice()), vec![0, 1, 2, 3, 4, 5]);
    slice.store(walk);
    assert_eq!(elements(&mat.as_slice()), vec![100, 1, 2, 103, 4, 5]);
}

#[test]
fn walk_in_storage_order_visits_the_whole_buffer() {
    let mut mat = srange(4, &[2, 2]);
    let mut walk = mat.iter();
    assert_eq!(walk.size_hint(), (4, Some(4)));
    let mut seen = Vec::new();
    while let Some(x) = walk.next() {
        seen.push(x);
    }
    assert_eq!(seen, vec![0, 1, 2, 3]);
    assert_eq!(walk.next(), None);
    let mut writing = mat.mut_iter();
    assert_eq!(writing.size_hint(), (4, Some(4)));
    while let Some(slot) = writing.next() {
        *slot *= 2;
    }
    assert_eq!(writing.size_hint(), (0, Some(0)));
    mat.store(writing);
    assert_eq!(elements(&mat.as_slice()), vec![0, 2, 4, 6]);
}

#[test]
fn array_of_one_scalar_holds_it_everywhere() {
    let mat = RawTensor::from_scalar(7i64, &[2, 2]);
    assert_eq!(elements(&mat.as_slice()), vec![7, 7, 7, 7]);
    assert_eq!(mat.offset(), 0);
}

#[test]
fn informed_walk_reports_rows_and_elements() {
    let mat = srange(4, &[2, 2]);
    let mut walk = mat.informed_iter().unwrap();
    let mut seen = Vec::new();
    while let Some(step) = walk.next() {
        seen.push(match step {
            StepInfo::EnterDimension(d) => format!("<{}", d),
            StepInfo::ExitDimension(d) => format!("{}>", d),
            StepInfo::Value(v) => format!("{}", v),
            StepInfo::End => format!("end"),
        });
    }
    assert_eq!(
        seen,
        vec!["<0", "<1", "0", "1", "1>", "<1", "2", "3", "1>", "0>"]
    );
    assert!(walk.next().is_none());
}

#[test]
fn informed_walk_of_a_slice_reads_through_its_layout() {
    let mat = srange(27, &[3, 3, 3]);
    let slice = mat.slice(&[SliceRange::all(), SliceRange::from(1..2), SliceRange::from(1..2)]);
    let mut walk = slice.informed_iter().unwrap();
    let mut values = Vec::new();
    let mut entered = 0;
    let mut left = 0;
    while let Some(step) = walk.next() {
        match step {
            StepInfo::EnterDimension(_) => entered += 1,
            StepInfo::ExitDimension(_) => left += 1,
            StepInfo::Value(v) => values.push(v),
            StepInfo::End => {}
        }
    }
    assert_eq!(values, vec![4, 13, 22]);
    assert_eq!(entered, 7);
    assert_eq!(left, 7);
}

#[test]
fn ranges_are_checked_against_the_shape() {
    assert!(SliceRange::all().fits(3));
    assert!(SliceRange::between(1, 3).fits(3));
    assert!(!SliceRange::between(1, 4).fits(3));
    assert!(!SliceRange::between(2, 2).fits(3));
    assert!(!SliceRange::between(2, 1).fits(3));
    assert!(SliceRange::between(-3, -1).fits(3));
    assert!(!SliceRange::between(-4, -1).fits(3));
    assert!(SliceRange::starting_at(2).fits(3));
    assert!(!SliceRange::starting_at(3).fits(3));
    assert!(SliceRange::ending_at(-2).fits(3));
    assert!(!SliceRange::ending_at(-3).fits(3));
    assert!(!SliceRange::ending_at(0).fits(3));
    assert!(ranges_fit(&[3, 4], &[SliceRange::all(), SliceRange::between(1, 2)]));
    assert!(ranges_fit(&[3, 4], &[]));
    assert!(!ranges_fit(&[3, 4], &[SliceRange::all(), SliceRange::all(), SliceRange::all()]));
    assert!(!ranges_fit(&[3, 4], &[SliceRange::between(0, 4)]));
}

#[test]
fn conversion_from_a_range_is_the_range_between() {
    let mat = srange(10, &[10]);
    let a = mat.slice(&[SliceRange::from(2..-3)]);
    let b = mat.slice(&[SliceRange::between(2, -3)]);
    assert_eq!(elements(&a), vec![2, 3, 4, 5, 6]);
    assert_eq!(elements(&a), elements(&b));
}

#[test]
fn assignment_needs_the_buffer_to_hold_what_is_selected() {
    let layout = Layout::from_slice(&[2, 2], &[1, 2]);
    assert!(assigned_where_fits(vec![0i64; 3], &layout, 5).is_none());
    assert_eq!(
        assigned_where_fits(vec![0i64; 5], &layout, 5),
        Some(vec![5, 5, 5, 5, 0])
    );
    let column = Layout::from_slice(&[2], &[2]);
    assert_eq!(
        assigned_where_fits(vec![1i64, 2, 3, 4], &column, 9),
        Some(vec![9, 2, 9, 4])
    );
    assert!(assigned_where_fits(vec![1i64, 2], &column, 9).is_none());
}
