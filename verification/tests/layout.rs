use lazy_tensor::errors::OpError;
use lazy_tensor::internals::{
    adjacent_strides_are, calculate_adjacent_dim_stride, calculate_dim_stride,
};
use lazy_tensor::layout::{checked_shape_len, Layout};

#[test]
fn row_major_strides_follow_the_shape() {
    assert_eq!(calculate_dim_stride(&[3, 4, 5]), vec![20, 5, 1]);
    assert_eq!(calculate_dim_stride(&[7]), vec![1]);
    assert_eq!(calculate_dim_stride(&[]), Vec::<i32>::new());
}

#[test]
fn adjacent_strides_of_a_row_major_layout_are_ones() {
    assert_eq!(calculate_adjacent_dim_stride(&[20, 5, 1], &[3, 4, 5]), vec![1, 1, 1]);
}

#[test]
fn adjacent_strides_of_a_slice_skip_what_is_left_out() {
    // shape [3, 1, 1] over strides [9, 3, 1]: leaving a row means moving on by a whole plane
    assert_eq!(calculate_adjacent_dim_stride(&[9, 3, 1], &[3, 1, 1]), vec![9, 3, 1]);
    // shape [2, 2] over strides [4, 1]: after two elements, two more are skipped
    assert_eq!(calculate_adjacent_dim_stride(&[4, 1], &[2, 2]), vec![3, 1]);
}

#[test]
fn fresh_layout_has_unit_adjacent_strides() {
    for shape in [vec![5], vec![2, 2], vec![3, 4, 5], vec![1, 1, 1, 7]] {
        let layout = Layout::from_shape(&shape);
        assert_eq!(layout.shape(), &shape[..]);
        assert!(layout.adj_stride().iter().all(|a| *a == 1));
        assert_eq!(layout.offset(), 0);
        assert_eq!(layout.len(), shape.iter().product::<i32>() as usize);
        assert!(layout.is_contiguous());
    }
}

#[test]
fn two_by_two_layout_has_the_expected_strides() {
    let layout = Layout::from_shape(&[2, 2]);
    assert_eq!(layout.stride(), &[2, 1]);
    assert_eq!(layout.adj_stride(), &[1, 1]);
}

#[test]
fn layout_from_parts_keeps_them() {
    let layout = Layout::new(vec![2, 3], vec![3, 1], vec![1, 1]);
    assert_eq!(layout.shape(), &[2, 3]);
    assert_eq!(layout.stride(), &[3, 1]);
    assert_eq!(layout.adj_stride(), &[1, 1]);
    assert_eq!(layout.len(), 6);
    let moved = Layout::from_parts(vec![2], vec![3], vec![3], 4);
    assert_eq!(moved.offset(), 4);
    assert_eq!(moved.len(), 2);
}

#[test]
fn layout_from_shape_and_strides_derives_adjacent_strides() {
    let layout = Layout::from_slice(&[2, 3], &[1, 2]);
    assert_eq!(layout.stride(), &[1, 2]);
    assert_eq!(layout.adj_stride(), &[-3, 2]);
    assert!(!layout.is_contiguous());
}

#[test]
fn layout_with_sequences_of_different_lengths_is_not_contiguous() {
    assert!(!Layout::new(vec![2, 3], vec![1], vec![1]).is_contiguous());
    assert!(!Layout::new(vec![2, 3], vec![], vec![]).is_contiguous());
    assert!(!Layout::new(vec![2, 3], vec![3, 2], vec![1, 1]).is_contiguous());
    assert!(Layout::new(vec![2, 3], vec![3, 1], vec![7, 7]).is_contiguous());
}

#[test]
fn view_has_the_requested_shape() {
    let layout = Layout::from_shape(&[3, 4]);
    let viewed = layout.view_as(&[2, 6]).unwrap();
    assert_eq!(viewed.shape(), &[2, 6]);
    assert_eq!(viewed.stride(), &[6, 1]);
    assert_eq!(viewed.len(), 12);
}

#[test]
fn view_of_own_shape_is_the_same_layout() {
    let layout = Layout::from_shape(&[3, 4]);
    let viewed = layout.view_as(&[3, 4]).unwrap();
    assert_eq!(viewed.shape(), layout.shape());
    assert_eq!(viewed.stride(), layout.stride());
    assert_eq!(viewed.adj_stride(), layout.adj_stride());
    assert_eq!(viewed.offset(), layout.offset());
    assert_eq!(viewed.len(), layout.len());
}

#[test]
fn view_keeps_the_offset() {
    let layout = Layout::from_shape_at(&[2, 2], 5);
    assert_eq!(layout.view_as(&[4]).unwrap().offset(), 5);
}

#[test]
fn view_of_another_element_count_is_refused() {
    let layout = Layout::from_shape(&[3, 4]);
    assert!(matches!(layout.view_as(&[5, 2]), Err(OpError::InvalidViewShape)));
    assert!(matches!(layout.view_as(&[]), Err(OpError::InvalidViewShape)));
    assert!(matches!(layout.view_as(&[-3, -4]), Err(OpError::InvalidViewShape)));
    assert!(matches!(layout.view_as(&[0, 12]), Err(OpError::InvalidViewShape)));
    assert!(matches!(layout.view_as(&[65536, 65536]), Err(OpError::InvalidViewShape)));
}

#[test]
fn shape_length_is_checked() {
    assert_eq!(checked_shape_len(&[3, 4, 5]), Some(60));
    assert_eq!(checked_shape_len(&[i32::MAX]), Some(i32::MAX as usize));
    assert_eq!(checked_shape_len(&[]), None);
    assert_eq!(checked_shape_len(&[2, 0]), None);
    assert_eq!(checked_shape_len(&[2, -1]), None);
    assert_eq!(checked_shape_len(&[65536, 32768]), None);
}

#[test]
fn transposing_twice_gives_back_the_layout() {
    let layout = Layout::from_shape(&[2, 3, 4]);
    let once = layout.transposed(0, 2);
    assert_eq!(once.stride(), &[1, 4, 12]);
    assert_eq!(once.shape(), layout.shape());
    let twice = once.transposed(0, 2);
    assert_eq!(twice.shape(), layout.shape());
    assert_eq!(twice.stride(), layout.stride());
    assert_eq!(twice.adj_stride(), layout.adj_stride());
    assert_eq!(twice.offset(), layout.offset());
    assert_eq!(twice.len(), layout.len());
}

#[test]
fn transposed_square_layout_walks_columns() {
    let layout = Layout::from_shape(&[3, 3]).transposed(0, 1);
    assert_eq!(layout.stride(), &[1, 3]);
    assert_eq!(layout.adj_stride(), &[-5, 3]);
}

#[test]
fn layout_fits_exactly_the_buffers_that_hold_it() {
    let layout = Layout::from_shape(&[3, 4]);
    assert!(layout.fits(12));
    assert!(layout.fits(100));
    assert!(!layout.fits(11));
    let moved = Layout::from_shape_at(&[3, 4], 2);
    assert!(moved.fits(14));
    assert!(!moved.fits(13));
    let reversed = Layout::from_parts(vec![4], vec![-1], vec![-1], 3);
    assert!(reversed.fits(4));
    let too_low = Layout::from_parts(vec![4], vec![-1], vec![-1], 2);
    assert!(!too_low.fits(100));
}

#[test]
fn cloned_layout_is_equal() {
    let layout = Layout::from_slice(&[2, 3], &[1, 2]);
    let copy = layout.clone();
    assert_eq!(copy.shape(), layout.shape());
    assert_eq!(copy.stride(), layout.stride());
    assert_eq!(copy.adj_stride(), layout.adj_stride());
}

#[test]
fn errors_have_messages() {
    assert_eq!(
        OpError::InvalidViewShape.message(),
        "the view shape does not have the same size as the original shape"
    );
    assert_eq!(
        OpError::NotSameShape(&[2, 3], &[3, 2]).message(),
        "expected [2, 3], but got [3, 2]"
    );
}

#[test]
fn adjacent_strides_are_right_where_a_step_on_the_way_is_large() {
    let adjacent = calculate_adjacent_dim_stride(&[2_000_000_000, 50_000], &[1, 50_001]);
    assert_eq!(adjacent, vec![-500_000_000, 50_000]);
    let layout = Layout::from_slice(&[1, 50_001], &[2_000_000_000, 50_000]);
    assert_eq!(layout.adj_stride(), &[-500_000_000, 50_000]);
    assert_eq!(layout.len(), 50_001);
}

#[test]
fn exchange_made_twice_gives_back_a_strided_layout() {
    let layout = Layout::from_slice_at(&[2, 3, 4], &[1, 2, 6], 5);
    for (i, j) in [(0, 1), (0, 2), (1, 2), (2, 0), (1, 1)] {
        let twice = layout.transposed(i, j).transposed(i, j);
        assert_eq!(twice.shape(), layout.shape());
        assert_eq!(twice.stride(), layout.stride());
        assert_eq!(twice.adj_stride(), layout.adj_stride());
        assert_eq!(twice.offset(), layout.offset());
        assert_eq!(twice.len(), layout.len());
    }
}

#[test]
fn adjacent_strides_are_told_from_others() {
    assert!(adjacent_strides_are(&[4, 1], &[3, 4], &[1, 1]));
    assert!(!adjacent_strides_are(&[4, 1], &[3, 4], &[4, 1]));
    assert!(!adjacent_strides_are(&[4, 1], &[3, 4], &[1, 2]));
    assert!(adjacent_strides_are(&[1, 3], &[3, 2], &[-2, 3]));
    assert!(adjacent_strides_are(&[7], &[5], &[7]));
    assert!(!adjacent_strides_are(&[7], &[5], &[1]));
    assert!(adjacent_strides_are(
        &[2_000_000_000, 50_000],
        &[1, 50_001],
        &[-500_000_000, 50_000]
    ));
    assert!(!adjacent_strides_are(
        &[2_000_000_000, 2_000_000_000],
        &[1, 50_001],
        &[0, 2_000_000_000]
    ));
}

#[test]
fn well_formed_layouts_are_told_from_others() {
    assert!(Layout::from_shape(&[2, 3, 4]).is_well_formed());
    assert!(Layout::from_slice_at(&[3, 2], &[1, 3], 4).is_well_formed());
    assert!(Layout::from_shape(&[2, 3]).transposed(0, 1).is_well_formed());
    assert!(Layout::new(vec![2, 3], vec![3, 1], vec![1, 1]).is_well_formed());
    assert!(!Layout::new(vec![2, 3], vec![3, 1], vec![3, 1]).is_well_formed());
    assert!(!Layout::new(vec![2, 3], vec![3, 1], vec![1]).is_well_formed());
    assert!(!Layout::new(vec![2, 3], vec![1], vec![1, 1]).is_well_formed());
}
