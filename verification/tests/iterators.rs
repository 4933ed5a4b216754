use lazy_tensor::iter::{ChunkedSliceIter, ContiguousIter, MutSliceIter, SliceIter, StepInfo};
use lazy_tensor::layout::Layout;
use lazy_tensor::slice::mut_walk_over;
use lazy_tensor::storage::{checked_dense, informed_over, walk_over, DenseData};

#[test]
fn strided_walk_yields_row_major_order() {
    let layout = Layout::from_slice(&[2, 3], &[1, 2]);
    let data: Vec<i64> = (0..6).collect();
    let mut walk = SliceIter::new(data, layout.len(), layout.shape(), layout.adj_stride(), 0);
    assert_eq!(walk.size_hint(), (6, Some(6)));
    assert_eq!(walk.next(), Some(0));
    assert_eq!(walk.next(), Some(2));
    assert_eq!(walk.size_hint(), (4, Some(4)));
    assert_eq!(walk.collect(), vec![4, 1, 3, 5]);
}

#[test]
fn strided_walk_ends_and_stays_ended() {
    let layout = Layout::from_shape(&[2]);
    let mut walk = SliceIter::new(vec![5i64, 6], 2, layout.shape(), layout.adj_stride(), 0);
    assert_eq!(walk.next(), Some(5));
    assert_eq!(walk.next(), Some(6));
    assert_eq!(walk.next(), None);
    assert_eq!(walk.next(), None);
    assert_eq!(walk.size_hint(), (0, Some(0)));
}

#[test]
fn walk_can_stop_before_the_end_of_the_shape() {
    let layout = Layout::from_shape(&[2, 2]);
    let walk = SliceIter::new(vec![1i64, 2, 3, 4], 3, layout.shape(), layout.adj_stride(), 0);
    assert_eq!(walk.collect(), vec![1, 2, 3]);
}

#[test]
fn walk_over_a_layout_needs_the_buffer_to_hold_it() {
    let layout = Layout::from_shape_at(&[2, 2], 1);
    assert!(walk_over(vec![0i64; 4], &layout).is_none());
    let walk = walk_over(vec![9i64, 1, 2, 3, 4], &layout).unwrap();
    assert_eq!(walk.collect(), vec![1, 2, 3, 4]);
}

#[test]
fn writing_walk_writes_where_it_stands() {
    let layout = Layout::from_slice(&[2, 2], &[1, 2]);
    let mut walk =
        MutSliceIter::new(vec![0i64; 4], layout.len(), layout.shape(), layout.adj_stride(), 0);
    let mut next = 1;
    assert_eq!(walk.size_hint(), (4, Some(4)));
    while let Some(slot) = walk.next() {
        *slot = next;
        next += 1;
    }
    assert_eq!(walk.size_hint(), (0, Some(0)));
    assert_eq!(walk.into_data(), vec![1, 3, 2, 4]);
}

#[test]
fn chunked_walk_packs_runs_of_128() {
    let layout = Layout::from_shape(&[300]);
    let data: Vec<i64> = (0..300).collect();
    let walk = walk_over(data, &layout).unwrap();
    let mut chunks = ChunkedSliceIter::new(walk);
    let first = chunks.next().unwrap();
    assert_eq!(first.absolute_buffer_position, 0);
    assert_eq!(first.packing_buffer, (0..128).collect::<Vec<i64>>());
    let second = chunks.next().unwrap();
    assert_eq!(second.absolute_buffer_position, 128);
    assert_eq!(second.packing_buffer.len(), 128);
    let third = chunks.next().unwrap();
    assert_eq!(third.absolute_buffer_position, 256);
    assert_eq!(third.packing_buffer, (256..300).collect::<Vec<i64>>());
    assert!(chunks.next().is_none());
}

#[test]
fn chunked_walk_ends_with_a_full_run() {
    let layout = Layout::from_shape(&[2, 128]);
    let walk = walk_over((0..256).collect::<Vec<i64>>(), &layout).unwrap();
    let mut chunks = ChunkedSliceIter::new(walk);
    assert_eq!(chunks.next().unwrap().packing_buffer.len(), 128);
    let second = chunks.next().unwrap();
    assert_eq!(second.absolute_buffer_position, 128);
    assert_eq!(second.packing_buffer, (128..256).collect::<Vec<i64>>());
    assert!(chunks.next().is_none());
    assert!(chunks.next().is_none());
}

#[test]
fn chunked_walk_packs_a_strided_source() {
    let layout = Layout::from_slice(&[2, 3], &[1, 2]);
    let walk = walk_over((0..6).collect::<Vec<i64>>(), &layout).unwrap();
    let mut chunks = ChunkedSliceIter::with_chunk(walk, 4);
    let first = chunks.next().unwrap();
    assert_eq!(first.packing_buffer, vec![0, 2, 4, 1]);
    let second = chunks.next().unwrap();
    assert_eq!(second.absolute_buffer_position, 4);
    assert_eq!(second.packing_buffer, vec![3, 5]);
    assert!(chunks.next().is_none());
}

#[test]
fn contiguous_walk_past_the_end_yields_nothing() {
    let mut walk = ContiguousIter::new(Vec::<i64>::new());
    assert_eq!(walk.size_hint(), (0, Some(0)));
    assert_eq!(walk.next(), None);
}

#[test]
fn dense_data_gathers_what_its_layout_selects() {
    let dense = checked_dense((0..6).collect::<Vec<i64>>(), Layout::from_slice(&[3, 2], &[1, 3]))
        .unwrap();
    assert_eq!(dense.gather(), vec![0, 3, 1, 4, 2, 5]);
    assert_eq!(dense.into_elements(), vec![0, 3, 1, 4, 2, 5]);
    assert!(checked_dense(vec![0i64; 5], Layout::from_shape(&[2, 3])).is_none());
}

#[test]
fn packed_dense_data_is_its_buffer() {
    let dense = DenseData::packed(vec![1i64, 2, 3, 4], &[2, 2]);
    assert_eq!(dense.layout.stride(), &[2, 1]);
    assert_eq!(dense.gather(), vec![1, 2, 3, 4]);
    assert_eq!(dense.into_elements(), vec![1, 2, 3, 4]);
}

#[test]
fn informed_walk_over_a_layout_needs_the_buffer_to_hold_it() {
    let layout = Layout::from_slice(&[2, 2], &[1, 2]);
    assert!(informed_over(vec![0i64; 3], &layout).is_none());
    assert!(informed_over(Vec::<i64>::new(), &layout).is_none());
    let mut walk = informed_over(vec![10i64, 11, 12, 13], &layout).unwrap();
    let mut seen = Vec::new();
    while let Some(step) = walk.next() {
        seen.push(match step {
            StepInfo::EnterDimension(d) => format!("<{}", d),
            StepInfo::ExitDimension(d) => format!("{}>", d),
            StepInfo::Value(v) => format!("{}", v),
            StepInfo::End => format!("end"),
        });
    }
    assert_eq!(
        seen,
        vec!["<0", "<1", "10", "12", "1>", "<1", "11", "13", "1>", "0>"]
    );
}

#[test]
fn writing_walk_over_a_layout_needs_the_buffer_to_hold_it() {
    let layout = Layout::from_slice(&[2, 2], &[1, 2]);
    assert!(mut_walk_over(vec![0i64; 3], &layout).is_none());
    let mut walk = mut_walk_over(vec![0i64; 5], &layout).unwrap();
    let mut next = 1;
    assert_eq!(walk.size_hint(), (4, Some(4)));
    while let Some(slot) = walk.next() {
        *slot = next;
        next += 1;
    }
    assert_eq!(walk.into_data(), vec![1, 3, 2, 4, 0]);
}
