//! The accessors every array-like value offers.
use vstd::prelude::*;
use crate::layout::{Layout, LayoutView};
use crate::storage::TensorData;

verus! {
/// A member of the computation graph: something with a layout that can be
/// computed into a materialized value.
pub trait Promising {
    /// The element type of the value.
    type Output: Copy;

    /// The layout of the value.
    spec fn layout_spec(&self) -> LayoutView;

    /// The invariant of the member.
    spec fn sound(&self) -> bool;

    /// Computes the value. There is none where a buffer that is read does
    /// not hold what a layout selects of it.
    fn compute(&self) -> (r: Option<TensorData<Self::Output>>)
        requires
            self.sound(),
        ensures
            r matches Some(data) ==> data.layout_spec().shape == self.layout_spec().shape,
    ;

    /// The layout of the value.
    fn layout(&self) -> (l: &Layout)
        ensures
            l@ == self.layout_spec(),
    ;
}

/// A value with a shape over a flat buffer.
pub trait Dimension {
    /// The logical extent of each dimension.
    spec fn shape_spec(&self) -> Seq<i32>;

    /// The element distance of one step in each dimension.
    spec fn stride_spec(&self) -> Seq<i32>;

    /// The net element distance applied when a row-major walk carries into
    /// each dimension.
    spec fn adj_stride_spec(&self) -> Seq<i32>;

    /// The number of elements.
    spec fn len_spec(&self) -> usize;

    /// The distance from the buffer's start to the element at index (0, .., 0).
    spec fn offset_spec(&self) -> usize;

    fn shape(&self) -> (s: &[i32])
        ensures
            s@ == self.shape_spec(),
    ;

    fn stride(&self) -> (s: &[i32])
        ensures
            s@ == self.stride_spec(),
    ;

    fn adj_stride(&self) -> (s: &[i32])
        ensures
            s@ == self.adj_stride_spec(),
    ;

    fn len(&self) -> (n: usize)
        ensures
            n == self.len_spec(),
    ;

    fn offset(&self) -> (n: usize)
        ensures
            n == self.offset_spec(),
    ;
}

} // verus!
