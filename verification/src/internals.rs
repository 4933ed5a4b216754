//! Stride arithmetic: how the strides of a row-major layout follow from its
//! shape, and how the adjacent strides follow from strides and shape.
use vstd::prelude::*;

verus! {
/// Whether `x` can be held in an `i32`.
pub open spec fn fits_i32(x: int) -> bool {
    i32::MIN <= x <= i32::MAX
}

/// The product of all entries of `s`; 1 for the empty sequence.
pub open spec fn product(s: Seq<i32>) -> int
    decreases s.len(),
{
    if s.len() == 0 {
        1
    } else {
        s[0] * product(s.skip(1))
    }
}

/// The row-major stride of dimension `k`: the product of the extents of the
/// dimensions after `k`.
pub open spec fn dim_stride(shape: Seq<i32>, k: int) -> int {
    product(shape.skip(k + 1))
}

/// Whether every row-major stride of `shape` can be held in an `i32`.
pub open spec fn dim_strides_fit(shape: Seq<i32>) -> bool {
    forall|k: int| 0 <= k < shape.len() ==> fits_i32(#[trigger] dim_stride(shape, k))
}

/// The distance that a row-major walk has covered in the dimensions after `k`
/// when each of them stands at its last index.
pub open spec fn carried(stride: Seq<i32>, shape: Seq<i32>, k: int) -> int
    decreases stride.len() - k,
{
    if k + 1 >= stride.len() {
        0
    } else {
        carried(stride, shape, k + 1) + stride[k + 1] * (shape[k + 1] - 1)
    }
}

/// The adjacent stride of dimension `k`: its stride less what the dimensions
/// after it have covered.
pub open spec fn adjacent_stride(stride: Seq<i32>, shape: Seq<i32>, k: int) -> int {
    stride[k] - carried(stride, shape, k)
}

/// Whether the adjacent stride of dimension `k` can be held in an `i32`.
pub open spec fn adjacent_stride_fits(stride: Seq<i32>, shape: Seq<i32>, k: int) -> bool {
    fits_i32(adjacent_stride(stride, shape, k))
}

/// Whether the adjacent strides can be held in an `i32`.
pub open spec fn adjacent_strides_fit(stride: Seq<i32>, shape: Seq<i32>) -> bool {
    forall|k: int| 0 <= k < stride.len() - 1 ==> #[trigger] adjacent_stride_fits(stride, shape, k)
}

/// The strides of a row-major layout of `shape`.
pub fn calculate_dim_stride(shape: &[i32]) -> (v: Vec<i32>)
    requires
        dim_strides_fit(shape@),
    ensures
        v@.len() == shape@.len(),
        forall|k: int| 0 <= k < v@.len() ==> v@[k] == dim_stride(shape@, k),
{
    let n: usize = shape.len();
    let mut v: Vec<i32> = Vec::new();
    v.resize(n, 1);
    if n == 0 {
        return v;
    }
    let mut i: usize = n - 1;
    while i > 0
        invariant
            n == shape@.len(),
            v@.len() == n,
            0 <= i < n,
            dim_strides_fit(shape@),
            forall|k: int| i <= k < n ==> v@[k] == dim_stride(shape@, k),
        decreases i,
    {
        proof {
            let tail = shape@.skip(i as int);
            assert(tail.skip(1) =~= shape@.skip(i + 1));
            assert(dim_stride(shape@, i - 1) == shape@[i as int] * dim_stride(shape@, i as int));
        }
        let next: i32 = shape[i] * v[i];
        v.set(i - 1, next);
        i = i - 1;
    }
    v
}

/// The adjacent strides of a layout with the given strides and shape.
pub fn calculate_adjacent_dim_stride(stride: &[i32], slice_shape: &[i32]) -> (v: Vec<i32>)
    requires
        stride@.len() >= 1,
        slice_shape@.len() == stride@.len(),
        adjacent_strides_fit(stride@, slice_shape@),
    ensures
        v@.len() == stride@.len(),
        forall|k: int| 0 <= k < v@.len() ==> v@[k] == adjacent_stride(stride@, slice_shape@, k),
{
    let n: usize = stride.len();
    let mut v: Vec<i32> = vstd::slice::slice_to_vec(stride);
    let mut accum: i64 = 0;
    let mut i: usize = n - 1;
    while i > 0
        invariant
            n == stride@.len(),
            slice_shape@.len() == n,
            v@.len() == n,
            0 <= i < n,
            adjacent_strides_fit(stride@, slice_shape@),
            accum == carried(stride@, slice_shape@, i as int),
            forall|k: int| 0 <= k < i ==> v@[k] == stride@[k],
            forall|k: int| i <= k < n ==> v@[k] == adjacent_stride(stride@, slice_shape@, k),
        decreases i,
    {
        let step: i64 = stride[i] as i64;
        let extent: i64 = slice_shape[i] as i64;
        proof {
            assert(adjacent_stride_fits(stride@, slice_shape@, i - 1));
            assert(-0x4000_0000_8000_0000 <= step * (extent - 1) <= 0x4000_0000_8000_0000)
                by (nonlinear_arith)
                requires
                    -0x8000_0000 <= step <= 0x7fff_ffff,
                    -0x8000_0000 <= extent <= 0x7fff_ffff,
            ;
            assert(carried(stride@, slice_shape@, i - 1) == accum + step * (extent - 1));
        }
        let covered: i64 = step * (extent - 1);
        accum = accum + covered;
        let adj: i64 = v[i - 1] as i64 - accum;
        v.set(i - 1, adj as i32);
        i = i - 1;
    }
    v
}

/// Whether `adjacent` holds the adjacent strides of a layout with the given
/// strides and shape.
pub fn adjacent_strides_are(stride: &[i32], shape: &[i32], adjacent: &[i32]) -> (r: bool)
    requires
        stride@.len() >= 1,
        shape@.len() == stride@.len(),
        adjacent@.len() == stride@.len(),
    ensures
        r == (forall|k: int|
            0 <= k < stride@.len() ==> #[trigger] adjacent@[k] == adjacent_stride(
                stride@,
                shape@,
                k,
            )),
{
    let n: usize = stride.len();
    if adjacent[n - 1] != stride[n - 1] {
        return false;
    }
    let mut accum: i64 = 0;
    let mut i: usize = n - 1;
    while i > 0
        invariant
            n == stride@.len(),
            shape@.len() == n,
            adjacent@.len() == n,
            0 <= i < n,
            accum == carried(stride@, shape@, i as int),
            -0x1_0000_0000 <= accum <= 0x1_0000_0000,
            forall|k: int| i <= k < n ==> #[trigger] adjacent@[k] == adjacent_stride(
                stride@,
                shape@,
                k,
            ),
        decreases i,
    {
        let step: i64 = stride[i] as i64;
        let extent: i64 = shape[i] as i64;
        proof {
            assert(-0x4000_0000_8000_0000 <= step * (extent - 1) <= 0x4000_0000_8000_0000)
                by (nonlinear_arith)
                requires
                    -0x8000_0000 <= step <= 0x7fff_ffff,
                    -0x8000_0000 <= extent <= 0x7fff_ffff,
            ;
            assert(carried(stride@, shape@, i - 1) == accum + step * (extent - 1));
        }
        let covered: i64 = step * (extent - 1);
        accum = accum + covered;
        let derived: i64 = stride[i - 1] as i64 - accum;
        if derived != adjacent[i - 1] as i64 {
            proof {
                assert(adjacent@[i - 1] != adjacent_stride(stride@, shape@, i - 1));
            }
            return false;
        }
        i = i - 1;
    }
    true
}

} // verus!
