//! The row-major order of the indices of an array, and where a layout puts
//! the element of each index.
use vstd::prelude::*;
use crate::internals::{adjacent_stride, dim_stride, product};
use crate::layout::{
    lemma_row_major_adjacent_ones, lemma_tail_product_bounds, lemma_valid_shape_strides_fit,
    shape_valid, LayoutView,
};

verus! {
/// Whether `idx` is an index into an array of the given shape.
pub open spec fn index_within(shape: Seq<i32>, idx: Seq<i32>) -> bool {
    &&& idx.len() == shape.len()
    &&& forall|d: int| 0 <= d < idx.len() ==> 0 <= #[trigger] idx[d] < shape[d]
}

/// Whether `idx` is an index into an array of the given shape, or the state
/// that a walk reaches after the last index: the first entry may equal its
/// extent.
pub open spec fn index_or_end(shape: Seq<i32>, idx: Seq<i32>) -> bool {
    &&& idx.len() == shape.len()
    &&& forall|d: int| 1 <= d < idx.len() ==> 0 <= #[trigger] idx[d] < shape[d]
    &&& idx.len() >= 1 ==> 0 <= idx[0] <= shape[0]
}

/// The sum of `idx[d] * stride[d]` over the first `n` dimensions.
pub open spec fn weighted(idx: Seq<i32>, stride: Seq<i32>, n: int) -> int
    decreases n,
{
    if n <= 0 {
        0
    } else {
        weighted(idx, stride, n - 1) + idx[n - 1] * stride[n - 1]
    }
}

/// Where the layout puts the element of index `idx`.
pub open spec fn position(l: LayoutView, idx: Seq<i32>) -> int {
    l.offset + weighted(idx, l.stride, l.shape.len() as int)
}

/// The index (0, .., 0) of `n` dimensions.
pub open spec fn origin(n: nat) -> Seq<i32> {
    Seq::new(n, |d: int| 0i32)
}

/// Resolves an index whose entry at `d` may have reached its extent: while
/// it has, that entry goes back to 0 and the entry before it goes up by one.
pub open spec fn carry(shape: Seq<i32>, idx: Seq<i32>, d: int) -> Seq<i32>
    decreases d,
{
    if d <= 0 || idx[d] != shape[d] {
        idx
    } else {
        carry(shape, idx.update(d, 0).update(d - 1, (idx[d - 1] + 1) as i32), d - 1)
    }
}

/// The dimension at which [`carry`] stops.
pub open spec fn landing(shape: Seq<i32>, idx: Seq<i32>, d: int) -> int
    decreases d,
{
    if d <= 0 || idx[d] != shape[d] {
        d
    } else {
        landing(shape, idx.update(d, 0).update(d - 1, (idx[d - 1] + 1) as i32), d - 1)
    }
}

/// `idx` with its last entry one higher.
pub open spec fn bumped(idx: Seq<i32>) -> Seq<i32> {
    idx.update(idx.len() - 1, (idx[idx.len() - 1] + 1) as i32)
}

/// The index after `idx` in row-major order. After the last index the first
/// entry equals its extent.
pub open spec fn next_index(shape: Seq<i32>, idx: Seq<i32>) -> Seq<i32> {
    carry(shape, bumped(idx), idx.len() - 1)
}

/// The outermost dimension that changes when a row-major walk leaves `idx`.
pub open spec fn step_dim(shape: Seq<i32>, idx: Seq<i32>) -> int {
    landing(shape, bumped(idx), idx.len() - 1)
}

/// The `k`-th index in row-major order, counted from 0.
pub open spec fn index_at(shape: Seq<i32>, k: nat) -> Seq<i32>
    decreases k,
{
    if k == 0 {
        origin(shape.len())
    } else {
        next_index(shape, index_at(shape, (k - 1) as nat))
    }
}

/// The row-major strides of `shape`.
pub open spec fn row_major_strides(shape: Seq<i32>) -> Seq<i32> {
    Seq::new(shape.len(), |k: int| dim_stride(shape, k) as i32)
}

/// The place of `idx` in row-major order: its position in the row-major
/// layout from offset 0.
pub open spec fn rank_of(shape: Seq<i32>, idx: Seq<i32>) -> int {
    weighted(idx, row_major_strides(shape), shape.len() as int)
}

/// Whether every element of the layout lies in a buffer of `n` elements.
pub open spec fn layout_fits(l: LayoutView, n: int) -> bool {
    forall|idx: Seq<i32>| #[trigger] index_within(l.shape, idx) ==> 0 <= position(l, idx) < n
}

/// The elements of `data` that the layout selects, in row-major order.
pub open spec fn gathered<T>(data: Seq<T>, l: LayoutView) -> Seq<T> {
    Seq::new(l.len, |k: int| data[position(l, index_at(l.shape, k as nat))])
}

/// Changing one entry of an index changes the weighted sum by the change
/// times the stride of that entry.
pub proof fn lemma_weighted_update(idx: Seq<i32>, stride: Seq<i32>, n: int, d: int, v: i32)
    requires
        0 <= d < idx.len(),
        0 <= n <= idx.len(),
    ensures
        weighted(idx.update(d, v), stride, n) == weighted(idx, stride, n) + if d < n {
            (v - idx[d]) * stride[d]
        } else {
            0
        },
    decreases n,
{
    if n > 0 {
        lemma_weighted_update(idx, stride, n - 1, d, v);
        if d == n - 1 {
            assert(v * stride[d] == idx[d] * stride[d] + (v - idx[d]) * stride[d])
                by (nonlinear_arith);
        }
    }
}

/// One step of carrying moves the adjacent stride from a dimension to the one
/// before it.
pub proof fn lemma_adjacent_step(stride: Seq<i32>, shape: Seq<i32>, d: int)
    requires
        1 <= d < stride.len(),
    ensures
        adjacent_stride(stride, shape, d - 1) == adjacent_stride(stride, shape, d) + stride[d - 1]
            - shape[d] * stride[d],
{
    assert(stride[d] * (shape[d] - 1) == shape[d] * stride[d] - stride[d]) by (nonlinear_arith);
}

/// Carrying changes the weighted sum by the difference of the adjacent
/// strides of the dimension where it stops and the one where it began.
pub proof fn lemma_carry_weighted(shape: Seq<i32>, stride: Seq<i32>, idx: Seq<i32>, d: int)
    requires
        idx.len() == shape.len(),
        stride.len() == shape.len(),
        0 <= d < shape.len(),
        forall|e: int| 0 <= e < d ==> #[trigger] idx[e] < i32::MAX,
    ensures
        weighted(carry(shape, idx, d), stride, shape.len() as int) == weighted(
            idx,
            stride,
            shape.len() as int,
        ) + adjacent_stride(stride, shape, landing(shape, idx, d)) - adjacent_stride(
            stride,
            shape,
            d,
        ),
        0 <= landing(shape, idx, d) <= d,
        carry(shape, idx, d).len() == idx.len(),
    decreases d,
{
    if d <= 0 || idx[d] != shape[d] {
    } else {
        let n = shape.len() as int;
        let reset = idx.update(d, 0);
        let moved = reset.update(d - 1, (idx[d - 1] + 1) as i32);
        lemma_weighted_update(idx, stride, n, d, 0);
        lemma_weighted_update(reset, stride, n, d - 1, (idx[d - 1] + 1) as i32);
        lemma_adjacent_step(stride, shape, d);
        assert((0 - idx[d]) * stride[d] == -(shape[d] * stride[d])) by (nonlinear_arith)
            requires
                idx[d] == shape[d],
        ;
        assert(((idx[d - 1] + 1) as i32 - reset[d - 1]) * stride[d - 1] == stride[d - 1])
            by (nonlinear_arith)
            requires
                (idx[d - 1] + 1) as i32 - reset[d - 1] == 1,
        ;
        lemma_carry_weighted(shape, stride, moved, d - 1);
    }
}

/// A step of the walk changes the weighted sum by the adjacent stride of the
/// dimension it lands in.
pub proof fn lemma_next_weighted(shape: Seq<i32>, stride: Seq<i32>, idx: Seq<i32>)
    requires
        shape.len() >= 1,
        stride.len() == shape.len(),
        idx.len() == shape.len(),
        forall|e: int| 0 <= e < idx.len() ==> #[trigger] idx[e] < i32::MAX,
    ensures
        weighted(next_index(shape, idx), stride, shape.len() as int) == weighted(
            idx,
            stride,
            shape.len() as int,
        ) + adjacent_stride(stride, shape, step_dim(shape, idx)),
        0 <= step_dim(shape, idx) < shape.len(),
        next_index(shape, idx).len() == idx.len(),
{
    let n = shape.len() as int;
    let last = n - 1;
    let b = bumped(idx);
    lemma_weighted_update(idx, stride, n, last, (idx[last] + 1) as i32);
    assert(((idx[last] + 1) as i32 - idx[last]) * stride[last] == stride[last])
        by (nonlinear_arith)
        requires
            (idx[last] + 1) as i32 - idx[last] == 1,
    ;
    lemma_carry_weighted(shape, stride, b, last);
}

/// Carrying from an index whose entries after `d` are in range, whose entry
/// at `d` is at most its extent and whose entries before `d` are in range
/// gives an index or the end state.
pub proof fn lemma_carry_within(shape: Seq<i32>, idx: Seq<i32>, d: int)
    requires
        idx.len() == shape.len(),
        0 <= d < shape.len(),
        forall|e: int| 0 <= e < shape.len() ==> 1 <= #[trigger] shape[e],
        forall|e: int| 0 <= e < shape.len() && e != d ==> 0 <= #[trigger] idx[e] < shape[e],
        0 <= idx[d] <= shape[d],
    ensures
        index_or_end(shape, carry(shape, idx, d)),
    decreases d,
{
    if d <= 0 || idx[d] != shape[d] {
    } else {
        let moved = idx.update(d, 0).update(d - 1, (idx[d - 1] + 1) as i32);
        lemma_carry_within(shape, moved, d - 1);
    }
}

/// The index after an index is an index or the end state.
pub proof fn lemma_next_within(shape: Seq<i32>, idx: Seq<i32>)
    requires
        shape_valid(shape),
        index_within(shape, idx),
    ensures
        index_or_end(shape, next_index(shape, idx)),
{
    let last = shape.len() - 1;
    let b = bumped(idx);
    lemma_carry_within(shape, b, last);
}

/// The row-major strides of a valid shape, as a sequence.
pub proof fn lemma_row_major_strides(shape: Seq<i32>)
    requires
        shape_valid(shape),
    ensures
        row_major_strides(shape).len() == shape.len(),
        forall|d: int|
            0 <= d < shape.len() ==> #[trigger] row_major_strides(shape)[d] == dim_stride(shape, d),
        forall|d: int| 0 <= d < shape.len() ==> 1 <= #[trigger] row_major_strides(shape)[d],
        row_major_strides(shape)[0] * shape[0] == product(shape),
{
    lemma_valid_shape_strides_fit(shape);
    assert(product(shape.skip(1)) * shape[0] == shape[0] * product(shape.skip(1)))
        by (nonlinear_arith);
}

/// A step of the walk raises the rank by one.
pub proof fn lemma_next_rank(shape: Seq<i32>, idx: Seq<i32>)
    requires
        shape_valid(shape),
        index_within(shape, idx),
    ensures
        rank_of(shape, next_index(shape, idx)) == rank_of(shape, idx) + 1,
{
    let rm = row_major_strides(shape);
    lemma_row_major_strides(shape);
    lemma_row_major_adjacent_ones(shape, rm);
    lemma_next_weighted(shape, rm, idx);
}

/// A weighted sum of entries that are not negative, with strides that are
/// not negative, is at least its first term.
pub proof fn lemma_weighted_lower(idx: Seq<i32>, stride: Seq<i32>, n: int)
    requires
        1 <= n <= idx.len(),
        idx.len() == stride.len(),
        forall|d: int| 0 <= d < idx.len() ==> 0 <= #[trigger] idx[d],
        forall|d: int| 0 <= d < stride.len() ==> 0 <= #[trigger] stride[d],
    ensures
        weighted(idx, stride, n) >= idx[0] * stride[0],
    decreases n,
{
    if n == 1 {
        assert(weighted(idx, stride, 0) == 0);
    } else {
        lemma_weighted_lower(idx, stride, n - 1);
        assert(idx[n - 1] * stride[n - 1] >= 0) by (nonlinear_arith)
            requires
                idx[n - 1] >= 0,
                stride[n - 1] >= 0,
        ;
    }
}

/// The weighted sum of the origin is 0.
pub proof fn lemma_weighted_origin(stride: Seq<i32>, n: nat, m: int)
    requires
        0 <= m <= n,
    ensures
        weighted(origin(n), stride, m) == 0,
    decreases m,
{
    if m > 0 {
        lemma_weighted_origin(stride, n, m - 1);
    }
}

/// The walk visits an index at each of its first `product(shape)` steps, and
/// the `k`-th has rank `k`.
pub proof fn lemma_index_at_within(shape: Seq<i32>, k: nat)
    requires
        shape_valid(shape),
        k < product(shape),
    ensures
        index_within(shape, index_at(shape, k)),
        rank_of(shape, index_at(shape, k)) == k,
    decreases k,
{
    lemma_row_major_strides(shape);
    if k == 0 {
        lemma_weighted_origin(row_major_strides(shape), shape.len(), shape.len() as int);
    } else {
        let prev = index_at(shape, (k - 1) as nat);
        lemma_index_at_within(shape, (k - 1) as nat);
        lemma_next_within(shape, prev);
        lemma_next_rank(shape, prev);
        let idx = next_index(shape, prev);
        let rm = row_major_strides(shape);
        lemma_weighted_lower(idx, rm, shape.len() as int);
        if idx[0] == shape[0] {
            assert(idx[0] * rm[0] == rm[0] * shape[0]) by (nonlinear_arith)
                requires
                    idx[0] == shape[0],
            ;
        }
    }
}

/// The farthest that the first `n` dimensions reach below the origin: the sum
/// of `(shape[d] - 1) * stride[d]` over those with a negative stride.
pub open spec fn reach_below(shape: Seq<i32>, stride: Seq<i32>, n: int) -> int
    decreases n,
{
    if n <= 0 {
        0
    } else {
        reach_below(shape, stride, n - 1) + if stride[n - 1] < 0 {
            (shape[n - 1] - 1) * stride[n - 1]
        } else {
            0
        }
    }
}

/// The farthest that the first `n` dimensions reach above the origin: the sum
/// of `(shape[d] - 1) * stride[d]` over those with a positive stride.
pub open spec fn reach_above(shape: Seq<i32>, stride: Seq<i32>, n: int) -> int
    decreases n,
{
    if n <= 0 {
        0
    } else {
        reach_above(shape, stride, n - 1) + if stride[n - 1] > 0 {
            (shape[n - 1] - 1) * stride[n - 1]
        } else {
            0
        }
    }
}

/// The index that lies lowest in the buffer (`low`) or highest: the last
/// index in each dimension that leads that way, the first in the others.
pub open spec fn extreme_index(shape: Seq<i32>, stride: Seq<i32>, low: bool) -> Seq<i32> {
    Seq::new(
        shape.len(),
        |d: int|
            if (low && stride[d] < 0) || (!low && stride[d] > 0) {
                (shape[d] - 1) as i32
            } else {
                0i32
            },
    )
}

/// The weighted sum of every index lies between the two reaches.
pub proof fn lemma_reach_bounds(shape: Seq<i32>, stride: Seq<i32>, idx: Seq<i32>, n: int)
    requires
        index_within(shape, idx),
        stride.len() == shape.len(),
        0 <= n <= shape.len(),
    ensures
        reach_below(shape, stride, n) <= weighted(idx, stride, n) <= reach_above(shape, stride, n),
    decreases n,
{
    if n > 0 {
        lemma_reach_bounds(shape, stride, idx, n - 1);
        let i = idx[n - 1] as int;
        let e = shape[n - 1] as int;
        let s = stride[n - 1] as int;
        if s < 0 {
            assert((e - 1) * s <= i * s <= 0) by (nonlinear_arith)
                requires
                    0 <= i <= e - 1,
                    s < 0,
            ;
        } else if s > 0 {
            assert(0 <= i * s <= (e - 1) * s) by (nonlinear_arith)
                requires
                    0 <= i <= e - 1,
                    s >= 0,
            ;
        } else {
            assert(i * s == 0) by (nonlinear_arith)
                requires
                    s == 0,
            ;
        }
    }
}

/// The extreme indices are indices, and their weighted sums are the reaches.
pub proof fn lemma_reach_attained(shape: Seq<i32>, stride: Seq<i32>, n: int)
    requires
        shape_valid(shape),
        stride.len() == shape.len(),
        0 <= n <= shape.len(),
    ensures
        index_within(shape, extreme_index(shape, stride, true)),
        index_within(shape, extreme_index(shape, stride, false)),
        weighted(extreme_index(shape, stride, true), stride, n) == reach_below(shape, stride, n),
        weighted(extreme_index(shape, stride, false), stride, n) == reach_above(shape, stride, n),
    decreases n,
{
    if n > 0 {
        lemma_reach_attained(shape, stride, n - 1);
        let lo = extreme_index(shape, stride, true);
        let hi = extreme_index(shape, stride, false);
        let s = stride[n - 1] as int;
        if s < 0 {
            assert(0 * s == 0);
        } else if s > 0 {
        } else {
            assert(lo[n - 1] * s == 0) by (nonlinear_arith)
                requires
                    s == 0,
            ;
            assert(hi[n - 1] * s == 0) by (nonlinear_arith)
                requires
                    s == 0,
            ;
        }
    }
}

/// A layout fits a buffer exactly when its lowest and highest elements do.
pub proof fn lemma_fits_by_reach(l: LayoutView, n: int)
    requires
        l.wf(),
    ensures
        layout_fits(l, n) <==> (0 <= l.offset + reach_below(l.shape, l.stride, l.shape.len() as int)
            && l.offset + reach_above(l.shape, l.stride, l.shape.len() as int) < n),
{
    let r = l.shape.len() as int;
    lemma_reach_attained(l.shape, l.stride, r);
    if 0 <= l.offset + reach_below(l.shape, l.stride, r) && l.offset + reach_above(
        l.shape,
        l.stride,
        r,
    ) < n {
        assert forall|idx: Seq<i32>| #[trigger] index_within(l.shape, idx) implies 0 <= position(
            l,
            idx,
        ) < n by {
            lemma_reach_bounds(l.shape, l.stride, idx, r);
        }
    }
}

/// The row-major layout from offset 0 puts the `k`-th index at position `k`,
/// so it fits exactly the buffers that have at least as many elements.
pub proof fn lemma_packed_positions(shape: Seq<i32>)
    requires
        shape_valid(shape),
    ensures
        forall|k: nat|
            k < product(shape) ==> position(
                LayoutView::row_major(shape, 0),
                #[trigger] index_at(shape, k),
            ) == k,
        forall|n: int| n >= product(shape) ==> layout_fits(LayoutView::row_major(shape, 0), n),
{
    let l = LayoutView::row_major(shape, 0);
    assert forall|k: nat| k < product(shape) implies position(l, #[trigger] index_at(shape, k))
        == k by {
        lemma_index_at_within(shape, k);
    }
    assert forall|n: int| n >= product(shape) implies layout_fits(l, n) by {
        assert forall|idx: Seq<i32>| #[trigger] index_within(shape, idx) implies 0 <= position(
            l,
            idx,
        ) < n by {
            lemma_rank_bounds(shape, idx);
        }
    }
}

/// The rank of an index is at least 0 and below the element count.
pub proof fn lemma_rank_bounds(shape: Seq<i32>, idx: Seq<i32>)
    requires
        shape_valid(shape),
        index_within(shape, idx),
    ensures
        0 <= rank_of(shape, idx) < product(shape),
{
    lemma_row_major_strides(shape);
    lemma_rank_below(shape, idx, shape.len() as int);
    assert(shape.skip(0) =~= shape);
}

/// The weighted sum, with row-major strides, of the last dimensions of an
/// index from `from` on is below the product of their extents.
pub proof fn lemma_rank_below(shape: Seq<i32>, idx: Seq<i32>, n: int)
    requires
        shape_valid(shape),
        index_within(shape, idx),
        0 <= n <= shape.len(),
    ensures
        0 <= weighted(idx, row_major_strides(shape), shape.len() as int) - weighted(
            idx,
            row_major_strides(shape),
            shape.len() - n,
        ) < product(shape.skip(shape.len() - n)),
    decreases n,
{
    let r = shape.len() as int;
    lemma_row_major_strides(shape);
    if n == 0 {
    } else {
        lemma_rank_below(shape, idx, n - 1);
        let d = r - n;
        let tail = shape.skip(d);
        assert(tail.skip(1) =~= shape.skip(d + 1));
        let inner = product(shape.skip(d + 1));
        assert(0 <= idx[d] * inner && idx[d] * inner + inner <= shape[d] * inner)
            by (nonlinear_arith)
            requires
                0 <= idx[d] < shape[d],
                inner >= 0,
        ;
        lemma_tail_product_bounds(shape, d + 1);
    }
}

/// Two indices that agree before dimension `d` and have one rank agree
/// everywhere.
pub proof fn lemma_rank_decides(shape: Seq<i32>, a: Seq<i32>, b: Seq<i32>, d: int)
    requires
        shape_valid(shape),
        index_within(shape, a),
        index_within(shape, b),
        0 <= d <= shape.len(),
        forall|e: int| 0 <= e < d ==> a[e] == b[e],
        rank_of(shape, a) == rank_of(shape, b),
    ensures
        a == b,
    decreases shape.len() - d,
{
    let rm = row_major_strides(shape);
    let n = shape.len() as int;
    lemma_row_major_strides(shape);
    if d == n {
    } else {
        lemma_weighted_agree(a, b, rm, d);
        lemma_rank_below(shape, a, n - d - 1);
        lemma_rank_below(shape, b, n - d - 1);
        let inner = product(shape.skip(d + 1));
        let ta = weighted(a, rm, n) - weighted(a, rm, d + 1);
        let tb = weighted(b, rm, n) - weighted(b, rm, d + 1);
        assert(a[d] == b[d]) by (nonlinear_arith)
            requires
                a[d] * inner + ta == b[d] * inner + tb,
                0 <= ta < inner,
                0 <= tb < inner,
        ;
        lemma_rank_decides(shape, a, b, d + 1);
    }
}

/// Indices that agree before dimension `d` have one weighted sum over the
/// dimensions before `d`.
pub proof fn lemma_weighted_agree(a: Seq<i32>, b: Seq<i32>, stride: Seq<i32>, d: int)
    requires
        0 <= d <= a.len(),
        a.len() == b.len(),
        forall|e: int| 0 <= e < d ==> a[e] == b[e],
    ensures
        weighted(a, stride, d) == weighted(b, stride, d),
    decreases d,
{
    if d > 0 {
        lemma_weighted_agree(a, b, stride, d - 1);
    }
}

/// Every index is the one that the walk visits at the step of its rank.
pub proof fn lemma_index_at_rank(shape: Seq<i32>, idx: Seq<i32>)
    requires
        shape_valid(shape),
        index_within(shape, idx),
    ensures
        0 <= rank_of(shape, idx) < product(shape),
        index_at(shape, rank_of(shape, idx) as nat) == idx,
{
    lemma_rank_bounds(shape, idx);
    let k = rank_of(shape, idx) as nat;
    lemma_index_at_within(shape, k);
    lemma_rank_decides(shape, index_at(shape, k), idx, 0);
}

/// Where each element of `a` has a place of its own in `b`, given by `f`,
/// the elements of `a` are among those of `b`, each as often at least.
pub proof fn lemma_embedded_multiset<A>(a: Seq<A>, b: Seq<A>, f: spec_fn(int) -> int)
    requires
        forall|k: int| 0 <= k < a.len() ==> 0 <= #[trigger] f(k) < b.len() && a[k] == b[f(k)],
        forall|k1: int, k2: int|
            0 <= k1 < a.len() && 0 <= k2 < a.len() && k1 != k2 ==> #[trigger] f(k1)
                != #[trigger] f(k2),
    ensures
        a.to_multiset().subset_of(b.to_multiset()),
    decreases a.len(),
{
    broadcast use vstd::seq_lib::group_to_multiset_ensures;

    if a.len() == 0 {
    } else {
        let n = a.len() - 1;
        let m = f(n);
        let a1 = a.drop_last();
        let b1 = b.remove(m);
        let g = |k: int|
            if f(k) < m {
                f(k)
            } else {
                f(k) - 1
            };
        lemma_embedded_multiset(a1, b1, g);
        assert(a =~= a1.push(a[n]));
    }
}

/// In a well-formed layout a step of the walk moves the position by the
/// adjacent stride of the dimension it lands in.
pub proof fn lemma_next_position(l: LayoutView, idx: Seq<i32>)
    requires
        l.wf(),
        index_within(l.shape, idx),
    ensures
        position(l, next_index(l.shape, idx)) == position(l, idx) + l.adj_stride[step_dim(
            l.shape,
            idx,
        )],
        0 <= step_dim(l.shape, idx) < l.shape.len(),
{
    lemma_next_weighted(l.shape, l.stride, idx);
}

} // verus!
