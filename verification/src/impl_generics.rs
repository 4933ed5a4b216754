//! Text for arrays: nested rows in brackets, one row of elements per line.
use vstd::prelude::*;
use crate::iter::{InformedSliceIter, InformedView, StepInfo};
use crate::layout::LayoutView;
use crate::mat::RawTensor;
use crate::slice::RawTensorSlice;
use crate::storage::TensorData;
use crate::tensor::Tensor;
use crate::walk::{origin, position, rank_of, row_major_strides, weighted};

verus! {

/// `String::push_str`: appends `piece` to `text`.
#[verifier::external_body]
pub(crate) fn push_text(text: &mut String, piece: &str)
    ensures
        final(text)@ == old(text)@ + piece@,
{
    text.push_str(piece)
}

/// Renders an element with `format!`, by its `Display` form, to the right of
/// a field four wide. Nothing is claimed of the text.
#[verifier::external_body]
fn render_value<T: std::fmt::Display>(value: T) -> (text: String) {
    format!("{:>4}", value)
}

/// The number of dimensions that are open before the next step of an
/// informed walk.
pub open spec fn open_dimensions<T: Copy>(w: InformedView<T>) -> int {
    match w.state {
        StepInfo::EnterDimension(dim) => dim as int,
        StepInfo::Value(_) => w.layout.shape.len() as int,
        StepInfo::ExitDimension(dim) => dim + 1,
        StepInfo::End => 0,
    }
}

/// Where a state stands between two elements: before the entry of each
/// dimension, outermost first, then before the element, then before the
/// exit of each dimension, innermost first, then at the end.
pub open spec fn phase<T: Copy>(w: InformedView<T>) -> int {
    let n = w.layout.shape.len() as int;
    match w.state {
        StepInfo::EnterDimension(dim) => 2 * n + 2 - dim,
        StepInfo::Value(_) => n + 1,
        StepInfo::ExitDimension(dim) => dim + 1,
        StepInfo::End => 0,
    }
}

/// The same walk over the row-major layout of the shape, in which the
/// position of an element is its place in the walk.
pub open spec fn counting<T: Copy>(w: InformedView<T>, place: int) -> InformedView<T> {
    let filler: T = arbitrary();
    InformedView {
        buffer: Seq::new(w.layout.len, |i: int| filler),
        layout: LayoutView::row_major(w.layout.shape, 0),
        state: match w.state {
            StepInfo::Value(_) => StepInfo::Value(filler),
            s => s,
        },
        pos: place,
        counter: w.counter,
    }
}

/// A step of an informed walk goes with a step of the walk that counts:
/// the place goes up by one where the position moves, and the phase goes
/// down where it does not.
pub proof fn lemma_counting_step<T: Copy>(w: InformedView<T>, place: int)
    requires
        w.wf(),
        counting(w, place).wf(),
        0 <= place < w.layout.len,
        !(w.state is End),
    ensures
        w.stepped().wf(),
        counting(w.stepped(), counting(w, place).stepped().pos).wf(),
        place <= counting(w, place).stepped().pos < w.layout.len,
        counting(w, place).stepped().pos == place ==> phase(w.stepped()) < phase(w),
        0 <= phase(w.stepped()),
        open_dimensions(w.stepped()) == match w.state {
            StepInfo::EnterDimension(_) => open_dimensions(w) + 1,
            StepInfo::ExitDimension(_) => open_dimensions(w) - 1,
            _ => open_dimensions(w),
        },
        0 <= open_dimensions(w) <= w.layout.shape.len(),
        w.state is ExitDimension ==> open_dimensions(w) >= 1,
{
    let c = counting(w, place);
    let shape = w.layout.shape;
    crate::iter::lemma_informed_step(w);
    crate::iter::lemma_informed_step(c);
    crate::layout::lemma_row_major_wf(shape, 0);
    let next = c.stepped();
    let after = counting(w.stepped(), next.pos);
    if next.state is EnterDimension || next.state is Value {
    }
}

/// An informed walk reports the elements in row-major order: the element it
/// is about to report is the one that the layout selects at its place.
pub proof fn law_informed_values_in_order<T: Copy>(w: InformedView<T>, place: int)
    requires
        w.wf(),
        counting(w, place).wf(),
        w.state is Value,
    ensures
        0 <= place < w.layout.len,
        w.state == StepInfo::Value(crate::walk::gathered(w.buffer, w.layout)[place]),
{
    let shape = w.layout.shape;
    crate::layout::lemma_row_major_wf(shape, 0);
    crate::walk::lemma_packed_positions(shape);
    crate::walk::lemma_index_at_rank(shape, w.counter);
    assert(LayoutView::row_major(shape, 0).stride =~= crate::walk::row_major_strides(shape));
}

/// Two spaces for each of `depth` levels.
pub open spec fn indentation(depth: int) -> Seq<char>
    decreases depth,
{
    if depth <= 0 {
        Seq::empty()
    } else {
        indentation(depth - 1) + "  "@
    }
}

/// The texts of `count` elements from place `k` on, on one line, with a
/// comma and a space between two of them, and before the first where
/// `in_seq` says that an element stands before it.
pub open spec fn row_text(shown: Seq<Seq<char>>, k: int, count: int, in_seq: bool) -> Seq<char>
    decreases count,
{
    if count <= 0 {
        Seq::empty()
    } else {
        (if in_seq {
            ", "@
        } else {
            Seq::empty()
        }) + shown[k] + row_text(shown, k + 1, count - 1, true)
    }
}

/// The text of the block of dimension `d` whose first element has place
/// `k`: an opening bracket indented by `d` levels, then for the last
/// dimension the elements on the same line, for every other a line break,
/// the blocks of the next dimension and the indentation again, and then
/// the closing bracket and a line break.
pub open spec fn block_text(shape: Seq<i32>, shown: Seq<Seq<char>>, d: int, k: int) -> Seq<char>
    decreases shape.len() - d, 0nat, 0nat,
{
    let last = shape.len() - 1;
    if d >= last {
        indentation(d) + "["@ + row_text(shown, k, shape[last] as int, false) + "]\n"@
    } else {
        indentation(d) + "["@ + "\n"@ + blocks_text(shape, shown, d + 1, k, shape[d] as int)
            + indentation(d) + "]\n"@
    }
}

/// The text of `count` blocks of dimension `d` that follow one another,
/// the first of which has its first element at place `k`.
pub open spec fn blocks_text(
    shape: Seq<i32>,
    shown: Seq<Seq<char>>,
    d: int,
    k: int,
    count: int,
) -> Seq<char>
    decreases shape.len() - d, 1nat, count,
{
    if count <= 0 || d <= 0 || d >= shape.len() {
        Seq::empty()
    } else {
        block_text(shape, shown, d, k) + blocks_text(
            shape,
            shown,
            d,
            k + row_major_strides(shape)[d - 1],
            count - 1,
        )
    }
}

/// The text of an array of the given shape whose elements, in row-major
/// order, have the texts `shown`: nested rows in brackets, the innermost
/// rows one to a line.
pub open spec fn rows_text(shape: Seq<i32>, shown: Seq<Seq<char>>) -> Seq<char> {
    block_text(shape, shown, 0, 0)
}

/// The place of the first element after the block of dimension `d` that
/// index `c` lies in.
pub open spec fn place_after(shape: Seq<i32>, c: Seq<i32>, d: int) -> int {
    weighted(c, row_major_strides(shape), d - 1) + (c[d - 1] + 1) * row_major_strides(shape)[d - 1]
}

/// The text that follows the block of dimension `d` that index `c` lies
/// in: the blocks of that dimension still to come in the block around it,
/// the closing bracket of that block, and what follows it in turn.
pub open spec fn after_text(shape: Seq<i32>, shown: Seq<Seq<char>>, d: int, c: Seq<i32>) -> Seq<
    char,
>
    decreases d,
{
    if d <= 0 {
        Seq::empty()
    } else {
        blocks_text(shape, shown, d, place_after(shape, c, d), shape[d - 1] - (c[d - 1] + 1))
            + indentation(d - 1) + "]\n"@ + after_text(shape, shown, d - 1, c)
    }
}

/// The text that an informed walk has still to give from the state `w` on.
pub open spec fn rest_text<T: Copy>(w: InformedView<T>, shown: Seq<Seq<char>>, in_seq: bool) -> Seq<
    char,
> {
    let shape = w.layout.shape;
    let last = shape.len() - 1;
    match w.state {
        StepInfo::EnterDimension(d) => block_text(shape, shown, d as int, rank_of(shape, w.counter))
            + after_text(shape, shown, d as int, w.counter),
        StepInfo::Value(_) => row_text(
            shown,
            rank_of(shape, w.counter),
            shape[last] - w.counter[last],
            in_seq,
        ) + "]\n"@ + after_text(shape, shown, last, w.counter),
        StepInfo::ExitDimension(d) => (if d != last {
            indentation(d as int)
        } else {
            Seq::empty()
        }) + "]\n"@ + after_text(shape, shown, d as int, w.counter),
        StepInfo::End => Seq::empty(),
    }
}

/// The text that one step of an informed walk gives in the state `w`.
pub open spec fn step_text<T: Copy>(w: InformedView<T>, shown: Seq<Seq<char>>, in_seq: bool) -> Seq<
    char,
> {
    let shape = w.layout.shape;
    let last = shape.len() - 1;
    match w.state {
        StepInfo::EnterDimension(d) => indentation(d as int) + "["@ + (if d != last {
            "\n"@
        } else {
            Seq::empty()
        }),
        StepInfo::ExitDimension(d) => (if d != last {
            indentation(d as int)
        } else {
            Seq::empty()
        }) + "]\n"@,
        StepInfo::Value(_) => (if in_seq {
            ", "@
        } else {
            Seq::empty()
        }) + shown[rank_of(shape, w.counter)],
        StepInfo::End => Seq::empty(),
    }
}

/// Whether the walk, begun at the first index, can stand in the state `w`
/// after `count` elements, with `in_seq` saying whether an element stands
/// before the next on its line.
pub open spec fn on_course<T: Copy>(w: InformedView<T>, in_seq: bool, count: int) -> bool {
    let shape = w.layout.shape;
    let n = shape.len() as int;
    &&& count <= w.layout.len
    &&& match w.state {
        StepInfo::EnterDimension(d) => {
            &&& !in_seq
            &&& count == rank_of(shape, w.counter)
            &&& forall|e: int| d <= e < n ==> #[trigger] w.counter[e] == 0
        },
        StepInfo::Value(_) => {
            &&& in_seq == (w.counter[n - 1] > 0)
            &&& count == rank_of(shape, w.counter)
        },
        StepInfo::ExitDimension(d) => d >= 1 ==> count == place_after(shape, w.counter, d as int),
        StepInfo::End => true,
    }
}

/// Whether an element stands before the next on its line after a step in
/// the state `w`.
pub open spec fn in_row_after<T: Copy>(w: InformedView<T>, in_seq: bool) -> bool {
    match w.state {
        StepInfo::Value(_) => true,
        StepInfo::ExitDimension(_) => false,
        _ => in_seq,
    }
}

/// The number of elements given after a step in the state `w`.
pub open spec fn count_after<T: Copy>(w: InformedView<T>, count: int) -> int {
    if w.state is Value {
        count + 1
    } else {
        count
    }
}

/// An index whose entries from `d` on are 0 has the weighted sum of its
/// entries before `d`.
pub proof fn lemma_weighted_zeros(c: Seq<i32>, stride: Seq<i32>, d: int, n: int)
    requires
        0 <= d <= n <= c.len(),
        forall|e: int| d <= e < n ==> #[trigger] c[e] == 0,
    ensures
        weighted(c, stride, n) == weighted(c, stride, d),
    decreases n - d,
{
    if n > d {
        lemma_weighted_zeros(c, stride, d, n - 1);
        assert(c[n - 1] == 0);
        assert(c[n - 1] * stride[n - 1] == 0) by (nonlinear_arith)
            requires
                c[n - 1] == 0,
        ;
    }
}

/// What follows a block of dimension `d` depends on the entries before `d`
/// of the index alone.
pub proof fn lemma_after_agree(
    shape: Seq<i32>,
    shown: Seq<Seq<char>>,
    d: int,
    a: Seq<i32>,
    b: Seq<i32>,
)
    requires
        0 <= d <= a.len(),
        a.len() == b.len(),
        forall|e: int| 0 <= e < d ==> a[e] == b[e],
    ensures
        after_text(shape, shown, d, a) == after_text(shape, shown, d, b),
    decreases d,
{
    if d > 0 {
        lemma_after_agree(shape, shown, d - 1, a, b);
        crate::walk::lemma_weighted_agree(a, b, row_major_strides(shape), d - 1);
    }
}

/// The row-major strides of a valid shape: 1 in the last dimension, and in
/// every other the stride of the next times its extent.
pub proof fn lemma_row_major_chain(shape: Seq<i32>)
    requires
        crate::layout::shape_valid(shape),
    ensures
        row_major_strides(shape).len() == shape.len(),
        row_major_strides(shape)[shape.len() - 1] == 1,
        forall|e: int|
            1 <= e < shape.len() ==> row_major_strides(shape)[e - 1] == row_major_strides(shape)[e]
                * #[trigger] shape[e],
{
    crate::layout::lemma_row_major_wf(shape, 0);
    let l = LayoutView::row_major(shape, 0);
    assert(l.stride =~= row_major_strides(shape));
    assert forall|e: int| 1 <= e < shape.len() implies row_major_strides(shape)[e - 1]
        == row_major_strides(shape)[e] * #[trigger] shape[e] by {
        assert(l.stride[e - 1] == l.stride[e] * l.shape[e]);
    }
}

/// A block that is not of the last dimension, with what follows it: its
/// opening bracket, its first block of the next dimension, and what follows
/// that.
proof fn lemma_block_unfolds(shape: Seq<i32>, shown: Seq<Seq<char>>, d: int, c: Seq<i32>, k: int)
    requires
        0 <= d < shape.len() - 1,
        c.len() == shape.len(),
        c[d] == 0,
        shape[d] >= 1,
        k == weighted(c, row_major_strides(shape), d),
    ensures
        block_text(shape, shown, d, k) + after_text(shape, shown, d, c) == indentation(d) + "["@
            + "\n"@ + (block_text(shape, shown, d + 1, k) + after_text(shape, shown, d + 1, c)),
{
    let rm = row_major_strides(shape);
    assert(place_after(shape, c, d + 1) == k + rm[d]) by (nonlinear_arith)
        requires
            place_after(shape, c, d + 1) == weighted(c, rm, d) + (c[d] + 1) * rm[d],
            k == weighted(c, rm, d),
            c[d] == 0,
    ;
    let others = blocks_text(shape, shown, d + 1, k + rm[d], shape[d] - 1);
    assert(blocks_text(shape, shown, d + 1, k, shape[d] as int) == block_text(
        shape,
        shown,
        d + 1,
        k,
    ) + others);
    assert(after_text(shape, shown, d + 1, c) == others + indentation(d) + "]\n"@ + after_text(
        shape,
        shown,
        d,
        c,
    ));
    assert(block_text(shape, shown, d, k) + after_text(shape, shown, d, c) =~= indentation(d)
        + "["@ + "\n"@ + (block_text(shape, shown, d + 1, k) + after_text(
        shape,
        shown,
        d + 1,
        c,
    )));
}

/// The step lemma where the walk enters a dimension.
proof fn lemma_enter_step<T: Copy>(
    w: InformedView<T>,
    shown: Seq<Seq<char>>,
    in_seq: bool,
    count: int,
)
    requires
        w.wf(),
        on_course(w, in_seq, count),
        w.state is EnterDimension,
    ensures
        rest_text(w, shown, in_seq) == step_text(w, shown, in_seq) + rest_text(
            w.stepped(),
            shown,
            in_row_after(w, in_seq),
        ),
        on_course(w.stepped(), in_row_after(w, in_seq), count_after(w, count)),
{
    let shape = w.layout.shape;
    let n = shape.len() as int;
    let last = n - 1;
    let rm = row_major_strides(shape);
    let c = w.counter;
    let next = w.stepped();
    let d = w.state->EnterDimension_0 as int;
    let k = rank_of(shape, c);
    assert(next.counter == c);
    if d != last {
        assert(next.state == StepInfo::<T>::EnterDimension((d + 1) as usize));
        lemma_weighted_zeros(c, rm, d, n);
        assert(c[d] == 0);
        assert(shape[d] >= 1);
        lemma_block_unfolds(shape, shown, d, c, k);
        assert(rest_text(next, shown, in_seq) == block_text(shape, shown, d + 1, k) + after_text(
            shape,
            shown,
            d + 1,
            c,
        ));
        assert(step_text(w, shown, in_seq) == indentation(d) + "["@ + "\n"@);
    } else {
        assert(c[last] == 0);
        assert(rest_text(w, shown, in_seq) =~= step_text(w, shown, in_seq) + rest_text(
            next,
            shown,
            in_seq,
        ));
    }
}

/// The step lemma where the walk is at an element.
proof fn lemma_value_step<T: Copy>(
    w: InformedView<T>,
    shown: Seq<Seq<char>>,
    in_seq: bool,
    count: int,
)
    requires
        w.wf(),
        on_course(w, in_seq, count),
        w.state is Value,
    ensures
        rest_text(w, shown, in_seq) == step_text(w, shown, in_seq) + rest_text(
            w.stepped(),
            shown,
            in_row_after(w, in_seq),
        ),
        on_course(w.stepped(), in_row_after(w, in_seq), count_after(w, count)),
{
    let shape = w.layout.shape;
    let n = shape.len() as int;
    let last = n - 1;
    let rm = row_major_strides(shape);
    let c = w.counter;
    let next = w.stepped();
    let after = in_row_after(w, in_seq);
    lemma_row_major_chain(shape);
    let k = rank_of(shape, c);
    lemma_after_agree(shape, shown, last, c, next.counter);
    crate::walk::lemma_rank_bounds(shape, c);
    if c[last] == shape[last] - 1 {
        assert(row_text(shown, k + 1, 0, true) =~= Seq::<char>::empty());
        if last >= 1 {
            crate::walk::lemma_weighted_agree(c, next.counter, rm, last - 1);
            assert(weighted(c, rm, n) == weighted(c, rm, last) + c[last] * rm[last]);
            assert(weighted(c, rm, last) == weighted(c, rm, last - 1) + c[last - 1] * rm[last - 1]);
            assert(rm[last - 1] == rm[last] * shape[last]);
            assert(k + 1 == place_after(shape, next.counter, last)) by (nonlinear_arith)
                requires
                    k == weighted(c, rm, last - 1) + c[last - 1] * rm[last - 1] + c[last]
                        * rm[last],
                    rm[last] == 1,
                    rm[last - 1] == rm[last] * shape[last],
                    c[last] == shape[last] - 1,
                    place_after(shape, next.counter, last) == weighted(c, rm, last - 1) + (c[last
                        - 1] + 1) * rm[last - 1],
            ;
        }
    } else {
        crate::walk::lemma_weighted_update(c, rm, n, last, (c[last] + 1) as i32);
        assert(rank_of(shape, next.counter) == k + 1) by (nonlinear_arith)
            requires
                rank_of(shape, next.counter) == k + ((c[last] + 1) as i32 - c[last]) * rm[last],
                rm[last] == 1,
                (c[last] + 1) as i32 == c[last] + 1,
        ;
    }
    assert(rest_text(w, shown, in_seq) =~= step_text(w, shown, in_seq) + rest_text(
        next,
        shown,
        after,
    ));
}

/// The step lemma where the walk leaves a dimension and, with it, the
/// dimension around it.
proof fn lemma_exit_outwards<T: Copy>(
    w: InformedView<T>,
    shown: Seq<Seq<char>>,
    in_seq: bool,
    count: int,
)
    requires
        w.wf(),
        on_course(w, in_seq, count),
        w.state is ExitDimension,
        w.state->ExitDimension_0 >= 1,
        w.counter[w.state->ExitDimension_0 - 1] + 1 == w.layout.shape[w.state->ExitDimension_0 - 1],
    ensures
        rest_text(w, shown, in_seq) == step_text(w, shown, in_seq) + rest_text(
            w.stepped(),
            shown,
            in_row_after(w, in_seq),
        ),
        on_course(w.stepped(), in_row_after(w, in_seq), count_after(w, count)),
{
    let shape = w.layout.shape;
    let n = shape.len() as int;
    let rm = row_major_strides(shape);
    let c = w.counter;
    let d = w.state->ExitDimension_0 as int;
    let next = w.stepped();
    let c1 = next.counter;
    lemma_row_major_chain(shape);
    lemma_after_agree(shape, shown, d - 1, c, c1);
    assert(blocks_text(shape, shown, d, place_after(shape, c, d), 0) =~= Seq::<char>::empty());
    if d - 1 >= 1 {
        crate::walk::lemma_weighted_agree(c, c1, rm, d - 2);
        assert(weighted(c, rm, d - 1) == weighted(c, rm, d - 2) + c[d - 2] * rm[d - 2]);
        assert(rm[d - 2] == rm[d - 1] * shape[d - 1]);
        assert(count == place_after(shape, c1, d - 1)) by (nonlinear_arith)
            requires
                count == weighted(c, rm, d - 2) + c[d - 2] * rm[d - 2] + (c[d - 1] + 1) * rm[d
                    - 1],
                c[d - 1] + 1 == shape[d - 1],
                rm[d - 2] == rm[d - 1] * shape[d - 1],
                place_after(shape, c1, d - 1) == weighted(c, rm, d - 2) + (c[d - 2] + 1) * rm[d
                    - 2],
        ;
    }
    assert(rest_text(w, shown, in_seq) =~= step_text(w, shown, in_seq) + rest_text(
        next,
        shown,
        false,
    ));
}

/// What follows a block, where another block of its dimension follows: that
/// block, and what follows it.
proof fn lemma_after_unfolds(
    shape: Seq<i32>,
    shown: Seq<Seq<char>>,
    d: int,
    c: Seq<i32>,
    c1: Seq<i32>,
)
    requires
        1 <= d <= c.len(),
        c.len() == c1.len(),
        forall|e: int| 0 <= e < d - 1 ==> c[e] == c1[e],
        c1[d - 1] == c[d - 1] + 1,
        c1[d - 1] < shape[d - 1],
        d < shape.len(),
    ensures
        place_after(shape, c1, d) == place_after(shape, c, d) + row_major_strides(shape)[d - 1],
        after_text(shape, shown, d, c) == block_text(shape, shown, d, place_after(shape, c, d))
            + after_text(shape, shown, d, c1),
{
    let rm = row_major_strides(shape);
    let p = place_after(shape, c, d);
    lemma_after_agree(shape, shown, d - 1, c, c1);
    crate::walk::lemma_weighted_agree(c, c1, rm, d - 1);
    assert(place_after(shape, c1, d) == p + rm[d - 1]) by (nonlinear_arith)
        requires
            place_after(shape, c1, d) == weighted(c, rm, d - 1) + (c1[d - 1] + 1) * rm[d - 1],
            p == weighted(c, rm, d - 1) + (c[d - 1] + 1) * rm[d - 1],
            c1[d - 1] == c[d - 1] + 1,
    ;
    let m = shape[d - 1] - (c[d - 1] + 1);
    assert(blocks_text(shape, shown, d, p, m) == block_text(shape, shown, d, p) + blocks_text(
        shape,
        shown,
        d,
        p + rm[d - 1],
        m - 1,
    ));
    assert(after_text(shape, shown, d, c) =~= block_text(shape, shown, d, p) + after_text(
        shape,
        shown,
        d,
        c1,
    ));
}

/// The step lemma where the walk leaves a dimension and the next block of
/// that dimension follows.
proof fn lemma_exit_onwards<T: Copy>(
    w: InformedView<T>,
    shown: Seq<Seq<char>>,
    in_seq: bool,
    count: int,
)
    requires
        w.wf(),
        on_course(w, in_seq, count),
        w.state is ExitDimension,
        w.state->ExitDimension_0 >= 1,
        w.counter[w.state->ExitDimension_0 - 1] + 1 != w.layout.shape[w.state->ExitDimension_0
            - 1],
    ensures
        rest_text(w, shown, in_seq) == step_text(w, shown, in_seq) + rest_text(
            w.stepped(),
            shown,
            in_row_after(w, in_seq),
        ),
        on_course(w.stepped(), in_row_after(w, in_seq), count_after(w, count)),
{
    let shape = w.layout.shape;
    let n = shape.len() as int;
    let rm = row_major_strides(shape);
    let c = w.counter;
    let d = w.state->ExitDimension_0 as int;
    let next = w.stepped();
    let c1 = c.update(d, 0).update(d - 1, (c[d - 1] + 1) as i32);
    assert(next.counter == c1);
    assert(next.state == StepInfo::<T>::EnterDimension(d as usize));
    assert(c[d - 1] + 1 < shape[d - 1]);
    lemma_after_unfolds(shape, shown, d, c, c1);
    assert forall|e: int| d <= e < n implies #[trigger] c1[e] == 0 by {
        if e > d {
            assert(c[e] == 0);
        }
    }
    lemma_weighted_zeros(c1, rm, d, n);
    crate::walk::lemma_weighted_agree(c, c1, rm, d - 1);
    assert(weighted(c1, rm, d) == weighted(c1, rm, d - 1) + c1[d - 1] * rm[d - 1]);
    assert(rank_of(shape, c1) == place_after(shape, c, d));
    assert(rest_text(w, shown, in_seq) =~= step_text(w, shown, in_seq) + rest_text(
        next,
        shown,
        false,
    ));
}

/// The step lemma where the walk leaves the outermost dimension.
proof fn lemma_exit_last<T: Copy>(
    w: InformedView<T>,
    shown: Seq<Seq<char>>,
    in_seq: bool,
    count: int,
)
    requires
        w.wf(),
        on_course(w, in_seq, count),
        w.state is ExitDimension,
        w.state->ExitDimension_0 == 0,
    ensures
        rest_text(w, shown, in_seq) == step_text(w, shown, in_seq) + rest_text(
            w.stepped(),
            shown,
            in_row_after(w, in_seq),
        ),
        on_course(w.stepped(), in_row_after(w, in_seq), count_after(w, count)),
{
    let shape = w.layout.shape;
    let n = shape.len() as int;
    let rm = row_major_strides(shape);
    let c = w.counter;
    let d = w.state->ExitDimension_0 as int;
    let next = w.stepped();
    let c1 = next.counter;
    lemma_row_major_chain(shape);
    assert(rest_text(w, shown, in_seq) =~= step_text(w, shown, in_seq) + rest_text(
        next,
        shown,
        false,
    ));
}

/// The step lemma where the walk leaves a dimension.
proof fn lemma_exit_step<T: Copy>(
    w: InformedView<T>,
    shown: Seq<Seq<char>>,
    in_seq: bool,
    count: int,
)
    requires
        w.wf(),
        on_course(w, in_seq, count),
        w.state is ExitDimension,
    ensures
        rest_text(w, shown, in_seq) == step_text(w, shown, in_seq) + rest_text(
            w.stepped(),
            shown,
            in_row_after(w, in_seq),
        ),
        on_course(w.stepped(), in_row_after(w, in_seq), count_after(w, count)),
{
    let d = w.state->ExitDimension_0 as int;
    if d == 0 {
        lemma_exit_last(w, shown, in_seq, count);
    } else if w.counter[d - 1] + 1 == w.layout.shape[d - 1] {
        lemma_exit_outwards(w, shown, in_seq, count);
    } else {
        lemma_exit_onwards(w, shown, in_seq, count);
    }
}

/// A step of the walk gives the text of its state, and what is still to
/// come after it is what was to come before, less that text.
pub proof fn lemma_rest_step<T: Copy>(
    w: InformedView<T>,
    shown: Seq<Seq<char>>,
    in_seq: bool,
    count: int,
)
    requires
        w.wf(),
        on_course(w, in_seq, count),
        !(w.state is End),
    ensures
        rest_text(w, shown, in_seq) == step_text(w, shown, in_seq) + rest_text(
            w.stepped(),
            shown,
            in_row_after(w, in_seq),
        ),
        on_course(w.stepped(), in_row_after(w, in_seq), count_after(w, count)),
{
    match w.state {
        StepInfo::EnterDimension(_) => lemma_enter_step(w, shown, in_seq, count),
        StepInfo::Value(_) => lemma_value_step(w, shown, in_seq, count),
        _ => lemma_exit_step(w, shown, in_seq, count),
    }
}

/// Whether `written` with what the walk has still to give from `w` on is
/// the text of the whole array, whatever the texts of the elements still to
/// come are.
pub open spec fn text_on_course<T: Copy>(
    w: InformedView<T>,
    in_seq: bool,
    written: Seq<char>,
    given: Seq<Seq<char>>,
) -> bool {
    forall|full: Seq<Seq<char>>|
        #![trigger rest_text(w, full, in_seq)]
        full.len() == w.layout.len && full.take(given.len() as int) == given ==> written
            + rest_text(w, full, in_seq) == rows_text(w.layout.shape, full)
}

/// A step of the walk, with the text it gives written, keeps the text on
/// course. `piece` is the text of the element where the step is at one.
pub proof fn lemma_text_step<T: Copy>(
    w: InformedView<T>,
    in_seq: bool,
    written: Seq<char>,
    given: Seq<Seq<char>>,
    piece: Seq<char>,
)
    requires
        w.wf(),
        !(w.state is End),
        on_course(w, in_seq, given.len() as int),
        text_on_course(w, in_seq, written, given),
    ensures
        w.state is Value ==> given.len() < w.layout.len,
        on_course(
            w.stepped(),
            in_row_after(w, in_seq),
            count_after(w, given.len() as int),
        ),
        text_on_course(
            w.stepped(),
            in_row_after(w, in_seq),
            written + step_text(w, given.push(piece), in_seq),
            if w.state is Value {
                given.push(piece)
            } else {
                given
            },
        ),
{
    let next = w.stepped();
    let after = in_row_after(w, in_seq);
    let now = if w.state is Value {
        given.push(piece)
    } else {
        given
    };
    let text = written + step_text(w, given.push(piece), in_seq);
    lemma_rest_step(w, given, in_seq, given.len() as int);
    if w.state is Value {
        crate::walk::lemma_rank_bounds(w.layout.shape, w.counter);
    }
    assert(next.layout == w.layout);
    assert forall|full: Seq<Seq<char>>| #![trigger rest_text(next, full, after)]
        full.len() == w.layout.len && full.take(now.len() as int) == now implies text + rest_text(
        next,
        full,
        after,
    ) == rows_text(w.layout.shape, full) by {
        assert(full.take(given.len() as int) =~= given) by {
            if w.state is Value {
                assert(full.take(now.len() as int).take(given.len() as int) =~= full.take(
                    given.len() as int,
                ));
            }
        }
        let before_rest = rest_text(w, full, in_seq);
        lemma_rest_step(w, full, in_seq, given.len() as int);
        if w.state is Value {
            assert(full.take(now.len() as int)[given.len() as int] == full[given.len() as int]);
            assert(given.push(piece)[given.len() as int] == piece);
        }
        assert(step_text(w, full, in_seq) == step_text(w, given.push(piece), in_seq));
        assert(text + rest_text(next, full, after) =~= written + before_rest);
    }
}

/// The text of the elements that an informed walk visits: a bracket opens
/// and closes with each row of each dimension, indented by its depth, and
/// the elements of an innermost row stand on one line between commas. For
/// a walk that begins at the first index the text is [`rows_text`] of the
/// shape and of one text for each element: the one that the rendering of
/// the element gave, of which nothing more is known.
pub fn render_rows<T: Copy + std::fmt::Display>(walk: InformedSliceIter<'_, T>) -> (text: String)
    requires
        walk@.wf(),
        walk@.state == StepInfo::<T>::EnterDimension(0),
        walk@.pos == position(walk@.layout, walk@.counter),
    ensures
        walk@.counter == origin(walk@.layout.shape.len()) ==> exists|shown: Seq<Seq<char>>|
            #![trigger rows_text(walk@.layout.shape, shown)]
            shown.len() == walk@.layout.len && text@ == rows_text(walk@.layout.shape, shown),
{
    let ghost start = walk@;
    let ghost shape = start.layout.shape;
    let ghost len = start.layout.len as int;
    let ghost fresh = start.counter == origin(shape.len());
    let mut walk = walk;
    let mut text = String::new();
    let mut depth: usize = 0;
    let mut in_seq = false;
    let ghost mut place: int = 0;
    let ghost mut shown: Seq<Seq<char>> = Seq::empty();
    proof {
        let w = walk@;
        crate::layout::lemma_row_major_wf(w.layout.shape, 0);
        crate::walk::lemma_packed_positions(w.layout.shape);
        crate::layout::lemma_product_positive(w.layout.shape);
        crate::walk::lemma_rank_bounds(w.layout.shape, w.counter);
        place = position(LayoutView::row_major(w.layout.shape, 0), w.counter);
        if fresh {
            crate::walk::lemma_weighted_origin(
                row_major_strides(shape),
                shape.len(),
                shape.len() as int,
            );
            assert forall|full: Seq<Seq<char>>| #![trigger rest_text(w, full, in_seq)]
                full.len() == len && full.take(shown.len() as int) == shown implies text@
                + rest_text(w, full, in_seq) == rows_text(shape, full) by {
                assert(text@ + rest_text(w, full, in_seq) =~= rows_text(shape, full));
            }
            assert(text_on_course(w, in_seq, text@, shown));
        }
    }
    loop
        invariant
            walk@.wf(),
            counting(walk@, place).wf(),
            0 <= place < walk@.layout.len,
            depth == open_dimensions(walk@),
            walk@.layout == start.layout,
            fresh ==> on_course(walk@, in_seq, shown.len() as int),
            fresh ==> text_on_course(walk@, in_seq, text@, shown),
        ensures
            walk@.state is End,
            walk@.layout == start.layout,
            fresh ==> on_course(walk@, in_seq, shown.len() as int),
            fresh ==> text_on_course(walk@, in_seq, text@, shown),
            fresh ==> shown.len() <= walk@.layout.len,
        decreases walk@.layout.len - place, phase(walk@),
    {
        let ghost before = walk@;
        let ghost written = text@;
        let ghost was_in_seq = in_seq;
        let ghost given = shown;
        let last: usize = walk.rank() - 1;
        proof {
            if !(before.state is End) {
                lemma_counting_step(before, place);
                place = counting(before, place).stepped().pos;
            }
        }
        match walk.next() {
            Some(StepInfo::EnterDimension(dim)) => {
                push_indent(&mut text, depth);
                push_text(&mut text, "[");
                depth = depth + 1;
                if dim != last {
                    push_text(&mut text, "\n");
                }
                proof {
                    if fresh {
                        lemma_text_step(before, was_in_seq, written, given, Seq::empty());
                        assert(text@ =~= written + step_text(
                            before,
                            given.push(Seq::empty()),
                            was_in_seq,
                        ));
                    }
                }
            },
            Some(StepInfo::ExitDimension(dim)) => {
                depth = depth - 1;
                in_seq = false;
                if dim != last {
                    push_indent(&mut text, depth);
                }
                push_text(&mut text, "]\n");
                proof {
                    if fresh {
                        lemma_text_step(before, was_in_seq, written, given, Seq::empty());
                        assert(text@ =~= written + step_text(
                            before,
                            given.push(Seq::empty()),
                            was_in_seq,
                        ));
                    }
                }
            },
            Some(StepInfo::Value(v)) => {
                if in_seq {
                    push_text(&mut text, ", ");
                }
                let piece = render_value(v);
                push_text(&mut text, piece.as_str());
                in_seq = true;
                proof {
                    shown = shown.push(piece@);
                    if fresh {
                        lemma_text_step(before, was_in_seq, written, given, piece@);
                        assert(given.push(piece@)[given.len() as int] == piece@);
                        assert(text@ =~= written + step_text(
                            before,
                            given.push(piece@),
                            was_in_seq,
                        ));
                    }
                }
            },
            _ => {
                break ;
            },
        }
    }
    proof {
        if fresh {
            let full = Seq::new(
                walk@.layout.len,
                |i: int|
                    if i < shown.len() {
                        shown[i]
                    } else {
                        Seq::<char>::empty()
                    },
            );
            assert(full.take(shown.len() as int) =~= shown);
            assert(text@ + rest_text(walk@, full, in_seq) == rows_text(shape, full));
            assert(text@ =~= rows_text(shape, full));
        }
    }
    text
}

/// Appends two spaces for each of `depth` levels.
fn push_indent(text: &mut String, depth: usize)
    ensures
        final(text)@ == old(text)@ + indentation(depth as int),
{
    let mut level: usize = 0;
    proof {
        assert(text@ =~= old(text)@ + indentation(0));
    }
    while level < depth
        invariant
            0 <= level <= depth,
            text@ == old(text)@ + indentation(level as int),
        decreases depth - level,
    {
        push_text(text, "  ");
        level = level + 1;
        proof {
            assert(text@ =~= old(text)@ + indentation(level as int));
        }
    }
}

impl<T: Copy + std::fmt::Display> RawTensor<T> {
    /// The array as text, if the buffer holds now as many elements as the
    /// shape counts: the rows of the shape, with one text for each element.
    pub fn render(&self) -> (text: Option<String>)
        ensures
            text matches Some(t) ==> exists|shown: Seq<Seq<char>>|
                #![trigger rows_text(self.layout_spec().shape, shown)]
                shown.len() == self.layout_spec().len && t@ == rows_text(
                    self.layout_spec().shape,
                    shown,
                ),
    {
        match self.informed_iter() {
            Some(walk) => Some(render_rows(walk)),
            None => None,
        }
    }
}

impl<T: Copy + std::fmt::Display> RawTensorSlice<T> {
    /// The view as text, if every element the layout selects is in the
    /// buffer now: the rows of the shape, with one text for each element.
    pub fn render(&self) -> (text: Option<String>)
        ensures
            text matches Some(t) ==> exists|shown: Seq<Seq<char>>|
                #![trigger rows_text(self.layout_spec().shape, shown)]
                shown.len() == self.layout_spec().len && t@ == rows_text(
                    self.layout_spec().shape,
                    shown,
                ),
    {
        match self.informed_iter() {
            Some(walk) => Some(render_rows(walk)),
            None => None,
        }
    }
}

impl<T: Copy + std::fmt::Display> TensorData<T> {
    /// The value as text, if every element the layout selects is in the
    /// storage now: the rows of the shape, with one text for each element.
    pub fn render(&self) -> (text: Option<String>)
        ensures
            text matches Some(t) ==> exists|shown: Seq<Seq<char>>|
                #![trigger rows_text(self.layout_spec().shape, shown)]
                shown.len() == self.layout_spec().len && t@ == rows_text(
                    self.layout_spec().shape,
                    shown,
                ),
    {
        match self.informed_iter() {
            Some(walk) => Some(render_rows(walk)),
            None => None,
        }
    }
}

impl<T: Copy + std::fmt::Display> Tensor<T> {
    /// The tensor as text, if every element the layout selects is in the
    /// buffer now: the rows of the shape, with one text for each element.
    pub fn render(&self) -> (text: Option<String>)
        ensures
            text matches Some(t) ==> exists|shown: Seq<Seq<char>>|
                #![trigger rows_text(self.layout_spec().shape, shown)]
                shown.len() == self.layout_spec().len && t@ == rows_text(
                    self.layout_spec().shape,
                    shown,
                ),
    {
        match self.informed_iter() {
            Some(walk) => Some(render_rows(walk)),
            None => None,
        }
    }
}

} // verus!
