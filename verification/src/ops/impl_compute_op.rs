//! The catalogue of operations, the layout each one gives its result, and the
//! kernels that compute them on the CPU.
use vstd::prelude::*;
use crate::definitions::NumberLike;
use crate::errors::OpError;

use crate::iter::ChunkedSliceIter;
use crate::layout::{Layout, LayoutView};
use crate::storage::{checked_dense, walk_over, DenseData};
use crate::walk::{gathered, layout_fits};

verus! {
/// An operation between every element and one scalar.
#[derive(Clone, Copy, Debug)]
pub enum OpScalarKind<T: Copy> {
    /// element + scalar
    Sum(T),
    /// element - scalar
    Sub(T),
    /// element * scalar
    Mul(T),
    /// element / scalar
    Div(T),
}

/// An operation of the graph.
#[derive(Debug)]
pub enum OpKind<T: Copy> {
    /// The input, passed through.
    NoOp,
    /// Element by element, input 0 + input 1.
    Add,
    /// Element by element, input 0 - input 1.
    Sub,
    /// Element by element, input 0 * input 1.
    Mul,
    /// Element by element, input 0 / input 1.
    Div,
    /// One scalar operation on every element of the input.
    ScalarOp(OpScalarKind<T>),
    /// A chain of scalar operations applied in order to every element of the
    /// input.
    FusedScalar(Vec<OpScalarKind<T>>),
    /// The buffer of the input read under another layout.
    View(Layout),
}

/// The mathematical value of an [`OpKind`].
pub enum OpKindView<T: Copy> {
    NoOp,
    Add,
    Sub,
    Mul,
    Div,
    ScalarOp(OpScalarKind<T>),
    FusedScalar(Seq<OpScalarKind<T>>),
    View(LayoutView),
}

impl<T: Copy> View for OpKind<T> {
    type V = OpKindView<T>;

    open spec fn view(&self) -> OpKindView<T> {
        match self {
            OpKind::NoOp => OpKindView::NoOp,
            OpKind::Add => OpKindView::Add,
            OpKind::Sub => OpKindView::Sub,
            OpKind::Mul => OpKindView::Mul,
            OpKind::Div => OpKindView::Div,
            OpKind::ScalarOp(s) => OpKindView::ScalarOp(*s),
            OpKind::FusedScalar(ops) => OpKindView::FusedScalar(ops@),
            OpKind::View(l) => OpKindView::View(l@),
        }
    }
}

impl<T: Copy> Clone for OpKind<T> {
    fn clone(&self) -> (r: Self)
        ensures
            r@ == self@,
    {
        match self {
            OpKind::NoOp => OpKind::NoOp,
            OpKind::Add => OpKind::Add,
            OpKind::Sub => OpKind::Sub,
            OpKind::Mul => OpKind::Mul,
            OpKind::Div => OpKind::Div,
            OpKind::ScalarOp(s) => OpKind::ScalarOp(*s),
            OpKind::FusedScalar(ops) => OpKind::FusedScalar(crate::storage::clone_elements(ops)),
            OpKind::View(l) => OpKind::View(l.clone()),
        }
    }
}

impl<T: NumberLike> OpScalarKind<T> {
    /// What the operation makes of the element `x`.
    pub open spec fn apply(self, x: T) -> T {
        match self {
            OpScalarKind::Sum(s) => x.plus_spec(s),
            OpScalarKind::Sub(s) => x.minus_spec(s),
            OpScalarKind::Mul(s) => x.times_spec(s),
            OpScalarKind::Div(s) => x.over_spec(s),
        }
    }

    /// Applies the operation to one element.
    pub fn apply_to(&self, x: T) -> (r: T)
        ensures
            r == self.apply(x),
    {
        match self {
            OpScalarKind::Sum(s) => x.plus(*s),
            OpScalarKind::Sub(s) => x.minus(*s),
            OpScalarKind::Mul(s) => x.times(*s),
            OpScalarKind::Div(s) => x.over(*s),
        }
    }
}

/// What a chain of scalar operations, applied in order, makes of `x`.
pub open spec fn apply_chain<T: NumberLike>(ops: Seq<OpScalarKind<T>>, x: T) -> T
    decreases ops.len(),
{
    if ops.len() == 0 {
        x
    } else {
        ops.last().apply(apply_chain(ops.drop_last(), x))
    }
}

/// The four operations between two tensors.
#[derive(Clone, Copy, Debug, PartialEq, Eq, Structural)]
pub enum BinaryKind {
    Add,
    Sub,
    Mul,
    Div,
}

impl BinaryKind {
    /// What the operation makes of the elements `x` and `y`.
    pub open spec fn apply<T: NumberLike>(self, x: T, y: T) -> T {
        match self {
            BinaryKind::Add => x.plus_spec(y),
            BinaryKind::Sub => x.minus_spec(y),
            BinaryKind::Mul => x.times_spec(y),
            BinaryKind::Div => x.over_spec(y),
        }
    }

    /// Applies the operation to two elements.
    pub fn apply_to<T: NumberLike>(self, x: T, y: T) -> (r: T)
        ensures
            r == self.apply(x, y),
    {
        match self {
            BinaryKind::Add => x.plus(y),
            BinaryKind::Sub => x.minus(y),
            BinaryKind::Mul => x.times(y),
            BinaryKind::Div => x.over(y),
        }
    }
}

impl<T: Copy> OpKindView<T> {
    /// The operation between two tensors that this is, if it is one.
    pub open spec fn binary(self) -> Option<BinaryKind> {
        match self {
            OpKindView::Add => Some(BinaryKind::Add),
            OpKindView::Sub => Some(BinaryKind::Sub),
            OpKindView::Mul => Some(BinaryKind::Mul),
            OpKindView::Div => Some(BinaryKind::Div),
            _ => None,
        }
    }

    /// The number of inputs the operation reads.
    pub open spec fn arity(self) -> nat {
        if self.binary() is Some {
            2
        } else {
            1
        }
    }

    /// Whether the operation is well formed: the layout of a view is.
    pub open spec fn wf(self) -> bool {
        self matches OpKindView::View(l) ==> l.wf()
    }
}

/// The mathematical value of a [`DenseData`].
pub struct DenseView<T> {
    pub data: Seq<T>,
    pub layout: LayoutView,
}

impl<T> DenseView<T> {
    /// The invariant: a well-formed layout that fits the elements.
    pub open spec fn wf(self) -> bool {
        self.layout.wf() && layout_fits(self.layout, self.data.len() as int)
    }

    /// The elements the layout selects, in row-major order.
    pub open spec fn elements(self) -> Seq<T> {
        gathered(self.data, self.layout)
    }

    /// `elements` in row-major order under the row-major layout of `shape`.
    pub open spec fn packed(elements: Seq<T>, shape: Seq<i32>) -> DenseView<T> {
        DenseView { data: elements, layout: LayoutView::row_major(shape, 0) }
    }
}

impl<T: Copy> View for DenseData<T> {
    type V = DenseView<T>;

    open spec fn view(&self) -> DenseView<T> {
        DenseView { data: self.data@, layout: self.layout@ }
    }
}

/// The views of a list of dense values.
pub open spec fn dense_views<T: Copy>(inputs: Seq<DenseData<T>>) -> Seq<DenseView<T>> {
    Seq::new(inputs.len(), |i: int| inputs[i]@)
}

/// Whether `inputs` are inputs that `op` can be computed on: as many as it
/// reads, each well formed, and of one shape where it reads two.
pub open spec fn inputs_admissible<T: Copy>(op: OpKindView<T>, inputs: Seq<DenseView<T>>) -> bool {
    &&& op.wf()
    &&& inputs.len() >= op.arity()
    &&& forall|i: int| 0 <= i < inputs.len() ==> (#[trigger] inputs[i]).wf()
    &&& op.binary() is Some ==> inputs[0].layout.shape == inputs[1].layout.shape
}

/// Whether `inputs` are inputs that `op` can be computed on; see
/// [`inputs_admissible`].
pub fn admissible_inputs<T: Copy>(op: &OpKind<T>, inputs: &Vec<DenseData<T>>) -> (r: bool)
    ensures
        r == inputs_admissible(op@, dense_views(inputs@)),
{
    let ghost views = dense_views(inputs@);
    let needed: usize = match op {
        OpKind::Add | OpKind::Sub | OpKind::Mul | OpKind::Div => 2,
        OpKind::View(layout) => {
            if !layout.is_well_formed() {
                return false;
            }
            1
        },
        _ => 1,
    };
    if inputs.len() < needed {
        return false;
    }
    let mut i: usize = 0;
    while i < inputs.len()
        invariant
            0 <= i <= inputs@.len(),
            views == dense_views(inputs@),
            forall|k: int| 0 <= k < i ==> (#[trigger] views[k]).wf(),
        decreases inputs@.len() - i,
    {
        if !inputs[i].is_well_formed() {
            proof {
                assert(!views[i as int].wf());
            }
            return false;
        }
        i = i + 1;
    }
    if needed == 2 {
        proof {
            assert(views[0].layout.shape == inputs@[0].layout@.shape);
            assert(views[1].layout.shape == inputs@[1].layout@.shape);
        }
        same_shape(inputs[0].layout.shape(), inputs[1].layout.shape())
    } else {
        true
    }
}

/// What an operation computes from its inputs. A view reads the buffer of
/// its input under its own layout, and has no result where that layout does
/// not fit the buffer; every other operation but `NoOp` gives a packed value
/// of the shape of input 0.
pub open spec fn evaluate_op<T: NumberLike>(
    op: OpKindView<T>,
    inputs: Seq<DenseView<T>>,
) -> Option<DenseView<T>> {
    let first = inputs[0];
    match op {
        OpKindView::NoOp => Some(first),
        OpKindView::View(l) => if layout_fits(l, first.data.len() as int) {
            Some(DenseView { data: first.data, layout: l })
        } else {
            None
        },
        OpKindView::ScalarOp(s) => Some(
            DenseView::packed(
                Seq::new(first.layout.len, |i: int| s.apply(first.elements()[i])),
                first.layout.shape,
            ),
        ),
        OpKindView::FusedScalar(ops) => Some(
            DenseView::packed(
                Seq::new(first.layout.len, |i: int| apply_chain(ops, first.elements()[i])),
                first.layout.shape,
            ),
        ),
        _ => Some(
            DenseView::packed(
                Seq::new(
                    first.layout.len,
                    |i: int| op.binary().unwrap().apply(first.elements()[i], inputs[1].elements()[i]),
                ),
                first.layout.shape,
            ),
        ),
    }
}

/// The view of a result that may be missing.
pub open spec fn dense_option_view<T: Copy>(r: Option<DenseData<T>>) -> Option<DenseView<T>> {
    match r {
        Some(d) => Some(d@),
        None => None,
    }
}

/// Applies a scalar operation to every element, in place.
pub fn compute_scalar_op<T: NumberLike>(op: &OpScalarKind<T>, input: Vec<T>) -> (output: Vec<T>)
    ensures
        output@.len() == input@.len(),
        forall|i: int| 0 <= i < input@.len() ==> #[trigger] output@[i] == op.apply(input@[i]),
{
    let mut buffer = input;
    let mut i: usize = 0;
    while i < buffer.len()
        invariant
            buffer@.len() == input@.len(),
            0 <= i <= buffer@.len(),
            forall|k: int| 0 <= k < i ==> #[trigger] buffer@[k] == op.apply(input@[k]),
            forall|k: int| i <= k < buffer@.len() ==> #[trigger] buffer@[k] == input@[k],
        decreases buffer@.len() - i,
    {
        let x: T = buffer[i];
        buffer.set(i, op.apply_to(x));
        i = i + 1;
    }
    buffer
}

/// Applies a chain of scalar operations, in order, to every element, in
/// place, each with the kernel of the element type.
pub fn compute_fused_scalar<T: RunKernels>(
    ops: &Vec<OpScalarKind<T>>,
    input: Vec<T>,
) -> (output: Vec<T>)
    ensures
        output@.len() == input@.len(),
        forall|i: int| 0 <= i < input@.len() ==> #[trigger] output@[i] == apply_chain(ops@, input@[i]),
{
    let mut buffer = input;
    let mut k: usize = 0;
    while k < ops.len()
        invariant
            buffer@.len() == input@.len(),
            0 <= k <= ops@.len(),
            forall|i: int|
                0 <= i < input@.len() ==> #[trigger] buffer@[i] == apply_chain(
                    ops@.take(k as int),
                    input@[i],
                ),
        decreases ops@.len() - k,
    {
        buffer = T::scalar_run(&ops[k], buffer);
        proof {
            let grown = ops@.take(k + 1);
            assert(grown.drop_last() =~= ops@.take(k as int));
        }
        k = k + 1;
    }
    proof {
        assert(ops@.take(ops@.len() as int) =~= ops@);
    }
    buffer
}

/// Combines a run of `output`, from `at` on, element by element with
/// `chunk`, in place.
pub fn compute_run<T: NumberLike>(kind: BinaryKind, output: &mut Vec<T>, at: usize, chunk: &Vec<T>)
    requires
        at + chunk@.len() <= old(output)@.len(),
    ensures
        final(output)@.len() == old(output)@.len(),
        forall|i: int|
            0 <= i < old(output)@.len() ==> #[trigger] final(output)@[i] == if at <= i < at
                + chunk@.len() {
                kind.apply(old(output)@[i], chunk@[i - at])
            } else {
                old(output)@[i]
            },
{
    let ghost before = output@;
    let total: usize = output.len();
    let mut i: usize = 0;
    while i < chunk.len()
        invariant
            output@.len() == before.len(),
            before.len() == total,
            at + chunk@.len() <= before.len(),
            0 <= i <= chunk@.len(),
            forall|k: int|
                0 <= k < before.len() ==> #[trigger] output@[k] == if at <= k < at + i {
                    kind.apply(before[k], chunk@[k - at])
                } else {
                    before[k]
                },
        decreases chunk@.len() - i,
    {
        let x: T = output[at + i];
        output.set(at + i, kind.apply_to(x, chunk[i]));
        i = i + 1;
    }
}

/// Combines `lhs` with the elements of `rhs`, element by element, in place.
/// Where `rhs` is packed, its buffer is combined in one run. Else the
/// elements of `rhs` are taken in packed runs, each combined with the run of
/// `lhs` at the same place. Every run is combined by the kernel of the
/// element type.
pub fn compute_binary_op<T: RunKernels>(
    kind: BinaryKind,
    lhs: Vec<T>,
    rhs: &DenseData<T>,
) -> (output: Vec<T>)
    requires
        rhs.wf(),
        lhs@.len() == rhs.layout@.len,
    ensures
        output@.len() == lhs@.len(),
        forall|i: int|
            0 <= i < lhs@.len() ==> #[trigger] output@[i] == kind.apply(lhs@[i], rhs.elements()[i]),
{
    let mut output = lhs;
    proof {
        crate::layout::lemma_layout_bounds(rhs.layout);
    }
    if rhs.layout.offset() == 0 && rhs.data.len() == rhs.layout.len() && rhs.layout.is_contiguous() {
        proof {
            crate::layout::law_view_of_own_shape(rhs.layout@);
            crate::walk::lemma_packed_positions(rhs.layout@.shape);
        }
        T::combine_run(kind, &mut output, 0, &rhs.data);
        return output;
    }
    let source = crate::storage::clone_elements(&rhs.data);
    match walk_over(source, &rhs.layout) {
        Some(it) => {
            let ghost all = it@.remaining();
            let mut chunks = ChunkedSliceIter::new(it);
            loop
                invariant
                    chunks@.wf(),
                    all == rhs.elements(),
                    all.len() == lhs@.len(),
                    output@.len() == lhs@.len(),
                    chunks@.position + chunks@.walk.left_over == all.len(),
                    chunks@.walk.remaining() == all.skip(chunks@.position as int),
                    forall|i: int|
                        0 <= i < lhs@.len() ==> #[trigger] output@[i] == if i < chunks@.position {
                            kind.apply(lhs@[i], all[i])
                        } else {
                            lhs@[i]
                        },
                ensures
                    forall|i: int|
                        0 <= i < lhs@.len() ==> #[trigger] output@[i] == kind.apply(
                            lhs@[i],
                            all[i],
                        ),
                decreases chunks@.walk.left_over,
            {
                let ghost before = chunks@;
                match chunks.next() {
                    Some(chunk) => {
                        proof {
                            crate::iter::lemma_walk_elements_len(before.walk);
                        }
                        T::combine_run(
                            kind,
                            &mut output,
                            chunk.absolute_buffer_position,
                            &chunk.packing_buffer,
                        );
                    },
                    None => {
                        break ;
                    },
                }
            }
        },
        None => {},
    }
    output
}

/// Whether two shapes are the same.
pub fn same_shape(a: &[i32], b: &[i32]) -> (r: bool)
    ensures
        r == (a@ == b@),
{
    if a.len() != b.len() {
        return false;
    }
    let mut i: usize = 0;
    while i < a.len()
        invariant
            a@.len() == b@.len(),
            0 <= i <= a@.len(),
            forall|k: int| 0 <= k < i ==> a@[k] == b@[k],
        decreases a@.len() - i,
    {
        if a[i] != b[i] {
            return false;
        }
        i = i + 1;
    }
    proof {
        assert(a@ =~= b@);
    }
    true
}

/// The layout that the layout rules give the result of `op` on inputs of the
/// given layouts, or the two shapes that do not agree.
pub open spec fn layout_rule<T: Copy>(op: OpKindView<T>, inputs: Seq<LayoutView>) -> Result<
    LayoutView,
    (Seq<i32>, Seq<i32>),
> {
    match op {
        OpKindView::View(l) => Ok(l),
        OpKindView::ScalarOp(_) | OpKindView::FusedScalar(_) | OpKindView::NoOp => Ok(inputs[0]),
        _ => if inputs[0].shape == inputs[1].shape {
            Ok(inputs[0])
        } else {
            Err((inputs[0].shape, inputs[1].shape))
        },
    }
}

/// The views of a list of layouts.
pub open spec fn layout_views(inputs: Seq<&Layout>) -> Seq<LayoutView> {
    Seq::new(inputs.len(), |i: int| inputs[i]@)
}

/// The layout of the result of `op` on inputs of the given layouts: that of
/// a view is its own, that of every other operation is the layout of input
/// 0. An operation between two tensors is refused where their shapes differ.
pub fn compute_layout<'a, T: Copy>(op: &OpKind<T>, inputs: &[&'a Layout]) -> (r: Result<
    Layout,
    OpError<'a>,
>)
    requires
        inputs@.len() >= op@.arity(),
    ensures
        match layout_rule(op@, layout_views(inputs@)) {
            Ok(l) => r matches Ok(got) && got@ == l,
            Err((expected, found)) => r matches Err(OpError::NotSameShape(a, b)) && a@ == expected
                && b@ == found,
        },
{
    match op {
        OpKind::ScalarOp(_) | OpKind::FusedScalar(_) | OpKind::NoOp => Ok(inputs[0].clone()),
        OpKind::View(new_layout) => Ok(new_layout.clone()),
        OpKind::Add | OpKind::Sub | OpKind::Mul | OpKind::Div => {
            if same_shape(inputs[0].shape(), inputs[1].shape()) {
                Ok(inputs[0].clone())
            } else {
                Err(OpError::NotSameShape(inputs[0].shape(), inputs[1].shape()))
            }
        },
    }
}

/// Takes the first of a list of values.
fn take_first<T: Copy>(inputs: Vec<DenseData<T>>) -> (first: DenseData<T>)
    requires
        inputs@.len() >= 1,
    ensures
        first == inputs@[0],
{
    let mut rest = inputs;
    rest.swap_remove(0)
}

/// Takes the first two of a list of values.
fn take_two<T: Copy>(inputs: Vec<DenseData<T>>) -> (pair: (DenseData<T>, DenseData<T>))
    requires
        inputs@.len() >= 2,
    ensures
        pair.0 == inputs@[0],
        pair.1 == inputs@[1],
{
    let mut rest = inputs;
    let second = rest.swap_remove(1);
    let first = rest.swap_remove(0);
    (first, second)
}

/// Computes one operation on the CPU. An input that is consumed is worked on
/// in place where its buffer is packed; the second input of an operation
/// between two tensors is streamed in packed runs. The runs are worked on
/// by the kernels of the element type.
pub fn cpu_compute_op<T: RunKernels>(op: &OpKind<T>, inputs: Vec<DenseData<T>>) -> (r:
    Option<DenseData<T>>)
    requires
        inputs_admissible(op@, dense_views(inputs@)),
    ensures
        dense_option_view(r) == evaluate_op(op@, dense_views(inputs@)),
        r matches Some(d) ==> d.wf(),
{
    let ghost views = dense_views(inputs@);
    match op {
        OpKind::NoOp => Some(take_first(inputs)),
        OpKind::View(new_layout) => {
            let first = take_first(inputs);
            checked_dense(first.data, new_layout.clone())
        },
        OpKind::ScalarOp(scalar) => {
            let first = take_first(inputs);
            let shape = vstd::slice::slice_to_vec(first.layout.shape());
            let buffer = T::scalar_run(scalar, first.into_elements());
            proof {
                assert(buffer@ =~= Seq::new(
                    views[0].layout.len,
                    |i: int| scalar.apply(views[0].elements()[i]),
                ));
            }
            Some(DenseData::packed(buffer, shape.as_slice()))
        },
        OpKind::FusedScalar(ops) => {
            let first = take_first(inputs);
            let shape = vstd::slice::slice_to_vec(first.layout.shape());
            let buffer = compute_fused_scalar(ops, first.into_elements());
            proof {
                assert(buffer@ =~= Seq::new(
                    views[0].layout.len,
                    |i: int| apply_chain(ops@, views[0].elements()[i]),
                ));
            }
            Some(DenseData::packed(buffer, shape.as_slice()))
        },
        OpKind::Add | OpKind::Sub | OpKind::Mul | OpKind::Div => {
            let kind = match op {
                OpKind::Add => BinaryKind::Add,
                OpKind::Sub => BinaryKind::Sub,
                OpKind::Mul => BinaryKind::Mul,
                _ => BinaryKind::Div,
            };
            let (first, second) = take_two(inputs);
            let shape = vstd::slice::slice_to_vec(first.layout.shape());
            let buffer = compute_binary_op(kind, first.into_elements(), &second);
            proof {
                assert(buffer@ =~= Seq::new(
                    views[0].layout.len,
                    |i: int| kind.apply(views[0].elements()[i], views[1].elements()[i]),
                ));
            }
            Some(DenseData::packed(buffer, shape.as_slice()))
        },
    }
}

/// The kernels of an element type: how a scalar operation is applied to a
/// buffer, and how a run of elements is combined with another. What an
/// implementation computes is what the arithmetic of the type gives,
/// element by element.
pub trait RunKernels: NumberLike {
    /// Applies a scalar operation to every element, in place.
    fn scalar_run(op: &OpScalarKind<Self>, input: Vec<Self>) -> (output: Vec<Self>)
        ensures
            output@.len() == input@.len(),
            forall|i: int| 0 <= i < input@.len() ==> #[trigger] output@[i] == op.apply(input@[i]),
    ;

    /// Combines the run of `output` that begins at `at`, element by element
    /// with `chunk`, in place.
    fn combine_run(kind: BinaryKind, output: &mut Vec<Self>, at: usize, chunk: &Vec<Self>)
        requires
            at + chunk@.len() <= old(output)@.len(),
        ensures
            final(output)@.len() == old(output)@.len(),
            forall|i: int|
                0 <= i < old(output)@.len() ==> #[trigger] final(output)@[i] == if at <= i < at
                    + chunk@.len() {
                    kind.apply(old(output)@[i], chunk@[i - at])
                } else {
                    old(output)@[i]
                },
    ;
}

/// An element type on which operations can be computed. What an
/// implementation computes is what [`evaluate_op`] says, over the
/// arithmetic of the type.
pub trait ComputeWrapperSpec: RunKernels {
    /// Computes one operation on inputs of this element type.
    fn compute_for_type(op: &OpKind<Self>, inputs: Vec<DenseData<Self>>) -> (r: Option<
        DenseData<Self>,
    >)
        requires
            inputs_admissible(op@, dense_views(inputs@)),
        ensures
            dense_option_view(r) == evaluate_op(op@, dense_views(inputs@)),
            r matches Some(d) ==> d.wf(),
    ;
}

impl RunKernels for i64 {
    #[inline]
    fn scalar_run(op: &OpScalarKind<i64>, input: Vec<i64>) -> (output: Vec<i64>) {
        compute_scalar_op(op, input)
    }

    #[inline]
    fn combine_run(kind: BinaryKind, output: &mut Vec<i64>, at: usize, chunk: &Vec<i64>) {
        compute_run(kind, output, at, chunk)
    }
}

impl ComputeWrapperSpec for i64 {
    #[inline]
    fn compute_for_type(op: &OpKind<i64>, inputs: Vec<DenseData<i64>>) -> (r: Option<
        DenseData<i64>,
    >) {
        cpu_compute_op(op, inputs)
    }
}

/// Computes one operation with the kernels of the element type.
#[inline]
pub fn cpu_compute<T: ComputeWrapperSpec>(op: &OpKind<T>, inputs: Vec<DenseData<T>>) -> (r: Option<
    DenseData<T>,
>)
    requires
        inputs_admissible(op@, dense_views(inputs@)),
    ensures
        dense_option_view(r) == evaluate_op(op@, dense_views(inputs@)),
        r matches Some(d) ==> d.wf(),
{
    T::compute_for_type(op, inputs)
}

} // verus!
