//! The computation graph: leaves that hold data, operation nodes, and nodes
//! that remember their result; and the evaluator that sorts and computes it.
use vstd::prelude::*;
use std::sync::Arc;
use std::sync::OnceLock;
use crate::definitions::NumberLike;
use crate::impl_generics::push_text;
use crate::layout::{Layout, LayoutView};
use crate::ops::fusion::{fused_through, fused_with, try_fuse, FusionView};
use crate::ops::impl_compute_op::{compute_layout, layout_rule, OpKind, OpKindView};
use crate::storage::{arc_same, arc_share, TensorData};
use crate::traits::Promising;

verus! {
/// `std::sync::OnceLock`: a slot that is written at most once. Nothing is
/// known of what a slot holds, nor of whether it holds anything.
#[verifier::external_type_specification]
#[verifier::external_body]
#[verifier::reject_recursive_types(X)]
pub struct ExOnceLock<X>(OnceLock<X>);

/// `OnceLock::new`: an empty slot.
#[verifier::external_body]
fn once_new<X>() -> (slot: OnceLock<X>) {
    OnceLock::new()
}

/// `OnceLock::get`: what the slot holds, if it holds anything.
#[verifier::external_body]
fn once_get<X>(slot: &OnceLock<X>) -> (held: Option<&X>) {
    slot.get()
}

/// `OnceLock::set`: puts `value` into the slot if it is empty, and hands it
/// back if it is not.
#[verifier::external_body]
fn once_set<X>(slot: &OnceLock<X>, value: X) -> (refused: Result<(), X>) {
    slot.set(value)
}

/// `Arc::as_ptr`, as a number: the address of the allocation. Two shares
/// that are alive at once have one address exactly if they are shares of
/// one allocation; nothing is claimed of the number.
#[verifier::external_body]
fn arc_address<X>(a: &Arc<X>) -> (address: usize) {
    Arc::as_ptr(a) as usize
}

/// A member of the graph, held by shared ownership so that many expressions
/// can read it.
#[verifier::reject_recursive_types(T)]
pub enum NodeKind<T: Copy> {
    /// A leaf that holds data.
    Edge(Arc<TensorGraphEdge<T>>),
    /// An operation node that remembers its result.
    Cache(Arc<TensorGraphCacheNode<T>>),
    /// An operation node.
    Node(Arc<TensorGraphNode<T>>),
}

/// A leaf of the graph: a materialized value.
#[verifier::reject_recursive_types(T)]
pub struct TensorGraphEdge<T: Copy> {
    data: TensorData<T>,
}

/// An operation on the results of other members of the graph.
#[verifier::reject_recursive_types(T)]
pub struct TensorGraphNode<T: Copy> {
    pub op: OpKind<T>,
    pub inputs: Vec<NodeKind<T>>,
    pub layout: Layout,
}

/// An operation node with a slot that holds its result once it has been
/// computed.
#[verifier::reject_recursive_types(T)]
pub struct TensorGraphCacheNode<T: Copy> {
    node: TensorGraphNode<T>,
    cache: OnceLock<TensorData<T>>,
}

impl<T: Copy> TensorGraphEdge<T> {
    /// The data of the leaf.
    pub closed spec fn data_spec(&self) -> TensorData<T> {
        self.data
    }

    /// A leaf that holds `data`.
    pub fn from_tensor_data(data: TensorData<T>) -> (r: Self)
        ensures
            r.data_spec() == data,
    {
        Self { data }
    }

    /// The data of the leaf.
    pub fn get(&self) -> (r: &TensorData<T>)
        ensures
            *r == self.data_spec(),
    {
        &self.data
    }

}

impl<T: Copy> Promising for TensorGraphEdge<T> {
    type Output = T;

    open spec fn layout_spec(&self) -> LayoutView {
        self.data_spec().layout_spec()
    }

    open spec fn sound(&self) -> bool {
        self.data_spec().wf()
    }

    /// One more share of the leaf's data.
    #[inline]
    fn compute(&self) -> (r: Option<TensorData<T>>)
        ensures
            r matches Some(data) && data.layout_spec() == self.data_spec().layout_spec()
                && data.storage_spec() == self.data_spec().storage_spec(),
    {
        Some(self.data.clone_reference())
    }

    /// The layout of the leaf's data.
    #[inline]
    fn layout(&self) -> (l: &Layout) {
        self.data.layout()
    }
}

impl<T: Copy> Clone for TensorGraphEdge<T> {
    /// A leaf over one more share of the same data.
    fn clone(&self) -> (r: Self)
        ensures
            r.data_spec().layout_spec() == self.data_spec().layout_spec(),
            r.data_spec().storage_spec() == self.data_spec().storage_spec(),
    {
        Self { data: self.data.clone_reference() }
    }
}

impl<T: Copy> TensorGraphCacheNode<T> {
    /// The operation node whose result is remembered.
    pub closed spec fn node_spec(&self) -> TensorGraphNode<T> {
        self.node
    }

    /// A node that remembers the result of `node`, not yet computed.
    pub fn from_node(node: TensorGraphNode<T>) -> (r: Self)
        ensures
            r.node_spec() == node,
    {
        Self { node, cache: once_new() }
    }

    /// The operation node whose result is remembered.
    pub fn get_node(&self) -> (r: &TensorGraphNode<T>)
        ensures
            *r == self.node_spec(),
    {
        &self.node
    }

    /// Whether the result has been computed and is held.
    pub fn is_cache_filled(&self) -> (r: bool) {
        once_get(&self.cache).is_some()
    }

    /// The result, if it has been computed and is held.
    pub fn cached(&self) -> (r: Option<&TensorData<T>>) {
        once_get(&self.cache)
    }

    /// Holds `data` as the result from now on, unless one is held already.
    pub fn fill(&self, data: TensorData<T>) {
        let _ = once_set(&self.cache, data);
    }
}

impl<T: Copy> Clone for NodeKind<T> {
    /// One more share of the same member.
    fn clone(&self) -> (r: Self)
        ensures
            r == *self,
    {
        match self {
            NodeKind::Edge(edge) => NodeKind::Edge(arc_share(edge)),
            NodeKind::Cache(cache) => NodeKind::Cache(arc_share(cache)),
            NodeKind::Node(node) => NodeKind::Node(arc_share(node)),
        }
    }
}

impl<T: Copy> NodeKind<T> {
    /// The members whose results this one reads; none for a leaf.
    pub open spec fn inputs(self) -> Seq<NodeKind<T>> {
        match self {
            NodeKind::Edge(_) => Seq::empty(),
            NodeKind::Node(node) => node.inputs@,
            NodeKind::Cache(cache) => cache.node_spec().inputs@,
        }
    }

    /// The operation of this member; `NoOp` for a leaf.
    pub open spec fn op(self) -> OpKindView<T> {
        match self {
            NodeKind::Edge(_) => OpKindView::NoOp,
            NodeKind::Node(node) => node.op@,
            NodeKind::Cache(cache) => cache.node_spec().op@,
        }
    }

    /// The layout of the result of this member.
    pub open spec fn layout(self) -> LayoutView {
        match self {
            NodeKind::Edge(edge) => edge.data_spec().layout_spec(),
            NodeKind::Node(node) => node.layout@,
            NodeKind::Cache(cache) => cache.node_spec().layout@,
        }
    }

    /// The operation node that this member is or remembers; arbitrary for a
    /// leaf.
    pub open spec fn operation(self) -> TensorGraphNode<T> {
        match self {
            NodeKind::Edge(_) => arbitrary(),
            NodeKind::Node(node) => *node,
            NodeKind::Cache(cache) => cache.node_spec(),
        }
    }

    /// The invariant of a member of the graph. A leaf holds well-formed
    /// data. An operation node has a well-formed operation and layout, at
    /// least as many inputs as the operation reads, inputs that are well
    /// formed themselves, and the layout rules accept the layouts of its
    /// inputs and give a layout of the shape of its own.
    pub open spec fn wf(self) -> bool
        decreases self, 1nat,
    {
        match self {
            NodeKind::Edge(edge) => edge.data_spec().wf(),
            NodeKind::Node(node) => node_wf(*node),
            NodeKind::Cache(cache) => node_wf(cache.node_spec()),
        }
    }
}

/// The inputs of an operation node, remembering or not, are parts of it,
/// and so is the node that a remembering node remembers.
pub proof fn lemma_inputs_smaller<T: Copy>(member: NodeKind<T>)
    ensures
        !(member is Edge) ==> decreases_to!(member => member.inputs()),
        !(member is Edge) ==> decreases_to!(member => member.operation()),
{
}

/// The invariant of an operation node; see [`NodeKind::wf`].
pub open spec fn node_wf<T: Copy>(node: TensorGraphNode<T>) -> bool
    decreases node, 0nat,
{
    &&& node.op@.wf()
    &&& node.layout@.wf()
    &&& node.inputs@.len() >= node.op@.arity()
    &&& forall|i: int| 0 <= i < node.inputs@.len() ==> (#[trigger] node.inputs@[i]).wf()
    &&& layout_rule(node.op@, input_layouts(node.inputs@)) matches Ok(l) && l.shape
        == node.layout@.shape
}

/// The layouts of a list of members.
pub open spec fn input_layouts<T: Copy>(inputs: Seq<NodeKind<T>>) -> Seq<LayoutView> {
    Seq::new(inputs.len(), |i: int| inputs[i].layout())
}

/// The number by which the evaluator tells members apart: the address of the
/// allocation that the member is a share of.
#[inline]
pub fn get_id<T: Copy>(node: &NodeKind<T>) -> (id: usize) {
    match node {
        NodeKind::Edge(edge) => arc_address(edge),
        NodeKind::Node(node) => arc_address(node),
        NodeKind::Cache(cache) => arc_address(cache),
    }
}

/// Renders a number with `format!`, in its `Display` form. Nothing is
/// claimed of the text.
#[verifier::external_body]
fn render_id(id: usize) -> (text: String) {
    format!("{}", id)
}

/// Renders an operation with `format!`, in its `Debug` form. Nothing is
/// claimed of the text.
#[verifier::external_body]
fn render_op<T: Copy + std::fmt::Debug>(op: &OpKind<T>) -> (text: String) {
    format!("{:?}", op)
}

/// The short text for a member, given the texts of its number and of its
/// operation, and whether it holds a result. A leaf has no operation, and
/// only a remembering node says whether it holds a result.
pub open spec fn described<T: Copy>(
    node: NodeKind<T>,
    id: Seq<char>,
    op: Seq<char>,
    filled: bool,
) -> Seq<char> {
    match node {
        NodeKind::Edge(_) => "TensorGraphEdge { id: "@ + id + ", data: [...] }"@,
        NodeKind::Node(_) => "TensorGraphNode { id: "@ + id + ", op: "@ + op
            + ",  inputs: [...] }"@,
        NodeKind::Cache(_) => "TensorGraphNode { id: "@ + id + ", op: "@ + op
            + ",  inputs: [...], cached: "@ + (if filled {
            "true"@
        } else {
            "false"@
        }) + " }"@,
    }
}

/// A short text for a member of the graph: its kind, its number and its
/// operation, without its inputs or its data. The texts of the number and
/// of the operation are those that their own renderings give.
pub fn describe<T: Copy + std::fmt::Debug>(node: &NodeKind<T>) -> (text: String)
    ensures
        exists|id: Seq<char>, op: Seq<char>, filled: bool| #[trigger]
            described(*node, id, op, filled) == text@,
{
    let id = render_id(get_id(node));
    let mut text = String::new();
    match node {
        NodeKind::Edge(_) => {
            push_text(&mut text, "TensorGraphEdge { id: ");
            push_text(&mut text, id.as_str());
            push_text(&mut text, ", data: [...] }");
            proof {
                assert(text@ =~= described(*node, id@, Seq::empty(), false));
            }
        },
        NodeKind::Node(inner) => {
            let op = render_op(&inner.op);
            push_text(&mut text, "TensorGraphNode { id: ");
            push_text(&mut text, id.as_str());
            push_text(&mut text, ", op: ");
            push_text(&mut text, op.as_str());
            push_text(&mut text, ",  inputs: [...] }");
            proof {
                assert(text@ =~= described(*node, id@, op@, false));
            }
        },
        NodeKind::Cache(cache) => {
            let op = render_op(&cache.get_node().op);
            let filled = cache.is_cache_filled();
            push_text(&mut text, "TensorGraphNode { id: ");
            push_text(&mut text, id.as_str());
            push_text(&mut text, ", op: ");
            push_text(&mut text, op.as_str());
            push_text(&mut text, ",  inputs: [...], cached: ");
            if filled {
                push_text(&mut text, "true");
            } else {
                push_text(&mut text, "false");
            }
            push_text(&mut text, " }");
            proof {
                assert(text@ =~= described(*node, id@, op@, filled));
            }
        },
    }
    text
}

/// Whether both are shares of one member.
pub fn same_node<T: Copy>(a: &NodeKind<T>, b: &NodeKind<T>) -> (r: bool)
    ensures
        r ==> *a == *b,
{
    match (a, b) {
        (NodeKind::Edge(x), NodeKind::Edge(y)) => arc_same(x, y),
        (NodeKind::Node(x), NodeKind::Node(y)) => arc_same(x, y),
        (NodeKind::Cache(x), NodeKind::Cache(y)) => arc_same(x, y),
        _ => false,
    }
}

/// The layout of one member.
pub fn node_layout<T: Copy>(node: &NodeKind<T>) -> (l: &Layout)
    ensures
        l@ == node.layout(),
{
    match node {
        NodeKind::Edge(edge) => edge.get().layout(),
        NodeKind::Node(node) => &node.layout,
        NodeKind::Cache(cache) => &cache.get_node().layout,
    }
}

/// The layouts of a list of members, in order.
pub fn get_inputs_layout<T: Copy>(inputs: &[NodeKind<T>]) -> (layouts: Vec<&Layout>)
    ensures
        layouts@.len() == inputs@.len(),
        forall|i: int| 0 <= i < inputs@.len() ==> (#[trigger] layouts@[i])@ == inputs@[i].layout(),
{
    let mut layouts: Vec<&Layout> = Vec::with_capacity(inputs.len());
    let mut i: usize = 0;
    while i < inputs.len()
        invariant
            0 <= i <= inputs@.len(),
            layouts@.len() == i,
            forall|k: int| 0 <= k < i ==> (#[trigger] layouts@[k])@ == inputs@[k].layout(),
        decreases inputs@.len() - i,
    {
        layouts.push(node_layout(&inputs[i]));
        i = i + 1;
    }
    layouts
}

/// Whether an operation node can be built from `op` and `inputs`: the
/// operation is well formed, the inputs are well formed and as many as it
/// reads, and the layout rules accept their layouts.
pub open spec fn admissible<T: Copy>(op: OpKindView<T>, inputs: Seq<NodeKind<T>>) -> bool {
    &&& op.wf()
    &&& inputs.len() >= op.arity()
    &&& forall|i: int| 0 <= i < inputs.len() ==> (#[trigger] inputs[i]).wf()
    &&& layout_rule(op, input_layouts(inputs)) is Ok
}

/// The layout that the layout rules give an operation on the given inputs.
pub open spec fn ruled_layout<T: Copy>(op: OpKindView<T>, inputs: Seq<NodeKind<T>>) -> LayoutView {
    match layout_rule(op, input_layouts(inputs)) {
        Ok(l) => l,
        Err(_) => arbitrary(),
    }
}

/// A step of the rewriter keeps an operation with its inputs admissible.
pub proof fn lemma_fused_with_admissible<T: NumberLike>(current: FusionView<T>, input: NodeKind<T>)
    requires
        admissible(current.op, current.inputs),
        input.wf(),
    ensures
        admissible(fused_with(current, input).op, fused_with(current, input).inputs),
{
    let next = fused_with(current, input);
}

/// The rewriter keeps an operation with its inputs admissible.
pub proof fn lemma_fused_through_admissible<T: NumberLike>(
    op: OpKindView<T>,
    inputs: Seq<NodeKind<T>>,
    k: int,
)
    requires
        admissible(op, inputs),
        0 <= k <= inputs.len(),
    ensures
        admissible(fused_through(op, inputs, k).op, fused_through(op, inputs, k).inputs),
    decreases k,
{
    if k > 0 {
        lemma_fused_through_admissible(op, inputs, k - 1);
        lemma_fused_with_admissible(fused_through(op, inputs, k - 1), inputs[k - 1]);
    }
}

impl<T: NumberLike> TensorGraphNode<T> {
    /// The node of `op` on `inputs`, rewritten by fusion, with the layout
    /// that the layout rules give it.
    pub fn new(op: OpKind<T>, inputs: Vec<NodeKind<T>>) -> (r: Self)
        requires
            admissible(op@, inputs@),
        ensures
            node_wf(r),
            r.op@ == fused_through(op@, inputs@, inputs@.len() as int).op,
            r.inputs@ == fused_through(op@, inputs@, inputs@.len() as int).inputs,
            r.layout@ == ruled_layout(r.op@, r.inputs@),
    {
        proof {
            lemma_fused_through_admissible(op@, inputs@, inputs@.len() as int);
        }
        let fused = try_fuse(op, inputs);
        let layouts = get_inputs_layout(fused.inputs.as_slice());
        let layout = match compute_layout(&fused.op, layouts.as_slice()) {
            Ok(layout) => layout,
            Err(_) => vstd::pervasive::unreached(),
        };
        proof {
            lemma_ruled_layout_wf(fused.op@, fused.inputs@);
        }
        Self { op: fused.op, inputs: fused.inputs, layout }
    }

    /// The node of `op` on `inputs`, rewritten by fusion, with a layout
    /// computed beforehand. The layout is taken as it is.
    pub fn with_layout(op: OpKind<T>, inputs: Vec<NodeKind<T>>, layout: Layout) -> (r: Self)
        requires
            admissible(op@, inputs@),
            layout.wf(),
            layout@.shape == ruled_layout(
                fused_through(op@, inputs@, inputs@.len() as int).op,
                fused_through(op@, inputs@, inputs@.len() as int).inputs,
            ).shape,
        ensures
            node_wf(r),
            r.op@ == fused_through(op@, inputs@, inputs@.len() as int).op,
            r.inputs@ == fused_through(op@, inputs@, inputs@.len() as int).inputs,
            r.layout@ == layout@,
    {
        proof {
            lemma_fused_through_admissible(op@, inputs@, inputs@.len() as int);
        }
        let fused = try_fuse(op, inputs);
        Self { op: fused.op, inputs: fused.inputs, layout }
    }
}

/// The layout that the rules give an admissible operation is well formed.
pub proof fn lemma_ruled_layout_wf<T: Copy>(op: OpKindView<T>, inputs: Seq<NodeKind<T>>)
    requires
        admissible(op, inputs),
    ensures
        ruled_layout(op, inputs).wf(),
{
    lemma_member_layout_wf(inputs[0]);
}

/// The layout of a well-formed member is well formed.
pub proof fn lemma_member_layout_wf<T: Copy>(node: NodeKind<T>)
    requires
        node.wf(),
    ensures
        node.layout().wf(),
{
}

impl<T: NumberLike> TensorGraphCacheNode<T> {
    /// The remembering node of `op` on `inputs`; see
    /// [`TensorGraphNode::new`].
    pub fn new(op: OpKind<T>, inputs: Vec<NodeKind<T>>) -> (r: Self)
        requires
            admissible(op@, inputs@),
        ensures
            node_wf(r.node_spec()),
            r.node_spec().op@ == fused_through(op@, inputs@, inputs@.len() as int).op,
            r.node_spec().inputs@ == fused_through(op@, inputs@, inputs@.len() as int).inputs,
            r.node_spec().layout@ == ruled_layout(r.node_spec().op@, r.node_spec().inputs@),
    {
        Self { node: TensorGraphNode::new(op, inputs), cache: once_new() }
    }

    /// The remembering node of `op` on `inputs` with a layout computed
    /// beforehand; see [`TensorGraphNode::with_layout`].
    pub fn with_layout(op: OpKind<T>, inputs: Vec<NodeKind<T>>, layout: Layout) -> (r: Self)
        requires
            admissible(op@, inputs@),
            layout.wf(),
            layout@.shape == ruled_layout(
                fused_through(op@, inputs@, inputs@.len() as int).op,
                fused_through(op@, inputs@, inputs@.len() as int).inputs,
            ).shape,
        ensures
            node_wf(r.node_spec()),
            r.node_spec().op@ == fused_through(op@, inputs@, inputs@.len() as int).op,
            r.node_spec().inputs@ == fused_through(op@, inputs@, inputs@.len() as int).inputs,
            r.node_spec().layout@ == layout@,
    {
        Self { node: TensorGraphNode::with_layout(op, inputs, layout), cache: once_new() }
    }
}

} // verus!
