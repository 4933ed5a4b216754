//! Evaluating the graph: what a sorted graph computes from what is read for
//! its leaves, and the walk through the order that computes it.
use vstd::prelude::*;
use std::collections::HashMap;
use crate::definitions::NumberLike;
use crate::graph::{
    input_layouts, node_wf, ruled_layout, NodeKind, TensorGraphCacheNode, TensorGraphNode,
};
use crate::layout::{Layout, LayoutView};
use crate::ops::impl_compute_op::{
    cpu_compute, dense_option_view, dense_views, evaluate_op, inputs_admissible, layout_rule,
    same_shape, ComputeWrapperSpec, DenseView, OpKind, OpKindView,
};
use crate::plan::{
    demand, entry_sound, occurrences, order_sound, pending, too_many_reads, Plan, PlanEntry,
};
use crate::storage::{clone_elements, DenseData, TensorData};
use crate::traits::Promising;

verus! {
/// Whether every value of the list is there.
pub open spec fn all_there<T>(values: Seq<Option<DenseView<T>>>) -> bool {
    forall|p: int| 0 <= p < values.len() ==> (#[trigger] values[p]) is Some
}

/// The values of a list in which every value is there.
pub open spec fn those_there<T>(values: Seq<Option<DenseView<T>>>) -> Seq<DenseView<T>> {
    Seq::new(values.len(), |p: int| values[p]->Some_0)
}

/// The value that evaluating the order gives place `k`, from the values
/// `leaves` that were read for the places that are read: for such a place
/// the value read, if there is one; for a place that is computed what its
/// operation makes of the values of its inputs, if all of them have one.
pub open spec fn entry_value<T: NumberLike>(
    order: Seq<PlanEntry<T>>,
    leaves: Map<usize, DenseView<T>>,
    k: int,
) -> Option<DenseView<T>>
    decreases k, 1nat,
{
    if k < 0 || k >= order.len() {
        None
    } else if order[k].leaf {
        if leaves.contains_key(k as usize) {
            Some(leaves[k as usize])
        } else {
            None
        }
    } else {
        let values = input_values(order, leaves, order[k].inputs@, k);
        if all_there(values) {
            evaluate_op(order[k].node.op(), those_there(values))
        } else {
            None
        }
    }
}

/// The values of the places `slots`, each of which is to lie before
/// `bound`.
pub open spec fn input_values<T: NumberLike>(
    order: Seq<PlanEntry<T>>,
    leaves: Map<usize, DenseView<T>>,
    slots: Seq<usize>,
    bound: int,
) -> Seq<Option<DenseView<T>>>
    decreases bound, 0nat,
{
    Seq::new(
        slots.len(),
        |p: int|
            if 0 <= slots[p] < bound {
                entry_value(order, leaves, slots[p] as int)
            } else {
                None
            },
    )
}

/// What evaluating a plan gives its root, from the values `leaves` that
/// were read: what the operation of the root makes of the values of its
/// inputs, if every place of the order has a value.
pub open spec fn plan_value<T: NumberLike>(
    op: OpKindView<T>,
    plan: Plan<T>,
    leaves: Map<usize, DenseView<T>>,
) -> Option<DenseView<T>> {
    if forall|k: int| 0 <= k < plan.order@.len() ==> (#[trigger] entry_value(plan.order@, leaves, k))
        is Some {
        evaluate_op(
            op,
            those_there(
                input_values(plan.order@, leaves, plan.root_inputs@, plan.order@.len() as int),
            ),
        )
    } else {
        None
    }
}

/// The views of the values that a cache holds.
pub open spec fn cache_view<T: Copy>(cache: Map<usize, DenseData<T>>) -> Map<usize, DenseView<T>> {
    Map::new(|k: usize| cache.contains_key(k), |k: usize| cache[k]@)
}

/// Whether the values read are values for places that are read, each well
/// formed and of the shape that the member at its place has.
pub open spec fn leaves_sound<T: Copy>(
    order: Seq<PlanEntry<T>>,
    leaves: Map<usize, DenseView<T>>,
) -> bool {
    forall|k: usize| #[trigger]
        leaves.contains_key(k) ==> {
            &&& k < order.len()
            &&& order[k as int].leaf
            &&& leaves[k].wf()
            &&& leaves[k].layout.shape == order[k as int].node.layout().shape
        }
}

/// Whether the cache holds, of the places before `bound`, the values of
/// exactly those whose result is still to be read, and of the places from
/// `bound` on what was read for them.
pub open spec fn cache_tracks<T: Copy>(
    cache: Map<usize, DenseData<T>>,
    counts: Seq<usize>,
    values: Seq<Option<DenseView<T>>>,
    leaves: Map<usize, DenseView<T>>,
    bound: int,
) -> bool {
    &&& forall|j: usize|
        j < bound ==> (#[trigger] cache.contains_key(j) <==> counts[j as int] > 0)
    &&& forall|j: usize|
        j < bound && #[trigger] cache.contains_key(j) ==> values[j as int] == Some(cache[j]@)
    &&& forall|j: usize|
        j >= bound ==> (#[trigger] cache.contains_key(j) <==> leaves.contains_key(j))
    &&& forall|j: usize|
        j >= bound && #[trigger] cache.contains_key(j) ==> cache[j]@ == leaves[j]
}

/// A copy of a value: its elements and its layout.
pub fn clone_dense<T: Copy>(d: &DenseData<T>) -> (r: DenseData<T>)
    ensures
        r@ == d@,
{
    DenseData { data: clone_elements(&d.data), layout: d.layout.clone() }
}

/// Takes from the cache the values of the places `slots`, in order. Each
/// taking lowers the count of its place by one. The value leaves the cache
/// with the last reader, who gets the value itself; every reader before
/// gets a copy.
fn get_inputs_tensor_data<T: Copy>(
    slots: &Vec<usize>,
    computation_cache: &mut HashMap<usize, DenseData<T>>,
    reference_counter: &mut Vec<usize>,
    Ghost(values): Ghost<Seq<Option<DenseView<T>>>>,
    Ghost(leaves): Ghost<Map<usize, DenseView<T>>>,
    Ghost(later): Ghost<Seq<nat>>,
    Ghost(bound): Ghost<int>,
) -> (inputs_data: Vec<DenseData<T>>)
    requires
        old(reference_counter)@.len() == values.len(),
        later.len() == values.len(),
        0 <= bound <= values.len(),
        forall|p: int| 0 <= p < slots@.len() ==> (#[trigger] slots@[p]) < bound,
        forall|j: int|
            0 <= j < values.len() ==> #[trigger] old(reference_counter)@[j] == later[j]
                + occurrences(slots@, j),
        cache_tracks(old(computation_cache)@, old(reference_counter)@, values, leaves, bound),
    ensures
        inputs_data@.len() == slots@.len(),
        forall|p: int|
            0 <= p < slots@.len() ==> values[slots@[p] as int] == Some(
                (#[trigger] inputs_data@[p])@,
            ),
        final(reference_counter)@.len() == values.len(),
        forall|j: int| 0 <= j < values.len() ==> #[trigger] final(reference_counter)@[j] == later[j],
        cache_tracks(final(computation_cache)@, final(reference_counter)@, values, leaves, bound),
{
    broadcast use vstd::std_specs::hash::group_hash_axioms;

    let mut inputs_data: Vec<DenseData<T>> = Vec::with_capacity(slots.len());
    let mut p: usize = 0;
    proof {
        assert(slots@.skip(0) =~= slots@);
    }
    while p < slots.len()
        invariant
            0 <= p <= slots@.len(),
            reference_counter@.len() == values.len(),
            later.len() == values.len(),
            0 <= bound <= values.len(),
            forall|q: int| 0 <= q < slots@.len() ==> (#[trigger] slots@[q]) < bound,
            forall|j: int|
                0 <= j < values.len() ==> #[trigger] reference_counter@[j] == later[j]
                    + occurrences(slots@.skip(p as int), j),
            cache_tracks(computation_cache@, reference_counter@, values, leaves, bound),
            inputs_data@.len() == p,
            forall|q: int|
                0 <= q < p ==> values[slots@[q] as int] == Some((#[trigger] inputs_data@[q])@),
        decreases slots@.len() - p,
    {
        let id: usize = slots[p];
        proof {
            assert(slots@.skip(p as int).skip(1) =~= slots@.skip(p + 1));
        }
        let count: usize = reference_counter[id];
        reference_counter.set(id, count - 1);
        let tensor_data = if count == 1 {
            match computation_cache.remove(&id) {
                Some(data) => data,
                None => vstd::pervasive::unreached(),
            }
        } else {
            match computation_cache.get(&id) {
                Some(data) => clone_dense(data),
                None => vstd::pervasive::unreached(),
            }
        };
        inputs_data.push(tensor_data);
        proof {
            assert(cache_tracks(computation_cache@, reference_counter@, values, leaves, bound));
        }
        p = p + 1;
    }
    inputs_data
}

/// On values that are well formed and of the shapes of the members they
/// are values of, an operation that the layout rules accept can be
/// computed, and what it gives is well formed and of the shape that the
/// rules give.
pub proof fn lemma_operation_sound<T: NumberLike>(
    op: OpKindView<T>,
    nodes: Seq<NodeKind<T>>,
    values: Seq<DenseView<T>>,
)
    requires
        op.wf(),
        nodes.len() >= op.arity(),
        values.len() == nodes.len(),
        layout_rule(op, input_layouts(nodes)) is Ok,
        forall|p: int|
            0 <= p < values.len() ==> (#[trigger] values[p]).wf() && values[p].layout.shape
                == nodes[p].layout().shape,
    ensures
        inputs_admissible(op, values),
        evaluate_op(op, values) matches Some(v) ==> v.wf() && v.layout.shape == ruled_layout(
            op,
            nodes,
        ).shape,
{
    let shape = values[0].layout.shape;
    crate::layout::lemma_row_major_wf(shape, 0);
    crate::walk::lemma_packed_positions(shape);
    crate::layout::lemma_product_positive(shape);
}

/// The value of a place of a sound order, where it has one, is well formed
/// and of the shape of the member at that place.
pub proof fn lemma_entry_value_sound<T: NumberLike>(
    order: Seq<PlanEntry<T>>,
    leaves: Map<usize, DenseView<T>>,
    k: int,
)
    requires
        order_sound(order),
        leaves_sound(order, leaves),
        0 <= k < order.len(),
        order.len() <= usize::MAX,
        entry_value(order, leaves, k) is Some,
    ensures
        entry_value(order, leaves, k)->Some_0.wf(),
        entry_value(order, leaves, k)->Some_0.layout.shape == order[k].node.layout().shape,
        !order[k].leaf ==> inputs_admissible(
            order[k].node.op(),
            those_there(input_values(order, leaves, order[k].inputs@, k)),
        ),
    decreases k,
{
    let e = order[k];
    assert(entry_sound(order, k));
    if e.leaf {
    } else {
        let values = input_values(order, leaves, e.inputs@, k);
        let there = those_there(values);
        assert forall|p: int| 0 <= p < there.len() implies (#[trigger] there[p]).wf()
            && there[p].layout.shape == e.node.inputs()[p].layout().shape by {
            assert(values[p] is Some);
            let s = e.inputs@[p];
            lemma_entry_value_sound(order, leaves, s as int);
        }
        lemma_operation_sound(e.node.op(), e.node.inputs(), there);
    }
}

/// The operation of a member that is not a leaf.
fn member_op<T: Copy>(node: &NodeKind<T>) -> (op: &OpKind<T>)
    requires
        !(node is Edge),
    ensures
        op@ == node.op(),
{
    match node {
        NodeKind::Node(n) => &n.op,
        NodeKind::Cache(c) => &c.get_node().op,
        NodeKind::Edge(_) => vstd::pervasive::unreached(),
    }
}

/// Evaluates a plan front to back and then its root, from the values that
/// were read for the places that are read. The value of each place goes
/// into the cache when it is computed and leaves it with its last reader.
/// Returns what the root evaluates to, the cache as it is left, which is
/// empty, and the counts of the reads still to come, each of which is 0
/// where there is a result. There is no result where the value of a place
/// that is read is missing, or where the layout of a view does not fit the
/// buffer it is to read.
pub fn evaluate<T: ComputeWrapperSpec>(
    root: &TensorGraphNode<T>,
    plan: &Plan<T>,
    leaves: HashMap<usize, DenseData<T>>,
) -> (r: (Option<DenseData<T>>, HashMap<usize, DenseData<T>>, Vec<usize>))
    requires
        node_wf(*root),
        plan.sound(root.inputs@),
        leaves_sound(plan.order@, cache_view(leaves@)),
    ensures
        dense_option_view(r.0) == plan_value(root.op@, *plan, cache_view(leaves@)),
        r.0 matches Some(d) ==> d.wf() && d.layout@.shape == root.layout@.shape,
        r.1@ == Map::<usize, DenseData<T>>::empty(),
        r.2@.len() == plan.order@.len(),
        r.0 is Some ==> forall|j: int| 0 <= j < r.2@.len() ==> #[trigger] r.2@[j] == 0,
{
    broadcast use vstd::std_specs::hash::group_hash_axioms;

    let n: usize = plan.order.len();
    let ghost order = plan.order@;
    let ghost read = cache_view(leaves@);
    let ghost values = Seq::new(n as nat, |j: int| entry_value(order, read, j));
    let mut computation_cache = leaves;
    let mut reference_counter: Vec<usize> = clone_elements(&plan.uses);
    let mut k: usize = 0;
    while k < n
        invariant
            node_wf(*root),
            plan.sound(root.inputs@),
            leaves_sound(order, read),
            order == plan.order@,
            n == order.len(),
            read == cache_view(leaves@),
            values == Seq::new(n as nat, |j: int| entry_value(order, read, j)),
            0 <= k <= n,
            reference_counter@.len() == n,
            forall|j: int|
                0 <= j < n ==> #[trigger] reference_counter@[j] == demand(
                    order,
                    plan.root_inputs@,
                    j,
                    k as int,
                ),
            cache_tracks(computation_cache@, reference_counter@, values, read, k as int),
            forall|j: int| 0 <= j < k ==> (#[trigger] entry_value(order, read, j)) is Some,
        decreases n - k,
    {
        let entry = &plan.order[k];
        proof {
            assert(entry_sound(order, k as int));
            assert(values[k as int] == entry_value(order, read, k as int));
        }
        if entry.leaf {
            if !computation_cache.contains_key(&k) {
                computation_cache.clear();
                return (None, computation_cache, reference_counter);
            }
            if reference_counter[k] == 0 {
                computation_cache.remove(&k);
            }
            proof {
                assert(cache_tracks(computation_cache@, reference_counter@, values, read, k + 1));
            }
        } else {
            let ghost later = Seq::new(
                n as nat,
                |j: int| demand(order, plan.root_inputs@, j, k + 1),
            );
            let inputs = get_inputs_tensor_data(
                &entry.inputs,
                &mut computation_cache,
                &mut reference_counter,
                Ghost(values),
                Ghost(read),
                Ghost(later),
                Ghost(k as int),
            );
            let ghost taken = input_values(order, read, entry.inputs@, k as int);
            proof {
                assert forall|p: int| 0 <= p < taken.len() implies (#[trigger] taken[p]) == Some(
                    inputs@[p]@,
                ) by {
                }
                assert forall|p: int| 0 <= p < inputs@.len() implies (#[trigger] dense_views(
                    inputs@,
                )[p]).wf() && dense_views(inputs@)[p].layout.shape
                    == entry.node.inputs()[p].layout().shape by {
                    let s = entry.inputs@[p];
                    lemma_entry_value_sound(order, read, s as int);
                }
                lemma_operation_sound(entry.node.op(), entry.node.inputs(), dense_views(inputs@));
            }
            match cpu_compute(member_op(&entry.node), inputs) {
                None => {
                    computation_cache.clear();
                    return (None, computation_cache, reference_counter);
                },
                Some(result) => {
                    match &entry.node {
                        NodeKind::Cache(slot) => {
                            slot.fill(TensorData::from_dense(clone_dense(&result)));
                        },
                        _ => {},
                    }
                    if reference_counter[k] > 0 {
                        computation_cache.insert(k, result);
                    }
                    proof {
                        assert(cache_tracks(
                            computation_cache@,
                            reference_counter@,
                            values,
                            read,
                            k + 1,
                        ));
                    }
                },
            }
        }
        k = k + 1;
    }
    let ghost later = Seq::new(n as nat, |j: int| 0nat);
    let inputs = get_inputs_tensor_data(
        &plan.root_inputs,
        &mut computation_cache,
        &mut reference_counter,
        Ghost(values),
        Ghost(read),
        Ghost(later),
        Ghost(n as int),
    );
    proof {
        let taken = input_values(order, read, plan.root_inputs@, n as int);
        assert forall|p: int| 0 <= p < inputs@.len() implies (#[trigger] dense_views(inputs@)[p]).wf()
            && dense_views(inputs@)[p].layout.shape == root.inputs@[p].layout().shape by {
            let s = plan.root_inputs@[p];
            lemma_entry_value_sound(order, read, s as int);
        }
        lemma_operation_sound(root.op@, root.inputs@, dense_views(inputs@));
        assert(computation_cache@ =~= Map::<usize, DenseData<T>>::empty());
    }
    (cpu_compute(&root.op, inputs), computation_cache, reference_counter)
}

/// The result that is held, if one is held and it is of the given shape.
pub fn held_of_shape<'a, T: Copy>(held: Option<&'a TensorData<T>>, shape: &[i32]) -> (r: Option<
    &'a TensorData<T>,
>)
    ensures
        r is Some <==> (held matches Some(data) && data.layout_spec().shape == shape@),
        r is Some ==> r == held,
{
    match held {
        Some(data) => {
            if same_shape(data.layout().shape(), shape) {
                Some(data)
            } else {
                None
            }
        },
        None => None,
    }
}

/// Reads the places of a plan that are read: the data of each leaf, and
/// the result that each remembering node holds, each as it is now. A place
/// gets no value where its buffer does not hold what its layout selects, or
/// where a result held is not of the shape of its node.
pub fn read_leaves<T: Copy>(plan: &Plan<T>) -> (leaves: HashMap<usize, DenseData<T>>)
    requires
        order_sound(plan.order@),
    ensures
        leaves_sound(plan.order@, cache_view(leaves@)),
{
    broadcast use vstd::std_specs::hash::group_hash_axioms;

    let mut leaves: HashMap<usize, DenseData<T>> = HashMap::new();
    let mut k: usize = 0;
    while k < plan.order.len()
        invariant
            0 <= k <= plan.order@.len(),
            order_sound(plan.order@),
            leaves_sound(plan.order@, cache_view(leaves@)),
        decreases plan.order@.len() - k,
    {
        let entry = &plan.order[k];
        if entry.leaf {
            let read = match &entry.node {
                NodeKind::Edge(edge) => edge.get().read(),
                NodeKind::Cache(cache) => match held_of_shape(
                    cache.cached(),
                    cache.get_node().layout.shape(),
                ) {
                    Some(held) => held.read(),
                    None => None,
                },
                NodeKind::Node(_) => None,
            };
            if let Some(data) = read {
                let ghost before = cache_view(leaves@);
                leaves.insert(k, data);
                proof {
                    assert forall|j: usize| #[trigger]
                        cache_view(leaves@).contains_key(j) implies {
                        &&& j < plan.order@.len()
                        &&& plan.order@[j as int].leaf
                        &&& cache_view(leaves@)[j].wf()
                        &&& cache_view(leaves@)[j].layout.shape
                            == plan.order@[j as int].node.layout().shape
                    } by {
                        if j != k {
                            assert(before.contains_key(j));
                        }
                    }
                }
            }
        }
        k = k + 1;
    }
    leaves
}

/// Whether `outcome` is what evaluating a sound plan for `node` gives, from
/// sound values read for the places that are read.
pub open spec fn evaluated_as<T: NumberLike>(
    node: TensorGraphNode<T>,
    outcome: Option<DenseView<T>>,
) -> bool {
    exists|plan: Plan<T>, leaves: Map<usize, DenseView<T>>|
        #![trigger plan_value(node.op@, plan, leaves)]
        {
            &&& plan.sound(node.inputs@)
            &&& leaves_sound(plan.order@, leaves)
            &&& plan_value(node.op@, plan, leaves) == outcome
        }
}

/// Whether `outcome` is an outcome of computing `node`: what evaluating a
/// sound plan for it gives, value or none, or none because the graph has no
/// plan.
pub open spec fn outcome_of<T: NumberLike>(
    node: TensorGraphNode<T>,
    outcome: Option<DenseView<T>>,
) -> bool {
    evaluated_as(node, outcome) || (outcome is None && too_many_reads(node.inputs@))
}

impl<T: ComputeWrapperSpec> TensorGraphNode<T> {
    /// Computes the node and gives its elements and layout: sorts the graph
    /// below it, reads the leaves and evaluates. What comes back, value or
    /// none, is what the evaluation of a sound plan of the graph gives from
    /// sound values read for its leaves; or there is none because the graph
    /// has no plan, which is never so where the work for the inputs of the
    /// node is within a `usize`.
    pub fn compute_values(&self) -> (r: Option<DenseData<T>>)
        requires
            node_wf(*self),
        ensures
            outcome_of(*self, dense_option_view(r)),
            pending(*self, 0) <= usize::MAX ==> evaluated_as(*self, dense_option_view(r)),
            r matches Some(d) ==> d.wf() && d.layout@.shape == self.layout@.shape,
    {
        let plan = match self.topological_sort() {
            Ok(plan) => plan,
            Err(_) => {
                return None;
            },
        };
        let leaves = read_leaves(&plan);
        let ghost read = cache_view(leaves@);
        let (result, _, _) = evaluate(self, &plan, leaves);
        proof {
            assert(plan_value(self.op@, plan, read) == dense_option_view(result));
            assert(evaluated_as(*self, dense_option_view(result)));
        }
        result
    }
}

impl<T: ComputeWrapperSpec> Promising for TensorGraphNode<T> {
    type Output = T;

    open spec fn layout_spec(&self) -> LayoutView {
        self.layout@
    }

    open spec fn sound(&self) -> bool {
        node_wf(*self)
    }

    /// Materializes the node: sorts the graph below it, reads the leaves,
    /// evaluates the order and then the node itself, and puts the result
    /// into a new buffer. There is a value exactly where computing the node
    /// gives one, and it has the layout of that one; see [`outcome_of`].
    fn compute(&self) -> (r: Option<TensorData<T>>)
        ensures
            exists|outcome: Option<DenseView<T>>|
                #![trigger outcome_of(*self, outcome)]
                {
                    &&& outcome_of(*self, outcome)
                    &&& match outcome {
                        Some(value) => r matches Some(data) && data.layout_spec() == value.layout,
                        None => r is None,
                    }
                },
    {
        match self.compute_values() {
            Some(data) => {
                let ghost value = data@;
                let r = TensorData::from_dense(data);
                proof {
                    assert(outcome_of(*self, Some(value)));
                }
                Some(r)
            },
            None => {
                proof {
                    assert(outcome_of(*self, None::<DenseView<T>>));
                }
                None
            },
        }
    }

    #[inline]
    fn layout(&self) -> (l: &Layout) {
        &self.layout
    }
}

impl<T: ComputeWrapperSpec> Promising for TensorGraphCacheNode<T> {
    type Output = T;

    open spec fn layout_spec(&self) -> LayoutView {
        self.node_spec().layout@
    }

    open spec fn sound(&self) -> bool {
        node_wf(self.node_spec())
    }

    /// The result that is held, where one of the shape of the node is held;
    /// else the node is materialized and its result held from now on. There
    /// is no result only where none is held and computing the node gives
    /// none.
    fn compute(&self) -> (r: Option<TensorData<T>>)
        ensures
            r is None ==> outcome_of(self.node_spec(), None::<DenseView<T>>),
    {
        if let Some(tensor) = held_of_shape(self.cached(), self.get_node().layout.shape()) {
            return Some(tensor.clone_reference());
        }
        match self.get_node().compute() {
            Some(tensor) => {
                self.fill(tensor.clone_reference());
                Some(tensor)
            },
            None => None,
        }
    }

    #[inline]
    fn layout(&self) -> (l: &Layout) {
        &self.get_node().layout
    }
}

} // verus!
