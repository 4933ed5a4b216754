//! Sorting the graph: the order in which the members that a node depends on
//! are evaluated, and how often the result of each is read.
use vstd::prelude::*;
use std::collections::HashMap;
use crate::graph::{get_id, node_wf, same_node, NodeKind, TensorGraphNode};

verus! {
/// One member of the graph in the order of evaluation.
#[verifier::reject_recursive_types(T)]
pub struct PlanEntry<T: Copy> {
    /// The member.
    pub node: NodeKind<T>,
    /// The number of the place: its index in the order, under which the
    /// evaluator keeps the value and the count of the place.
    pub id: usize,
    /// For each input that the member reads, the place in the order of the
    /// member that computes it. Empty for a leaf.
    pub inputs: Vec<usize>,
    /// Whether the member is evaluated by reading what it holds: a leaf of
    /// the graph, or a remembering node that held its result when the graph
    /// was sorted.
    pub leaf: bool,
}

/// Whether the first `slots.len()` of `nodes` are computed at `slots`, each
/// before place `bound`.
pub open spec fn linked<T: Copy>(
    order: Seq<PlanEntry<T>>,
    bound: int,
    slots: Seq<usize>,
    nodes: Seq<NodeKind<T>>,
) -> bool {
    &&& slots.len() <= nodes.len()
    &&& forall|k: int|
        0 <= k < slots.len() ==> (#[trigger] slots[k]) < bound && order[slots[k] as int].node
            == nodes[k]
}

/// Whether place `i` of the order is sound: it bears its index as its
/// number, its member is well formed, a leaf of the graph is read and an
/// operation node that does not remember is computed, a member that is
/// read has no inputs, and every input of a member that is computed is
/// computed at an earlier place.
pub open spec fn entry_sound<T: Copy>(order: Seq<PlanEntry<T>>, i: int) -> bool {
    let e = order[i];
    &&& e.id == i
    &&& e.node.wf()
    &&& (e.node is Edge ==> e.leaf)
    &&& (e.node is Node ==> !e.leaf)
    &&& (e.leaf ==> e.inputs@.len() == 0)
    &&& (!e.leaf ==> e.inputs@.len() == e.node.inputs().len())
    &&& linked(order, i, e.inputs@, e.node.inputs())
}

/// Whether every place of the order is sound; see [`entry_sound`].
pub open spec fn order_sound<T: Copy>(order: Seq<PlanEntry<T>>) -> bool {
    forall|i: int| 0 <= i < order.len() ==> #[trigger] entry_sound(order, i)
}

/// Whether no two places of the order bear one number.
pub open spec fn numbers_distinct<T: Copy>(order: Seq<PlanEntry<T>>) -> bool {
    forall|i: int, j: int|
        0 <= i < j < order.len() ==> (#[trigger] order[i]).id != (#[trigger] order[j]).id
}

/// Whether the result of place `j` is read by a later place of the order.
pub open spec fn read_later<T: Copy>(order: Seq<PlanEntry<T>>, j: usize) -> bool {
    exists|i: int| j < i < order.len() && (#[trigger] order[i]).inputs@.contains(j)
}

/// Whether every place of the order is read, by a later place or by the
/// root.
pub open spec fn all_read<T: Copy>(order: Seq<PlanEntry<T>>, root_inputs: Seq<usize>) -> bool {
    forall|j: usize|
        #![trigger read_later(order, j)]
        j < order.len() ==> read_later(order, j) || root_inputs.contains(j)
}

/// The places of a sound order bear different numbers.
pub proof fn lemma_sound_distinct<T: Copy>(order: Seq<PlanEntry<T>>)
    requires
        order_sound(order),
    ensures
        numbers_distinct(order),
{
    assert forall|i: int, j: int| 0 <= i < j < order.len() implies (#[trigger] order[i]).id != (
    #[trigger] order[j]).id by {
        assert(entry_sound(order, i));
        assert(entry_sound(order, j));
    }
}

/// What is read later in an order is read later in every order that begins
/// with it.
pub proof fn lemma_read_later_extends<T: Copy>(
    order: Seq<PlanEntry<T>>,
    longer: Seq<PlanEntry<T>>,
    j: usize,
)
    requires
        order.len() <= longer.len(),
        longer.take(order.len() as int) == order,
        read_later(order, j),
    ensures
        read_later(longer, j),
{
    let i = choose|i: int| j < i < order.len() && (#[trigger] order[i]).inputs@.contains(j);
    assert(longer.take(order.len() as int)[i] == longer[i]);
    assert(longer[i].inputs@.contains(j));
}

/// The work that sorting the inputs of `node` from `from` on can take at
/// most: the sum of their sizes.
pub open spec fn pending<T: Copy>(node: TensorGraphNode<T>, from: int) -> nat
    decreases node, 0nat, node.inputs@.len() - from,
{
    if 0 <= from < node.inputs@.len() {
        member_size(node.inputs@[from]) + pending(node, from + 1)
    } else {
        0
    }
}

/// The work that sorting a member can take at most: two steps for itself
/// and the work for its inputs. A member that is an input of several
/// members counts once for each.
pub open spec fn member_size<T: Copy>(member: NodeKind<T>) -> nat
    decreases member, 1nat, 0nat,
{
    if member is Edge {
        2
    } else {
        proof {
            crate::graph::lemma_inputs_smaller(member);
        }
        2 + pending(member.operation(), 0)
    }
}

/// A member whose inputs are being sorted.
#[verifier::reject_recursive_types(T)]
struct Frame<T: Copy> {
    /// The member.
    node: NodeKind<T>,
    /// Whether the member is read rather than computed.
    leaf: bool,
    /// The number of inputs taken up so far.
    next: usize,
    /// The places of the inputs that have one already.
    slots: Vec<usize>,
}

impl<T: Copy> Frame<T> {
    /// The work that is left for this member.
    spec fn weight(self) -> nat {
        if self.leaf || self.node is Edge {
            1
        } else {
            1 + pending(self.node.operation(), self.next as int)
        }
    }

    /// Whether the frame is sound: the member is well formed, a member that
    /// is read has taken up no input, the inputs taken up are inputs of the
    /// member and have their places, but for the last one where the frame
    /// waits for it (`waiting`).
    spec fn sound(self, order: Seq<PlanEntry<T>>, waiting: bool) -> bool {
        &&& self.node.wf()
        &&& (self.node is Edge ==> self.leaf)
        &&& (self.node is Node ==> !self.leaf)
        &&& (self.leaf ==> self.next == 0 && !waiting)
        &&& self.next <= self.node.inputs().len()
        &&& (waiting ==> self.next >= 1)
        &&& self.slots@.len() == if waiting {
            self.next - 1
        } else {
            self.next as int
        }
        &&& linked(order, order.len() as int, self.slots@, self.node.inputs())
    }
}

/// The work that is left for the members on the stack.
spec fn stack_weight<T: Copy>(stack: Seq<Frame<T>>) -> nat
    decreases stack.len(),
{
    if stack.len() == 0 {
        0
    } else {
        stack_weight(stack.drop_last()) + stack.last().weight()
    }
}

/// The work that is left for the members on the stack, and the places
/// that they have taken.
spec fn stack_load<T: Copy>(stack: Seq<Frame<T>>) -> nat
    decreases stack.len(),
{
    if stack.len() == 0 {
        0
    } else {
        stack_load(stack.drop_last()) + stack.last().weight() + stack.last().slots@.len()
    }
}

/// The number of reads that the places of the order from `from` on make.
pub open spec fn recorded<T: Copy>(order: Seq<PlanEntry<T>>, from: int) -> nat
    decreases order.len() - from,
{
    if from < 0 || from >= order.len() {
        0
    } else {
        order[from].inputs@.len() + recorded(order, from + 1)
    }
}

/// A new place adds its reads to those of the order.
pub proof fn lemma_recorded_grows<T: Copy>(order: Seq<PlanEntry<T>>, entry: PlanEntry<T>, from: int)
    requires
        0 <= from <= order.len(),
    ensures
        recorded(order.push(entry), from) == recorded(order, from) + entry.inputs@.len(),
    decreases order.len() - from,
{
    let grown = order.push(entry);
    if from < order.len() {
        lemma_recorded_grows(order, entry, from + 1);
        assert(grown[from] == order[from]);
    } else {
        assert(recorded(grown, from + 1) == 0);
    }
}

/// The reads of an order are those of its beginning and those of the rest.
pub proof fn lemma_recorded_splits<T: Copy>(order: Seq<PlanEntry<T>>, from: int, mid: int)
    requires
        0 <= from <= mid <= order.len(),
    ensures
        recorded(order, from) == recorded(order.take(mid), from) + recorded(order, mid),
    decreases mid - from,
{
    let first = order.take(mid);
    if from < mid {
        lemma_recorded_splits(order, from + 1, mid);
        assert(first[from] == order[from]);
    }
}

/// Whether the stack is sound: every frame is, every frame but the last
/// waits for the place of the member in the frame above it, and that member
/// is the input it took up last.
spec fn stack_sound<T: Copy>(order: Seq<PlanEntry<T>>, stack: Seq<Frame<T>>) -> bool {
    &&& forall|j: int|
        0 <= j < stack.len() ==> (#[trigger] stack[j]).sound(order, j < stack.len() - 1)
    &&& forall|j: int|
        0 <= j < stack.len() - 1 ==> (#[trigger] stack[j + 1]).node == stack[j].node.inputs()[
            stack[j].next - 1
        ]
}

/// Whether a frame on the stack has taken place `j` for one of its inputs.
spec fn stack_holds<T: Copy>(stack: Seq<Frame<T>>, j: usize) -> bool {
    exists|f: int| 0 <= f < stack.len() && (#[trigger] stack[f]).slots@.contains(j)
}

/// Whether every place from `from` on has a reader: a later place, a frame
/// on the stack that has taken it, or, for place `extra`, one still to come.
spec fn places_read<T: Copy>(
    order: Seq<PlanEntry<T>>,
    stack: Seq<Frame<T>>,
    from: int,
    extra: int,
) -> bool {
    forall|j: usize|
        #![trigger read_later(order, j)]
        from <= j < order.len() ==> read_later(order, j) || stack_holds(stack, j) || j == extra
}

/// The number of inputs of a member.
fn input_count<T: Copy>(node: &NodeKind<T>) -> (n: usize)
    ensures
        n == node.inputs().len(),
{
    match node {
        NodeKind::Edge(_) => 0,
        NodeKind::Node(node) => node.inputs.len(),
        NodeKind::Cache(cache) => cache.get_node().inputs.len(),
    }
}

/// The place that the index holds under the number `id`, if it holds one
/// and that is a place of an order of `len` places.
pub fn place_under(index: &HashMap<usize, usize>, id: usize, len: usize) -> (r: Option<usize>)
    ensures
        r == if index@.contains_key(id) && index@[id] < len {
            Some(index@[id])
        } else {
            None::<usize>
        },
{
    broadcast use vstd::std_specs::hash::group_hash_axioms;

    match index.get(&id) {
        Some(found) => {
            let s: usize = *found;
            if s < len {
                Some(s)
            } else {
                None
            }
        },
        None => None,
    }
}

/// The place of `node` in the order, if it has one that the index knows:
/// a place that the index holds under some number and at which the order
/// has `node`. The index is asked by the number of `node`, and what it
/// answers counts only where the member at that place is found to be
/// `node`.
fn find_slot<T: Copy>(
    node: &NodeKind<T>,
    order: &Vec<PlanEntry<T>>,
    index: &HashMap<usize, usize>,
) -> (r: Option<usize>)
    ensures
        r matches Some(s) ==> {
            &&& s < order@.len()
            &&& order@[s as int].node == *node
            &&& exists|id: usize| #[trigger] index@.contains_key(id) && index@[id] == s
        },
{
    match place_under(index, get_id(node), order.len()) {
        Some(s) => {
            if same_node(&order[s].node, node) {
                Some(s)
            } else {
                None
            }
        },
        None => None,
    }
}

/// Whether a member is read rather than computed, given whether it holds a
/// result: a leaf of the graph is read, a remembering node is read where it
/// holds its result, and every other member is computed.
pub fn counts_as_leaf<T: Copy>(node: &NodeKind<T>, filled: bool) -> (r: bool)
    ensures
        r == (node is Edge || (node is Cache && filled)),
{
    match node {
        NodeKind::Edge(_) => true,
        NodeKind::Cache(_) => filled,
        NodeKind::Node(_) => false,
    }
}

/// A frame for a member none of whose inputs has been taken up, given
/// whether the member holds a result; see [`counts_as_leaf`].
fn frame_of<T: Copy>(node: &NodeKind<T>, filled: bool) -> (f: Frame<T>)
    ensures
        f.node == *node,
        f.leaf == (node is Edge || (node is Cache && filled)),
        f.next == 0,
        f.slots@.len() == 0,
{
    Frame { node: node.clone(), leaf: counts_as_leaf(node, filled), next: 0, slots: Vec::new() }
}

/// A frame for a member none of whose inputs has been taken up. A
/// remembering node is asked whether it holds its result now.
fn open_frame<T: Copy>(node: &NodeKind<T>, Ghost(order): Ghost<Seq<PlanEntry<T>>>) -> (f: Frame<T>)
    requires
        node.wf(),
    ensures
        f.node == *node,
        f.next == 0,
        f.slots@.len() == 0,
        f.sound(order, false),
        f.weight() < member_size(*node),
{
    let filled = match node {
        NodeKind::Cache(cache) => cache.is_cache_filled(),
        _ => false,
    };
    frame_of(node, filled)
}

/// Adding a place to the order keeps what was linked.
pub proof fn lemma_linked_grows<T: Copy>(
    order: Seq<PlanEntry<T>>,
    entry: PlanEntry<T>,
    bound: int,
    slots: Seq<usize>,
    nodes: Seq<NodeKind<T>>,
)
    requires
        linked(order, bound, slots, nodes),
        bound <= order.len(),
    ensures
        linked(order.push(entry), bound, slots, nodes),
        linked(order.push(entry), (order.len() + 1) as int, slots, nodes),
{
    let grown = order.push(entry);
}

/// Adding a sound place to a sound order gives a sound order.
pub proof fn lemma_order_grows<T: Copy>(order: Seq<PlanEntry<T>>, entry: PlanEntry<T>)
    requires
        order_sound(order),
        entry.id == order.len(),
        entry.node.wf(),
        entry.node is Edge ==> entry.leaf,
        entry.node is Node ==> !entry.leaf,
        entry.leaf ==> entry.inputs@.len() == 0,
        !entry.leaf ==> entry.inputs@.len() == entry.node.inputs().len(),
        linked(order, order.len() as int, entry.inputs@, entry.node.inputs()),
    ensures
        order_sound(order.push(entry)),
{
    let grown = order.push(entry);
    assert forall|i: int| 0 <= i < grown.len() implies #[trigger] entry_sound(grown, i) by {
        if i < order.len() {
            assert(entry_sound(order, i));
            lemma_linked_grows(order, entry, i, order[i].inputs@, order[i].node.inputs());
        } else {
            lemma_linked_grows(
                order,
                entry,
                order.len() as int,
                entry.inputs@,
                entry.node.inputs(),
            );
        }
    }
}

/// The work for the inputs of a member from `from` on is the work for the
/// input at `from` and the work for those after it.
proof fn lemma_pending_step<T: Copy>(member: NodeKind<T>, from: int)
    requires
        !(member is Edge),
        0 <= from < member.inputs().len(),
    ensures
        pending(member.operation(), from) == member_size(member.inputs()[from]) + pending(
            member.operation(),
            from + 1,
        ),
        member_size(member.inputs()[from]) >= 2,
{
}

/// Gives `node` and every member it depends on a place in the order, each
/// after the members it reads, and returns the place of `node`. Members
/// that have a place already keep it, and every new place but that of
/// `node` is read by a later one. The walk is depth first and keeps its own
/// stack. Each new place goes into the index under the number of its
/// member, so that the member is found again; the place of `node` is there
/// when the walk is over.
fn place<T: Copy>(
    node: &NodeKind<T>,
    order: &mut Vec<PlanEntry<T>>,
    index: &mut HashMap<usize, usize>,
) -> (slot: usize)
    requires
        node.wf(),
        order_sound(old(order)@),
    ensures
        order_sound(final(order)@),
        final(order)@.len() >= old(order)@.len(),
        final(order)@.take(old(order)@.len() as int) == old(order)@,
        slot < final(order)@.len(),
        final(order)@[slot as int].node == *node,
        forall|j: usize|
            #![trigger read_later(final(order)@, j)]
            old(order)@.len() <= j < final(order)@.len() ==> j == slot || read_later(
                final(order)@,
                j,
            ),
        node is Edge ==> final(order)@.len() == old(order)@.len() + 1,
        exists|number: usize| #[trigger]
            final(index)@.contains_key(number) && final(index)@[number] == slot,
        recorded(final(order)@, old(order)@.len() as int) + 2 <= member_size(*node),
{
    broadcast use vstd::std_specs::hash::group_hash_axioms;

    let ghost before = order@;
    let ghost from = order@.len() as int;
    let mut stack: Vec<Frame<T>> = Vec::new();
    stack.push(open_frame(node, Ghost(order@)));
    let mut placed: usize = 0;
    proof {
        assert(order@.take(from) =~= before);
        assert(stack@.drop_last() =~= Seq::<Frame<T>>::empty());
        assert(stack_load(stack@.drop_last()) == 0);
        assert(stack_load(stack@) == stack@[0].weight() + stack@[0].slots@.len());
    }
    loop
        invariant_except_break
            stack@.len() >= 1,
            stack_sound(order@, stack@),
            stack@[0].node == *node,
            places_read(order@, stack@, from, -1),
            node is Edge ==> stack@.len() == 1 && order@.len() == before.len(),
            recorded(order@, from) + stack_load(stack@) + 1 <= member_size(*node),
        invariant
            node.wf(),
            from == before.len(),
            order_sound(order@),
            order@.len() >= before.len(),
            order@.take(before.len() as int) == before,
        ensures
            order_sound(order@),
            order@.len() >= before.len(),
            order@.take(before.len() as int) == before,
            placed < order@.len(),
            order@[placed as int].node == *node,
            forall|j: usize|
                #![trigger read_later(order@, j)]
                from <= j < order@.len() ==> j == placed || read_later(order@, j),
            node is Edge ==> order@.len() == before.len() + 1,
            exists|number: usize| #[trigger]
                index@.contains_key(number) && index@[number] == placed,
            recorded(order@, from) + 2 <= member_size(*node),
        decreases stack_weight(stack@),
    {
        let ghost stack_before = stack@;
        let ghost depth = stack@.len() as int;
        proof {
            assert(stack_before[depth - 1].sound(order@, false));
        }
        let mut top = match stack.pop() {
            Some(frame) => frame,
            None => vstd::pervasive::unreached(),
        };
        let ghost below = stack@;
        let count = input_count(&top.node);
        if !top.leaf && top.next < count {
            let known = {
                let child: &NodeKind<T> = match &top.node {
                    NodeKind::Node(n) => &n.inputs[top.next],
                    NodeKind::Cache(c) => &c.get_node().inputs[top.next],
                    NodeKind::Edge(_) => vstd::pervasive::unreached(),
                };
                proof {
                    lemma_pending_step(top.node, top.next as int);
                }
                match find_slot(child, order, index) {
                    Some(s) => Ok(s),
                    None => Err(open_frame(child, Ghost(order@))),
                }
            };
            top.next = top.next + 1;
            match known {
                Ok(s) => {
                    top.slots.push(s);
                    proof {
                        assert(top.sound(order@, false));
                    }
                    stack.push(top);
                    proof {
                        assert(stack@.drop_last() =~= below);
                        lemma_stack_replaced(order@, stack_before, stack@);
                        lemma_slot_taken(order@, stack_before, stack@, from, s);
                    }
                },
                Err(frame) => {
                    stack.push(top);
                    let ghost middle = stack@;
                    stack.push(frame);
                    proof {
                        assert(middle.drop_last() =~= below);
                        assert(stack@.drop_last() =~= middle);
                        lemma_stack_pushed(order@, stack_before, middle, stack@);
                        lemma_frame_opened(order@, stack_before, middle, stack@, from);
                    }
                },
            }
        } else {
            let slot: usize = order.len();
            let number = get_id(&top.node);
            let ghost entry = PlanEntry {
                node: top.node,
                id: slot,
                inputs: top.slots,
                leaf: top.leaf,
            };
            proof {
                lemma_order_grows(order@, entry);
                lemma_place_given(order@, entry, stack_before, from);
                lemma_recorded_grows(order@, entry, from);
                assert(order@.push(entry).take(from) =~= before);
                assert(stack_load(stack_before) == stack_load(below) + top.weight()
                    + top.slots@.len());
            }
            order.push(PlanEntry { node: top.node, id: slot, inputs: top.slots, leaf: top.leaf });
            index.insert(number, slot);
            match stack.pop() {
                None => {
                    placed = slot;
                    proof {
                        assert(index@.contains_key(number) && index@[number] == placed);
                        assert forall|j: usize|
                            #![trigger read_later(order@, j)]
                            from <= j < order@.len() implies j == placed || read_later(
                            order@,
                            j,
                        ) by {
                            assert(!stack_holds(below, j));
                        }
                    }
                    break ;
                },
                Some(parent) => {
                    let ghost rest = stack@;
                    let mut parent = parent;
                    parent.slots.push(slot);
                    proof {
                        assert(stack_before[depth - 2 + 1].node == stack_before[depth
                            - 2].node.inputs()[stack_before[depth - 2].next - 1]);
                        assert(parent.sound(order@, false));
                    }
                    stack.push(parent);
                    proof {
                        assert(stack@.drop_last() =~= rest);
                        lemma_stack_popped(order@, stack_before, below, stack@);
                        lemma_slot_taken(order@, below, stack@, from, slot);
                    }
                },
            }
        }
    }
    placed
}

/// The stack after its top frame has taken up an input that had a place.
proof fn lemma_stack_replaced<T: Copy>(
    order: Seq<PlanEntry<T>>,
    before: Seq<Frame<T>>,
    after: Seq<Frame<T>>,
)
    requires
        before.len() >= 1,
        after.len() == before.len(),
        after.drop_last() == before.drop_last(),
        forall|j: int|
            0 <= j < before.len() - 1 ==> (#[trigger] before[j]).sound(order, j < before.len() - 1),
        forall|j: int|
            0 <= j < before.len() - 1 ==> (#[trigger] before[j + 1]).node
                == before[j].node.inputs()[before[j].next - 1],
        after.last().sound(order, false),
        after.last().node == before.last().node,
        !before.last().leaf,
        !(before.last().node is Edge),
        after.last().leaf == before.last().leaf,
        after.last().next == before.last().next + 1,
        before.last().next < before.last().node.inputs().len(),
        after.last().slots@.len() == before.last().slots@.len() + 1,
    ensures
        stack_sound(order, after),
        stack_weight(after) < stack_weight(before),
        stack_load(after) + 1 <= stack_load(before),
{
    let n = before.len() as int;
    assert forall|j: int| 0 <= j < after.len() implies (#[trigger] after[j]).sound(
        order,
        j < after.len() - 1,
    ) by {
        if j < n - 1 {
            assert(after[j] == after.drop_last()[j]);
        }
    }
    assert forall|j: int| 0 <= j < after.len() - 1 implies (#[trigger] after[j + 1]).node
        == after[j].node.inputs()[after[j].next - 1] by {
        assert(after[j] == after.drop_last()[j]);
        if j + 1 < n - 1 {
            assert(after[j + 1] == after.drop_last()[j + 1]);
        }
    }
    lemma_pending_step(before.last().node, before.last().next as int);
}

/// The stack after its top frame has taken up an input that had no place,
/// for which a frame has been opened.
proof fn lemma_stack_pushed<T: Copy>(
    order: Seq<PlanEntry<T>>,
    before: Seq<Frame<T>>,
    middle: Seq<Frame<T>>,
    after: Seq<Frame<T>>,
)
    requires
        before.len() >= 1,
        middle.len() == before.len(),
        middle.drop_last() == before.drop_last(),
        after.drop_last() == middle,
        after.len() == middle.len() + 1,
        forall|j: int|
            0 <= j < before.len() - 1 ==> (#[trigger] before[j]).sound(order, j < before.len() - 1),
        forall|j: int|
            0 <= j < before.len() - 1 ==> (#[trigger] before[j + 1]).node
                == before[j].node.inputs()[before[j].next - 1],
        middle.last().sound(order, true),
        middle.last().node == before.last().node,
        !before.last().leaf,
        !(before.last().node is Edge),
        middle.last().leaf == before.last().leaf,
        middle.last().next == before.last().next + 1,
        before.last().next < before.last().node.inputs().len(),
        after.last().sound(order, false),
        after.last().node == before.last().node.inputs()[before.last().next as int],
        after.last().weight() < member_size(after.last().node),
        middle.last().slots@.len() == before.last().slots@.len(),
        after.last().slots@.len() == 0,
    ensures
        stack_sound(order, after),
        stack_weight(after) < stack_weight(before),
        stack_load(after) + 1 <= stack_load(before),
{
    let n = before.len() as int;
    assert forall|j: int| 0 <= j < after.len() implies (#[trigger] after[j]).sound(
        order,
        j < after.len() - 1,
    ) by {
        if j < n {
            if j < n - 1 {
                assert(middle[j] == middle.drop_last()[j]);
            }
        }
    }
    assert forall|j: int| 0 <= j < after.len() - 1 implies (#[trigger] after[j + 1]).node
        == after[j].node.inputs()[after[j].next - 1] by {
        if j < n - 1 {
            assert(middle[j] == middle.drop_last()[j]);
            if j + 1 < n - 1 {
                assert(middle[j + 1] == middle.drop_last()[j + 1]);
            }
        }
    }
    lemma_pending_step(before.last().node, before.last().next as int);
    assert(stack_weight(middle) == stack_weight(middle.drop_last()) + middle.last().weight());
    assert(stack_load(middle) == stack_load(middle.drop_last()) + middle.last().weight()
        + middle.last().slots@.len());
}

/// The stack after its top frame has got its place, which the frame below
/// has taken.
proof fn lemma_stack_popped<T: Copy>(
    order: Seq<PlanEntry<T>>,
    before: Seq<Frame<T>>,
    below: Seq<Frame<T>>,
    after: Seq<Frame<T>>,
)
    requires
        before.len() >= 2,
        below == before.drop_last(),
        after.len() == below.len(),
        after.drop_last() == below.drop_last(),
        forall|j: int| 0 <= j < below.len() ==> (#[trigger] below[j]).sound(order, j < below.len()),
        forall|j: int|
            0 <= j < before.len() - 1 ==> (#[trigger] before[j + 1]).node
                == before[j].node.inputs()[before[j].next - 1],
        after.last().sound(order, false),
        after.last().node == below.last().node,
        after.last().leaf == below.last().leaf,
        after.last().next == below.last().next,
        before.last().weight() >= 1,
        after.last().slots@.len() == below.last().slots@.len() + 1,
    ensures
        stack_sound(order, after),
        stack_weight(after) < stack_weight(before),
        stack_load(after) + before.last().slots@.len() <= stack_load(before),
{
    let n = below.len() as int;
    assert forall|j: int| 0 <= j < after.len() implies (#[trigger] after[j]).sound(
        order,
        j < after.len() - 1,
    ) by {
        if j < n - 1 {
            assert(after[j] == after.drop_last()[j]);
        }
    }
    assert forall|j: int| 0 <= j < after.len() - 1 implies (#[trigger] after[j + 1]).node
        == after[j].node.inputs()[after[j].next - 1] by {
        assert(after[j] == after.drop_last()[j]);
        if j + 1 < n - 1 {
            assert(after[j + 1] == after.drop_last()[j + 1]);
        }
    }
    assert(stack_weight(before) == stack_weight(below) + before.last().weight());
    assert(stack_load(before) == stack_load(below) + before.last().weight()
        + before.last().slots@.len());
    assert(stack_load(below) == stack_load(below.drop_last()) + below.last().weight()
        + below.last().slots@.len());
}

/// The readers stay where the frame on top of the stack takes place `s`
/// for an input.
proof fn lemma_slot_taken<T: Copy>(
    order: Seq<PlanEntry<T>>,
    before: Seq<Frame<T>>,
    after: Seq<Frame<T>>,
    from: int,
    s: usize,
)
    requires
        places_read(order, before, from, s as int),
        before.len() >= 1,
        after.len() == before.len(),
        after.drop_last() == before.drop_last(),
        after.last().slots@ == before.last().slots@.push(s),
    ensures
        places_read(order, after, from, -1),
{
    let n = before.len() as int;
    assert forall|j: usize| #![trigger read_later(order, j)] from <= j < order.len() implies (
    read_later(order, j) || stack_holds(after, j) || j == -1) by {
        if j == s {
            assert(after.last().slots@[before.last().slots@.len() as int] == s);
            assert(after[n - 1].slots@.contains(j));
        } else if stack_holds(before, j) {
            let f = choose|f: int| 0 <= f < before.len() && (#[trigger] before[f]).slots@.contains(j);
            if f < n - 1 {
                assert(after.drop_last()[f] == after[f]);
                assert(before.drop_last()[f] == before[f]);
            } else {
                let p = choose|p: int|
                    0 <= p < before[f].slots@.len() && before[f].slots@[p] == j;
                assert(after[f].slots@[p] == j);
            }
            assert(after[f].slots@.contains(j));
        }
    }
}

/// The readers stay where a frame is opened on top of the stack.
proof fn lemma_frame_opened<T: Copy>(
    order: Seq<PlanEntry<T>>,
    before: Seq<Frame<T>>,
    middle: Seq<Frame<T>>,
    after: Seq<Frame<T>>,
    from: int,
)
    requires
        places_read(order, before, from, -1),
        before.len() >= 1,
        middle.len() == before.len(),
        middle.drop_last() == before.drop_last(),
        middle.last().slots@ == before.last().slots@,
        after.len() == middle.len() + 1,
        after.drop_last() == middle,
    ensures
        places_read(order, after, from, -1),
{
    let n = before.len() as int;
    assert forall|j: usize| #![trigger read_later(order, j)] from <= j < order.len() implies (
    read_later(order, j) || stack_holds(after, j) || j == -1) by {
        if stack_holds(before, j) {
            let f = choose|f: int| 0 <= f < before.len() && (#[trigger] before[f]).slots@.contains(j);
            assert(after.drop_last()[f] == after[f]);
            if f < n - 1 {
                assert(middle.drop_last()[f] == middle[f]);
                assert(before.drop_last()[f] == before[f]);
            }
            assert(after[f].slots@.contains(j));
        }
    }
}

/// The readers where the frame on top of the stack leaves it and gets its
/// place: the places it has taken are read by the new place, and the new
/// place waits for its reader.
proof fn lemma_place_given<T: Copy>(
    order: Seq<PlanEntry<T>>,
    entry: PlanEntry<T>,
    before: Seq<Frame<T>>,
    from: int,
)
    requires
        places_read(order, before, from, -1),
        before.len() >= 1,
        entry.inputs@ == before.last().slots@,
        forall|p: int| 0 <= p < entry.inputs@.len() ==> (#[trigger] entry.inputs@[p]) < order.len(),
    ensures
        places_read(order.push(entry), before.drop_last(), from, order.len() as int),
{
    let grown = order.push(entry);
    let below = before.drop_last();
    let n = before.len() as int;
    assert(grown.take(order.len() as int) =~= order);
    assert forall|j: usize| #![trigger read_later(grown, j)] from <= j < grown.len() implies (
    read_later(grown, j) || stack_holds(below, j) || j == order.len()) by {
        if j < order.len() {
            if read_later(order, j) {
                lemma_read_later_extends(order, grown, j);
            } else {
                assert(stack_holds(before, j));
                let f = choose|f: int|
                    0 <= f < before.len() && (#[trigger] before[f]).slots@.contains(j);
                if f < n - 1 {
                    assert(below[f] == before[f]);
                    assert(below[f].slots@.contains(j));
                } else {
                    assert(grown[order.len() as int].inputs@.contains(j));
                }
            }
        }
    }
}

/// The places that the root reads and those read later stay so where the
/// order grows and the root takes place `slot`, if each new place is `slot`
/// or read later.
pub proof fn lemma_all_read_grows<T: Copy>(
    order: Seq<PlanEntry<T>>,
    longer: Seq<PlanEntry<T>>,
    root_inputs: Seq<usize>,
    slot: usize,
)
    requires
        all_read(order, root_inputs),
        order.len() <= longer.len(),
        longer.take(order.len() as int) == order,
        forall|j: usize|
            #![trigger read_later(longer, j)]
            order.len() <= j < longer.len() ==> j == slot || read_later(longer, j),
    ensures
        all_read(longer, root_inputs.push(slot)),
{
    let taken = root_inputs.push(slot);
    assert forall|j: usize| #![trigger read_later(longer, j)] j < longer.len() implies read_later(
        longer,
        j,
    ) || taken.contains(j) by {
        if j == slot {
            assert(taken[root_inputs.len() as int] == j);
        } else if j < order.len() {
            if read_later(order, j) {
                lemma_read_later_extends(order, longer, j);
            } else {
                let p = choose|p: int| 0 <= p < root_inputs.len() && root_inputs[p] == j;
                assert(taken[p] == j);
            }
        }
    }
}

/// A place that occurs among `slots` occurs there at least once.
pub proof fn lemma_contained_occurs(slots: Seq<usize>, j: usize)
    requires
        slots.contains(j),
    ensures
        occurrences(slots, j as int) >= 1,
    decreases slots.len(),
{
    if slots[0] != j {
        let p = choose|p: int| 0 <= p < slots.len() && slots[p] == j;
        assert(slots.skip(1)[p - 1] == j);
        lemma_contained_occurs(slots.skip(1), j);
    }
}

/// Where every place is read, by a later place or by the root, the result
/// of every place is read at least once.
pub proof fn lemma_all_read_demand<T: Copy>(
    order: Seq<PlanEntry<T>>,
    root_inputs: Seq<usize>,
    j: usize,
)
    requires
        all_read(order, root_inputs),
        j < order.len(),
    ensures
        demand(order, root_inputs, j as int, 0) >= 1,
{
    if read_later(order, j) {
        let i = choose|i: int| j < i < order.len() && (#[trigger] order[i]).inputs@.contains(j);
        lemma_contained_occurs(order[i].inputs@, j);
        lemma_demand_grows(order, root_inputs, j as int, i);
    } else {
        lemma_contained_occurs(root_inputs, j);
        lemma_demand_grows(order, root_inputs, j as int, order.len() as int);
    }
}

/// The number of times that place `j` occurs among `slots`.
pub open spec fn occurrences(slots: Seq<usize>, j: int) -> nat
    decreases slots.len(),
{
    if slots.len() == 0 {
        0
    } else {
        (if slots[0] == j {
            1nat
        } else {
            0nat
        }) + occurrences(slots.skip(1), j)
    }
}

/// The number of times that the result of place `j` is read by the places
/// from `from` on and by the root.
pub open spec fn demand<T: Copy>(
    order: Seq<PlanEntry<T>>,
    root_inputs: Seq<usize>,
    j: int,
    from: int,
) -> nat
    decreases order.len() - from,
{
    if from >= order.len() {
        occurrences(root_inputs, j)
    } else {
        occurrences(order[from].inputs@, j) + demand(order, root_inputs, j, from + 1)
    }
}

/// Why a graph has no plan.
#[derive(Clone, Copy, Debug, PartialEq, Eq)]
pub enum SortError {
    /// A result is read more often than a `usize` counts.
    TooManyReads,
}

/// What sorting a graph gives: the members that the root depends on in the
/// order of evaluation, the places of the inputs of the root, and for each
/// place the number of times its result is read.
#[verifier::reject_recursive_types(T)]
pub struct Plan<T: Copy> {
    pub order: Vec<PlanEntry<T>>,
    pub root_inputs: Vec<usize>,
    pub uses: Vec<usize>,
}

impl<T: Copy> Plan<T> {
    /// Whether this is a plan for a root with the given inputs: every place
    /// is sound, no two places bear one number, each input of the root has
    /// its place, every place is read, by a later place or by the root, and
    /// the count of each place is the number of times its result is read,
    /// which is at least once.
    pub open spec fn sound(self, inputs: Seq<NodeKind<T>>) -> bool {
        &&& order_sound(self.order@)
        &&& numbers_distinct(self.order@)
        &&& all_read(self.order@, self.root_inputs@)
        &&& forall|j: int| 0 <= j < self.uses@.len() ==> #[trigger] self.uses@[j] >= 1
        &&& self.root_inputs@.len() == inputs.len()
        &&& linked(self.order@, self.order@.len() as int, self.root_inputs@, inputs)
        &&& self.uses@.len() == self.order@.len()
        &&& forall|j: int|
            0 <= j < self.uses@.len() ==> #[trigger] self.uses@[j] == demand(
                self.order@,
                self.root_inputs@,
                j,
                0,
            )
    }
}

/// A place occurs among all of `slots` at least as often as among those
/// from `p` on.
pub proof fn lemma_occurrences_tail(slots: Seq<usize>, p: int, j: int)
    requires
        0 <= p <= slots.len(),
    ensures
        occurrences(slots.skip(p), j) <= occurrences(slots, j),
    decreases p,
{
    if p == 0 {
        assert(slots.skip(0) =~= slots);
    } else {
        lemma_occurrences_tail(slots, p - 1, j);
        assert(slots.skip(p - 1).skip(1) =~= slots.skip(p));
    }
}

/// Adds to each count the number of times its place occurs among `slots`.
/// Nothing is said of the counts where one of them would not fit.
fn add_uses(uses: &mut Vec<usize>, slots: &Vec<usize>) -> (fits: bool)
    requires
        forall|p: int| 0 <= p < slots@.len() ==> (#[trigger] slots@[p]) < old(uses)@.len(),
    ensures
        final(uses)@.len() == old(uses)@.len(),
        fits ==> forall|j: int|
            0 <= j < old(uses)@.len() ==> #[trigger] final(uses)@[j] == old(uses)@[j] + occurrences(
                slots@,
                j,
            ),
        !fits ==> exists|j: int|
            0 <= j < old(uses)@.len() && old(uses)@[j] + occurrences(slots@, j) > usize::MAX,
{
    let ghost before = uses@;
    let mut p: usize = slots.len();
    while p > 0
        invariant
            0 <= p <= slots@.len(),
            before == old(uses)@,
            uses@.len() == before.len(),
            forall|q: int| 0 <= q < slots@.len() ==> (#[trigger] slots@[q]) < before.len(),
            forall|j: int|
                0 <= j < before.len() ==> #[trigger] uses@[j] == before[j] + occurrences(
                    slots@.skip(p as int),
                    j,
                ),
        decreases p,
    {
        let s: usize = slots[p - 1];
        proof {
            assert(slots@.skip(p - 1).skip(1) =~= slots@.skip(p as int));
        }
        if uses[s] == usize::MAX {
            proof {
                lemma_occurrences_tail(slots@, p - 1, s as int);
            }
            return false;
        }
        let raised: usize = uses[s] + 1;
        uses.set(s, raised);
        p = p - 1;
    }
    proof {
        assert(slots@.skip(0) =~= slots@);
    }
    true
}

/// For each place, the number of times that its result is read by the
/// places of the order and by the root; nothing where one of these numbers
/// is more than a `usize` holds.
fn count_uses<T: Copy>(order: &Vec<PlanEntry<T>>, root_inputs: &Vec<usize>) -> (r: Option<
    Vec<usize>,
>)
    requires
        order_sound(order@),
        forall|p: int| 0 <= p < root_inputs@.len() ==> (#[trigger] root_inputs@[p]) < order@.len(),
    ensures
        r matches Some(uses) ==> {
            &&& uses@.len() == order@.len()
            &&& forall|j: int|
                0 <= j < uses@.len() ==> #[trigger] uses@[j] == demand(
                    order@,
                    root_inputs@,
                    j,
                    0,
                )
        },
        r is None ==> exists|j: int|
            0 <= j < order@.len() && demand(order@, root_inputs@, j, 0) > usize::MAX,
{
    let n: usize = order.len();
    let mut uses: Vec<usize> = Vec::new();
    uses.resize(n, 0);
    if !add_uses(&mut uses, root_inputs) {
        proof {
            let j = choose|j: int| 0 <= j < n && 0 + occurrences(root_inputs@, j) > usize::MAX;
            lemma_demand_grows(order@, root_inputs@, j, n as int);
        }
        return None;
    }
    let mut i: usize = n;
    while i > 0
        invariant
            0 <= i <= n,
            n == order@.len(),
            uses@.len() == n,
            order_sound(order@),
            forall|j: int|
                0 <= j < n ==> #[trigger] uses@[j] == demand(order@, root_inputs@, j, i as int),
        decreases i,
    {
        let ghost before = uses@;
        proof {
            assert(entry_sound(order@, i - 1));
        }
        if !add_uses(&mut uses, &order[i - 1].inputs) {
            proof {
                let j = choose|j: int|
                    0 <= j < n && before[j] + occurrences(order@[i - 1].inputs@, j) > usize::MAX;
                lemma_demand_grows(order@, root_inputs@, j, i - 1);
            }
            return None;
        }
        i = i - 1;
    }
    Some(uses)
}

/// The result of a place is read at least as often from the first place on
/// as from a later one.
pub proof fn lemma_demand_grows<T: Copy>(
    order: Seq<PlanEntry<T>>,
    root_inputs: Seq<usize>,
    j: int,
    from: int,
)
    requires
        0 <= from <= order.len(),
    ensures
        demand(order, root_inputs, j, from) <= demand(order, root_inputs, j, 0),
    decreases from,
{
    if from > 0 {
        lemma_demand_grows(order, root_inputs, j, from - 1);
    }
}

/// An input of a node is within the work for the inputs of the node from
/// any input before it on.
proof fn lemma_input_within<T: Copy>(node: TensorGraphNode<T>, from: int, p: int)
    requires
        0 <= from <= p < node.inputs@.len(),
    ensures
        member_size(node.inputs@[p]) <= pending(node, from),
    decreases p - from,
{
    if from < p {
        lemma_input_within(node, from + 1, p);
    }
}

/// A place occurs among `slots` at most as often as there are slots.
pub proof fn lemma_occurrences_bounded(slots: Seq<usize>, j: int)
    ensures
        occurrences(slots, j) <= slots.len(),
    decreases slots.len(),
{
    if slots.len() > 0 {
        lemma_occurrences_bounded(slots.skip(1), j);
    }
}

/// The result of a place is read at most as often as the places from
/// `from` on and the root read at all.
pub proof fn lemma_demand_bounded<T: Copy>(
    order: Seq<PlanEntry<T>>,
    root_inputs: Seq<usize>,
    j: int,
    from: int,
)
    requires
        0 <= from <= order.len(),
    ensures
        demand(order, root_inputs, j, from) <= recorded(order, from) + root_inputs.len(),
    decreases order.len() - from,
{
    if from < order.len() {
        lemma_demand_bounded(order, root_inputs, j, from + 1);
        lemma_occurrences_bounded(order[from].inputs@, j);
    } else {
        lemma_occurrences_bounded(root_inputs, j);
    }
}

/// Whether a graph can be sorted so that a result is read more often than
/// a `usize` counts: there is a sound order for a root with the given
/// inputs, every place of which is read, with such a place.
pub open spec fn too_many_reads<T: Copy>(inputs: Seq<NodeKind<T>>) -> bool {
    exists|order: Seq<PlanEntry<T>>, root_inputs: Seq<usize>, j: int|
        #![trigger demand(order, root_inputs, j, 0)]
        {
            &&& order_sound(order)
            &&& all_read(order, root_inputs)
            &&& root_inputs.len() == inputs.len()
            &&& linked(order, order.len() as int, root_inputs, inputs)
            &&& 0 <= j < order.len()
            &&& demand(order, root_inputs, j, 0) > usize::MAX
        }
}

/// The member at a place of a plan is within the work for the inputs of
/// the root: it is an input of the root, or of a member at a later place.
proof fn lemma_place_below_root<T: Copy>(root: TensorGraphNode<T>, plan: Plan<T>, j: int)
    requires
        plan.sound(root.inputs@),
        0 <= j < plan.order@.len(),
    ensures
        member_size(plan.order@[j].node) <= pending(root, 0),
    decreases plan.order@.len() - j,
{
    let order = plan.order@;
    assert(order.len() == plan.order.len());
    let place = j as usize;
    if read_later(order, place) {
        let i = choose|i: int| j < i < order.len() && (#[trigger] order[i]).inputs@.contains(place);
        let p = choose|p: int| 0 <= p < order[i].inputs@.len() && order[i].inputs@[p] == place;
        assert(entry_sound(order, i));
        assert(order[i].node.inputs()[p] == order[j].node);
        lemma_place_below_root(root, plan, i);
        lemma_input_within(order[i].node.operation(), 0, p);
    } else {
        assert(plan.root_inputs@.contains(place));
        let p = choose|p: int| 0 <= p < plan.root_inputs@.len() && plan.root_inputs@[p] == place;
        assert(root.inputs@[p] == order[j].node);
        lemma_input_within(root, 0, p);
    }
}

/// No place of a plan for a node holds that node: neither the node itself
/// nor a remembering node around it.
pub proof fn law_root_not_in_order<T: Copy>(root: TensorGraphNode<T>, plan: Plan<T>)
    requires
        plan.sound(root.inputs@),
    ensures
        forall|j: int|
            0 <= j < plan.order@.len() && !((#[trigger] plan.order@[j]).node is Edge)
                ==> plan.order@[j].node.operation() != root,
{
    assert forall|j: int|
        0 <= j < plan.order@.len() && !((#[trigger] plan.order@[j]).node is Edge)
        implies plan.order@[j].node.operation() != root by {
        lemma_place_below_root(root, plan, j);
    }
}

impl<T: Copy> TensorGraphNode<T> {
    /// Sorts the graph below this node, depth first: every member that the
    /// node depends on comes after the members it reads, so that the order
    /// can be evaluated front to back, the node itself last. A remembering
    /// node that holds its result counts as a leaf, and its inputs are not
    /// walked. Each place bears its index as its number; no place holds
    /// this node; every place is read, by a later place or by this node.
    /// With the order comes the number of times each result is read. There
    /// is no plan only where one of these numbers is more than a `usize`
    /// holds, which is never so where the work for the inputs of the node
    /// is within a `usize`; a node whose one input is a leaf of the graph
    /// always has a plan.
    pub fn topological_sort(&self) -> (r: Result<Plan<T>, SortError>)
        requires
            node_wf(*self),
        ensures
            r matches Ok(plan) ==> plan.sound(self.inputs@),
            r matches Ok(plan) ==> forall|j: int|
                0 <= j < plan.order@.len() && !((#[trigger] plan.order@[j]).node is Edge)
                    ==> plan.order@[j].node.operation() != *self,
            self.inputs@.len() == 1 && self.inputs@[0] is Edge ==> r is Ok,
            pending(*self, 0) <= usize::MAX ==> r is Ok,
            r matches Err(e) ==> e == SortError::TooManyReads && too_many_reads(self.inputs@),
    {
        let mut order: Vec<PlanEntry<T>> = Vec::new();
        let mut index: HashMap<usize, usize> = HashMap::new();
        let mut root_inputs: Vec<usize> = Vec::new();
        let mut k: usize = 0;
        while k < self.inputs.len()
            invariant
                node_wf(*self),
                0 <= k <= self.inputs@.len(),
                order_sound(order@),
                all_read(order@, root_inputs@),
                root_inputs@.len() == k,
                linked(order@, order@.len() as int, root_inputs@, self.inputs@),
                self.inputs@.len() == 1 && self.inputs@[0] is Edge ==> order@.len() == k,
                recorded(order@, 0) + k + pending(*self, k as int) <= pending(*self, 0),
            decreases self.inputs@.len() - k,
        {
            let ghost order_before = order@;
            let ghost roots_before = root_inputs@;
            proof {
                assert(pending(*self, k as int) == member_size(self.inputs@[k as int]) + pending(
                    *self,
                    k + 1,
                ));
                assert(member_size(self.inputs@[k as int]) >= 2);
            }
            let slot = match find_slot(&self.inputs[k], &order, &index) {
                Some(s) => {
                    proof {
                        assert(order@.take(order@.len() as int) =~= order@);
                    }
                    s
                },
                None => place(&self.inputs[k], &mut order, &mut index),
            };
            root_inputs.push(slot);
            proof {
                lemma_all_read_grows(order_before, order@, roots_before, slot);
                lemma_recorded_splits(order@, 0, order_before.len() as int);
            }
            k = k + 1;
        }
        proof {
            lemma_sound_distinct(order@);
        }
        let n: usize = order.len();
        match count_uses(&order, &root_inputs) {
            Some(uses) => {
                proof {
                    assert forall|j: int| 0 <= j < uses@.len() implies #[trigger] uses@[j] >= 1 by {
                        assert(j < n);
                        lemma_all_read_demand(order@, root_inputs@, j as usize);
                    }
                }
                let plan = Plan { order, root_inputs, uses };
                proof {
                    law_root_not_in_order(*self, plan);
                }
                Ok(plan)
            },
            None => {
                proof {
                    let j = choose|j: int|
                        0 <= j < order@.len() && demand(order@, root_inputs@, j, 0) > usize::MAX;
                    lemma_demand_bounded(order@, root_inputs@, j, 0);
                    assert(pending(*self, self.inputs@.len() as int) == 0);
                    if self.inputs@.len() == 1 && self.inputs@[0] is Edge {
                        assert(entry_sound(order@, 0));
                        assert(root_inputs@.skip(1) =~= Seq::<usize>::empty());
                        assert(order@[0].inputs@ =~= Seq::<usize>::empty());
                        assert(demand(order@, root_inputs@, 0, 1) == occurrences(
                            root_inputs@,
                            0,
                        ));
                        assert(demand(order@, root_inputs@, 0, 0) == 1);
                    }
                }
                Err(SortError::TooManyReads)
            },
        }
    }
}

} // verus!
