use crate::graph::{admissible, other_than, random_id, value_of, ComputationGraph};
use crate::node_type::NodeType;
use crate::operands::{ConstantList, ParentList};
use crate::kernel::{pure_kernel, NodeTypeClass};
use crate::node::NodeView;
use crate::scalar::{f64ad, f64ad_var, ComputationGraphMode};
use vstd::prelude::*;

verus! {

/// Every operation node holds what the value rule gives on the values of its
/// parents.
pub open spec fn consistent<K: Fn(NodeTypeClass, u64, u64) -> u64>(
    kernel: &K,
    nodes: Seq<NodeView>,
) -> bool {
    forall|i: int|
        0 <= i < nodes.len() && (#[trigger] nodes[i]).node_type.spec_is_operation() ==> nodes[i].value
            == value_of(
            kernel,
            nodes,
            nodes[i].node_type,
            nodes[i].parent_nodes,
            nodes[i].constant_operands,
        )
}

/// The two tapes hold the same nodes but for the values of the operation
/// nodes.
pub open spec fn same_program(a: Seq<NodeView>, b: Seq<NodeView>) -> bool {
    &&& a.len() == b.len()
    &&& forall|i: int|
        0 <= i < a.len() ==> (#[trigger] b[i]) == if a[i].node_type.spec_is_operation() {
            NodeView { value: b[i].value, ..a[i] }
        } else {
            a[i]
        }
}

/// A recorded computation that is kept to be computed again on other inputs,
/// together with whatever its maker wants to find again in it.
pub struct LockedComputationGraph<T> {
    locked_computation_graph: ComputationGraph,
    curr_count: usize,
    template_output: T,
}

impl ComputationGraph {
    /// Keeps a copy of this graph, under an identity of its own, to be computed
    /// again: a random one, or the next value where the draw gives this
    /// graph's. Only a graph of mode `Lock` can be kept so.
    pub fn lock<T>(&self, name: Option<&str>, template_output: T) -> (r: LockedComputationGraph<T>)
        requires
            self.wf(),
            self.spec_mode() == ComputationGraphMode::Lock,
        ensures
            r.wf(),
            r@ == self@,
            r.spec_id() != self.spec_id(),
            r.spec_count() == 0,
            r.spec_template_output() == template_output,
    {
        let id = other_than(random_id(), self.id());
        LockedComputationGraph {
            locked_computation_graph: self.duplicate_with_id(id, name),
            curr_count: 0,
            template_output,
        }
    }
}

impl<T> LockedComputationGraph<T> {
    /// The nodes, by index.
    pub closed spec fn view(&self) -> Seq<NodeView> {
        self.locked_computation_graph@
    }

    /// The identity under which locked scalars are issued.
    pub closed spec fn spec_id(&self) -> usize {
        self.locked_computation_graph.spec_id()
    }

    /// The number of nodes that were computed again one by one.
    pub closed spec fn spec_count(&self) -> usize {
        self.curr_count
    }

    pub closed spec fn spec_template_output(&self) -> T {
        self.template_output
    }

    pub closed spec fn wf(&self) -> bool {
        self.locked_computation_graph.wf()
    }

    pub fn num_nodes(&self) -> (r: usize)
        requires
            self.wf(),
        ensures
            r == self@.len(),
    {
        self.locked_computation_graph.num_nodes()
    }

    pub fn template_output(&self) -> (r: &T)
        ensures
            *r == self.spec_template_output(),
    {
        &self.template_output
    }

    /// Gives a node without parents another value.
    pub fn set_value(&mut self, node_idx: usize, value: u64)
        requires
            old(self).wf(),
            node_idx < old(self)@.len(),
            old(self)@[node_idx as int].parent_nodes.len() == 0,
        ensures
            final(self).wf(),
            final(self)@ == old(self)@.update(
                node_idx as int,
                NodeView { value, ..old(self)@[node_idx as int] },
            ),
            final(self).spec_id() == old(self).spec_id(),
            final(self).spec_count() == old(self).spec_count(),
            final(self).spec_template_output() == old(self).spec_template_output(),
    {
        self.locked_computation_graph.set_node_value(node_idx, value);
    }

    pub fn get_value(&self, idx: usize) -> (r: u64)
        requires
            self.wf(),
            idx < self@.len(),
        ensures
            r == self@[idx as int].value,
    {
        self.locked_computation_graph.node(idx).value()
    }

    /// Gives the next node, which must be one without parents, the value
    /// `value` and hands out a locked scalar for it.
    pub fn spawn_locked_var(&mut self, value: u64) -> (r: f64ad)
        requires
            old(self).wf(),
            old(self).spec_count() < old(self)@.len(),
            old(self)@[old(self).spec_count() as int].parent_nodes.len() == 0,
        ensures
            final(self).wf(),
            final(self)@ == old(self)@.update(
                old(self).spec_count() as int,
                NodeView { value, ..old(self)@[old(self).spec_count() as int] },
            ),
            final(self).spec_id() == old(self).spec_id(),
            final(self).spec_count() == old(self).spec_count() + 1,
            final(self).spec_template_output() == old(self).spec_template_output(),
            r == f64ad::Var(
                f64ad_var {
                    computation_graph_id: old(self).spec_id(),
                    node_idx: old(self).spec_count(),
                    mode: ComputationGraphMode::Lock,
                },
            ),
    {
        let node_idx = self.curr_count;
        self.set_value(node_idx, value);
        let r = f64ad::Var(
            f64ad_var::new(self.locked_computation_graph.id(), node_idx, ComputationGraphMode::Lock),
        );
        let l = self.locked_computation_graph.num_nodes();
        assert(node_idx < l);
        self.curr_count = node_idx + 1;
        r
    }

    /// Computes every operation node again, in the order of the nodes, from
    /// the values that the nodes without parents hold now.
    pub fn push_forward_compute<K: Fn(NodeTypeClass, u64, u64) -> u64>(&mut self, kernel: &K)
        requires
            pure_kernel(kernel),
            old(self).wf(),
        ensures
            final(self).wf(),
            same_program(old(self)@, final(self)@),
            consistent(kernel, final(self)@),
            final(self).spec_id() == old(self).spec_id(),
            final(self).spec_count() == old(self).spec_count(),
            final(self).spec_template_output() == old(self).spec_template_output(),
    {
        let l = self.locked_computation_graph.num_nodes();
        let mut idx: usize = 0;
        while idx < l
            invariant
                pure_kernel(kernel),
                self.wf(),
                l == self@.len(),
                idx <= l,
                same_program(old(self)@, self@),
                consistent(kernel, self@.take(idx as int)),
                self.spec_id() == old(self).spec_id(),
                self.spec_count() == old(self).spec_count(),
                self.spec_template_output() == old(self).spec_template_output(),
            decreases l - idx,
        {
            let ghost before = self@;
            let node = self.locked_computation_graph.node(idx);
            assert(before[idx as int].fits(idx as int));
            if node.node_type().is_operation() {
                let value = node.node_type().compute_value(
                    node.parent_nodes(),
                    node.constant_operands(),
                    &self.locked_computation_graph,
                    kernel,
                );
                self.locked_computation_graph.set_node_value(idx, value);
            }
            idx += 1;
            proof {
                let after = self@;
                let prefix = after.take(idx as int);
                assert forall|i: int|
                    0 <= i < prefix.len() && (#[trigger] prefix[i]).node_type.spec_is_operation() implies prefix[i].value
                    == value_of(
                    kernel,
                    prefix,
                    prefix[i].node_type,
                    prefix[i].parent_nodes,
                    prefix[i].constant_operands,
                ) by {
                    let earlier = before.take(idx - 1);
                    assert(before[i].fits(i));
                    assert forall|j: int| 0 <= j < prefix[i].parent_nodes.len() implies prefix[prefix[i].parent_nodes[j] as int]
                        == before[prefix[i].parent_nodes[j] as int] by {}
                    if i < idx - 1 {
                        assert(earlier[i] == prefix[i]);
                        assert forall|j: int| 0 <= j < prefix[i].parent_nodes.len() implies earlier[prefix[i].parent_nodes[j] as int]
                            == before[prefix[i].parent_nodes[j] as int] by {}
                    }
                }
            }
        }
        assert(self@.take(l as int) =~= self@);
    }
}

impl<T> LockedComputationGraph<T> {
    /// Computes the next node again from the nodes `parent_nodes` and the plain
    /// operand `constant_operands`, which take the place of those recorded.
    fn recompute_next<K: Fn(NodeTypeClass, u64, u64) -> u64>(
        &mut self,
        node_type: NodeType,
        parent_nodes: ParentList,
        constant_operands: ConstantList,
        kernel: &K,
    ) -> (r: usize)
        requires
            pure_kernel(kernel),
            old(self).wf(),
            old(self).spec_count() < old(self)@.len(),
            admissible(old(self)@, node_type, parent_nodes@, constant_operands@),
        ensures
            final(self).wf(),
            final(self)@ == old(self)@.update(
                old(self).spec_count() as int,
                NodeView {
                    value: value_of(
                        kernel,
                        old(self)@,
                        node_type,
                        parent_nodes@,
                        constant_operands@,
                    ),
                    ..old(self)@[old(self).spec_count() as int]
                },
            ),
            final(self).spec_id() == old(self).spec_id(),
            final(self).spec_count() == old(self).spec_count() + 1,
            final(self).spec_template_output() == old(self).spec_template_output(),
            r == old(self).spec_count(),
    {
        let node_idx = self.curr_count;
        let value = node_type.compute_value(
            &parent_nodes,
            &constant_operands,
            &self.locked_computation_graph,
            kernel,
        );
        self.locked_computation_graph.set_node_value(node_idx, value);
        let l = self.locked_computation_graph.num_nodes();
        assert(node_idx < l);
        self.curr_count = node_idx + 1;
        node_idx
    }
}

/// Repeats on a locked graph an operation of two recorded operands: the next
/// node, which must carry the tag `node_type`, gets the value of the operation
/// on `lhs` and `rhs`.
pub fn f64ad_locked_var_operation_two_parents<T, K: Fn(NodeTypeClass, u64, u64) -> u64>(
    lhs: &f64ad_var,
    rhs: &f64ad_var,
    node_type: NodeType,
    locked: &mut LockedComputationGraph<T>,
    kernel: &K,
) -> (r: f64ad_var)
    requires
        pure_kernel(kernel),
        old(locked).wf(),
        lhs.computation_graph_id == rhs.computation_graph_id,
        old(locked).spec_count() < old(locked)@.len(),
        old(locked)@[old(locked).spec_count() as int].node_type == node_type,
        node_type.spec_parent_count() == 2,
        lhs.node_idx < old(locked)@.len(),
        rhs.node_idx < old(locked)@.len(),
    ensures
        final(locked).wf(),
        final(locked)@ == old(locked)@.update(
            old(locked).spec_count() as int,
            NodeView {
                value: value_of(
                    kernel,
                    old(locked)@,
                    node_type,
                    seq![lhs.node_idx, rhs.node_idx],
                    Seq::<u64>::empty(),
                ),
                ..old(locked)@[old(locked).spec_count() as int]
            },
        ),
        final(locked).spec_id() == old(locked).spec_id(),
        final(locked).spec_count() == old(locked).spec_count() + 1,
        final(locked).spec_template_output() == old(locked).spec_template_output(),
        r == (f64ad_var {
            computation_graph_id: lhs.computation_graph_id,
            node_idx: old(locked).spec_count(),
            mode: ComputationGraphMode::Lock,
        }),
{
    let node_idx = locked.recompute_next(
        node_type,
        ParentList::two(lhs.node_idx, rhs.node_idx),
        ConstantList::empty(),
        kernel,
    );
    f64ad_var::new(lhs.computation_graph_id, node_idx, ComputationGraphMode::Lock)
}

/// Repeats on a locked graph an operation of one recorded operand, with or
/// without a plain operand: the next node, which must carry the tag
/// `node_type`, gets the value of the operation on `v` and `constant_operand`.
pub fn f64ad_locked_var_operation_one_parent<T, K: Fn(NodeTypeClass, u64, u64) -> u64>(
    v: &f64ad_var,
    constant_operand: Option<u64>,
    node_type: NodeType,
    locked: &mut LockedComputationGraph<T>,
    kernel: &K,
) -> (r: f64ad_var)
    requires
        pure_kernel(kernel),
        old(locked).wf(),
        old(locked).spec_count() < old(locked)@.len(),
        old(locked)@[old(locked).spec_count() as int].node_type == node_type,
        node_type.spec_parent_count() == 1,
        node_type.spec_has_constant() == constant_operand is Some,
        v.node_idx < old(locked)@.len(),
    ensures
        final(locked).wf(),
        final(locked)@ == old(locked)@.update(
            old(locked).spec_count() as int,
            NodeView {
                value: value_of(
                    kernel,
                    old(locked)@,
                    node_type,
                    seq![v.node_idx],
                    match constant_operand {
                        Some(c) => seq![c],
                        None => Seq::<u64>::empty(),
                    },
                ),
                ..old(locked)@[old(locked).spec_count() as int]
            },
        ),
        final(locked).spec_id() == old(locked).spec_id(),
        final(locked).spec_count() == old(locked).spec_count() + 1,
        final(locked).spec_template_output() == old(locked).spec_template_output(),
        r == (f64ad_var {
            computation_graph_id: v.computation_graph_id,
            node_idx: old(locked).spec_count(),
            mode: ComputationGraphMode::Lock,
        }),
{
    let constants = match constant_operand {
        Some(c) => ConstantList::one(c),
        None => ConstantList::empty(),
    };
    let node_idx = locked.recompute_next(node_type, ParentList::one(v.node_idx), constants, kernel);
    f64ad_var::new(v.computation_graph_id, node_idx, ComputationGraphMode::Lock)
}

} // verus!
