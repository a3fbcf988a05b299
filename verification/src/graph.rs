use crate::kernel::{apply, kernel_value, pure_kernel, NodeTypeClass};
use crate::node::{F64ADNode, NodeView};
use crate::node_type::NodeType;
use crate::operands::{ConstantList, ParentList};
use crate::scalar::{f64ad, f64ad_var, ComputationGraphMode};
use crate::storage::GenericComputationGraph;
use rand::Rng;
use vstd::prelude::*;

verus! {

/// `rand::thread_rng` and `Rng::gen`: one machine word from the thread's random
/// generator. Nothing is known of it.
#[verifier::external_body]
pub(crate) fn random_id() -> usize {
    rand::thread_rng().gen()
}

/// The value after `id`, the first one after the last.
pub open spec fn spec_next_id(id: usize) -> usize {
    if id == usize::MAX {
        0
    } else {
        (id + 1) as usize
    }
}

/// An identity other than `taken`: `drawn`, or the value after it where the two
/// are equal.
pub fn other_than(drawn: usize, taken: usize) -> (r: usize)
    ensures
        r != taken,
        r == if drawn == taken {
            spec_next_id(drawn)
        } else {
            drawn
        },
{
    if drawn != taken {
        drawn
    } else if drawn == usize::MAX {
        0
    } else {
        drawn + 1
    }
}

/// The two words that `node_type` is computed from: the values of its parents,
/// with the plain operand on the side where it stood. A function of one operand
/// gets `0` for the second.
pub open spec fn operands_of(
    nodes: Seq<NodeView>,
    node_type: NodeType,
    parent_nodes: Seq<usize>,
    constant_operands: Seq<u64>,
) -> (u64, u64) {
    if node_type.spec_parent_count() == 2 {
        (nodes[parent_nodes[0] as int].value, nodes[parent_nodes[1] as int].value)
    } else if !node_type.spec_has_constant() {
        (nodes[parent_nodes[0] as int].value, 0)
    } else if node_type.spec_constant_first() {
        (constant_operands[0], nodes[parent_nodes[0] as int].value)
    } else {
        (nodes[parent_nodes[0] as int].value, constant_operands[0])
    }
}

/// The value rule: the function of the tag, applied to its operands.
pub open spec fn value_of<K: Fn(NodeTypeClass, u64, u64) -> u64>(
    kernel: &K,
    nodes: Seq<NodeView>,
    node_type: NodeType,
    parent_nodes: Seq<usize>,
    constant_operands: Seq<u64>,
) -> u64 {
    let (a, b) = operands_of(nodes, node_type, parent_nodes, constant_operands);
    kernel_value(kernel, node_type.spec_class(), a, b)
}

/// Whether a node with this tag, these parents and this plain operand may be
/// appended to `nodes`.
pub open spec fn admissible(
    nodes: Seq<NodeView>,
    node_type: NodeType,
    parent_nodes: Seq<usize>,
    constant_operands: Seq<u64>,
) -> bool {
    &&& node_type.spec_is_operation()
    &&& parent_nodes.len() == node_type.spec_parent_count()
    &&& constant_operands.len() == (if node_type.spec_has_constant() {
        1nat
    } else {
        0nat
    })
    &&& forall|j: int| 0 <= j < parent_nodes.len() ==> parent_nodes[j] < nodes.len()
}

/// The tape: the nodes recorded since the last reset, and the identity under
/// which their handles were issued.
pub struct ComputationGraph {
    id: usize,
    name: String,
    nodes: GenericComputationGraph<F64ADNode>,
    mode: ComputationGraphMode,
}

impl ComputationGraph {
    /// The nodes, by index.
    pub closed spec fn view(&self) -> Seq<NodeView> {
        self.nodes@.map_values(|n: F64ADNode| n@)
    }

    /// The identity that handles are checked against.
    pub closed spec fn spec_id(&self) -> usize {
        self.id
    }

    pub closed spec fn spec_mode(&self) -> ComputationGraphMode {
        self.mode
    }

    pub closed spec fn spec_name(&self) -> Seq<char> {
        self.name@
    }

    pub closed spec fn storage_wf(&self) -> bool {
        self.nodes.wf()
    }

    /// Every node fits its position, so no node depends on a later one.
    pub open spec fn wf(&self) -> bool {
        &&& self.storage_wf()
        &&& forall|i: int| 0 <= i < self@.len() ==> (#[trigger] self@[i]).fits(i)
    }

    /// The handle that this graph issues for its node `node_idx`.
    pub open spec fn handle(&self, node_idx: usize) -> f64ad_var {
        f64ad_var { computation_graph_id: self.spec_id(), node_idx, mode: self.spec_mode() }
    }

    /// An empty graph with the identity `id`.
    pub fn with_id(id: usize, mode: ComputationGraphMode, name: Option<&str>) -> (r: Self)
        ensures
            r.wf(),
            r@ == Seq::<NodeView>::empty(),
            r.spec_id() == id,
            r.spec_mode() == mode,
            r.spec_name() == (match name {
                Some(n) => n@,
                None => Seq::<char>::empty(),
            }),
    {
        let name = match name {
            Some(n) => n.to_owned(),
            None => String::new(),
        };
        let r = ComputationGraph { id, name, nodes: GenericComputationGraph::new(), mode };
        assert(r@ =~= Seq::<NodeView>::empty());
        r
    }

    /// An empty graph with a random identity.
    pub fn new(mode: ComputationGraphMode, name: Option<&str>) -> (r: Self)
        ensures
            r.wf(),
            r@ == Seq::<NodeView>::empty(),
            r.spec_mode() == mode,
            r.spec_name() == (match name {
                Some(n) => n@,
                None => Seq::<char>::empty(),
            }),
    {
        Self::with_id(random_id(), mode, name)
    }

    /// The nodes can be counted in a machine word.
    pub proof fn num_nodes_bound(&self)
        requires
            self.wf(),
        ensures
            self@.len() <= usize::MAX,
    {
        self.nodes.lemma_len_bound();
    }

    pub fn id(&self) -> (r: usize)
        ensures
            r == self.spec_id(),
    {
        self.id
    }

    /// Whether the graph's name is `name`.
    pub fn name_is(&self, name: &String) -> (r: bool)
        ensures
            r == (self.spec_name() == name@),
    {
        self.name == *name
    }

    pub fn mode(&self) -> (r: ComputationGraphMode)
        ensures
            r == self.spec_mode(),
    {
        self.mode
    }

    pub fn num_nodes(&self) -> (r: usize)
        requires
            self.wf(),
        ensures
            r == self@.len(),
    {
        self.nodes.curr_idx()
    }

    /// The node at `node_idx`.
    pub fn node(&self, node_idx: usize) -> (r: &F64ADNode)
        requires
            self.wf(),
            node_idx < self@.len(),
        ensures
            r@ == self@[node_idx as int],
    {
        self.nodes.item(node_idx)
    }

    /// Forgets every node and takes the identity `id`. Handles issued before
    /// carry the former identity.
    pub fn reset_with_id(&mut self, id: usize)
        requires
            old(self).wf(),
        ensures
            final(self).wf(),
            final(self)@ == Seq::<NodeView>::empty(),
            final(self).spec_id() == id,
            final(self).spec_mode() == old(self).spec_mode(),
            final(self).spec_name() == old(self).spec_name(),
    {
        self.id = id;
        self.nodes.reset();
        assert(self@ =~= Seq::<NodeView>::empty());
    }

    /// Forgets every node and takes a new identity: a random one, or the next
    /// value where the draw gives the former identity again.
    pub fn reset(&mut self)
        requires
            old(self).wf(),
        ensures
            final(self).wf(),
            final(self)@ == Seq::<NodeView>::empty(),
            final(self).spec_id() != old(self).spec_id(),
            final(self).spec_mode() == old(self).spec_mode(),
            final(self).spec_name() == old(self).spec_name(),
    {
        let id = other_than(random_id(), self.id);
        self.reset_with_id(id);
    }

    /// Appends `node`, which must fit the next position.
    fn push_node(&mut self, node: F64ADNode)
        requires
            old(self).wf(),
            node@.fits(old(self)@.len() as int),
        ensures
            final(self).wf(),
            final(self)@ == old(self)@.push(node@),
            final(self).spec_id() == old(self).spec_id(),
            final(self).spec_mode() == old(self).spec_mode(),
            final(self).spec_name() == old(self).spec_name(),
    {
        self.nodes.push(node);
        assert(self@ =~= old(self)@.push(node@));
    }

    /// Records a leaf with the value `value` and hands out its handle.
    pub fn spawn_f64ad_var(&mut self, value: u64) -> (r: f64ad)
        requires
            old(self).wf(),
        ensures
            final(self).wf(),
            final(self)@ == old(self)@.push(
                NodeView {
                    node_idx: old(self)@.len() as usize,
                    value,
                    node_type: NodeType::InputVar,
                    constant_operands: Seq::<u64>::empty(),
                    parent_nodes: Seq::<usize>::empty(),
                },
            ),
            final(self).spec_id() == old(self).spec_id(),
            final(self).spec_mode() == old(self).spec_mode(),
            final(self).spec_name() == old(self).spec_name(),
            r == f64ad::Var(old(self).handle(old(self)@.len() as usize)),
    {
        let node_idx = self.num_nodes();
        let node = F64ADNode::new(
            node_idx,
            value,
            NodeType::InputVar,
            ConstantList::empty(),
            ParentList::empty(),
        );
        self.push_node(node);
        f64ad::Var(f64ad_var::new(self.id, node_idx, self.mode))
    }
}

impl NodeType {
    /// The value rule: looks up the parents' values, puts the plain operand on
    /// its side and runs the kernel on them.
    pub fn compute_value<K: Fn(NodeTypeClass, u64, u64) -> u64>(
        &self,
        parent_nodes: &ParentList,
        constant_operands: &ConstantList,
        computation_graph: &ComputationGraph,
        kernel: &K,
    ) -> (r: u64)
        requires
            pure_kernel(kernel),
            computation_graph.wf(),
            admissible(computation_graph@, *self, parent_nodes@, constant_operands@),
        ensures
            r == value_of(kernel, computation_graph@, *self, parent_nodes@, constant_operands@),
    {
        let first = computation_graph.node(parent_nodes.get(0)).value();
        let (a, b) = if self.parent_count() == 2 {
            (first, computation_graph.node(parent_nodes.get(1)).value())
        } else if !self.has_constant() {
            (first, 0)
        } else if self.constant_first() {
            (constant_operands.get(0), first)
        } else {
            (first, constant_operands.get(0))
        };
        apply(kernel, self.class(), a, b)
    }
}

impl ComputationGraph {
    /// Records one operation on nodes of this graph: computes its value by the
    /// value rule, appends the node and hands out its handle.
    pub fn add_node<K: Fn(NodeTypeClass, u64, u64) -> u64>(
        &mut self,
        node_type: NodeType,
        parent_nodes: ParentList,
        constant_operands: ConstantList,
        kernel: &K,
    ) -> (r: f64ad_var)
        requires
            pure_kernel(kernel),
            old(self).wf(),
            admissible(old(self)@, node_type, parent_nodes@, constant_operands@),
        ensures
            final(self).wf(),
            final(self)@ == old(self)@.push(
                NodeView {
                    node_idx: old(self)@.len() as usize,
                    value: value_of(
                        kernel,
                        old(self)@,
                        node_type,
                        parent_nodes@,
                        constant_operands@,
                    ),
                    node_type,
                    constant_operands: constant_operands@,
                    parent_nodes: parent_nodes@,
                },
            ),
            final(self).spec_id() == old(self).spec_id(),
            final(self).spec_mode() == old(self).spec_mode(),
            final(self).spec_name() == old(self).spec_name(),
            r == old(self).handle(old(self)@.len() as usize),
    {
        let value = node_type.compute_value(&parent_nodes, &constant_operands, self, kernel);
        let node_idx = self.num_nodes();
        let node = F64ADNode::new(node_idx, value, node_type, constant_operands, parent_nodes);
        self.push_node(node);
        f64ad_var::new(self.id, node_idx, self.mode)
    }
}

impl ComputationGraph {
    /// Gives the node `node_idx` the value `value` and leaves the rest of it as
    /// it is.
    pub fn set_node_value(&mut self, node_idx: usize, value: u64)
        requires
            old(self).wf(),
            node_idx < old(self)@.len(),
        ensures
            final(self).wf(),
            final(self)@ == old(self)@.update(
                node_idx as int,
                NodeView { value, ..old(self)@[node_idx as int] },
            ),
            final(self).spec_id() == old(self).spec_id(),
            final(self).spec_mode() == old(self).spec_mode(),
            final(self).spec_name() == old(self).spec_name(),
    {
        let ghost before = self@;
        let node = self.nodes.item(node_idx);
        assert(before[node_idx as int].fits(node_idx as int));
        let renewed = F64ADNode::new(
            node.node_idx(),
            value,
            node.node_type(),
            node.constant_operands().duplicate(),
            node.parent_nodes().duplicate(),
        );
        self.nodes.replace(node_idx, renewed);
        assert(self@ =~= before.update(
            node_idx as int,
            NodeView { value, ..before[node_idx as int] },
        ));
        assert forall|i: int| 0 <= i < self@.len() implies (#[trigger] self@[i]).fits(i) by {
            assert(before[i].fits(i));
        }
    }

    /// A graph with the same nodes and mode under the identity `id` and the
    /// name `name`.
    pub fn duplicate_with_id(&self, id: usize, name: Option<&str>) -> (r: Self)
        requires
            self.wf(),
        ensures
            r.wf(),
            r@ == self@,
            r.spec_id() == id,
            r.spec_mode() == self.spec_mode(),
            r.spec_name() == (match name {
                Some(n) => n@,
                None => Seq::<char>::empty(),
            }),
    {
        let mut r = Self::with_id(id, self.mode, name);
        let l = self.num_nodes();
        let mut i: usize = 0;
        while i < l
            invariant
                self.wf(),
                r.wf(),
                l == self@.len(),
                i <= l,
                r@ == self@.take(i as int),
                r.spec_id() == id,
                r.spec_mode() == self.spec_mode(),
                r.spec_name() == (match name {
                    Some(n) => n@,
                    None => Seq::<char>::empty(),
                }),
            decreases l - i,
        {
            let node = self.node(i);
            assert(self@[i as int].fits(i as int));
            let copy = F64ADNode::new(
                node.node_idx(),
                node.value(),
                node.node_type(),
                node.constant_operands().duplicate(),
                node.parent_nodes().duplicate(),
            );
            r.push_node(copy);
            i += 1;
            assert(r@ =~= self@.take(i as int));
        }
        assert(self@.take(l as int) =~= self@);
        r
    }
}

} // verus!
