use crate::node_type::NodeType;
use crate::operands::{ConstantList, ParentList};
use vstd::prelude::*;

verus! {

/// What a node holds, as plain values.
pub struct NodeView {
    pub node_idx: usize,
    pub value: u64,
    pub node_type: NodeType,
    pub constant_operands: Seq<u64>,
    pub parent_nodes: Seq<usize>,
}

impl NodeView {
    /// A node fits position `idx` of a graph when it carries that index, has as
    /// many parents and plain operands as its tag asks for, and every parent
    /// stands before it.
    pub open spec fn fits(self, idx: int) -> bool {
        &&& self.node_idx == idx
        &&& !(self.node_type is Unset)
        &&& self.parent_nodes.len() == self.node_type.spec_parent_count()
        &&& self.constant_operands.len() == (if self.node_type.spec_has_constant() {
            1nat
        } else {
            0nat
        })
        &&& forall|j: int| 0 <= j < self.parent_nodes.len() ==> self.parent_nodes[j] < idx
    }
}

/// One recorded operation: its value, its tag, the nodes it was computed from
/// and the plain operand that took part, if any.
#[derive(Debug)]
pub struct F64ADNode {
    node_idx: usize,
    value: u64,
    node_type: NodeType,
    constant_operands: ConstantList,
    parent_nodes: ParentList,
}

impl F64ADNode {
    pub closed spec fn view(&self) -> NodeView {
        NodeView {
            node_idx: self.node_idx,
            value: self.value,
            node_type: self.node_type,
            constant_operands: self.constant_operands@,
            parent_nodes: self.parent_nodes@,
        }
    }

    pub fn new(
        node_idx: usize,
        value: u64,
        node_type: NodeType,
        constant_operands: ConstantList,
        parent_nodes: ParentList,
    ) -> (r: Self)
        ensures
            r@ == (NodeView {
                node_idx,
                value,
                node_type,
                constant_operands: constant_operands@,
                parent_nodes: parent_nodes@,
            }),
    {
        F64ADNode { node_idx, value, node_type, constant_operands, parent_nodes }
    }

    pub fn node_idx(&self) -> (r: usize)
        ensures
            r == self@.node_idx,
    {
        self.node_idx
    }

    pub fn value(&self) -> (r: u64)
        ensures
            r == self@.value,
    {
        self.value
    }

    pub fn node_type(&self) -> (r: NodeType)
        ensures
            r == self@.node_type,
    {
        self.node_type
    }

    pub fn constant_operands(&self) -> (r: &ConstantList)
        ensures
            r@ == self@.constant_operands,
    {
        &self.constant_operands
    }

    pub fn parent_nodes(&self) -> (r: &ParentList)
        ensures
            r@ == self@.parent_nodes,
    {
        &self.parent_nodes
    }
}

} // verus!
