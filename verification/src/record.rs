use crate::graph::{value_of, ComputationGraph};
use crate::kernel::{apply, kernel_value, pure_kernel, NodeTypeClass};
use crate::node::NodeView;
use crate::node_type::{NodeOperandsMode, NodeType};
use crate::operands::{ConstantList, ParentList};
use crate::scalar::{f64ad, f64ad_var, AdError, ComputationGraphMode};
use vstd::prelude::*;

verus! {

/// A graph as plain values: its identity, its mode and its nodes.
pub struct Tape {
    pub id: usize,
    pub mode: ComputationGraphMode,
    pub nodes: Seq<NodeView>,
}

impl Tape {
    /// Every node fits its position.
    pub open spec fn wf(self) -> bool {
        forall|i: int| 0 <= i < self.nodes.len() ==> (#[trigger] self.nodes[i]).fits(i)
    }

    /// The tape after one more node.
    pub open spec fn append(
        self,
        value: u64,
        node_type: NodeType,
        parent_nodes: Seq<usize>,
        constant_operands: Seq<u64>,
    ) -> Tape {
        Tape {
            nodes: self.nodes.push(
                NodeView {
                    node_idx: self.nodes.len() as usize,
                    value,
                    node_type,
                    constant_operands,
                    parent_nodes,
                },
            ),
            ..self
        }
    }

    /// The handle of the node that the next append creates.
    pub open spec fn next_handle(self) -> f64ad {
        f64ad::Var(
            f64ad_var {
                computation_graph_id: self.id,
                node_idx: self.nodes.len() as usize,
                mode: self.mode,
            },
        )
    }
}

impl ComputationGraph {
    pub open spec fn tape(&self) -> Tape {
        Tape { id: self.spec_id(), mode: self.spec_mode(), nodes: self@ }
    }
}

impl NodeTypeClass {
    /// The functions of two operands.
    pub open spec fn spec_is_binary(self) -> bool {
        matches!(
            self,
            NodeTypeClass::Add | NodeTypeClass::Mul | NodeTypeClass::Sub | NodeTypeClass::Div
                | NodeTypeClass::Max | NodeTypeClass::Min | NodeTypeClass::Atan2
                | NodeTypeClass::Log | NodeTypeClass::Powf
        )
    }

    /// The functions of one operand.
    pub open spec fn spec_is_unary(self) -> bool {
        !self.spec_is_binary() && !(self is InputVariable)
    }
}

impl f64ad {
    /// A recorded scalar is current on a tape that carries the identity under
    /// which it was issued.
    pub open spec fn current_on(self, tape: Tape) -> bool {
        self is Var && self->Var_0.computation_graph_id == tape.id
    }

    /// A current scalar names a node that the tape holds. Handles that a graph
    /// issued always do.
    pub open spec fn in_range(self, tape: Tape) -> bool {
        self.current_on(tape) ==> self->Var_0.node_idx < tape.nodes.len()
    }

    /// The value of a scalar: its own word, or that of its node. A recorded
    /// scalar that is not current has none.
    pub open spec fn spec_value(self, tape: Tape) -> Result<u64, AdError> {
        match self {
            f64ad::Plain(v) => Ok(v),
            f64ad::Var(v) => if v.computation_graph_id == tape.id {
                Ok(tape.nodes[v.node_idx as int].value)
            } else {
                Err(AdError::StaleHandle { handle_graph: v.computation_graph_id, graph: tape.id })
            },
        }
    }

    pub fn value(&self, computation_graph: &ComputationGraph) -> (r: Result<u64, AdError>)
        requires
            computation_graph.wf(),
            self.in_range(computation_graph.tape()),
        ensures
            r == self.spec_value(computation_graph.tape()),
    {
        match self {
            f64ad::Plain(v) => Ok(*v),
            f64ad::Var(v) => {
                if v.computation_graph_id == computation_graph.id() {
                    Ok(computation_graph.node(v.node_idx).value())
                } else {
                    Err(
                        AdError::StaleHandle {
                            handle_graph: v.computation_graph_id,
                            graph: computation_graph.id(),
                        },
                    )
                }
            },
        }
    }

    /// The word of the value.
    pub fn to_bits(&self, computation_graph: &ComputationGraph) -> (r: Result<u64, AdError>)
        requires
            computation_graph.wf(),
            self.in_range(computation_graph.tape()),
        ensures
            r == self.spec_value(computation_graph.tape()),
    {
        self.value(computation_graph)
    }
}

/// How two operands divide into recorded ones and plain ones.
pub open spec fn spec_operands_mode(lhs: f64ad, rhs: f64ad) -> NodeOperandsMode {
    if lhs is Plain && rhs is Plain {
        NodeOperandsMode::NoParents
    } else if lhs is Plain {
        NodeOperandsMode::OneParentRHS
    } else if rhs is Plain {
        NodeOperandsMode::OneParentLHS
    } else {
        NodeOperandsMode::TwoParents
    }
}

/// The error that stops `class` on `lhs` and `rhs` before anything is
/// computed, if there is one: recorded operands of two modes, of two graphs, or
/// not current on the tape.
pub open spec fn spec_operands_error(
    tape: Tape,
    class: NodeTypeClass,
    lhs: f64ad,
    rhs: f64ad,
) -> Option<AdError> {
    match (lhs, rhs) {
        (f64ad::Plain(_), f64ad::Plain(_)) => None,
        (f64ad::Var(v), f64ad::Plain(_)) | (f64ad::Plain(_), f64ad::Var(v)) => if tape.id
            != v.computation_graph_id {
            Some(AdError::StaleHandle { handle_graph: v.computation_graph_id, graph: tape.id })
        } else {
            None
        },
        (f64ad::Var(v), f64ad::Var(w)) => if v.mode != w.mode {
            Some(
                AdError::KindMismatch {
                    operation: class,
                    lhs_graph: v.computation_graph_id,
                    rhs_graph: w.computation_graph_id,
                },
            )
        } else if v.computation_graph_id != w.computation_graph_id {
            Some(
                AdError::GraphMismatch {
                    operation: class,
                    lhs_graph: v.computation_graph_id,
                    rhs_graph: w.computation_graph_id,
                },
            )
        } else if tape.id != v.computation_graph_id {
            Some(AdError::StaleHandle { handle_graph: v.computation_graph_id, graph: tape.id })
        } else {
            None
        },
    }
}

/// What an operation of two operands returns and what it leaves on the tape.
/// Plain operands are combined by the kernel and the tape stays as it is. With
/// a recorded operand the operation becomes a new node, whose parents are the
/// recorded operands and whose plain operand, if any, is stored with it.
pub open spec fn spec_record_2<K: Fn(NodeTypeClass, u64, u64) -> u64>(
    kernel: &K,
    tape: Tape,
    class: NodeTypeClass,
    lhs: f64ad,
    rhs: f64ad,
) -> (Result<f64ad, AdError>, Tape) {
    if let Some(e) = spec_operands_error(tape, class, lhs, rhs) {
        (Err(e), tape)
    } else {
        let node_type = NodeType::spec_from_class(class, spec_operands_mode(lhs, rhs)).unwrap();
        match (lhs, rhs) {
            (f64ad::Plain(a), f64ad::Plain(b)) => (
                Ok(f64ad::Plain(kernel_value(kernel, class, a, b))),
                tape,
            ),
            (f64ad::Var(v), f64ad::Plain(c)) | (f64ad::Plain(c), f64ad::Var(v)) => (
                Ok(tape.next_handle()),
                tape.append(
                    value_of(kernel, tape.nodes, node_type, seq![v.node_idx], seq![c]),
                    node_type,
                    seq![v.node_idx],
                    seq![c],
                ),
            ),
            (f64ad::Var(v), f64ad::Var(w)) => (
                Ok(tape.next_handle()),
                tape.append(
                    value_of(
                        kernel,
                        tape.nodes,
                        node_type,
                        seq![v.node_idx, w.node_idx],
                        Seq::<u64>::empty(),
                    ),
                    node_type,
                    seq![v.node_idx, w.node_idx],
                    Seq::<u64>::empty(),
                ),
            ),
        }
    }
}

/// What an operation of one operand returns and what it leaves on the tape.
pub open spec fn spec_record_1<K: Fn(NodeTypeClass, u64, u64) -> u64>(
    kernel: &K,
    tape: Tape,
    class: NodeTypeClass,
    lhs: f64ad,
) -> (Result<f64ad, AdError>, Tape) {
    match lhs {
        f64ad::Plain(a) => (Ok(f64ad::Plain(kernel_value(kernel, class, a, 0))), tape),
        f64ad::Var(v) => if tape.id != v.computation_graph_id {
            (
                Err(AdError::StaleHandle { handle_graph: v.computation_graph_id, graph: tape.id }),
                tape,
            )
        } else {
            let node_type = NodeType::spec_from_class(class, NodeOperandsMode::OneParentLHS).unwrap();
            (
                Ok(tape.next_handle()),
                tape.append(
                    value_of(kernel, tape.nodes, node_type, seq![v.node_idx], Seq::<u64>::empty()),
                    node_type,
                    seq![v.node_idx],
                    Seq::<u64>::empty(),
                ),
            )
        },
    }
}

/// Applies a function of two operands to scalars, recording it on
/// `computation_graph` unless both are plain.
pub fn f64ad_universal_function_2_operands<K: Fn(NodeTypeClass, u64, u64) -> u64>(
    lhs: f64ad,
    rhs: f64ad,
    node_type_class: NodeTypeClass,
    computation_graph: &mut ComputationGraph,
    kernel: &K,
) -> (r: Result<f64ad, AdError>)
    requires
        pure_kernel(kernel),
        old(computation_graph).wf(),
        node_type_class.spec_is_binary(),
        lhs.in_range(old(computation_graph).tape()),
        rhs.in_range(old(computation_graph).tape()),
    ensures
        final(computation_graph).wf(),
        final(computation_graph).spec_name() == old(computation_graph).spec_name(),
        (r, final(computation_graph).tape()) == spec_record_2(
            kernel,
            old(computation_graph).tape(),
            node_type_class,
            lhs,
            rhs,
        ),
        lhs is Plain && rhs is Plain ==> *final(computation_graph) == *old(computation_graph),
{
    match (lhs, rhs) {
        (f64ad::Plain(a), f64ad::Plain(b)) => Ok(
            f64ad::Plain(apply(kernel, node_type_class, a, b)),
        ),
        (f64ad::Var(v), f64ad::Plain(c)) => {
            if computation_graph.id() != v.computation_graph_id {
                return Err(
                    AdError::StaleHandle {
                        handle_graph: v.computation_graph_id,
                        graph: computation_graph.id(),
                    },
                );
            }
            let node_type = NodeType::from_class(
                node_type_class,
                NodeOperandsMode::OneParentLHS,
            ).unwrap();
            Ok(
                f64ad::Var(
                    computation_graph.add_node(
                        node_type,
                        ParentList::one(v.node_idx),
                        ConstantList::one(c),
                        kernel,
                    ),
                ),
            )
        },
        (f64ad::Plain(c), f64ad::Var(v)) => {
            if computation_graph.id() != v.computation_graph_id {
                return Err(
                    AdError::StaleHandle {
                        handle_graph: v.computation_graph_id,
                        graph: computation_graph.id(),
                    },
                );
            }
            let node_type = NodeType::from_class(
                node_type_class,
                NodeOperandsMode::OneParentRHS,
            ).unwrap();
            Ok(
                f64ad::Var(
                    computation_graph.add_node(
                        node_type,
                        ParentList::one(v.node_idx),
                        ConstantList::one(c),
                        kernel,
                    ),
                ),
            )
        },
        (f64ad::Var(v), f64ad::Var(w)) => {
            if v.mode != w.mode {
                return Err(
                    AdError::KindMismatch {
                        operation: node_type_class,
                        lhs_graph: v.computation_graph_id,
                        rhs_graph: w.computation_graph_id,
                    },
                );
            }
            if v.computation_graph_id != w.computation_graph_id {
                return Err(
                    AdError::GraphMismatch {
                        operation: node_type_class,
                        lhs_graph: v.computation_graph_id,
                        rhs_graph: w.computation_graph_id,
                    },
                );
            }
            if computation_graph.id() != v.computation_graph_id {
                return Err(
                    AdError::StaleHandle {
                        handle_graph: v.computation_graph_id,
                        graph: computation_graph.id(),
                    },
                );
            }
            let node_type = NodeType::from_class(
                node_type_class,
                NodeOperandsMode::TwoParents,
            ).unwrap();
            Ok(
                f64ad::Var(
                    computation_graph.add_node(
                        node_type,
                        ParentList::two(v.node_idx, w.node_idx),
                        ConstantList::empty(),
                        kernel,
                    ),
                ),
            )
        },
    }
}

/// Applies a function of one operand to a scalar, recording it on
/// `computation_graph` unless the scalar is plain.
pub fn f64ad_universal_function_1_operand<K: Fn(NodeTypeClass, u64, u64) -> u64>(
    lhs: f64ad,
    node_type_class: NodeTypeClass,
    computation_graph: &mut ComputationGraph,
    kernel: &K,
) -> (r: Result<f64ad, AdError>)
    requires
        pure_kernel(kernel),
        old(computation_graph).wf(),
        node_type_class.spec_is_unary(),
        lhs.in_range(old(computation_graph).tape()),
    ensures
        final(computation_graph).wf(),
        final(computation_graph).spec_name() == old(computation_graph).spec_name(),
        (r, final(computation_graph).tape()) == spec_record_1(
            kernel,
            old(computation_graph).tape(),
            node_type_class,
            lhs,
        ),
        lhs is Plain ==> *final(computation_graph) == *old(computation_graph),
{
    match lhs {
        f64ad::Plain(a) => Ok(f64ad::Plain(apply(kernel, node_type_class, a, 0))),
        f64ad::Var(v) => {
            if computation_graph.id() != v.computation_graph_id {
                return Err(
                    AdError::StaleHandle {
                        handle_graph: v.computation_graph_id,
                        graph: computation_graph.id(),
                    },
                );
            }
            let node_type = NodeType::from_class(
                node_type_class,
                NodeOperandsMode::OneParentLHS,
            ).unwrap();
            Ok(
                f64ad::Var(
                    computation_graph.add_node(
                        node_type,
                        ParentList::one(v.node_idx),
                        ConstantList::empty(),
                        kernel,
                    ),
                ),
            )
        },
    }
}

/// Applies a function to one or two scalars, as `rhs` is absent or present.
pub fn f64ad_universal_function<K: Fn(NodeTypeClass, u64, u64) -> u64>(
    lhs: f64ad,
    rhs: Option<f64ad>,
    node_type_class: NodeTypeClass,
    computation_graph: &mut ComputationGraph,
    kernel: &K,
) -> (r: Result<f64ad, AdError>)
    requires
        pure_kernel(kernel),
        old(computation_graph).wf(),
        lhs.in_range(old(computation_graph).tape()),
        match rhs {
            Some(rhs) => node_type_class.spec_is_binary() && rhs.in_range(
                old(computation_graph).tape(),
            ),
            None => node_type_class.spec_is_unary(),
        },
    ensures
        final(computation_graph).wf(),
        final(computation_graph).spec_name() == old(computation_graph).spec_name(),
        (r, final(computation_graph).tape()) == (match rhs {
            Some(rhs) => spec_record_2(
                kernel,
                old(computation_graph).tape(),
                node_type_class,
                lhs,
                rhs,
            ),
            None => spec_record_1(kernel, old(computation_graph).tape(), node_type_class, lhs),
        }),
{
    match rhs {
        None => f64ad_universal_function_1_operand(lhs, node_type_class, computation_graph, kernel),
        Some(rhs) => f64ad_universal_function_2_operands(
            lhs,
            rhs,
            node_type_class,
            computation_graph,
            kernel,
        ),
    }
}

} // verus!
