use crate::expr::{lemma_extended_trans, Operands};
use crate::graph::ComputationGraph;
use crate::kernel::{pure_kernel, NodeTypeClass};
use crate::node_type::NodeType;
use crate::operands::{ConstantList, ParentList};
use crate::record::Tape;
use crate::scalar::{f64ad, f64ad_var};
use vstd::prelude::*;

verus! {

/// Whether a node with this tag, these parents and this plain operand has
/// local derivatives on `tape`: the tag is that of an operation, the counts are
/// those of the tag and every parent is a node of the tape. A leaf has none.
pub open spec fn differentiable(
    tape: Tape,
    node_type: NodeType,
    parent_nodes: Seq<usize>,
    constant_operands: Seq<u64>,
) -> bool {
    &&& node_type.spec_is_operation()
    &&& parent_nodes.len() == node_type.spec_parent_count()
    &&& constant_operands.len() == (if node_type.spec_has_constant() {
        1nat
    } else {
        0nat
    })
    &&& forall|j: int| 0 <= j < parent_nodes.len() ==> parent_nodes[j] < tape.nodes.len()
}

/// The scalar that a derivative rule reads for the parent `parent`: its value
/// when derivatives are plain numbers, its handle when they are recorded.
pub open spec fn spec_parent_operand(tape: Tape, parent: usize, record: bool) -> f64ad {
    if record {
        f64ad::Var(f64ad_var { computation_graph_id: tape.id, node_idx: parent, mode: tape.mode })
    } else {
        f64ad::Plain(tape.nodes[parent as int].value)
    }
}

/// The operands of a node as its derivative rules read them. What the node
/// lacks reads as the plain number `0`.
pub open spec fn spec_rule_operands(
    tape: Tape,
    parent_nodes: Seq<usize>,
    constant_operands: Seq<u64>,
    record: bool,
) -> Operands {
    Operands {
        parent_0: if parent_nodes.len() > 0 {
            spec_parent_operand(tape, parent_nodes[0], record)
        } else {
            f64ad::Plain(0)
        },
        parent_1: if parent_nodes.len() > 1 {
            spec_parent_operand(tape, parent_nodes[1], record)
        } else {
            f64ad::Plain(0)
        },
        constant: if constant_operands.len() > 0 {
            constant_operands[0]
        } else {
            0
        },
    }
}

/// The local derivatives of an operation node, one for each parent, and the
/// tape that computing them leaves: the rules of the tag, evaluated in turn on
/// the operands of the node.
pub open spec fn spec_derivatives<K: Fn(NodeTypeClass, u64, u64) -> u64>(
    kernel: &K,
    tape: Tape,
    node_type: NodeType,
    parent_nodes: Seq<usize>,
    constant_operands: Seq<u64>,
    record: bool,
) -> (Seq<f64ad>, Tape) {
    let rules = node_type.spec_derivative_rules();
    let operands = spec_rule_operands(tape, parent_nodes, constant_operands, record);
    let (first, tape_1) = rules[0].spec_eval(kernel, tape, operands);
    if rules.len() == 1 {
        (seq![first->Ok_0], tape_1)
    } else {
        let (second, tape_2) = rules[1].spec_eval(kernel, tape_1, operands);
        (seq![first->Ok_0, second->Ok_0], tape_2)
    }
}

impl NodeType {
    /// The local derivatives of a node with this tag: the partial derivative of
    /// its value with respect to each parent. With `add_to_computation_graph`
    /// they are recorded as expressions over the parents, so that they can be
    /// differentiated in turn; without it they are plain numbers and the graph
    /// stays as it is.
    pub fn compute_derivatives_of_value_wrt_parent_values<K: Fn(NodeTypeClass, u64, u64) -> u64>(
        &self,
        parent_nodes: &ParentList,
        constant_operands: &ConstantList,
        computation_graph: &mut ComputationGraph,
        add_to_computation_graph: bool,
        kernel: &K,
    ) -> (r: Vec<f64ad>)
        requires
            pure_kernel(kernel),
            old(computation_graph).wf(),
            differentiable(
                old(computation_graph).tape(),
                *self,
                parent_nodes@,
                constant_operands@,
            ),
        ensures
            final(computation_graph).wf(),
            final(computation_graph).spec_name() == old(computation_graph).spec_name(),
            (r@, final(computation_graph).tape()) == spec_derivatives(
                kernel,
                old(computation_graph).tape(),
                *self,
                parent_nodes@,
                constant_operands@,
                add_to_computation_graph,
            ),
            r@.len() == self.spec_parent_count(),
            old(computation_graph).tape().extended_by(final(computation_graph).tape()),
            forall|i: int|
                0 <= i < r@.len() ==> (#[trigger] r@[i]).sound_on(final(computation_graph).tape()),
            !add_to_computation_graph ==> final(computation_graph).tape() == old(
                computation_graph,
            ).tape(),
            !add_to_computation_graph ==> forall|i: int|
                0 <= i < r@.len() ==> (#[trigger] r@[i]) is Plain,
    {
        let ghost tape = computation_graph.tape();
        let id = computation_graph.id();
        let mode = computation_graph.mode();
        let mut parent_0 = f64ad::Plain(0);
        let mut parent_1 = f64ad::Plain(0);
        if parent_nodes.len() > 0 {
            let p = parent_nodes.get(0);
            parent_0 =
            if add_to_computation_graph {
                f64ad::Var(f64ad_var::new(id, p, mode))
            } else {
                f64ad::Plain(computation_graph.node(p).value())
            };
        }
        if parent_nodes.len() > 1 {
            let p = parent_nodes.get(1);
            parent_1 =
            if add_to_computation_graph {
                f64ad::Var(f64ad_var::new(id, p, mode))
            } else {
                f64ad::Plain(computation_graph.node(p).value())
            };
        }
        let constant = if constant_operands.len() > 0 {
            constant_operands.get(0)
        } else {
            0
        };
        let operands = Operands { parent_0, parent_1, constant };
        assert(operands == spec_rule_operands(
            tape,
            parent_nodes@,
            constant_operands@,
            add_to_computation_graph,
        ));
        let rules = self.derivative_rules();
        let mut r: Vec<f64ad> = Vec::new();
        proof {
            assert(tape.nodes.take(tape.nodes.len() as int) =~= tape.nodes);
        }
        let first = rules[0].eval(&operands, computation_graph, kernel);
        let ghost tape_1 = computation_graph.tape();
        proof {
            computation_graph.num_nodes_bound();
            rules@[0].lemma_eval(kernel, tape, operands);
            rules@[0].lemma_eval_extends(kernel, tape, operands);
            if !add_to_computation_graph {
                rules@[0].lemma_eval_plain(kernel, tape, operands);
            }
        }
        r.push(first.unwrap());
        if rules.len() > 1 {
            let second = rules[1].eval(&operands, computation_graph, kernel);
            proof {
                computation_graph.num_nodes_bound();
                rules@[1].lemma_eval(kernel, tape_1, operands);
                rules@[1].lemma_eval_extends(kernel, tape_1, operands);
                lemma_extended_trans(tape, tape_1, computation_graph.tape());
                if !add_to_computation_graph {
                    rules@[1].lemma_eval_plain(kernel, tape_1, operands);
                }
            }
            r.push(second.unwrap());
        }
        assert(r@ =~= spec_derivatives(
            kernel,
            tape,
            *self,
            parent_nodes@,
            constant_operands@,
            add_to_computation_graph,
        ).0);
        r
    }
}

} // verus!
